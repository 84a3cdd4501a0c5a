use sheet_scan::cell::{coerce, literal_text, Cell, CoercionMode, DeclaredType, ProjectionError, SourceValue};
use sheet_scan::numeric::Decimal;
use sheet_scan::timestamp::{parse_timestamp, Timestamp};

fn text(s: &str) -> SourceValue {
    SourceValue::Text(s.to_string())
}

fn number(s: &str) -> SourceValue {
    SourceValue::Number(s.to_string())
}

fn typed(value: &SourceValue, declared: DeclaredType) -> Result<Cell, ProjectionError> {
    coerce(value, declared, "col", CoercionMode::Typed)
}

#[test]
fn bool_takes_boolean_literals_only() {
    assert_eq!(typed(&SourceValue::Bool(true), DeclaredType::Bool), Ok(Cell::Bool(true)));
    assert_eq!(typed(&SourceValue::Bool(false), DeclaredType::Bool), Ok(Cell::Bool(false)));
    assert_eq!(typed(&text("true"), DeclaredType::Bool), Ok(Cell::Null));
    assert_eq!(typed(&number("1"), DeclaredType::Bool), Ok(Cell::Null));
    assert_eq!(typed(&SourceValue::Null, DeclaredType::Bool), Ok(Cell::Null));
}

#[test]
fn integer_truncates_toward_zero() {
    assert_eq!(typed(&number("3.99"), DeclaredType::I64), Ok(Cell::I64(3)));
    assert_eq!(typed(&number("-3.99"), DeclaredType::I64), Ok(Cell::I64(-3)));
    assert_eq!(typed(&number("-0.5"), DeclaredType::I64), Ok(Cell::I64(0)));
    assert_eq!(typed(&number("42"), DeclaredType::I64), Ok(Cell::I64(42)));
    assert_eq!(typed(&text("+17.0"), DeclaredType::I64), Ok(Cell::I64(17)));
    assert_eq!(typed(&text("007"), DeclaredType::I64), Ok(Cell::I64(7)));
}

#[test]
fn integer_scales_by_the_exponent() {
    assert_eq!(typed(&number("1e5"), DeclaredType::I64), Ok(Cell::I64(100000)));
    assert_eq!(typed(&number("1E+2"), DeclaredType::I64), Ok(Cell::I64(100)));
    assert_eq!(typed(&number("1.5e3"), DeclaredType::I64), Ok(Cell::I64(1500)));
    assert_eq!(typed(&number("1.2345e2"), DeclaredType::I64), Ok(Cell::I64(123)));
    assert_eq!(typed(&number("-1.2345e2"), DeclaredType::I64), Ok(Cell::I64(-123)));
    assert_eq!(typed(&number("1.2345e4"), DeclaredType::I64), Ok(Cell::I64(12345)));
    assert_eq!(typed(&number("1.2345e0"), DeclaredType::I64), Ok(Cell::I64(1)));
    assert_eq!(typed(&number("12345e-2"), DeclaredType::I64), Ok(Cell::I64(123)));
    assert_eq!(typed(&number("12345.678e-2"), DeclaredType::I64), Ok(Cell::I64(123)));
    assert_eq!(typed(&number("12345e-5"), DeclaredType::I64), Ok(Cell::I64(0)));
    assert_eq!(typed(&number("12345e-6"), DeclaredType::I64), Ok(Cell::I64(0)));
    assert_eq!(typed(&number("-1.5e-7"), DeclaredType::I64), Ok(Cell::I64(0)));
    assert_eq!(typed(&number("1e16"), DeclaredType::I64), Ok(Cell::I64(10_000_000_000_000_000)));
    assert_eq!(typed(&number("9.223372036854775807e18"), DeclaredType::I64), Ok(Cell::I64(i64::MAX)));
    assert_eq!(typed(&number("9.223372036854775806e18"), DeclaredType::I64), Ok(Cell::I64(i64::MAX - 1)));
    assert_eq!(typed(&number("-9.223372036854775808e18"), DeclaredType::I64), Ok(Cell::I64(i64::MIN)));
    assert_eq!(typed(&number("1e19"), DeclaredType::I64), Ok(Cell::I64(i64::MAX)));
    assert_eq!(typed(&number("-1e19"), DeclaredType::I64), Ok(Cell::I64(i64::MIN)));
    assert_eq!(typed(&number("0.0000001e26"), DeclaredType::I64), Ok(Cell::I64(i64::MAX)));
    assert_eq!(typed(&number("0.0000001e25"), DeclaredType::I64), Ok(Cell::I64(1_000_000_000_000_000_000)));
}

#[test]
fn integer_with_an_exponent_beyond_any_count() {
    let huge = "9".repeat(60);
    assert_eq!(typed(&number(&format!("1e{}", huge)), DeclaredType::I64), Ok(Cell::I64(i64::MAX)));
    assert_eq!(typed(&number(&format!("-3e{}", huge)), DeclaredType::I64), Ok(Cell::I64(i64::MIN)));
    assert_eq!(typed(&number(&format!("0e{}", huge)), DeclaredType::I64), Ok(Cell::I64(0)));
    assert_eq!(typed(&number(&format!("0.000e{}", huge)), DeclaredType::I64), Ok(Cell::I64(0)));
    assert_eq!(typed(&number(&format!("123e-{}", huge)), DeclaredType::I64), Ok(Cell::I64(0)));
    assert_eq!(typed(&number(&format!("{}e-{}", huge, huge)), DeclaredType::I64), Ok(Cell::I64(0)));
    assert_eq!(typed(&number(&format!("{}e-58", huge)), DeclaredType::I64), Ok(Cell::I64(99)));
    assert_eq!(typed(&number(&format!("{}.5e-41", huge)), DeclaredType::I64), Ok(Cell::I64(i64::MAX)));
    assert_eq!(typed(&number(&format!("{}.5e-42", huge)), DeclaredType::I64), Ok(Cell::I64(999_999_999_999_999_999)));
}

#[test]
fn integer_from_numeric_strings() {
    assert_eq!(typed(&text("120000"), DeclaredType::I64), Ok(Cell::I64(120000)));
    assert_eq!(typed(&text("3"), DeclaredType::I64), Ok(Cell::I64(3)));
}

#[test]
fn integer_saturates_at_the_ends_of_i64() {
    assert_eq!(typed(&number("9223372036854775807"), DeclaredType::I64), Ok(Cell::I64(i64::MAX)));
    assert_eq!(typed(&number("9223372036854775808"), DeclaredType::I64), Ok(Cell::I64(i64::MAX)));
    assert_eq!(typed(&number("99999999999999999999999999999999999999999999"), DeclaredType::I64), Ok(Cell::I64(i64::MAX)));
    assert_eq!(typed(&number("-9223372036854775808"), DeclaredType::I64), Ok(Cell::I64(i64::MIN)));
    assert_eq!(typed(&number("-9223372036854775809.5"), DeclaredType::I64), Ok(Cell::I64(i64::MIN)));
    assert_eq!(typed(&number("-9223372036854775807"), DeclaredType::I64), Ok(Cell::I64(-9223372036854775807)));
}

#[test]
fn integer_of_what_is_no_number_is_null() {
    assert_eq!(typed(&text("abc"), DeclaredType::I64), Ok(Cell::Null));
    assert_eq!(typed(&text(""), DeclaredType::I64), Ok(Cell::Null));
    assert_eq!(typed(&text("-"), DeclaredType::I64), Ok(Cell::Null));
    assert_eq!(typed(&text("1."), DeclaredType::I64), Ok(Cell::Null));
    assert_eq!(typed(&text(".5"), DeclaredType::I64), Ok(Cell::Null));
    assert_eq!(typed(&text("1.2.3"), DeclaredType::I64), Ok(Cell::Null));
    assert_eq!(typed(&text("12 "), DeclaredType::I64), Ok(Cell::Null));
    assert_eq!(typed(&SourceValue::Bool(true), DeclaredType::I64), Ok(Cell::Null));
    assert_eq!(typed(&SourceValue::Null, DeclaredType::I64), Ok(Cell::Null));
}

#[test]
fn string_is_used_verbatim() {
    assert_eq!(typed(&text("  héllo \n"), DeclaredType::String), Ok(Cell::String("  héllo \n".to_string())));
    assert_eq!(typed(&text(""), DeclaredType::String), Ok(Cell::String(String::new())));
    assert_eq!(typed(&number("5"), DeclaredType::String), Ok(Cell::Null));
}

#[test]
fn numeric_parses_decimal_text() {
    let cell = typed(&text("-12.50"), DeclaredType::Numeric).unwrap();
    assert_eq!(cell, Cell::Numeric(Decimal::parse("-12.50").unwrap()));
    match cell {
        Cell::Numeric(d) => {
            assert_eq!(d.as_str(), "-12.50");
            assert_eq!(d.truncate(), -12);
        }
        other => panic!("expected a numeric cell, got {:?}", other),
    }
}

#[test]
fn numeric_unparsable_text_is_zero() {
    let cell = typed(&text("N/A"), DeclaredType::Numeric);
    assert_eq!(cell, Ok(Cell::Numeric(Decimal::zero())));
    match cell {
        Ok(Cell::Numeric(d)) => {
            assert_eq!(d.as_str(), "0");
            assert_eq!(d.truncate(), 0);
        }
        other => panic!("expected a numeric zero, got {:?}", other),
    }
    assert_eq!(typed(&text(""), DeclaredType::Numeric), Ok(Cell::Numeric(Decimal::zero())));
}

#[test]
fn numeric_of_what_is_no_string_is_null() {
    assert_eq!(typed(&SourceValue::Null, DeclaredType::Numeric), Ok(Cell::Null));
    assert_eq!(typed(&SourceValue::Bool(true), DeclaredType::Numeric), Ok(Cell::Null));
    assert_eq!(typed(&number("1.5"), DeclaredType::Numeric), Ok(Cell::Null));
}

#[test]
fn decimal_parse_follows_the_grammar() {
    assert!(Decimal::parse("0").is_some());
    assert!(Decimal::parse("+1").is_some());
    assert!(Decimal::parse("-1.25").is_some());
    assert!(Decimal::parse("123456789012345678901234567890.000000000000000001").is_some());
    assert!(Decimal::parse("").is_none());
    assert!(Decimal::parse("+").is_none());
    assert!(Decimal::parse("1.").is_none());
    assert!(Decimal::parse(".1").is_none());
    assert!(Decimal::parse("1e5").is_some());
    assert!(Decimal::parse("-1.25E-3").is_some());
    assert!(Decimal::parse("1e+0").is_some());
    assert!(Decimal::parse("1e").is_none());
    assert!(Decimal::parse("1e+").is_none());
    assert!(Decimal::parse("1e-").is_none());
    assert!(Decimal::parse("e5").is_none());
    assert!(Decimal::parse("1.e5").is_none());
    assert!(Decimal::parse("1e5.0").is_none());
    assert!(Decimal::parse("1e 5").is_none());
    assert!(Decimal::parse("1e5e5").is_none());
    assert!(Decimal::parse("1x5").is_none());
    assert!(Decimal::parse("1,5").is_none());
    assert!(Decimal::parse("--1").is_none());
    assert!(Decimal::parse("١٢").is_none());
    assert_eq!(Decimal::parse_or_zero("7.5").as_str(), "7.5");
    assert_eq!(Decimal::parse_or_zero("seven").as_str(), "0");
}

#[test]
fn timestamp_parses_calendar_literals() {
    let expected = Timestamp { year: 2024, month: 2, day: 29, hour: 12, minute: 34, second: 56, microsecond: 0 };
    assert_eq!(typed(&text("2024-02-29T12:34:56"), DeclaredType::Timestamp), Ok(Cell::Timestamp(expected)));
    assert_eq!(typed(&text("2024-02-29 12:34:56Z"), DeclaredType::Timestamp), Ok(Cell::Timestamp(expected)));
}

#[test]
fn timestamp_fraction_is_padded_to_microseconds() {
    assert_eq!(parse_timestamp("2001-12-31T23:59:59.5").unwrap().microsecond, 500_000);
    assert_eq!(parse_timestamp("2001-12-31T23:59:59.05Z").unwrap().microsecond, 50_000);
    assert_eq!(parse_timestamp("2001-12-31T23:59:59.123456Z").unwrap().microsecond, 123_456);
    assert_eq!(parse_timestamp("2001-12-31T23:59:59.000001").unwrap().microsecond, 1);
    assert_eq!(
        parse_timestamp("0001-01-01T00:00:00.999999"),
        Some(Timestamp { year: 1, month: 1, day: 1, hour: 0, minute: 0, second: 0, microsecond: 999_999 })
    );
}

#[test]
fn timestamp_malformed_is_an_error() {
    assert_eq!(
        coerce(&text("not-a-date"), DeclaredType::Timestamp, "created", CoercionMode::Typed),
        Err(ProjectionError::MalformedTimestamp("created".to_string()))
    );
}

#[test]
fn timestamp_rejects_moments_that_do_not_exist() {
    assert_eq!(parse_timestamp("2023-02-29T00:00:00"), None);
    assert_eq!(parse_timestamp("1900-02-29T00:00:00"), None);
    assert!(parse_timestamp("2000-02-29T00:00:00").is_some());
    assert_eq!(parse_timestamp("2024-04-31T00:00:00"), None);
    assert_eq!(parse_timestamp("2024-13-01T00:00:00"), None);
    assert_eq!(parse_timestamp("2024-00-10T00:00:00"), None);
    assert_eq!(parse_timestamp("2024-01-00T00:00:00"), None);
    assert_eq!(parse_timestamp("2024-01-01T24:00:00"), None);
    assert_eq!(parse_timestamp("2024-01-01T00:60:00"), None);
    assert_eq!(parse_timestamp("2024-01-01T00:00:60"), None);
}

#[test]
fn timestamp_rejects_other_layouts() {
    assert_eq!(parse_timestamp(""), None);
    assert_eq!(parse_timestamp("2024-01-01"), None);
    assert_eq!(parse_timestamp("2024-01-01T00:00"), None);
    assert_eq!(parse_timestamp("2024/01/01T00:00:00"), None);
    assert_eq!(parse_timestamp("2024-01-01x00:00:00"), None);
    assert_eq!(parse_timestamp("2024-01-01T00:00:00."), None);
    assert_eq!(parse_timestamp("2024-01-01T00:00:00.1234567"), None);
    assert_eq!(parse_timestamp("2024-01-01T00:00:00ZZ"), None);
    assert_eq!(parse_timestamp("2024-01-01T00:00:00+01:00"), None);
    assert_eq!(parse_timestamp("2O24-01-01T00:00:00"), None);
}

#[test]
fn timestamp_of_what_is_no_string_is_null() {
    assert_eq!(typed(&number("1700000000"), DeclaredType::Timestamp), Ok(Cell::Null));
    assert_eq!(typed(&SourceValue::Null, DeclaredType::Timestamp), Ok(Cell::Null));
}

#[test]
fn json_keeps_composite_text() {
    let composite = SourceValue::Composite("{\"a\":[1,2]}".to_string());
    assert_eq!(typed(&composite, DeclaredType::Json), Ok(Cell::Json("{\"a\":[1,2]}".to_string())));
    assert_eq!(typed(&text("{}"), DeclaredType::Json), Ok(Cell::Null));
}

#[test]
fn other_declared_types_are_unsupported() {
    for declared in [DeclaredType::I16, DeclaredType::I32, DeclaredType::Double, DeclaredType::Date, DeclaredType::Uuid] {
        assert_eq!(
            coerce(&text("1"), declared, "amount", CoercionMode::Typed),
            Err(ProjectionError::UnsupportedType("amount".to_string()))
        );
    }
}

#[test]
fn untyped_coercion_gives_the_literal_as_a_string() {
    let untyped = |v: &SourceValue, t: DeclaredType| coerce(v, t, "col", CoercionMode::Untyped);
    assert_eq!(untyped(&text("abc"), DeclaredType::I64), Ok(Cell::String("abc".to_string())));
    assert_eq!(untyped(&number("1.5"), DeclaredType::Bool), Ok(Cell::String("1.5".to_string())));
    assert_eq!(untyped(&SourceValue::Bool(true), DeclaredType::Timestamp), Ok(Cell::String("true".to_string())));
    assert_eq!(untyped(&SourceValue::Bool(false), DeclaredType::Uuid), Ok(Cell::String("false".to_string())));
    assert_eq!(untyped(&SourceValue::Null, DeclaredType::String), Ok(Cell::String("null".to_string())));
    assert_eq!(
        untyped(&SourceValue::Composite("[1]".to_string()), DeclaredType::Date),
        Ok(Cell::String("[1]".to_string()))
    );
    assert_eq!(untyped(&text("not-a-date"), DeclaredType::Timestamp), Ok(Cell::String("not-a-date".to_string())));
    assert_eq!(literal_text(&SourceValue::Null), "null");
}

#[test]
fn coercion_is_deterministic() {
    let values = [SourceValue::Null, SourceValue::Bool(true), number("12.7"), text("N/A"), text("2024-01-01T00:00:00")];
    let types = [
        DeclaredType::Bool,
        DeclaredType::I64,
        DeclaredType::String,
        DeclaredType::Numeric,
        DeclaredType::Timestamp,
        DeclaredType::Json,
        DeclaredType::Date,
    ];
    for v in values.iter() {
        for t in types.iter() {
            for mode in [CoercionMode::Typed, CoercionMode::Untyped] {
                assert_eq!(coerce(v, *t, "c", mode), coerce(&v.clone(), *t, "c", mode));
            }
        }
    }
}
