//! Source values, typed cells, and the coercion from one to the other.

use vstd::prelude::*;
use vstd::string::*;
use crate::numeric::{is_decimal_literal, lenient_decimal, saturate_i64, truncated_value, Decimal};
use crate::timestamp::{parse_timestamp, timestamp_of, Timestamp};

verus! {

/// The type the host declares for an output column.
///
/// Coercion is defined for the first six; a column of any other type is
/// refused.
#[derive(Clone, Copy, Debug, PartialEq, Eq)]
pub enum DeclaredType {
    Bool,
    I64,
    String,
    Numeric,
    Timestamp,
    Json,
    I16,
    I32,
    Double,
    Date,
    Uuid,
}

/// How source values become cells.
#[derive(Clone, Copy, Debug, PartialEq, Eq)]
pub enum CoercionMode {
    /// Each value is coerced to the declared type of its column.
    Typed,
    /// Each value becomes the string of its literal, whatever the column
    /// declares.
    Untyped,
}

/// A raw value of the source table.
#[derive(Clone, Debug, PartialEq, Eq)]
pub enum SourceValue {
    Null,
    Bool(bool),
    /// A number, as its printed literal.
    Number(String),
    /// A string, as its characters.
    Text(String),
    /// An object or an array, as its compact JSON text.
    Composite(String),
}

/// The mathematical content of a [`SourceValue`].
pub enum SourceModel {
    Null,
    Bool(bool),
    Number(Seq<char>),
    Text(Seq<char>),
    Composite(Seq<char>),
}

impl View for SourceValue {
    type V = SourceModel;

    open spec fn view(&self) -> SourceModel {
        match self {
            SourceValue::Null => SourceModel::Null,
            SourceValue::Bool(b) => SourceModel::Bool(*b),
            SourceValue::Number(s) => SourceModel::Number(s@),
            SourceValue::Text(s) => SourceModel::Text(s@),
            SourceValue::Composite(s) => SourceModel::Composite(s@),
        }
    }
}

/// One typed value of an output row.
#[derive(Clone, Debug, PartialEq, Eq)]
pub enum Cell {
    Null,
    Bool(bool),
    I64(i64),
    String(String),
    Numeric(Decimal),
    Timestamp(Timestamp),
    Json(String),
}

/// The mathematical content of a [`Cell`].
pub enum CellModel {
    Null,
    Bool(bool),
    I64(i64),
    String(Seq<char>),
    Numeric(Seq<char>),
    Timestamp(Timestamp),
    Json(Seq<char>),
}

impl View for Cell {
    type V = CellModel;

    open spec fn view(&self) -> CellModel {
        match self {
            Cell::Null => CellModel::Null,
            Cell::Bool(b) => CellModel::Bool(*b),
            Cell::I64(n) => CellModel::I64(*n),
            Cell::String(s) => CellModel::String(s@),
            Cell::Numeric(d) => CellModel::Numeric(d@),
            Cell::Timestamp(t) => CellModel::Timestamp(*t),
            Cell::Json(s) => CellModel::Json(s@),
        }
    }
}

impl Cell {
    /// The invariant of the type: a decimal is a decimal literal, a
    /// timestamp a moment that exists.
    pub open spec fn well_formed(&self) -> bool {
        match self {
            Cell::Numeric(d) => d.well_formed(),
            Cell::Timestamp(t) => t.well_formed(),
            _ => true,
        }
    }
}

/// Why a row could not be projected. Each error names the column at fault.
#[derive(Clone, Debug, PartialEq, Eq)]
pub enum ProjectionError {
    /// The row holds no value at the column's position.
    ColumnNotFound(String),
    /// The column declares a type for which no coercion is defined.
    UnsupportedType(String),
    /// The column declares a timestamp and the value is no timestamp literal.
    MalformedTimestamp(String),
}

/// The mathematical content of a [`ProjectionError`].
pub enum ProjectionFault {
    ColumnNotFound(Seq<char>),
    UnsupportedType(Seq<char>),
    MalformedTimestamp(Seq<char>),
}

impl View for ProjectionError {
    type V = ProjectionFault;

    open spec fn view(&self) -> ProjectionFault {
        match self {
            ProjectionError::ColumnNotFound(n) => ProjectionFault::ColumnNotFound(n@),
            ProjectionError::UnsupportedType(n) => ProjectionFault::UnsupportedType(n@),
            ProjectionError::MalformedTimestamp(n) => ProjectionFault::MalformedTimestamp(n@),
        }
    }
}

/// The text that reports a projection error.
pub open spec fn projection_message(fault: ProjectionFault) -> Seq<char> {
    match fault {
        ProjectionFault::ColumnNotFound(n) => "source column '"@ + n + "' not found"@,
        ProjectionFault::UnsupportedType(n) => "column '"@ + n + "' data type is not supported"@,
        ProjectionFault::MalformedTimestamp(n) => "column '"@ + n + "' holds a malformed timestamp"@,
    }
}

impl ProjectionError {
    /// The text that reports this error to a reader; it names the column.
    pub fn message(&self) -> (r: String)
        ensures
            r@ == projection_message(self@),
    {
        match self {
            ProjectionError::ColumnNotFound(n) => {
                let mut text = String::from_str("source column '");
                text.append(n.as_str());
                text.append("' not found");
                text
            },
            ProjectionError::UnsupportedType(n) => {
                let mut text = String::from_str("column '");
                text.append(n.as_str());
                text.append("' data type is not supported");
                text
            },
            ProjectionError::MalformedTimestamp(n) => {
                let mut text = String::from_str("column '");
                text.append(n.as_str());
                text.append("' holds a malformed timestamp");
                text
            },
        }
    }
}

/// The content of the outcome of a coercion.
pub open spec fn outcome_view(r: Result<Cell, ProjectionError>) -> Result<CellModel, ProjectionFault> {
    match r {
        Ok(c) => Ok(c@),
        Err(e) => Err(e@),
    }
}

/// The integer cell that a numeric literal gives: the literal truncated
/// toward zero and saturated to `i64`, or null where the text is no decimal
/// literal.
pub open spec fn integer_cell(s: Seq<char>) -> CellModel {
    if is_decimal_literal(s) {
        CellModel::I64(saturate_i64(truncated_value(s)))
    } else {
        CellModel::Null
    }
}

/// Typed coercion: the cell that a source value gives under a declared
/// type, or the error, which names the column.
///
/// A value of a kind that the declared type does not take gives a null
/// cell. An integer column takes a number or numeric text. A decimal
/// column takes text only: a JSON number there gives a null cell, as any
/// other value that is no string does. Text that is no decimal gives the
/// decimal zero; text that is no timestamp is an error.
pub open spec fn coerce_typed(v: SourceModel, t: DeclaredType, column: Seq<char>) -> Result<
    CellModel,
    ProjectionFault,
> {
    match t {
        DeclaredType::Bool => Ok(
            match v {
                SourceModel::Bool(b) => CellModel::Bool(b),
                _ => CellModel::Null,
            },
        ),
        DeclaredType::I64 => Ok(
            match v {
                SourceModel::Number(s) => integer_cell(s),
                SourceModel::Text(s) => integer_cell(s),
                _ => CellModel::Null,
            },
        ),
        DeclaredType::String => Ok(
            match v {
                SourceModel::Text(s) => CellModel::String(s),
                _ => CellModel::Null,
            },
        ),
        DeclaredType::Numeric => Ok(
            match v {
                SourceModel::Text(s) => CellModel::Numeric(lenient_decimal(s)),
                _ => CellModel::Null,
            },
        ),
        DeclaredType::Timestamp => match v {
            SourceModel::Text(s) => match timestamp_of(s) {
                Some(moment) => Ok(CellModel::Timestamp(moment)),
                None => Err(ProjectionFault::MalformedTimestamp(column)),
            },
            _ => Ok(CellModel::Null),
        },
        DeclaredType::Json => Ok(
            match v {
                SourceModel::Composite(s) => CellModel::Json(s),
                _ => CellModel::Null,
            },
        ),
        _ => Err(ProjectionFault::UnsupportedType(column)),
    }
}

/// The literal of a source value: `null`, `true` or `false`, the printed
/// number, the characters of a string, the JSON text of an object or array.
pub open spec fn literal_of(v: SourceModel) -> Seq<char> {
    match v {
        SourceModel::Null => "null"@,
        SourceModel::Bool(b) => if b {
            "true"@
        } else {
            "false"@
        },
        SourceModel::Number(s) => s,
        SourceModel::Text(s) => s,
        SourceModel::Composite(s) => s,
    }
}

/// The cell that a source value gives under a declared type in a coercion
/// mode.
pub open spec fn coerce_spec(v: SourceModel, t: DeclaredType, column: Seq<char>, mode: CoercionMode) -> Result<
    CellModel,
    ProjectionFault,
> {
    match mode {
        CoercionMode::Typed => coerce_typed(v, t, column),
        CoercionMode::Untyped => Ok(CellModel::String(literal_of(v))),
    }
}

/// The integer cell of a numeric literal.
fn integer_from_text(text: &str) -> (r: Cell)
    ensures
        r@ == integer_cell(text@),
        r.well_formed(),
{
    match Decimal::parse(text) {
        Some(d) => Cell::I64(d.truncate()),
        None => Cell::Null,
    }
}

/// The literal of a source value, as a string.
pub fn literal_text(value: &SourceValue) -> (r: String)
    ensures
        r@ == literal_of(value@),
{
    match value {
        SourceValue::Null => String::from_str("null"),
        SourceValue::Bool(b) => if *b {
            String::from_str("true")
        } else {
            String::from_str("false")
        },
        SourceValue::Number(s) => s.clone(),
        SourceValue::Text(s) => s.clone(),
        SourceValue::Composite(s) => s.clone(),
    }
}

/// Coerces one source value to the cell of a column.
///
/// `column` is the column's name; it goes into the error and decides
/// nothing else.
pub fn coerce(value: &SourceValue, declared_type: DeclaredType, column: &str, mode: CoercionMode) -> (r: Result<
    Cell,
    ProjectionError,
>)
    ensures
        outcome_view(r) == coerce_spec(value@, declared_type, column@, mode),
        r matches Ok(c) ==> c.well_formed(),
{
    match mode {
        CoercionMode::Untyped => Ok(Cell::String(literal_text(value))),
        CoercionMode::Typed => match declared_type {
            DeclaredType::Bool => Ok(
                match value {
                    SourceValue::Bool(b) => Cell::Bool(*b),
                    _ => Cell::Null,
                },
            ),
            DeclaredType::I64 => Ok(
                match value {
                    SourceValue::Number(s) => integer_from_text(s.as_str()),
                    SourceValue::Text(s) => integer_from_text(s.as_str()),
                    _ => Cell::Null,
                },
            ),
            DeclaredType::String => Ok(
                match value {
                    SourceValue::Text(s) => Cell::String(s.clone()),
                    _ => Cell::Null,
                },
            ),
            DeclaredType::Numeric => Ok(
                match value {
                    SourceValue::Text(s) => Cell::Numeric(Decimal::parse_or_zero(s.as_str())),
                    _ => Cell::Null,
                },
            ),
            DeclaredType::Timestamp => match value {
                SourceValue::Text(s) => match parse_timestamp(s.as_str()) {
                    Some(moment) => Ok(Cell::Timestamp(moment)),
                    None => Err(ProjectionError::MalformedTimestamp(String::from_str(column))),
                },
                _ => Ok(Cell::Null),
            },
            DeclaredType::Json => Ok(
                match value {
                    SourceValue::Composite(s) => Cell::Json(s.clone()),
                    _ => Cell::Null,
                },
            ),
            _ => Err(ProjectionError::UnsupportedType(String::from_str(column))),
        },
    }
}

/// Whether two errors are of the same kind, whatever column each names.
pub open spec fn same_kind(a: ProjectionFault, b: ProjectionFault) -> bool {
    match a {
        ProjectionFault::ColumnNotFound(_) => b is ColumnNotFound,
        ProjectionFault::UnsupportedType(_) => b is UnsupportedType,
        ProjectionFault::MalformedTimestamp(_) => b is MalformedTimestamp,
    }
}

/// Whether two outcomes are the same cell or the same kind of error.
pub open spec fn same_outcome(a: Result<CellModel, ProjectionFault>, b: Result<CellModel, ProjectionFault>) -> bool {
    match a {
        Ok(x) => b == Ok::<CellModel, ProjectionFault>(x),
        Err(e) => b is Err && same_kind(e, b->Err_0),
    }
}

/// Coercion is a function of the source value and the declared type: in a
/// given coercion mode, equal values under equal types give the same cell
/// or the same kind of error. The column's name decides neither; it only
/// goes into the error, so with equal names the outcomes are equal.
pub proof fn law_coercion_is_a_function(
    v: SourceModel,
    t: DeclaredType,
    mode: CoercionMode,
    first: Seq<char>,
    second: Seq<char>,
)
    ensures
        same_outcome(coerce_spec(v, t, first, mode), coerce_spec(v, t, second, mode)),
{
}

} // verus!
