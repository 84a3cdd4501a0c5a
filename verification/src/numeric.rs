//! Decimal literals: their grammar, and the integer a literal truncates to.
//!
//! A literal is an optional sign, one or more digits, optionally a point
//! with one or more digits, and optionally an exponent: `e` or `E`, an
//! optional sign, and one or more digits.

use vstd::prelude::*;
use vstd::string::*;
use vstd::arithmetic::div_mod::{lemma_basic_div, lemma_div_denominator};
use crate::text::{all_digits, chars_of, digit_of, digit_run_end, digits_value, is_digit, lemma_digit_run, lemma_pow10_monotone, pow10, scan_digits};

verus! {

/// The number of characters the sign takes at the front of `s`: one for a
/// leading `+` or `-`, else none.
pub open spec fn sign_len(s: Seq<char>) -> int {
    if s.len() > 0 && (s[0] == '-' || s[0] == '+') {
        1
    } else {
        0
    }
}

/// Whether `s` is written with a leading minus sign.
pub open spec fn is_negative(s: Seq<char>) -> bool {
    s.len() > 0 && s[0] == '-'
}

/// Where the integer digits of `s` end.
pub open spec fn integer_end(s: Seq<char>) -> int {
    digit_run_end(s, sign_len(s))
}

/// Where the mantissa of `s` ends: past the fraction digits when a point
/// follows the integer digits, else at the end of the integer digits.
pub open spec fn mantissa_end(s: Seq<char>) -> int {
    let p = integer_end(s);
    if 0 <= p < s.len() && s[p] == '.' {
        digit_run_end(s, p + 1)
    } else {
        p
    }
}

/// The number of fraction digits of `s`.
pub open spec fn fraction_len(s: Seq<char>) -> nat {
    if mantissa_end(s) > integer_end(s) {
        (mantissa_end(s) - integer_end(s) - 1) as nat
    } else {
        0
    }
}

/// Whether an exponent mark follows the mantissa of `s`.
pub open spec fn has_exponent(s: Seq<char>) -> bool {
    let q = mantissa_end(s);
    0 <= q < s.len() && (s[q] == 'e' || s[q] == 'E')
}

/// Whether the exponent of `s` is written with a minus sign.
pub open spec fn exponent_is_negative(s: Seq<char>) -> bool {
    let q = mantissa_end(s);
    0 <= q && q + 1 < s.len() && s[q + 1] == '-'
}

/// Where the digits of the exponent of `s` start: after the mark and its
/// sign.
pub open spec fn exponent_start(s: Seq<char>) -> int {
    let q = mantissa_end(s);
    if 0 <= q && q + 1 < s.len() && (s[q + 1] == '-' || s[q + 1] == '+') {
        q + 2
    } else {
        q + 1
    }
}

/// The magnitude of the exponent that `s` writes; zero where it writes
/// none.
pub open spec fn exponent_magnitude(s: Seq<char>) -> nat {
    if has_exponent(s) {
        digits_value(s.subrange(exponent_start(s), s.len() as int))
    } else {
        0
    }
}

/// The exponent that `s` writes; zero where it writes none.
pub open spec fn exponent_value(s: Seq<char>) -> int {
    if exponent_is_negative(s) {
        -(exponent_magnitude(s) as int)
    } else {
        exponent_magnitude(s) as int
    }
}

/// The grammar of a decimal literal: an optional sign, one or more digits,
/// optionally a point followed by one or more digits, and optionally an
/// exponent of one or more digits with an optional sign. Nothing else may
/// follow.
pub open spec fn is_decimal_literal(s: Seq<char>) -> bool {
    let p = integer_end(s);
    let q = mantissa_end(s);
    &&& p > sign_len(s)
    &&& (p < s.len() && s[p] == '.' ==> q > p + 1)
    &&& (q == s.len() || (has_exponent(s) && exponent_start(s) < s.len() && digit_run_end(s, exponent_start(s))
        == s.len()))
}

/// The digits of the mantissa of `s`: the integer digits followed by the
/// fraction digits.
pub open spec fn mantissa_digits(s: Seq<char>) -> Seq<char> {
    let p = integer_end(s);
    let q = mantissa_end(s);
    if q > p {
        s.subrange(sign_len(s), p) + s.subrange(p + 1, q)
    } else {
        s.subrange(sign_len(s), p)
    }
}

/// `d` times ten to the power `shift`, rounded down to a whole number.
pub open spec fn scaled(d: nat, shift: int) -> nat {
    if shift >= 0 {
        d * pow10(shift as nat)
    } else {
        (d / pow10((-shift) as nat)) as nat
    }
}

/// The magnitude of a decimal literal, rounded down to a whole number: its
/// mantissa digits, scaled by the exponent less the number of fraction
/// digits.
pub open spec fn integer_magnitude(s: Seq<char>) -> nat {
    scaled(digits_value(mantissa_digits(s)), exponent_value(s) - fraction_len(s))
}

/// The integer a decimal literal truncates to, rounding toward zero.
pub open spec fn truncated_value(s: Seq<char>) -> int {
    if is_negative(s) {
        -(integer_magnitude(s) as int)
    } else {
        integer_magnitude(s) as int
    }
}

/// `v` brought into the range of `i64`: values beyond either end become
/// that end.
pub open spec fn saturate_i64(v: int) -> i64 {
    if v < i64::MIN {
        i64::MIN
    } else if v > i64::MAX {
        i64::MAX
    } else {
        v as i64
    }
}

/// The literal of the zero that stands in for text that is no decimal.
pub open spec fn zero_literal() -> Seq<char> {
    seq!['0']
}

/// The decimal that a text denotes: the text itself when it is a decimal
/// literal, the zero literal otherwise.
pub open spec fn lenient_decimal(s: Seq<char>) -> Seq<char> {
    if is_decimal_literal(s) {
        s
    } else {
        zero_literal()
    }
}

/// The smaller of two natural numbers.
pub open spec fn least(a: nat, b: nat) -> nat {
    if a <= b {
        a
    } else {
        b
    }
}

/// One past the largest magnitude that the positive range of `i64` holds.
pub const MAGNITUDE_CAP: u128 = 9223372036854775808u128;

/// The bound at which the magnitude of an exponent stops being counted;
/// it exceeds the length of any text.
pub const EXPONENT_CAP: u128 = 1000000000000000000000000000000u128;

/// The zero literal is a decimal literal, and it truncates to zero.
pub proof fn lemma_zero_literal()
    ensures
        is_decimal_literal(zero_literal()),
        truncated_value(zero_literal()) == 0,
{
    let z = zero_literal();
    reveal_with_fuel(digit_run_end, 3);
    assert(digit_run_end(z, 0) == 1);
    assert(z.subrange(0, 1) =~= z);
    assert(z.drop_last().len() == 0);
    reveal_with_fuel(digits_value, 3);
    assert(digits_value(z) == 0);
    assert(pow10(0) == 1);
}

/// A number of `n` digits is below ten to the power `n`.
pub proof fn lemma_digits_bound(s: Seq<char>)
    requires
        all_digits(s, 0, s.len() as int),
    ensures
        digits_value(s) < pow10(s.len()),
    decreases s.len(),
{
    if s.len() > 0 {
        assert(is_digit(s[s.len() - 1]));
        lemma_digits_bound(s.drop_last());
    }
}

/// Dividing by ten to the power `m` drops the last `m` digits.
pub proof fn lemma_drop_low_digits(s: Seq<char>, m: nat)
    requires
        all_digits(s, 0, s.len() as int),
        m <= s.len(),
    ensures
        digits_value(s) as int / pow10(m) as int == digits_value(s.take(s.len() - m)) as int,
    decreases m,
{
    if m == 0 {
        assert(s.take(s.len() as int) =~= s);
        assert(pow10(0) == 1);
    } else {
        let t = s.drop_last();
        let x = digits_value(s) as int;
        let c = pow10((m - 1) as nat) as int;
        assert(is_digit(s[s.len() - 1]));
        assert(x / 10 == digits_value(t) as int);
        lemma_drop_low_digits(t, (m - 1) as nat);
        lemma_pow10_monotone((m - 1) as nat, (m - 1) as nat);
        lemma_div_denominator(x, 10, c);
        assert(t.take(t.len() - (m - 1)) =~= s.take(s.len() - m));
    }
}

/// Ten to the power nineteen exceeds every magnitude of `i64`.
pub proof fn lemma_pow10_nineteen()
    ensures
        pow10(19) >= MAGNITUDE_CAP,
{
    reveal_with_fuel(pow10, 10);
    assert(pow10(9) == 1_000_000_000);
    assert(pow10(19) == 10_000_000_000 * pow10(9));
}

/// Scaling after keeping `keep` digits and appending `zeros` zeros gives,
/// up to the cap, the scaled value of all the digits, when `keep` and
/// `zeros` follow the shift: a shift to the left keeps every digit and
/// appends zeros (nineteen or more stand for any larger count), a shift to
/// the right drops as many digits as it is long.
pub proof fn lemma_scaled_by_digits(digits: Seq<char>, shift: int, keep: nat, zeros: nat)
    requires
        all_digits(digits, 0, digits.len() as int),
        shift >= 0 ==> keep == digits.len() && (zeros == shift || (zeros >= 19 && shift >= zeros)),
        shift < 0 ==> zeros == 0 && keep == (if -shift >= digits.len() {
            0
        } else {
            digits.len() + shift
        }),
    ensures
        keep <= digits.len(),
        least(scaled(digits_value(digits), shift), MAGNITUDE_CAP as nat) == least(
            digits_value(digits.take(keep as int)) * pow10(zeros),
            MAGNITUDE_CAP as nat,
        ),
{
    let d = digits_value(digits);
    if shift >= 0 {
        assert(digits.take(keep as int) =~= digits);
        if zeros != shift {
            lemma_pow10_nineteen();
            lemma_pow10_monotone(19, zeros);
            lemma_pow10_monotone(19, shift as nat);
            let pz = pow10(zeros);
            let ps = pow10(shift as nat);
            if d > 0 {
                assert(d * pz >= pz) by (nonlinear_arith)
                    requires
                        d >= 1,
                        pz >= 1,
                ;
                assert(d * ps >= ps) by (nonlinear_arith)
                    requires
                        d >= 1,
                        ps >= 1,
                ;
            } else {
                assert(d * pz == 0) by (nonlinear_arith)
                    requires
                        d == 0,
                ;
                assert(d * ps == 0) by (nonlinear_arith)
                    requires
                        d == 0,
                ;
            }
        }
    } else {
        let m = (-shift) as nat;
        assert(pow10(0) == 1);
        assert(digits_value(digits.take(keep as int)) * 1 == digits_value(digits.take(keep as int)));
        if m >= digits.len() {
            lemma_digits_bound(digits);
            lemma_pow10_monotone(digits.len(), m);
            lemma_basic_div(d as int, pow10(m) as int);
            assert(digits.take(0).len() == 0);
        } else {
            lemma_drop_low_digits(digits, m);
        }
    }
}

/// Tests a text against the grammar of decimal literals.
pub fn decimal_literal_check(s: &Vec<char>) -> (r: bool)
    ensures
        r == is_decimal_literal(s@),
{
    let n: usize = s.len();
    let start: usize = if n > 0 && (s[0] == '-' || s[0] == '+') {
        1
    } else {
        0
    };
    let p: usize = scan_digits(s, start);
    if p <= start {
        return false;
    }
    let mut q: usize = p;
    if p < n && s[p] == '.' {
        q = scan_digits(s, p + 1);
        if q <= p + 1 {
            return false;
        }
    }
    if q == n {
        return true;
    }
    if s[q] != 'e' && s[q] != 'E' {
        return false;
    }
    let digits_from: usize = if q + 1 < n && (s[q + 1] == '-' || s[q + 1] == '+') {
        q + 2
    } else {
        q + 1
    };
    if digits_from >= n {
        return false;
    }
    let end: usize = scan_digits(s, digits_from);
    end == n
}

/// Appends the digits of `s` from `from` up to `to` to a number, capping
/// the result at `cap`.
fn fold_digits(s: &Vec<char>, from: usize, to: usize, start: u128, cap: u128, Ghost(prefix): Ghost<Seq<char>>) -> (r: u128)
    requires
        from <= to <= s@.len(),
        all_digits(s@, from as int, to as int),
        cap <= EXPONENT_CAP,
        start as nat == least(digits_value(prefix), cap as nat),
    ensures
        r as nat == least(digits_value(prefix + s@.subrange(from as int, to as int)), cap as nat),
{
    let mut acc: u128 = start;
    let mut i: usize = from;
    assert(prefix + s@.subrange(from as int, from as int) =~= prefix);
    while i < to
        invariant
            from <= i <= to <= s@.len(),
            all_digits(s@, from as int, to as int),
            cap <= EXPONENT_CAP,
            acc as nat == least(digits_value(prefix + s@.subrange(from as int, i as int)), cap as nat),
        decreases to - i,
    {
        assert(is_digit(s@[i as int]));
        let d: u8 = digit_of(s[i]).unwrap();
        proof {
            let before = prefix + s@.subrange(from as int, i as int);
            let after = prefix + s@.subrange(from as int, i + 1);
            assert(after.drop_last() =~= before);
            assert(after.last() == s@[i as int]);
        }
        let next: u128 = acc * 10 + (d as u128);
        acc = if next >= cap {
            cap
        } else {
            next
        };
        i += 1;
    }
    acc
}

/// Appends `zeros` zeros to a number, capping the result at
/// [`MAGNITUDE_CAP`].
fn append_zeros(value: u128, zeros: u128, Ghost(exact): Ghost<nat>) -> (r: u128)
    requires
        value as nat == least(exact, MAGNITUDE_CAP as nat),
    ensures
        r as nat == least(exact * pow10(zeros as nat), MAGNITUDE_CAP as nat),
{
    let mut acc: u128 = value;
    let mut k: u128 = 0;
    assert(pow10(0) == 1);
    assert(exact * 1 == exact);
    while k < zeros && acc != 0 && acc < MAGNITUDE_CAP
        invariant
            k <= zeros,
            acc as nat == least(exact * pow10(k as nat), MAGNITUDE_CAP as nat),
        decreases zeros - k,
    {
        proof {
            let pk = pow10(k as nat);
            assert(pow10((k + 1) as nat) == 10 * pk);
            assert(exact * (10 * pk) == (exact * pk) * 10) by (nonlinear_arith);
        }
        let next: u128 = acc * 10;
        acc = if next >= MAGNITUDE_CAP {
            MAGNITUDE_CAP
        } else {
            next
        };
        k += 1;
    }
    proof {
        let pk = pow10(k as nat);
        let pz = pow10(zeros as nat);
        lemma_pow10_monotone(k as nat, zeros as nat);
        if k < zeros {
            if acc == 0 {
                assert(exact == 0) by (nonlinear_arith)
                    requires
                        exact * pk == 0,
                        pk >= 1,
                ;
                assert(exact * pz == 0) by (nonlinear_arith)
                    requires
                        exact == 0,
                ;
            } else {
                assert(exact * pz >= exact * pk) by (nonlinear_arith)
                    requires
                        pz >= pk,
                ;
            }
        }
    }
    acc
}

/// The mantissa of a decimal literal is made of digits: as many as the
/// integer part and the fraction have together.
pub proof fn lemma_mantissa_digits(s: Seq<char>)
    requires
        is_decimal_literal(s),
    ensures
        sign_len(s) < integer_end(s) <= mantissa_end(s) <= s.len(),
        mantissa_digits(s).len() == integer_end(s) - sign_len(s) + fraction_len(s),
        all_digits(mantissa_digits(s), 0, mantissa_digits(s).len() as int),
        all_digits(s, sign_len(s), integer_end(s)),
        mantissa_end(s) > integer_end(s) ==> all_digits(s, integer_end(s) + 1, mantissa_end(s)),
{
    let a = sign_len(s);
    let p = integer_end(s);
    let q = mantissa_end(s);
    let digits = mantissa_digits(s);
    lemma_digit_run(s, a);
    if q > p {
        lemma_digit_run(s, p + 1);
    }
    assert forall|i: int| 0 <= i < digits.len() implies is_digit(#[trigger] digits[i]) by {
        if i < p - a {
            assert(digits[i] == s[a + i]);
        } else {
            assert(digits[i] == s[p + 1 + (i - (p - a))]);
        }
    }
}

/// Reads the exponent of a decimal literal whose mantissa ends at `q`: its
/// magnitude, capped at [`EXPONENT_CAP`], and whether it is written with a
/// minus sign.
fn read_exponent(s: &Vec<char>, q: usize) -> (r: (u128, bool))
    requires
        is_decimal_literal(s@),
        q as int == mantissa_end(s@),
        q <= s@.len(),
    ensures
        r.0 as nat == least(exponent_magnitude(s@), EXPONENT_CAP as nat),
        r.1 == (has_exponent(s@) && exponent_is_negative(s@)),
{
    let n: usize = s.len();
    if q >= n {
        return (0, false);
    }
    let negative: bool = q + 1 < n && s[q + 1] == '-';
    let digits_from: usize = if q + 1 < n && (s[q + 1] == '-' || s[q + 1] == '+') {
        q + 2
    } else {
        q + 1
    };
    proof {
        lemma_digit_run(s@, digits_from as int);
        assert(digits_value(Seq::<char>::empty()) == 0);
        assert(Seq::<char>::empty() + s@.subrange(digits_from as int, n as int) =~= s@.subrange(
            digits_from as int,
            n as int,
        ));
    }
    let magnitude: u128 = fold_digits(s, digits_from, n, 0, EXPONENT_CAP, Ghost(Seq::empty()));
    (magnitude, negative)
}

/// The number that the first `keep` mantissa digits of a decimal literal
/// write, capped at [`MAGNITUDE_CAP`]. `a` and `p` bound the integer
/// digits.
fn leading_digits_value(s: &Vec<char>, a: usize, p: usize, keep: usize) -> (r: u128)
    requires
        is_decimal_literal(s@),
        a as int == sign_len(s@),
        p as int == integer_end(s@),
        keep <= mantissa_digits(s@).len(),
    ensures
        r as nat == least(digits_value(mantissa_digits(s@).take(keep as int)), MAGNITUDE_CAP as nat),
{
    let ghost digits = mantissa_digits(s@);
    proof {
        lemma_mantissa_digits(s@);
    }
    let whole: usize = if keep < p - a {
        keep
    } else {
        p - a
    };
    proof {
        assert(digits_value(Seq::<char>::empty()) == 0);
        assert(Seq::<char>::empty() + s@.subrange(a as int, a + whole) =~= s@.subrange(a as int, a + whole));
    }
    let head: u128 = fold_digits(s, a, a + whole, 0, MAGNITUDE_CAP, Ghost(Seq::empty()));
    let rest: usize = keep - whole;
    if rest > 0 {
        let n: usize = s.len();
        assert(rest <= fraction_len(s@));
        assert(p + 1 + rest <= mantissa_end(s@) <= n);
        let r = fold_digits(s, p + 1, p + 1 + rest, head, MAGNITUDE_CAP, Ghost(s@.subrange(a as int, a + whole)));
        assert(s@.subrange(a as int, p as int) + s@.subrange(p + 1, p + 1 + rest) =~= digits.take(keep as int));
        r
    } else {
        assert(s@.subrange(a as int, a + whole) =~= digits.take(keep as int));
        head
    }
}

/// The magnitude of the decimal literal `s`, rounded down to a whole number
/// and capped at [`MAGNITUDE_CAP`].
fn capped_magnitude(s: &Vec<char>) -> (r: u128)
    requires
        is_decimal_literal(s@),
    ensures
        r as nat == least(integer_magnitude(s@), MAGNITUDE_CAP as nat),
{
    let n: usize = s.len();
    let a: usize = if n > 0 && (s[0] == '-' || s[0] == '+') {
        1
    } else {
        0
    };
    let p: usize = scan_digits(s, a);
    let q: usize = if p < n && s[p] == '.' {
        scan_digits(s, p + 1)
    } else {
        p
    };
    proof {
        lemma_mantissa_digits(s@);
    }
    let fraction: usize = if q > p {
        q - p - 1
    } else {
        0
    };
    let count: usize = (p - a) + fraction;
    let (exponent, exponent_negative) = read_exponent(s, q);
    let ghost shift: int = exponent_value(s@) - fraction_len(s@);
    let mut keep: usize = count;
    let mut zeros: u128 = 0;
    if exponent_negative {
        let dropped: u128 = exponent + (fraction as u128);
        if dropped >= count as u128 {
            keep = 0;
        } else {
            keep = count - (dropped as usize);
        }
    } else if exponent >= fraction as u128 {
        zeros = exponent - (fraction as u128);
    } else {
        keep = count - (fraction - (exponent as usize));
    }
    proof {
        lemma_scaled_by_digits(mantissa_digits(s@), shift, keep as nat, zeros as nat);
    }
    let kept: u128 = leading_digits_value(s, a, p, keep);
    append_zeros(kept, zeros, Ghost(digits_value(mantissa_digits(s@).take(keep as int))))
}

/// The integer that the decimal literal `s` truncates to, rounding toward
/// zero and saturating at the ends of `i64`.
fn truncate_literal(s: &Vec<char>) -> (r: i64)
    requires
        is_decimal_literal(s@),
    ensures
        r == saturate_i64(truncated_value(s@)),
{
    let magnitude: u128 = capped_magnitude(s);
    let negative: bool = s.len() > 0 && s[0] == '-';
    if negative {
        if magnitude >= MAGNITUDE_CAP {
            i64::MIN
        } else {
            -(magnitude as i64)
        }
    } else {
        if magnitude >= MAGNITUDE_CAP {
            i64::MAX
        } else {
            magnitude as i64
        }
    }
}

/// A decimal number of any size, held as the literal that writes it.
#[derive(Debug, PartialEq, Eq)]
pub struct Decimal {
    literal: String,
}

impl View for Decimal {
    type V = Seq<char>;

    closed spec fn view(&self) -> Seq<char> {
        self.literal@
    }
}

impl Clone for Decimal {
    fn clone(&self) -> (r: Decimal)
        ensures
            r@ == self@,
    {
        proof {
            use_type_invariant(self);
        }
        Decimal { literal: self.literal.clone() }
    }
}

impl Decimal {
    /// The invariant of the type: the text held is a decimal literal.
    #[verifier::type_invariant]
    spec fn holds_literal(&self) -> bool {
        is_decimal_literal(self.literal@)
    }

    /// Whether the text held is a decimal literal. It is, for every value
    /// of the type.
    pub open spec fn well_formed(&self) -> bool {
        is_decimal_literal(self@)
    }

    /// The decimal zero.
    pub fn zero() -> (r: Decimal)
        ensures
            r@ == zero_literal(),
            r.well_formed(),
    {
        proof {
            reveal_strlit("0");
            lemma_zero_literal();
        }
        let literal = String::from_str("0");
        assert(literal@ =~= zero_literal());
        Decimal { literal }
    }

    /// Reads a decimal from its literal; `None` where the text is no
    /// decimal literal.
    pub fn parse(text: &str) -> (r: Option<Decimal>)
        ensures
            r is Some <==> is_decimal_literal(text@),
            r matches Some(d) ==> d@ == text@ && d.well_formed(),
    {
        let chars = chars_of(text);
        if decimal_literal_check(&chars) {
            Some(Decimal { literal: String::from_str(text) })
        } else {
            None
        }
    }

    /// Reads a decimal leniently: text that is no decimal literal reads as
    /// zero.
    pub fn parse_or_zero(text: &str) -> (r: Decimal)
        ensures
            r@ == lenient_decimal(text@),
            r.well_formed(),
    {
        match Decimal::parse(text) {
            Some(d) => d,
            None => Decimal::zero(),
        }
    }

    /// The literal that writes this decimal.
    pub fn as_str(&self) -> (r: &str)
        ensures
            r@ == self@,
    {
        self.literal.as_str()
    }

    /// The integer this decimal truncates to, rounding toward zero and
    /// saturating at the ends of `i64`.
    pub fn truncate(&self) -> (r: i64)
        ensures
            r == saturate_i64(truncated_value(self@)),
    {
        proof {
            use_type_invariant(self);
        }
        let chars = chars_of(self.literal.as_str());
        truncate_literal(&chars)
    }
}

} // verus!
