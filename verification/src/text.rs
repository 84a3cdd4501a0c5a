//! Characters and decimal digits: the vocabulary shared by the literal
//! grammars of this library.

use vstd::prelude::*;
use vstd::string::*;

verus! {

/// Whether `c` is one of the ten ASCII decimal digits.
pub open spec fn is_digit(c: char) -> bool {
    48 <= c as u32 <= 57
}

/// The number a decimal digit stands for.
pub open spec fn digit_value(c: char) -> nat {
    (c as u32 - 48) as nat
}

/// The number written by a sequence of decimal digits, most significant
/// first. The empty sequence writes zero.
pub open spec fn digits_value(s: Seq<char>) -> nat
    decreases s.len(),
{
    if s.len() == 0 {
        0
    } else {
        digits_value(s.drop_last()) * 10 + digit_value(s.last())
    }
}

/// Ten to the power `n`.
pub open spec fn pow10(n: nat) -> nat
    decreases n,
{
    if n == 0 {
        1
    } else {
        10 * pow10((n - 1) as nat)
    }
}

/// Powers of ten grow with the exponent.
pub proof fn lemma_pow10_monotone(a: nat, b: nat)
    requires
        a <= b,
    ensures
        pow10(a) <= pow10(b),
        pow10(a) >= 1,
    decreases b,
{
    if a < b {
        lemma_pow10_monotone(a, (b - 1) as nat);
    } else if a > 0 {
        lemma_pow10_monotone((a - 1) as nat, (b - 1) as nat);
    }
}

/// Where the run of digits that starts at `from` ends: the first index at or
/// after `from` that holds no digit, or the length of `s`.
pub open spec fn digit_run_end(s: Seq<char>, from: int) -> int
    decreases s.len() - from,
{
    if 0 <= from < s.len() && is_digit(s[from]) {
        digit_run_end(s, from + 1)
    } else {
        from
    }
}

/// Whether every character of `s` from `from` up to `to` is a digit.
pub open spec fn all_digits(s: Seq<char>, from: int, to: int) -> bool {
    forall|i: int| from <= i < to ==> is_digit(#[trigger] s[i])
}

/// A run of digits ends inside the sequence, and everything before its end
/// is a digit.
pub proof fn lemma_digit_run(s: Seq<char>, from: int)
    requires
        0 <= from <= s.len(),
    ensures
        from <= digit_run_end(s, from) <= s.len(),
        all_digits(s, from, digit_run_end(s, from)),
        digit_run_end(s, from) < s.len() ==> !is_digit(s[digit_run_end(s, from)]),
    decreases s.len() - from,
{
    if from < s.len() && is_digit(s[from]) {
        lemma_digit_run(s, from + 1);
    }
}

/// The digit that `c` stands for, if it is one.
pub fn digit_of(c: char) -> (r: Option<u8>)
    ensures
        r is Some <==> is_digit(c),
        r matches Some(d) ==> d as nat == digit_value(c) && d <= 9,
{
    let code: u32 = c as u32;
    if 48 <= code && code <= 57 {
        Some((code - 48) as u8)
    } else {
        None
    }
}

/// The characters of a string, in order.
pub fn chars_of(s: &str) -> (r: Vec<char>)
    ensures
        r@ == s@,
{
    let mut out: Vec<char> = Vec::new();
    if s.is_ascii() {
        let bytes = s.as_bytes();
        let n: usize = bytes.len();
        proof {
            is_ascii_spec_bytes(s);
        }
        let mut i: usize = 0;
        while i < n
            invariant
                is_ascii(s),
                n == s@.len(),
                bytes@ == Seq::new(s@.len(), |k: int| s@[k] as u8),
                i <= n,
                out@ == s@.subrange(0, i as int),
            decreases n - i,
        {
            let c: char = bytes[i] as char;
            assert(0 <= s@[i as int] as u32 <= 127);
            assert(c == s@[i as int]);
            out.push(c);
            i += 1;
            assert(out@ =~= s@.subrange(0, i as int));
        }
        assert(s@.subrange(0, n as int) =~= s@);
        return out;
    }
    let n: usize = s.unicode_len();
    let mut i: usize = 0;
    while i < n
        invariant
            n == s@.len(),
            i <= n,
            out@ == s@.subrange(0, i as int),
        decreases n - i,
    {
        let c = s.get_char(i);
        out.push(c);
        i += 1;
        assert(out@ =~= s@.subrange(0, i as int));
    }
    assert(s@.subrange(0, n as int) =~= s@);
    out
}

/// Scans the run of digits of `s` that starts at `from` and returns its end.
pub fn scan_digits(s: &Vec<char>, from: usize) -> (end: usize)
    requires
        from <= s@.len(),
    ensures
        end as int == digit_run_end(s@, from as int),
        from <= end <= s@.len(),
{
    let mut i: usize = from;
    while i < s.len() && digit_of(s[i]).is_some()
        invariant
            from <= i <= s@.len(),
            digit_run_end(s@, from as int) == digit_run_end(s@, i as int),
        decreases s@.len() - i,
    {
        i += 1;
    }
    i
}

/// Whether `s` begins with the characters of `prefix`.
pub open spec fn has_prefix(s: Seq<char>, prefix: Seq<char>) -> bool {
    prefix.len() <= s.len() && s.subrange(0, prefix.len() as int) == prefix
}

/// Tests whether `s` begins with `prefix`.
pub fn starts_with(s: &str, prefix: &str) -> (r: bool)
    ensures
        r == has_prefix(s@, prefix@),
{
    let n: usize = prefix.unicode_len();
    let m: usize = s.unicode_len();
    if m < n {
        return false;
    }
    let mut i: usize = 0;
    while i < n
        invariant
            n == prefix@.len(),
            m == s@.len(),
            n <= m,
            i <= n,
            s@.subrange(0, i as int) == prefix@.subrange(0, i as int),
        decreases n - i,
    {
        if s.get_char(i) != prefix.get_char(i) {
            assert(s@.subrange(0, n as int)[i as int] != prefix@[i as int]);
            return false;
        }
        i += 1;
        assert(s@.subrange(0, i as int) =~= s@.subrange(0, i - 1).push(s@[i - 1]));
        assert(prefix@.subrange(0, i as int) =~= prefix@.subrange(0, i - 1).push(prefix@[i - 1]));
    }
    assert(prefix@.subrange(0, n as int) =~= prefix@);
    true
}

/// Tests whether two texts hold the same characters.
pub fn same_text(a: &str, b: &str) -> (r: bool)
    ensures
        r == (a@ == b@),
{
    if a.unicode_len() != b.unicode_len() {
        return false;
    }
    let r = starts_with(a, b);
    assert(a@.subrange(0, a@.len() as int) =~= a@);
    r
}

} // verus!
