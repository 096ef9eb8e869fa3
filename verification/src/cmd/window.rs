//! The size of a context window: a number with an optional unit, as a count of tokens.
//!
//! The number is a decimal fraction that the program reads and scales as a double; what a text says and when a
//! result is a size is decided here.

use vstd::arithmetic::div_mod::*;
use vstd::arithmetic::mul::*;
use vstd::arithmetic::power2::*;
use vstd::bits::*;
use vstd::prelude::*;
use vstd::string::*;

use crate::double::Double;
use crate::text::{chars_of, debug_text, lowercase, lowercase_text, own, quoted, text_of, trim, trimmed};

verus! {

/// Why a window size did not parse.
pub enum WindowSizeError {
    /// Nothing but white space.
    Empty,
    /// The numeric part is not a positive number.
    NotANumber(String),
    /// The value truncates to zero or does not fit.
    OutOfRange,
}

impl WindowSizeError {
    /// The text of the error.
    pub open spec fn text(&self) -> Seq<char> {
        match *self {
            WindowSizeError::Empty => "empty size"@,
            WindowSizeError::NotANumber(s) => "invalid context window size: "@ + debug_text(s@),
            WindowSizeError::OutOfRange => "invalid context window size"@,
        }
    }

    /// The text of the error.
    pub fn message(&self) -> (r: String)
        ensures
            r@ == self.text(),
    {
        match self {
            WindowSizeError::Empty => own("empty size"),
            WindowSizeError::NotANumber(s) => {
                let mut m: String = own("invalid context window size: ");
                m.append(quoted(s.as_str()).as_str());
                m
            },
            WindowSizeError::OutOfRange => own("invalid context window size"),
        }
    }
}

/// The unit a letter stands for.
pub open spec fn unit_of(c: char) -> u64 {
    if c == 'k' {
        1_000
    } else if c == 'm' {
        1_000_000
    } else if c == 'b' {
        1_000_000_000
    } else {
        1
    }
}

/// A size as written: its unit and the text of its number; `None` when nothing is written.
pub open spec fn size_parts(s: Seq<char>) -> Option<(u64, Seq<char>)> {
    parts_in(lowercase_text(trimmed(s)))
}

/// A size in lower case: its unit and the text of its number; `None` when nothing is written.
pub open spec fn parts_in(t: Seq<char>) -> Option<(u64, Seq<char>)> {
    if t.len() == 0 {
        None
    } else if unit_of(t.last()) == 1 {
        Some((1, t))
    } else {
        Some((unit_of(t.last()), t.drop_last()))
    }
}

/// A size as written.
pub struct WindowNumber {
    /// What the number is scaled by.
    pub unit: u64,
    /// What stands before the unit, as an error shows it.
    pub text: String,
    /// The text that is read as a number: what stands before the unit, without the white space around it.
    pub number: String,
}

/// What reading and scaling a number gave.
#[derive(Clone, Copy)]
pub struct WindowValue {
    /// The number.
    pub value: Double,
    /// The number times its unit.
    pub scaled: Double,
}

/// The double that a size truncates to: the scaled one, where a number above zero was read.
pub open spec fn counted(read: Option<WindowValue>) -> Option<Double> {
    match read {
        Some(v) if v.value.positive() => Some(v.scaled),
        _ => None,
    }
}

/// Reads a size as far as its unit.
pub fn window_number(s: &str) -> (r: Result<WindowNumber, WindowSizeError>)
    ensures
        match size_parts(s@) {
            None => r matches Err(e) && e is Empty,
            Some((unit, text)) => r matches Ok(n) && n.unit == unit && n.text@ == text && n.number@
                == trimmed(text),
        },
{
    number_in(lowercase(trim(s).as_str()))
}

/// Reads a size in lower case as far as its unit.
pub fn number_in(t: String) -> (r: Result<WindowNumber, WindowSizeError>)
    ensures
        match parts_in(t@) {
            None => r matches Err(e) && e is Empty,
            Some((unit, text)) => r matches Ok(n) && n.unit == unit && n.text@ == text && n.number@
                == trimmed(text),
        },
{
    let v: Vec<char> = chars_of(t.as_str());
    let n: usize = v.len();
    if n == 0 {
        return Err(WindowSizeError::Empty);
    }
    let last: char = v[n - 1];
    let unit: u64 = if last == 'k' {
        1_000
    } else if last == 'm' {
        1_000_000
    } else if last == 'b' {
        1_000_000_000
    } else {
        1
    };
    if unit == 1 {
        let number: String = trim(t.as_str());
        return Ok(WindowNumber { unit, text: t, number });
    }
    let text: String = text_of(&v, 0, n - 1);
    assert(text@ =~= t@.drop_last());
    let number: String = trim(text.as_str());
    Ok(WindowNumber { unit, text, number })
}

/// Whether a double is a size: finite, at least one and below two to the power of 63.
pub open spec fn is_size(d: Double) -> bool {
    d.finite() && !d.negative() && pow2(1074) <= d.magnitude() < pow2(1137)
}

/// The tokens of a size: its whole part.
pub open spec fn tokens_in(d: Double) -> nat {
    d.magnitude() / pow2(1074)
}

/// The magnitude of a double with exponent `e` stands between two powers of two.
proof fn magnitude_between(d: Double)
    requires
        d.exponent() > 0,
    ensures
        pow2((d.exponent() + 51) as nat) <= d.magnitude() < pow2((d.exponent() + 52) as nat),
{
    let e = d.exponent();
    let p = pow2((e - 1) as nat);
    lemma_pow2_pos((e - 1) as nat);
    lemma_pow2_adds(52, (e - 1) as nat);
    lemma_pow2_adds(53, (e - 1) as nat);
    lemma2_to64_rest();
    assert(pow2(52) == 0x10_0000_0000_0000);
    assert(pow2(53) == 0x20_0000_0000_0000);
    let f = d.fraction();
    assert(0x10_0000_0000_0000 * p <= (0x10_0000_0000_0000 + f) * p) by (nonlinear_arith)
        requires
            p > 0,
            f >= 0,
    ;
    assert((0x10_0000_0000_0000 + f) * p < 0x20_0000_0000_0000 * p) by (nonlinear_arith)
        requires
            p > 0,
            f < 0x10_0000_0000_0000,
    ;
}

/// The whole part of a double that is a size; `None` for one that is not.
fn whole_tokens(d: Double) -> (r: Option<u64>)
    ensures
        match r {
            Some(n) => is_size(d) && n == tokens_in(d),
            None => !is_size(d),
        },
{
    let magnitude_bits: u64 = d.bits % 0x8000_0000_0000_0000;
    let e: u64 = magnitude_bits / 0x10_0000_0000_0000;
    let f: u64 = d.bits % 0x10_0000_0000_0000;
    assert(e == d.exponent());
    assert(f == d.fraction());
    if d.bits >= 0x8000_0000_0000_0000 || e == 2047 {
        return None;
    }
    if e < 1023 {
        proof {
            if e == 0 {
                lemma2_to64_rest();
                lemma_pow2_strictly_increases(52, 1074);
                assert(d.magnitude() < pow2(52));
            } else {
                magnitude_between(d);
                if e + 52 < 1074 {
                    lemma_pow2_strictly_increases((e + 52) as nat, 1074);
                }
            }
        }
        return None;
    }
    if e >= 1086 {
        proof {
            magnitude_between(d);
            if e + 51 > 1137 {
                lemma_pow2_strictly_increases(1137, (e + 51) as nat);
            }
        }
        return None;
    }
    let m: u64 = 0x10_0000_0000_0000 + f;
    proof {
        magnitude_between(d);
        if e + 51 > 1074 {
            lemma_pow2_strictly_increases(1074, (e + 51) as nat);
        }
        if e + 52 < 1137 {
            lemma_pow2_strictly_increases((e + 52) as nat, 1137);
        }
        assert(d.magnitude() == m as nat * pow2((e - 1) as nat));
        lemma_pow2_pos(1074);
        lemma2_to64();
        lemma2_to64_rest();
    }
    if e >= 1075 {
        let k: u64 = e - 1075;
        proof {
            lemma_pow2_adds(k as nat, 1074);
            assert(d.magnitude() == (m as nat * pow2(k as nat)) * pow2(1074)) by (nonlinear_arith)
                requires
                    d.magnitude() == m as nat * pow2((e - 1) as nat),
                    pow2((e - 1) as nat) == pow2(k as nat) * pow2(1074),
            ;
            lemma_div_by_multiple((m as nat * pow2(k as nat)) as int, pow2(1074) as int);
            if k < 10 {
                lemma_pow2_strictly_increases(k as nat, 10);
            }
            assert(pow2(10) == 1024);
            assert(m as nat * pow2(k as nat) <= u64::MAX) by (nonlinear_arith)
                requires
                    m < 0x20_0000_0000_0000,
                    pow2(k as nat) <= 1024,
            ;
            lemma_u64_shl_is_mul(m, k);
        }
        Some(m << k)
    } else {
        let k: u64 = 1075 - e;
        proof {
            lemma_pow2_adds((e - 1) as nat, k as nat);
            lemma_pow2_pos(k as nat);
            lemma_pow2_pos((e - 1) as nat);
            let a = m as int;
            let p = pow2((e - 1) as nat) as int;
            let q = pow2(k as nat) as int;
            assert(pow2(1074) == p * q);
            lemma_div_denominator(a * p, p, q);
            lemma_div_by_multiple(a, p);
            assert((a * p) / p == a);
            lemma_u64_shr_is_div(m, k);
        }
        Some(m >> k)
    }
}

/// The tokens of a size as written. `read` is what reading its number (see [`window_number`]) and scaling it by
/// its unit gave; `None` when its text is no number.
pub fn parse_window_size(s: &str, read: Option<WindowValue>) -> (r: Result<u64, WindowSizeError>)
    ensures
        match size_parts(s@) {
            None => r matches Err(e) && e is Empty,
            Some((_, text)) => match counted(read) {
                None => r matches Err(WindowSizeError::NotANumber(t)) && t@ == text,
                Some(d) => if is_size(d) {
                    r matches Ok(n) && n == tokens_in(d)
                } else {
                    r matches Err(e) && e is OutOfRange
                },
            },
        },
{
    let number: WindowNumber = match window_number(s) {
        Ok(n) => n,
        Err(e) => return Err(e),
    };
    match read {
        Some(v) if v.value.above_zero() => match whole_tokens(v.scaled) {
            Some(n) => Ok(n),
            None => Err(WindowSizeError::OutOfRange),
        },
        _ => Err(WindowSizeError::NotANumber(number.text)),
    }
}

} // verus!
