//! Exact decimal quantities.
//!
//! Prices and quantities arrive on the wire as decimal strings. They are held
//! exactly as an unsigned mantissa together with a decimal scale: the value
//! denoted is `mantissa / 10^scale`. This keeps quantity arithmetic exact,
//! where a binary floating-point representation would round.

use vstd::prelude::*;

verus! {

/// A non-negative decimal number: the value `mantissa / 10^scale`.
#[derive(Copy, Clone, Debug, PartialEq, Eq, Structural)]
pub struct Decimal {
    pub mantissa: u64,
    pub scale: u32,
}

/// A product of two `Decimal`s, wide enough that the product of any two
/// `u64` mantissas fits without overflow.
#[derive(Copy, Clone, Debug, PartialEq, Eq, Structural)]
pub struct WideDecimal {
    pub mantissa: u128,
    pub scale: u64,
}

/// Why a decimal string was rejected.
#[derive(Copy, Clone, Debug, PartialEq, Eq, Structural)]
pub enum DecimalError {
    /// The string is not of the form `digits`, `digits '.' digits`,
    /// `digits '.'` or `'.' digits`.
    Malformed,
    /// The string is well formed but its mantissa does not fit in a `u64`
    /// (or its scale does not fit in a `u32`).
    Overflow,
}

pub open spec fn is_ascii_digit(c: u8) -> bool {
    48 <= c && c <= 57
}

pub open spec fn pow10(n: nat) -> nat
    decreases n,
{
    if n == 0 {
        1
    } else {
        10 * pow10((n - 1) as nat)
    }
}

/// Law: denominators multiply. Reading a decimal as `mantissa / 10^scale`,
/// this is what makes the product of two decimals — the mantissas'
/// product over the scales' sum — equal the product of their values
/// exactly: `(m1 / 10^a) * (m2 / 10^b) == (m1 * m2) / 10^(a + b)`.
pub proof fn lemma_pow10_add(a: nat, b: nat)
    ensures
        pow10(a + b) == pow10(a) * pow10(b),
    decreases a,
{
    if a == 0 {
        assert(pow10(b) == 1 * pow10(b));
    } else {
        lemma_pow10_add((a - 1) as nat, b);
        assert(10 * (pow10((a - 1) as nat) * pow10(b)) == (10 * pow10((a - 1) as nat)) * pow10(
            b,
        )) by (nonlinear_arith);
    }
}

/// One step per byte over a decimal string, left to right: accumulates the
/// mantissa (all digits, the dot ignored) and the scale (digits after the
/// dot). `None` when a byte is neither digit nor first dot, or when no digit
/// occurs at all.
pub open spec fn dec_scan(
    s: Seq<u8>,
    i: int,
    m: nat,
    sc: nat,
    seen_dot: bool,
    seen_digit: bool,
) -> Option<(nat, nat)>
    decreases s.len() - i,
{
    if i < 0 || i >= s.len() {
        if seen_digit {
            Some((m, sc))
        } else {
            None
        }
    } else if s[i] == 46 {
        if seen_dot {
            None
        } else {
            dec_scan(s, i + 1, m, sc, true, seen_digit)
        }
    } else if is_ascii_digit(s[i]) {
        dec_scan(
            s,
            i + 1,
            m * 10 + (s[i] - 48) as nat,
            if seen_dot {
                sc + 1
            } else {
                sc
            },
            seen_dot,
            true,
        )
    } else {
        None
    }
}

/// What a decimal string denotes: `Some((mantissa, scale))` exactly when the
/// string consists of digits with at most one dot and at least one digit.
pub open spec fn spec_parse_decimal(s: Seq<u8>) -> Option<(nat, nat)> {
    dec_scan(s, 0, 0, 0, false, false)
}

/// What parsing a decimal string yields: the exact mantissa/scale pair it
/// denotes, `Malformed` when it is not a plain unsigned decimal numeral, or
/// `Overflow` when the numeral is well formed but too wide for the
/// representation.
pub open spec fn spec_decimal_result(s: Seq<u8>) -> Result<Decimal, DecimalError> {
    match spec_parse_decimal(s) {
        Some(v) => if v.0 <= u64::MAX && v.1 <= u32::MAX {
            Ok(Decimal { mantissa: v.0 as u64, scale: v.1 as u32 })
        } else {
            Err(DecimalError::Overflow)
        },
        None => Err(DecimalError::Malformed),
    }
}

/// Parses a decimal string.
pub fn parse_decimal(s: &[u8]) -> (r: Result<Decimal, DecimalError>)
    ensures
        r == spec_decimal_result(s@),
{
    let mut i: usize = 0;
    let mut m: u64 = 0;
    let mut sc: u32 = 0;
    let mut seen_dot: bool = false;
    let mut seen_digit: bool = false;
    let mut too_wide: bool = false;
    let ghost mut gm: nat = 0;
    let ghost mut gsc: nat = 0;
    while i < s.len()
        invariant
            0 <= i <= s.len(),
            spec_parse_decimal(s@) == dec_scan(s@, i as int, gm, gsc, seen_dot, seen_digit),
            too_wide <==> (gm > u64::MAX || gsc > u32::MAX),
            !too_wide ==> gm == m as nat && gsc == sc as nat,
        decreases s.len() - i,
    {
        let c = s[i];
        if c == 46 {
            if seen_dot {
                return Err(DecimalError::Malformed);
            }
            seen_dot = true;
        } else if 48 <= c && c <= 57 {
            let d: u64 = (c - 48) as u64;
            proof {
                gm = gm * 10 + d as nat;
                if seen_dot {
                    gsc = gsc + 1;
                }
            }
            if !too_wide {
                match m.checked_mul(10) {
                    Some(m10) => {
                        match m10.checked_add(d) {
                            Some(md) => {
                                m = md;
                            },
                            None => {
                                too_wide = true;
                            },
                        }
                    },
                    None => {
                        too_wide = true;
                    },
                }
                if !too_wide && seen_dot {
                    if sc == u32::MAX {
                        too_wide = true;
                    } else {
                        sc = sc + 1;
                    }
                }
            }
            seen_digit = true;
        } else {
            return Err(DecimalError::Malformed);
        }
        i = i + 1;
    }
    if !seen_digit {
        return Err(DecimalError::Malformed);
    }
    if too_wide {
        return Err(DecimalError::Overflow);
    }
    Ok(Decimal { mantissa: m, scale: sc })
}

} // verus!
