use vstd::prelude::*;
use vstd::string::*;

use crate::text;
use crate::text::{format_padded, format_u128, pow10, spec_padded, spec_udigits};

verus! {

/// Renders byte counts for human eyes.
pub struct Formatter {}

/// `1024^k` (one for non-positive `k`).
pub open spec fn pow1024(k: int) -> int
    decreases k,
{
    if k <= 0 {
        1
    } else {
        1024 * pow1024(k - 1)
    }
}

/// Which size unit a byte count is shown in: 0 bytes, 1 kilobytes,
/// 2 megabytes, 3 gigabytes, 4 terabytes. A count moves to the next unit
/// as soon as it exceeds that unit's size.
pub open spec fn size_unit_index(size: int) -> int {
    if size > 1099511627776 {
        4
    } else if size > 1073741824 {
        3
    } else if size > 1048576 {
        2
    } else if size > 1024 {
        1
    } else {
        0
    }
}

pub open spec fn size_unit_name(k: int) -> Seq<char> {
    if k == 0 {
        "B"@
    } else if k == 1 {
        "KB"@
    } else if k == 2 {
        "MB"@
    } else if k == 3 {
        "GB"@
    } else {
        "TB"@
    }
}

/// `size / 1024^k` as a fixed-point value with `p` decimal places,
/// rounded half up.
pub open spec fn spec_scaled_size(size: int, p: int, k: int) -> int {
    (2 * size * pow10(p) + pow1024(k)) / (2 * pow1024(k))
}

/// The rendered form of a byte count: the count divided down into the
/// unit chosen by `size_unit_index`, shown with `p` decimal places and
/// the unit's name.
pub open spec fn spec_format_size(size: int, p: int) -> Seq<char> {
    let k = size_unit_index(size);
    let scaled = spec_scaled_size(size, p, k);
    let digits = if p <= 0 {
        spec_udigits(scaled)
    } else {
        spec_udigits(scaled / pow10(p)) + seq!['.'] + spec_padded(scaled % pow10(p), p)
    };
    digits + seq![' '] + size_unit_name(k)
}

proof fn lemma_pow10_le(a: int, b: int)
    requires
        a <= b,
    ensures
        1 <= pow10(a) <= pow10(b),
    decreases b,
{
    if b <= 0 {
    } else if a == b {
        lemma_pow10_le(a - 1, b - 1);
    } else {
        lemma_pow10_le(a, b - 1);
    }
}

/// Ten to the power `p`, for exponents small enough to fit in 64 bits.
pub fn pow10_u64(p: u8) -> (r: u64)
    requires
        p <= 18,
    ensures
        r == pow10(p as int),
{
    proof {
        reveal_with_fuel(text::pow10, 20);
    }
    let mut acc: u64 = 1;
    let mut j: u8 = 0;
    while j < p
        invariant
            j <= p <= 18,
            acc == pow10(j as int),
        decreases p - j,
    {
        proof {
            lemma_pow10_le(j as int + 1, 18);
            assert(pow10(18) == 1000000000000000000) by {
                reveal_with_fuel(text::pow10, 20);
            }
        }
        acc = acc * 10;
        j = j + 1;
    }
    acc
}

impl Formatter {
    /// Renders `size` bytes in the largest unit the count exceeds, with
    /// `precision` decimal places.
    pub fn format_size(size: usize, precision: u8) -> (r: String)
        requires
            precision <= 18,
        ensures
            r@ == spec_format_size(size as int, precision as int),
    {
        proof {
            reveal_with_fuel(pow1024, 6);
        }
        let wide: u64 = size as u64;
        let (unit, divisor): (&'static str, u64) = if wide > 1099511627776 {
            ("TB", 1099511627776)
        } else if wide > 1073741824 {
            ("GB", 1073741824)
        } else if wide > 1048576 {
            ("MB", 1048576)
        } else if wide > 1024 {
            ("KB", 1024)
        } else {
            ("B", 1)
        };
        let ghost k = size_unit_index(size as int);
        proof {
            assert(divisor == pow1024(k));
            assert(unit@ == size_unit_name(k));
        }
        let p10: u64 = pow10_u64(precision);
        proof {
            lemma_pow10_le(precision as int, 18);
            assert(pow10(18) == 1000000000000000000) by {
                reveal_with_fuel(text::pow10, 20);
            }
        }
        proof {
            assert(2 * (wide as int) * (p10 as int) + (divisor as int) < 0x40000000000000000000000000000000int)
                by (nonlinear_arith)
                requires
                    wide <= 0xffffffffffffffffu64,
                    p10 <= 1000000000000000000u64,
                    divisor <= 1099511627776u64,
            ;
        }
        let numerator: u128 = 2 * (wide as u128) * (p10 as u128) + (divisor as u128);
        let scaled: u128 = numerator / (2 * (divisor as u128));
        proof {
            assert(scaled == spec_scaled_size(size as int, precision as int, k));
        }
        let mut out: String;
        if precision == 0 {
            out = format_u128(scaled);
        } else {
            let int_part: u128 = scaled / (p10 as u128);
            let frac_part: u128 = scaled % (p10 as u128);
            out = format_u128(int_part);
            out.append(".");
            out.append(format_padded(frac_part as u64, precision as usize).as_str());
            proof {
                reveal_strlit(".");
                assert((".")@ =~= seq!['.']);
            }
        }
        out.append(" ");
        out.append(unit);
        proof {
            reveal_strlit(" ");
            assert((" ")@ =~= seq![' ']);
            assert(out@ =~= spec_format_size(size as int, precision as int));
        }
        out
    }
}

} // verus!
