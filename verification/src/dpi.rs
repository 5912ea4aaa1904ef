//! Resolution (DPI) derivation from embedded image metadata.
//!
//! A source's X and Y resolution tags are rational numbers written as
//! ASCII `numerator/denominator` (or a plain integer).  When both tags
//! are readable, the two values are compared: if they agree within an
//! epsilon of one tenth, the X value is reported; otherwise their
//! arithmetic mean is.  Absent or unparseable tags degrade gracefully
//! to the documented default of 72 DPI — resolution is advisory
//! display metadata and must never abort an import.
//!
//! Reading the tags out of a file is the embedding host's collaborator,
//! not this library's: the functions here take the tag bytes as input.
//! A host without a metadata reader supplies no tags, and every import
//! then reports the default.

use vstd::prelude::*;
use vstd::arithmetic::div_mod::lemma_div_is_ordered;
use vstd::arithmetic::div_mod::lemma_div_pos_is_pos;
use vstd::arithmetic::div_mod::lemma_fundamental_div_mod_converse;

verus! {

/// The DPI reported when resolution metadata is missing or unreadable.
pub const DEFAULT_DPI: u32 = 72;

/// ASCII digit.
pub open spec fn is_digit(b: u8) -> bool {
    48 <= b <= 57
}

/// Every byte is an ASCII digit.
pub open spec fn all_digits(s: Seq<u8>) -> bool {
    forall|i: int| 0 <= i < s.len() ==> is_digit(#[trigger] s[i])
}

/// The value of an ASCII digit run, most significant digit first.
pub open spec fn dec_value(s: Seq<u8>) -> int
    decreases s.len(),
{
    if s.len() == 0 {
        0
    } else {
        10 * dec_value(s.drop_last()) + (s.last() - 48)
    }
}

/// Index of the first `/` in `s`, or `s.len()` when there is none.
pub open spec fn first_slash(s: Seq<u8>) -> int
    decreases s.len(),
{
    if s.len() == 0 {
        0
    } else if s.first() == 47 {
        0
    } else {
        1 + first_slash(s.drop_first())
    }
}

/// A rational parsed from an ASCII tag: `digits/digits` with a nonzero
/// denominator, or a plain digit run (denominator one).  Values must
/// fit 32 bits; anything else is unparseable.
pub open spec fn spec_parse_rational(s: Seq<u8>) -> Option<(int, int)> {
    let slash = first_slash(s);
    if slash == s.len() {
        if 0 < s.len() && all_digits(s) && dec_value(s) <= 0xffffffff {
            Some((dec_value(s), 1))
        } else {
            None
        }
    } else {
        let numer = s.take(slash);
        let denom = s.skip(slash + 1);
        if 0 < numer.len() && 0 < denom.len() && all_digits(numer) && all_digits(denom)
            && dec_value(numer) <= 0xffffffff && dec_value(denom) <= 0xffffffff && dec_value(denom)
            != 0 {
            Some((dec_value(numer), dec_value(denom)))
        } else {
            None
        }
    }
}

/// Whether two positive rationals differ by less than one tenth.
pub open spec fn spec_close(xn: int, xd: int, yn: int, yd: int) -> bool {
    let diff = xn * yd - yn * xd;
    10 * (if diff < 0 {
        -diff
    } else {
        diff
    }) < xd * yd
}

/// The DPI combined from two parsed rationals: the X value when the
/// two agree within a tenth, their arithmetic mean otherwise, in both
/// cases truncated to a whole number.
pub open spec fn spec_combined_dpi(xn: int, xd: int, yn: int, yd: int) -> int {
    if spec_close(xn, xd, yn, yd) {
        xn / xd
    } else {
        (xn * yd + yn * xd) / (2 * xd * yd)
    }
}

/// The DPI derived from the two resolution tags of a source.
pub open spec fn spec_dpi_tags(x: Seq<u8>, y: Seq<u8>) -> int {
    match (spec_parse_rational(x), spec_parse_rational(y)) {
        (Some(xr), Some(yr)) => spec_combined_dpi(xr.0, xr.1, yr.0, yr.1),
        _ => DEFAULT_DPI as int,
    }
}

/// A digit run's value is non-negative.
proof fn lemma_dec_value_nonneg(s: Seq<u8>)
    requires
        all_digits(s),
    ensures
        dec_value(s) >= 0,
    decreases s.len(),
{
    if s.len() > 0 {
        assert(all_digits(s.drop_last()));
        lemma_dec_value_nonneg(s.drop_last());
    }
}

/// A digit run's value only grows as digits are appended.
proof fn lemma_dec_value_prefix_le(s: Seq<u8>, k: int)
    requires
        all_digits(s),
        0 <= k <= s.len(),
    ensures
        dec_value(s.take(k)) <= dec_value(s),
    decreases s.len() - k,
{
    if k == s.len() {
        assert(s.take(k) =~= s);
    } else {
        assert(s.take(k + 1).drop_last() =~= s.take(k));
        assert(all_digits(s.take(k)));
        lemma_dec_value_nonneg(s.take(k));
        assert(dec_value(s.take(k + 1)) == 10 * dec_value(s.take(k)) + (s[k] - 48));
        lemma_dec_value_prefix_le(s, k + 1);
    }
}

/// `first_slash` really is the first slash: everything before it is
/// something else, and it is in range exactly when a slash exists.
proof fn lemma_first_slash(s: Seq<u8>)
    ensures
        0 <= first_slash(s) <= s.len(),
        first_slash(s) < s.len() ==> s[first_slash(s)] == 47,
        forall|j: int| 0 <= j < first_slash(s) ==> s[j] != 47,
    decreases s.len(),
{
    if s.len() > 0 && s.first() != 47 {
        lemma_first_slash(s.drop_first());
        assert forall|j: int| 0 <= j < first_slash(s) implies s[j] != 47 by {
            if j > 0 {
                assert(s.drop_first()[j - 1] != 47);
            }
        }
    }
}

/// Parse the digit run `s[from..to]` as a 32-bit value.
fn parse_decimal(s: &[u8], from: usize, to: usize) -> (r: Option<u64>)
    requires
        from <= to <= s@.len(),
    ensures
        r matches Some(v) ==> v as int == dec_value(s@.subrange(from as int, to as int)),
        r is Some <==> (from < to && all_digits(s@.subrange(from as int, to as int)) && dec_value(
            s@.subrange(from as int, to as int),
        ) <= 0xffffffff),
{
    let ghost whole = s@.subrange(from as int, to as int);
    if from == to {
        return None;
    }
    let mut value: u64 = 0;
    let mut i: usize = from;
    while i < to
        invariant
            from <= i <= to <= s@.len(),
            whole == s@.subrange(from as int, to as int),
            all_digits(s@.subrange(from as int, i as int)),
            value as int == dec_value(s@.subrange(from as int, i as int)),
            value <= 0xffffffff,
        decreases to - i,
    {
        let b = s[i];
        if b < 48 || b > 57 {
            proof {
                assert(whole[i - from] == s@[i as int]);
                assert(!is_digit(whole[i - from]));
            }
            return None;
        }
        proof {
            assert(s@.subrange(from as int, i + 1).drop_last() =~= s@.subrange(
                from as int,
                i as int,
            ));
            assert(s@.subrange(from as int, i + 1).last() == s@[i as int]);
        }
        value = value * 10 + ((b - 48) as u64);
        i = i + 1;
        if value > 0xffffffff {
            proof {
                if all_digits(whole) {
                    assert(whole.take(i - from) =~= s@.subrange(from as int, i as int));
                    lemma_dec_value_prefix_le(whole, i - from);
                }
            }
            return None;
        }
    }
    proof {
        assert(s@.subrange(from as int, i as int) =~= whole);
    }
    Some(value)
}

/// Parse an ASCII resolution tag as a rational number.
pub fn parse_rational(s: &[u8]) -> (r: Option<(u64, u64)>)
    ensures
        r matches Some(v) ==> spec_parse_rational(s@) == Some((v.0 as int, v.1 as int)),
        r is None ==> spec_parse_rational(s@) is None,
{
    proof {
        lemma_first_slash(s@);
    }
    let n = s.len();
    let mut i: usize = 0;
    while i < n && s[i] != 47
        invariant
            0 <= i <= n == s@.len(),
            forall|j: int| 0 <= j < i ==> s@[j] != 47,
        decreases n - i,
    {
        i = i + 1;
    }
    proof {
        if i < n {
            assert(s@[i as int] == 47);
            assert(first_slash(s@) == i);
        } else {
            assert(first_slash(s@) == n);
        }
    }
    if i == n {
        match parse_decimal(s, 0, n) {
            Some(v) => {
                proof {
                    assert(s@.subrange(0, n as int) =~= s@);
                }
                Some((v, 1))
            },
            None => {
                proof {
                    assert(s@.subrange(0, n as int) =~= s@);
                }
                None
            },
        }
    } else {
        proof {
            assert(s@.subrange(0, i as int) =~= s@.take(i as int));
            assert(s@.subrange(i + 1, n as int) =~= s@.skip(i + 1));
        }
        let numer = match parse_decimal(s, 0, i) {
            Some(v) => v,
            None => {
                return None;
            },
        };
        let denom = match parse_decimal(s, i + 1, n) {
            Some(v) => v,
            None => {
                return None;
            },
        };
        if denom == 0 {
            return None;
        }
        Some((numer, denom))
    }
}

/// Combine two parsed resolution rationals into a whole DPI value.
fn combined_dpi(xn: u64, xd: u64, yn: u64, yd: u64) -> (dpi: u32)
    requires
        xn <= 0xffffffff,
        yn <= 0xffffffff,
        1 <= xd <= 0xffffffff,
        1 <= yd <= 0xffffffff,
    ensures
        dpi as int == spec_combined_dpi(xn as int, xd as int, yn as int, yd as int),
{
    proof {
        assert((xn as int) * (yd as int) <= 0xffffffff * 0xffffffff) by (nonlinear_arith)
            requires
                0 <= (xn as int) <= 0xffffffff,
                0 <= (yd as int) <= 0xffffffff,
        ;
        assert((yn as int) * (xd as int) <= 0xffffffff * 0xffffffff) by (nonlinear_arith)
            requires
                0 <= (yn as int) <= 0xffffffff,
                0 <= (xd as int) <= 0xffffffff,
        ;
        assert((xd as int) * (yd as int) <= 0xffffffff * 0xffffffff) by (nonlinear_arith)
            requires
                0 <= (xd as int) <= 0xffffffff,
                0 <= (yd as int) <= 0xffffffff,
        ;
        assert((xn as int) * (yd as int) >= 0 && (yn as int) * (xd as int) >= 0 && (xd as int) * (
        yd as int) >= 1) by (nonlinear_arith)
            requires
                0 <= (xn as int),
                0 <= (yn as int),
                1 <= (xd as int),
                1 <= (yd as int),
        ;
    }
    let p_x: u128 = (xn as u128) * (yd as u128);
    let p_y: u128 = (yn as u128) * (xd as u128);
    let dens: u128 = (xd as u128) * (yd as u128);
    let diff: u128 = if p_x >= p_y {
        p_x - p_y
    } else {
        p_y - p_x
    };
    if 10 * diff < dens {
        let q: u64 = xn / xd;
        proof {
            lemma_div_is_ordered(0, xn as int, xd as int);
            lemma_div_is_ordered(xn as int, 0xffffffff, xd as int);
            assert(0xffffffffint / (xd as int) <= 0xffffffffint);
        }
        q as u32
    } else {
        let num: u128 = p_x + p_y;
        let den: u128 = 2 * dens;
        let q: u128 = num / den;
        proof {
            let c: int = 0xffffffff;
            let xdi = xd as int;
            let ydi = yd as int;
            assert((xn as int) * ydi + (yn as int) * xdi <= c * (xdi + ydi)) by (nonlinear_arith)
                requires
                    0 <= (xn as int) <= c,
                    0 <= (yn as int) <= c,
                    1 <= xdi,
                    1 <= ydi,
            ;
            assert(c * (xdi + ydi) <= c * (2 * (xdi * ydi))) by (nonlinear_arith)
                requires
                    1 <= xdi <= c,
                    1 <= ydi <= c,
                    0 < c,
            ;
            assert(c * (2 * (xdi * ydi)) == c * (2 * xdi * ydi)) by (nonlinear_arith);
            lemma_div_is_ordered(num as int, c * (2 * xdi * ydi), 2 * xdi * ydi);
            assert(c * (2 * xdi * ydi) == c * (2 * xdi * ydi) + 0);
            lemma_fundamental_div_mod_converse(c * (2 * xdi * ydi), 2 * xdi * ydi, c, 0);
            lemma_div_pos_is_pos(num as int, 2 * xdi * ydi);
        }
        q as u32
    }
}

/// The DPI derived from a source's X and Y resolution tags, with the
/// documented fallback: a missing or unparseable tag yields
/// [`DEFAULT_DPI`]; readable tags that agree within a tenth yield the
/// X value; readable tags that differ yield the arithmetic mean.
pub fn derive_dpi(x_tag: Option<&[u8]>, y_tag: Option<&[u8]>) -> (dpi: u32)
    ensures
        match (x_tag, y_tag) {
            (Some(x), Some(y)) => dpi as int == spec_dpi_tags(x@, y@),
            _ => dpi == DEFAULT_DPI,
        },
{
    let x = match x_tag {
        Some(x) => x,
        None => {
            return DEFAULT_DPI;
        },
    };
    let y = match y_tag {
        Some(y) => y,
        None => {
            return DEFAULT_DPI;
        },
    };
    let xr = match parse_rational(x) {
        Some(v) => v,
        None => {
            return DEFAULT_DPI;
        },
    };
    let yr = match parse_rational(y) {
        Some(v) => v,
        None => {
            return DEFAULT_DPI;
        },
    };
    proof {
        lemma_rational_bounds(x@);
        lemma_rational_bounds(y@);
    }
    combined_dpi(xr.0, xr.1, yr.0, yr.1)
}

/// A parsed rational's parts fit 32 bits and its denominator is
/// positive.
proof fn lemma_rational_bounds(s: Seq<u8>)
    ensures
        spec_parse_rational(s) matches Some(v) ==> 0 <= v.0 <= 0xffffffff && 1 <= v.1
            <= 0xffffffff,
{
    if spec_parse_rational(s) is Some {
        let slash = first_slash(s);
        if slash == s.len() {
            lemma_dec_value_nonneg(s);
        } else {
            lemma_dec_value_nonneg(s.take(slash));
            lemma_dec_value_nonneg(s.skip(slash + 1));
        }
    }
}

} // verus!
