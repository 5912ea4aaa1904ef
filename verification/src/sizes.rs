//! Human-readable file sizes.
//!
//! Artifact byte counts are reported with two decimal places in the
//! largest binary unit of KB, MB and GB that the count reaches, with
//! KB as the floor unit; the fractional part is rounded to the
//! nearest hundredth, ties away from zero.

use vstd::prelude::*;
use vstd::string::StringExecFns;
use vstd::arithmetic::div_mod::lemma_div_is_ordered;

verus! {

/// The decimal digit character for a value below ten.
pub open spec fn digit_char(n: int) -> char
    recommends
        0 <= n < 10,
{
    if n == 0 {
        '0'
    } else if n == 1 {
        '1'
    } else if n == 2 {
        '2'
    } else if n == 3 {
        '3'
    } else if n == 4 {
        '4'
    } else if n == 5 {
        '5'
    } else if n == 6 {
        '6'
    } else if n == 7 {
        '7'
    } else if n == 8 {
        '8'
    } else {
        '9'
    }
}

/// The decimal digits of a non-negative value, most significant first.
pub open spec fn spec_decimal_digits(n: int) -> Seq<char>
    recommends
        n >= 0,
    decreases n,
{
    if n < 10 {
        seq![digit_char(n)]
    } else {
        spec_decimal_digits(n / 10) + seq![digit_char(n % 10)]
    }
}

/// A count of hundredths rendered with two decimal places, such as
/// `150` rendered as `1.50`.
pub open spec fn spec_two_decimals(hundredths: int) -> Seq<char>
    recommends
        hundredths >= 0,
{
    spec_decimal_digits(hundredths / 100) + seq!['.'] + (if hundredths % 100 < 10 {
        seq!['0']
    } else {
        Seq::empty()
    }) + spec_decimal_digits(hundredths % 100)
}

/// A byte count in a unit, as hundredths of that unit, rounded to the
/// nearest hundredth with ties away from zero.
pub open spec fn spec_rounded_hundredths(bytes: int, unit: int) -> int
    recommends
        bytes >= 0,
        unit >= 1,
{
    (200 * bytes + unit) / (2 * unit)
}

/// A byte count rendered in its unit: GB from a gibibyte up, MB from
/// a mebibyte up, KB below that, always with two decimals.
pub open spec fn spec_file_size_string(bytes: int) -> Seq<char>
    recommends
        bytes >= 0,
{
    if bytes >= 0x40000000 {
        spec_two_decimals(spec_rounded_hundredths(bytes, 0x40000000)) + " GB"@
    } else if bytes >= 0x100000 {
        spec_two_decimals(spec_rounded_hundredths(bytes, 0x100000)) + " MB"@
    } else {
        spec_two_decimals(spec_rounded_hundredths(bytes, 0x400)) + " KB"@
    }
}

/// The string of one decimal digit.
fn digit_str(d: u64) -> (r: &'static str)
    requires
        d < 10,
    ensures
        r@ == seq![digit_char(d as int)],
{
    if d == 0 {
        proof {
            reveal_strlit("0");
        }
        assert("0"@ =~= seq![digit_char(0)]);
        "0"
    } else if d == 1 {
        proof {
            reveal_strlit("1");
        }
        assert("1"@ =~= seq![digit_char(1)]);
        "1"
    } else if d == 2 {
        proof {
            reveal_strlit("2");
        }
        assert("2"@ =~= seq![digit_char(2)]);
        "2"
    } else if d == 3 {
        proof {
            reveal_strlit("3");
        }
        assert("3"@ =~= seq![digit_char(3)]);
        "3"
    } else if d == 4 {
        proof {
            reveal_strlit("4");
        }
        assert("4"@ =~= seq![digit_char(4)]);
        "4"
    } else if d == 5 {
        proof {
            reveal_strlit("5");
        }
        assert("5"@ =~= seq![digit_char(5)]);
        "5"
    } else if d == 6 {
        proof {
            reveal_strlit("6");
        }
        assert("6"@ =~= seq![digit_char(6)]);
        "6"
    } else if d == 7 {
        proof {
            reveal_strlit("7");
        }
        assert("7"@ =~= seq![digit_char(7)]);
        "7"
    } else if d == 8 {
        proof {
            reveal_strlit("8");
        }
        assert("8"@ =~= seq![digit_char(8)]);
        "8"
    } else {
        proof {
            reveal_strlit("9");
        }
        assert("9"@ =~= seq![digit_char(9)]);
        "9"
    }
}

/// The decimal rendering of a value, most significant digit first.
pub fn u64_to_decimal(n: u64) -> (r: String)
    ensures
        r@ == spec_decimal_digits(n as int),
    decreases n,
{
    if n < 10 {
        digit_str(n).to_owned()
    } else {
        let mut prefix = u64_to_decimal(n / 10);
        prefix.append(digit_str(n % 10));
        prefix
    }
}

/// Append the two-decimal rendering of a count of hundredths.
fn push_two_decimals(out: &mut String, hundredths: u64)
    ensures
        final(out)@ == old(out)@ + spec_two_decimals(hundredths as int),
{
    let whole = u64_to_decimal(hundredths / 100);
    out.append(whole.as_str());
    proof {
        reveal_strlit(".");
        assert("."@ =~= seq!['.']);
    }
    out.append(".");
    let rem = hundredths % 100;
    if rem < 10 {
        proof {
            reveal_strlit("0");
            assert("0"@ =~= seq!['0']);
        }
        out.append("0");
    }
    let fraction = u64_to_decimal(rem);
    out.append(fraction.as_str());
    proof {
        if hundredths % 100 >= 10 {
            assert(old(out)@ + spec_decimal_digits(hundredths as int / 100) + seq!['.']
                + Seq::<char>::empty() + spec_decimal_digits(hundredths as int % 100) =~= old(
                out,
            )@ + spec_decimal_digits(hundredths as int / 100) + seq!['.'] + spec_decimal_digits(
                hundredths as int % 100,
            ));
        }
    }
}

/// A byte count in a unit, as hundredths of that unit, rounded to the
/// nearest hundredth with ties away from zero.
fn rounded_hundredths(bytes: u64, unit: u64) -> (r: u64)
    requires
        1 <= unit,
        (200 * (bytes as int) + unit) / (2 * (unit as int)) < 0x10000000000000000,
    ensures
        r as int == spec_rounded_hundredths(bytes as int, unit as int),
{
    let q: u128 = ((bytes as u128) * 200 + (unit as u128)) / (2 * (unit as u128));
    proof {
        assert(200 * (bytes as int) == (bytes as int) * 200) by (nonlinear_arith);
        vstd::arithmetic::div_mod::lemma_div_pos_is_pos(
            200 * (bytes as int) + unit,
            2 * (unit as int),
        );
    }
    q as u64
}

/// A byte count rendered for humans, in KB, MB or GB with two decimal
/// places, rounded to the nearest hundredth of the unit.
pub fn format_file_size(bytes: u64) -> (r: String)
    ensures
        r@ == spec_file_size_string(bytes as int),
{
    let mut out = String::new();
    if bytes >= 0x40000000 {
        proof {
            lemma_div_is_ordered(
                200 * (bytes as int) + 0x40000000,
                200 * 0xffffffffffffffffint + 0x40000000,
                0x80000000,
            );
            assert((200 * 0xffffffffffffffffint + 0x40000000) / 0x80000000
                < 0x10000000000000000) by (nonlinear_arith);
        }
        push_two_decimals(&mut out, rounded_hundredths(bytes, 0x40000000));
        proof {
            reveal_strlit(" GB");
        }
        out.append(" GB");
    } else if bytes >= 0x100000 {
        proof {
            lemma_div_is_ordered(
                200 * (bytes as int) + 0x100000,
                200 * 0x40000000int + 0x100000,
                0x200000,
            );
            assert((200 * 0x40000000int + 0x100000) / 0x200000 < 0x10000000000000000)
                by (nonlinear_arith);
        }
        push_two_decimals(&mut out, rounded_hundredths(bytes, 0x100000));
        proof {
            reveal_strlit(" MB");
        }
        out.append(" MB");
    } else {
        proof {
            lemma_div_is_ordered(
                200 * (bytes as int) + 0x400,
                200 * 0x100000int + 0x400,
                0x800,
            );
            assert((200 * 0x100000int + 0x400) / 0x800 < 0x10000000000000000) by (nonlinear_arith);
        }
        push_two_decimals(&mut out, rounded_hundredths(bytes, 0x400));
        proof {
            reveal_strlit(" KB");
        }
        out.append(" KB");
    }
    out
}

} // verus!
