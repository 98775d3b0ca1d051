//! Rendering of byte counts as text: decimal numerals and the human-readable
//! byte-size form with KB/MB unit scaling to one decimal place.

use vstd::prelude::*;
use vstd::string::StringExecFns;
use vstd::arithmetic::div_mod::lemma_div_is_ordered;

verus! {

/// The character for the decimal digit `d` (`d < 10`).
pub open spec fn digit_char(d: nat) -> char {
    if d == 0 {
        '0'
    } else if d == 1 {
        '1'
    } else if d == 2 {
        '2'
    } else if d == 3 {
        '3'
    } else if d == 4 {
        '4'
    } else if d == 5 {
        '5'
    } else if d == 6 {
        '6'
    } else if d == 7 {
        '7'
    } else if d == 8 {
        '8'
    } else {
        '9'
    }
}

/// The decimal numeral for `n`, most significant digit first, no leading
/// zeros (a single `'0'` for zero).
pub open spec fn dec_str(n: nat) -> Seq<char>
    decreases n,
{
    if n < 10 {
        seq![digit_char(n)]
    } else {
        dec_str(n / 10) + seq![digit_char(n % 10)]
    }
}

fn digit_to_str(d: u64) -> (s: &'static str)
    requires
        d < 10,
    ensures
        s@ == seq![digit_char(d as nat)],
{
    if d == 0 {
        proof {
            reveal_strlit("0");
            assert("0"@ =~= seq![digit_char(0)]);
        }
        "0"
    } else if d == 1 {
        proof {
            reveal_strlit("1");
            assert("1"@ =~= seq![digit_char(1)]);
        }
        "1"
    } else if d == 2 {
        proof {
            reveal_strlit("2");
            assert("2"@ =~= seq![digit_char(2)]);
        }
        "2"
    } else if d == 3 {
        proof {
            reveal_strlit("3");
            assert("3"@ =~= seq![digit_char(3)]);
        }
        "3"
    } else if d == 4 {
        proof {
            reveal_strlit("4");
            assert("4"@ =~= seq![digit_char(4)]);
        }
        "4"
    } else if d == 5 {
        proof {
            reveal_strlit("5");
            assert("5"@ =~= seq![digit_char(5)]);
        }
        "5"
    } else if d == 6 {
        proof {
            reveal_strlit("6");
            assert("6"@ =~= seq![digit_char(6)]);
        }
        "6"
    } else if d == 7 {
        proof {
            reveal_strlit("7");
            assert("7"@ =~= seq![digit_char(7)]);
        }
        "7"
    } else if d == 8 {
        proof {
            reveal_strlit("8");
            assert("8"@ =~= seq![digit_char(8)]);
        }
        "8"
    } else {
        proof {
            reveal_strlit("9");
            assert("9"@ =~= seq![digit_char(9)]);
        }
        "9"
    }
}

/// Renders `n` as a decimal numeral.
pub fn u64_to_dec_string(n: u64) -> (s: String)
    ensures
        s@ == dec_str(n as nat),
    decreases n,
{
    if n < 10 {
        String::from_str(digit_to_str(n))
    } else {
        let mut s = u64_to_dec_string(n / 10);
        s.append(digit_to_str(n % 10));
        s
    }
}

/// `bytes` as tenths of a `unit`, rounded to the nearest tenth with ties
/// rounded up: `round(10 * bytes / unit)`.
pub open spec fn scaled_tenths(bytes: nat, unit: nat) -> nat
    recommends
        0 < unit,
{
    (10 * bytes + unit / 2) / unit
}

/// `bytes` scaled by `unit` to one decimal place: the numeral of the whole
/// part, a dot, and the tenths digit.
pub open spec fn scaled_str(bytes: nat, unit: nat) -> Seq<char>
    recommends
        0 < unit,
{
    dec_str(scaled_tenths(bytes, unit) / 10) + seq![
        '.',
        digit_char(scaled_tenths(bytes, unit) % 10),
    ]
}

/// The human-readable form of a byte count: scaled to MB at one million bytes
/// and above, to KB at one thousand and above, else the plain count.
pub open spec fn format_bytes_spec(bytes: nat) -> Seq<char> {
    if bytes >= 1_000_000 {
        scaled_str(bytes, 1_000_000) + " MB"@
    } else if bytes >= 1_000 {
        scaled_str(bytes, 1_000) + " KB"@
    } else {
        dec_str(bytes) + " bytes"@
    }
}

fn append_scaled(s: &mut String, tenths: u64)
    ensures
        final(s)@ == old(s)@ + dec_str((tenths / 10) as nat) + seq![
            '.',
            digit_char((tenths % 10) as nat),
        ],
{
    let whole = u64_to_dec_string(tenths / 10);
    s.append(whole.as_str());
    s.append(".");
    s.append(digit_to_str(tenths % 10));
    proof {
        reveal_strlit(".");
        assert(s@ =~= old(s)@ + dec_str((tenths / 10) as nat) + seq![
            '.',
            digit_char((tenths % 10) as nat),
        ]);
    }
}

/// Renders a byte count for display, scaling to KB or MB with one decimal
/// place (rounded to the nearest tenth, ties up) above the unit thresholds.
pub fn format_bytes(bytes: usize) -> (s: String)
    ensures
        s@ == format_bytes_spec(bytes as nat),
{
    if bytes >= 1_000_000 {
        let wide: u128 = (10 * (bytes as u128) + 500_000) / 1_000_000;
        proof {
            lemma_div_is_ordered(
                10 * (bytes as int) + 500_000,
                10 * (u64::MAX as int) + 500_000,
                1_000_000,
            );
        }
        let tenths: u64 = wide as u64;
        let mut s = String::new();
        append_scaled(&mut s, tenths);
        s.append(" MB");
        proof {
            assert(s@ =~= format_bytes_spec(bytes as nat));
        }
        s
    } else if bytes >= 1_000 {
        let tenths: u64 = (10 * (bytes as u64) + 500) / 1_000;
        let mut s = String::new();
        append_scaled(&mut s, tenths);
        s.append(" KB");
        proof {
            assert(s@ =~= format_bytes_spec(bytes as nat));
        }
        s
    } else {
        let mut s = u64_to_dec_string(bytes as u64);
        s.append(" bytes");
        proof {
            assert(s@ =~= format_bytes_spec(bytes as nat));
        }
        s
    }
}

} // verus!
