//! The dashboard's text: decimal rendering and the short status labels
//! shown for each session. Rendering itself (the terminal) lives outside
//! this crate; it asks here for every string it prints.

use vstd::prelude::*;

verus! {

/// The character of one decimal digit.
pub open spec fn digit_char(d: nat) -> char {
    if d == 0 {
        '0'
    } else if d == 1 {
        '1'
    } else if d == 2 {
        '2'
    } else if d == 3 {
        '3'
    } else if d == 4 {
        '4'
    } else if d == 5 {
        '5'
    } else if d == 6 {
        '6'
    } else if d == 7 {
        '7'
    } else if d == 8 {
        '8'
    } else {
        '9'
    }
}

/// The decimal digits of `n`, most significant first, with no leading
/// zero except for `n == 0` itself.
pub open spec fn dec_digits(n: nat) -> Seq<char>
    decreases n,
{
    if n < 10 {
        seq![digit_char(n)]
    } else {
        dec_digits(n / 10).push(digit_char(n % 10))
    }
}

fn digit_str(d: u64) -> (r: &'static str)
    requires
        d < 10,
    ensures
        r@ == seq![digit_char(d as nat)],
{
    if d == 0 {
        proof {
            reveal_strlit("0");
            assert("0"@ =~= seq![digit_char(0)]);
        }
        "0"
    } else if d == 1 {
        proof {
            reveal_strlit("1");
            assert("1"@ =~= seq![digit_char(1)]);
        }
        "1"
    } else if d == 2 {
        proof {
            reveal_strlit("2");
            assert("2"@ =~= seq![digit_char(2)]);
        }
        "2"
    } else if d == 3 {
        proof {
            reveal_strlit("3");
            assert("3"@ =~= seq![digit_char(3)]);
        }
        "3"
    } else if d == 4 {
        proof {
            reveal_strlit("4");
            assert("4"@ =~= seq![digit_char(4)]);
        }
        "4"
    } else if d == 5 {
        proof {
            reveal_strlit("5");
            assert("5"@ =~= seq![digit_char(5)]);
        }
        "5"
    } else if d == 6 {
        proof {
            reveal_strlit("6");
            assert("6"@ =~= seq![digit_char(6)]);
        }
        "6"
    } else if d == 7 {
        proof {
            reveal_strlit("7");
            assert("7"@ =~= seq![digit_char(7)]);
        }
        "7"
    } else if d == 8 {
        proof {
            reveal_strlit("8");
            assert("8"@ =~= seq![digit_char(8)]);
        }
        "8"
    } else {
        proof {
            reveal_strlit("9");
            assert("9"@ =~= seq![digit_char(9)]);
        }
        "9"
    }
}

/// Renders a number in decimal.
pub fn u64_to_string(n: u64) -> (r: String)
    ensures
        r@ == dec_digits(n as nat),
    decreases n,
{
    if n < 10 {
        String::from_str(digit_str(n))
    } else {
        let mut s = u64_to_string(n / 10);
        s.append(digit_str(n % 10));
        proof {
            assert(s@ =~= dec_digits(n as nat));
        }
        s
    }
}

/// The battery column: the cached percentage in decimal, or "N/A" when
/// no battery report has arrived.
pub open spec fn spec_battery_label(battery: Option<u8>) -> Seq<char> {
    match battery {
        Some(level) => dec_digits(level as nat),
        None => "N/A"@,
    }
}

/// Renders the battery column of one session.
pub fn battery_label(battery: Option<u8>) -> (r: String)
    ensures
        r@ == spec_battery_label(battery),
{
    match battery {
        Some(level) => u64_to_string(level as u64),
        None => String::from_str("N/A"),
    }
}

/// The catalog-number column: the number in decimal, or "N/A" for a
/// label that is not on record.
pub open spec fn spec_id_label(id: Option<usize>) -> Seq<char> {
    match id {
        Some(i) => dec_digits(i as nat),
        None => "N/A"@,
    }
}

/// Renders the catalog-number column of one session.
pub fn id_label(id: Option<usize>) -> (r: String)
    ensures
        r@ == spec_id_label(id),
{
    match id {
        Some(i) => u64_to_string(i as u64),
        None => String::from_str("N/A"),
    }
}

/// The age column for a timestamp `ms` milliseconds old: "<50ms" while
/// fresh, ">N ms" rounded down to the hundred below one second, whole
/// seconds beyond.
pub open spec fn spec_elapsed_label(ms: u64) -> Seq<char> {
    if ms < 50 {
        "<50ms"@
    } else if ms < 1000 {
        ">"@ + dec_digits((ms - ms % 100) as nat) + "ms"@
    } else {
        dec_digits((ms / 1000) as nat) + "s"@
    }
}

/// Renders the age of a telemetry timestamp.
pub fn elapsed_label(ms: u64) -> (r: String)
    ensures
        r@ == spec_elapsed_label(ms),
{
    if ms < 50 {
        String::from_str("<50ms")
    } else if ms < 1000 {
        let mut s = String::from_str(">");
        let rounded = ms - ms % 100;
        s.append(u64_to_string(rounded).as_str());
        s.append("ms");
        proof {
            assert(s@ =~= spec_elapsed_label(ms));
        }
        s
    } else {
        let mut s = u64_to_string(ms / 1000);
        s.append("s");
        proof {
            assert(s@ =~= spec_elapsed_label(ms));
        }
        s
    }
}

} // verus!
