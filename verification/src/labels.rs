//! Human-readable labels of servo ids, as the error reports show them.
use vstd::prelude::*;
use vstd::string::*;
use crate::motors::{motor_name, motor_name_spec};

verus! {

/// The character of a decimal digit.
pub open spec fn digit_char(d: nat) -> char {
    if d == 0 {
        '0'
    } else if d == 1 {
        '1'
    } else if d == 2 {
        '2'
    } else if d == 3 {
        '3'
    } else if d == 4 {
        '4'
    } else if d == 5 {
        '5'
    } else if d == 6 {
        '6'
    } else if d == 7 {
        '7'
    } else if d == 8 {
        '8'
    } else {
        '9'
    }
}

/// Decimal notation of a natural number, without leading zeros.
pub open spec fn decimal(n: nat) -> Seq<char>
    decreases n,
{
    if n < 10 {
        seq![digit_char(n)]
    } else {
        decimal(n / 10) + seq![digit_char(n % 10)]
    }
}

/// Label shown for a servo id that is not on the bus.
pub open spec fn unknown_label(id: u8) -> Seq<char> {
    "Unknown("@ + decimal(id as nat) + ")"@
}

/// Label of a servo id: its joint name, or `Unknown(<id>)`.
pub open spec fn motor_label_spec(id: u8) -> Seq<char> {
    match motor_name_spec(id) {
        Some(name) => name,
        None => unknown_label(id),
    }
}

fn push_digit(s: &mut String, d: u8)
    requires
        d < 10,
    ensures
        final(s)@ == old(s)@ + seq![digit_char(d as nat)],
{
    proof {
        reveal_strlit("0");
        reveal_strlit("1");
        reveal_strlit("2");
        reveal_strlit("3");
        reveal_strlit("4");
        reveal_strlit("5");
        reveal_strlit("6");
        reveal_strlit("7");
        reveal_strlit("8");
        reveal_strlit("9");
    }
    let digit = if d == 0 {
        "0"
    } else if d == 1 {
        "1"
    } else if d == 2 {
        "2"
    } else if d == 3 {
        "3"
    } else if d == 4 {
        "4"
    } else if d == 5 {
        "5"
    } else if d == 6 {
        "6"
    } else if d == 7 {
        "7"
    } else if d == 8 {
        "8"
    } else {
        "9"
    };
    s.append(digit);
}

/// Append the decimal notation of `n` to `s`.
pub fn push_decimal(s: &mut String, n: u8)
    ensures
        final(s)@ == old(s)@ + decimal(n as nat),
{
    if n < 10 {
        push_digit(s, n);
    } else if n < 100 {
        push_digit(s, n / 10);
        push_digit(s, n % 10);
        assert(decimal((n / 10) as nat) == seq![digit_char((n / 10) as nat)]);
    } else {
        push_digit(s, n / 100);
        push_digit(s, (n / 10) % 10);
        push_digit(s, n % 10);
        assert(decimal((n / 100) as nat) == seq![digit_char((n / 100) as nat)]);
        assert((n / 10) / 10 == n / 100);
        assert(decimal((n / 10) as nat) == decimal((n / 100) as nat) + seq![
            digit_char(((n / 10) % 10) as nat),
        ]);
    }
}

/// Label of a servo id for error reports: the joint name of a servo of the
/// bus, `Unknown(<id>)` for any other id.
pub fn motor_label(id: u8) -> (label: String)
    ensures
        label@ == motor_label_spec(id),
{
    match motor_name(id) {
        Some(name) => name,
        None => {
            proof {
                reveal_strlit("Unknown(");
                reveal_strlit(")");
            }
            let mut label = "Unknown(".to_owned();
            push_decimal(&mut label, id);
            label.append(")");
            label
        },
    }
}

} // verus!
