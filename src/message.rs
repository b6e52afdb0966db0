//! The text that goes with each status event, as the control surface shows it.

use vstd::prelude::*;
use crate::activity::StatusEvent;

verus! {

/// The character of a decimal digit.
pub open spec fn digit_char(d: nat) -> char {
    if d == 0 {
        '0'
    } else if d == 1 {
        '1'
    } else if d == 2 {
        '2'
    } else if d == 3 {
        '3'
    } else if d == 4 {
        '4'
    } else if d == 5 {
        '5'
    } else if d == 6 {
        '6'
    } else if d == 7 {
        '7'
    } else if d == 8 {
        '8'
    } else {
        '9'
    }
}

/// The decimal digits of `n`, most significant first, without leading zeros.
pub open spec fn decimal(n: nat) -> Seq<char>
    decreases n,
{
    if n < 10 {
        seq![digit_char(n)]
    } else {
        decimal(n / 10).push(digit_char(n % 10))
    }
}

/// `v` in decimal with its sign always written: `+0`, `+3`, `-5`.
pub open spec fn signed_decimal(v: int) -> Seq<char> {
    if v >= 0 {
        seq!['+'] + decimal(v as nat)
    } else {
        seq!['-'] + decimal((-v) as nat)
    }
}

/// The text of a jiggle report.
pub open spec fn jiggled_text(dx: i32, dy: i32, idle_seconds: u64) -> Seq<char> {
    "Jiggled ("@ + signed_decimal(dx as int) + ", "@ + signed_decimal(dy as int) + ") - idle for "@
        + decimal(idle_seconds as nat) + "s"@
}

/// The text shown for an event.
pub open spec fn event_text(e: StatusEvent) -> Seq<char> {
    match e {
        StatusEvent::ActivityDetected => "Activity detected - pausing jiggler"@,
        StatusEvent::IdleDetected => "Idle detected - starting auto-jiggle"@,
        StatusEvent::Jiggled { dx, dy, idle_seconds } => jiggled_text(dx, dy, idle_seconds),
        StatusEvent::Stopped => "Jiggler stopped"@,
    }
}

fn digit_str(d: u64) -> (r: &'static str)
    requires
        d < 10,
    ensures
        r@ == seq![digit_char(d as nat)],
{
    proof {
        reveal_strlit("0");
        reveal_strlit("1");
        reveal_strlit("2");
        reveal_strlit("3");
        reveal_strlit("4");
        reveal_strlit("5");
        reveal_strlit("6");
        reveal_strlit("7");
        reveal_strlit("8");
        reveal_strlit("9");
    }
    let r = if d == 0 {
        "0"
    } else if d == 1 {
        "1"
    } else if d == 2 {
        "2"
    } else if d == 3 {
        "3"
    } else if d == 4 {
        "4"
    } else if d == 5 {
        "5"
    } else if d == 6 {
        "6"
    } else if d == 7 {
        "7"
    } else if d == 8 {
        "8"
    } else {
        "9"
    };
    assert(r@ =~= seq![digit_char(d as nat)]);
    r
}

/// Appends the decimal digits of `n` to `out`.
pub fn push_decimal(out: &mut String, n: u64)
    ensures
        final(out)@ == old(out)@ + decimal(n as nat),
    decreases n,
{
    if n >= 10 {
        push_decimal(out, n / 10);
    }
    out.append(digit_str(n % 10));
    proof {
        if n >= 10 {
            assert(decimal(n as nat) == decimal((n / 10) as nat).push(digit_char((n % 10) as nat)));
        }
        assert(final(out)@ =~= old(out)@ + decimal(n as nat));
    }
}

/// Appends `v` in decimal, with its sign always written.
pub fn push_signed(out: &mut String, v: i32)
    ensures
        final(out)@ == old(out)@ + signed_decimal(v as int),
{
    proof {
        reveal_strlit("+");
        reveal_strlit("-");
    }
    if v >= 0 {
        out.append("+");
        push_decimal(out, v as u64);
    } else {
        out.append("-");
        let m: u64 = (0 - (v as i64)) as u64;
        push_decimal(out, m);
    }
    assert(final(out)@ =~= old(out)@ + signed_decimal(v as int));
}

impl StatusEvent {
    /// The channel an event is published on: jiggle reports on their own,
    /// state changes on the status channel.
    pub fn channel(&self) -> (r: &'static str)
        ensures
            r@ == (match self {
                StatusEvent::Jiggled { .. } => "jiggle"@,
                _ => "status"@,
            }),
    {
        match self {
            StatusEvent::Jiggled { .. } => "jiggle",
            _ => "status",
        }
    }

    /// The text shown for the event.
    pub fn message(&self) -> (r: String)
        ensures
            r@ == event_text(*self),
    {
        match self {
            StatusEvent::ActivityDetected => String::from_str("Activity detected - pausing jiggler"),
            StatusEvent::IdleDetected => String::from_str("Idle detected - starting auto-jiggle"),
            StatusEvent::Jiggled { dx, dy, idle_seconds } => {
                let mut out = String::from_str("Jiggled (");
                push_signed(&mut out, *dx);
                out.append(", ");
                push_signed(&mut out, *dy);
                out.append(") - idle for ");
                push_decimal(&mut out, *idle_seconds);
                out.append("s");
                assert(out@ =~= jiggled_text(*dx, *dy, *idle_seconds));
                out
            },
            StatusEvent::Stopped => String::from_str("Jiggler stopped"),
        }
    }
}

} // verus!
