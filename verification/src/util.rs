//! Small helpers shared by the commands and the feed decoders.

use crate::text::{decimal, decimal_string, push_decimal};
use vstd::prelude::*;
use vstd::string::*;

verus! {

/// A string that was expected to spell a boolean and does not.
#[derive(Debug)]
pub struct InvalidBool {
    /// The text that was found.
    pub unexpected: String,
}

/// The boolean that `s` spells in the feeds: `1` and `0`, or `true` and
/// `false` in lower case, capitalised or upper case.
pub open spec fn bool_of(s: Seq<char>) -> Option<bool> {
    if s == seq!['0'] || s == seq!['f', 'a', 'l', 's', 'e'] || s == seq!['F', 'a', 'l', 's', 'e']
        || s == seq!['F', 'A', 'L', 'S', 'E'] {
        Some(false)
    } else if s == seq!['1'] || s == seq!['t', 'r', 'u', 'e'] || s == seq!['T', 'r', 'u', 'e'] || s
        == seq!['T', 'R', 'U', 'E'] {
        Some(true)
    } else {
        None
    }
}

/// Decodes a boolean that a feed wrote as a string. Any spelling but the
/// eight that `bool_of` lists is an error that carries the text found.
pub fn bool_from_string(s: &str) -> (r: Result<bool, InvalidBool>)
    ensures
        match r {
            Ok(b) => bool_of(s@) == Some(b),
            Err(e) => bool_of(s@) is None && e.unexpected@ == s@,
        },
{
    proof {
        reveal_strlit("0");
        reveal_strlit("false");
        reveal_strlit("False");
        reveal_strlit("FALSE");
        reveal_strlit("1");
        reveal_strlit("true");
        reveal_strlit("True");
        reveal_strlit("TRUE");
        assert("0"@ =~= seq!['0']);
        assert("false"@ =~= seq!['f', 'a', 'l', 's', 'e']);
        assert("False"@ =~= seq!['F', 'a', 'l', 's', 'e']);
        assert("FALSE"@ =~= seq!['F', 'A', 'L', 'S', 'E']);
        assert("1"@ =~= seq!['1']);
        assert("true"@ =~= seq!['t', 'r', 'u', 'e']);
        assert("True"@ =~= seq!['T', 'r', 'u', 'e']);
        assert("TRUE"@ =~= seq!['T', 'R', 'U', 'E']);
    }
    if *s == *"0" || *s == *"false" || *s == *"False" || *s == *"FALSE" {
        Ok(false)
    } else if *s == *"true" || *s == *"1" || *s == *"True" || *s == *"TRUE" {
        Ok(true)
    } else {
        Err(InvalidBool { unexpected: String::from_str(s) })
    }
}

/// The text shown for an arrival that is `m` minutes away.
pub open spec fn countdown_text(m: int) -> Seq<char> {
    if m < 2 {
        seq!['D', 'u', 'e']
    } else if m < 59 {
        decimal(m) + seq![' ', 'm', 'i', 'n']
    } else if m == 60 {
        seq!['1', ' ', 'h', 'r']
    } else {
        decimal(m % 60) + seq![' ', 'h', 'r', ' '] + decimal(m - 60 * (m % 60)) + seq![
            ' ',
            'm',
            'i',
            'n',
        ]
    }
}

/// Words an arrival that is `mins_until` minutes away: `Due` under two
/// minutes, minutes up to 58, `1 hr` at exactly 60, and hours with minutes
/// otherwise.
pub fn countdown(mins_until: i32) -> (r: String)
    ensures
        r@ == countdown_text(mins_until as int),
{
    proof {
        reveal_strlit("Due");
        reveal_strlit(" min");
        reveal_strlit("1 hr");
        reveal_strlit(" hr ");
    }
    if mins_until < 2 {
        let r = String::from_str("Due");
        assert(r@ =~= countdown_text(mins_until as int));
        r
    } else if mins_until < 59 {
        let mut r = decimal_string(mins_until as i64);
        r.append(" min");
        assert(r@ =~= countdown_text(mins_until as int));
        r
    } else if mins_until == 60 {
        let r = String::from_str("1 hr");
        assert(r@ =~= countdown_text(mins_until as int));
        r
    } else {
        let hrs: i32 = mins_until % 60;
        let mins: i32 = mins_until - (60 * hrs);
        let mut r = decimal_string(hrs as i64);
        r.append(" hr ");
        push_decimal(&mut r, mins as i64);
        r.append(" min");
        assert(r@ =~= countdown_text(mins_until as int));
        r
    }
}

/// An instant: whole seconds since the Unix epoch, and the nanoseconds
/// past them.
#[derive(Clone, Copy, Debug, PartialEq, Eq, Structural)]
pub struct Instant {
    pub secs: i64,
    pub nanos: u32,
}

/// Whole minutes from the instant `now` until `target_secs` seconds since
/// the Unix epoch, rounded toward zero and held to the range of `i32`.
pub open spec fn minutes_between_spec(target_secs: int, now: Instant) -> int {
    let diff = (target_secs - now.secs) * 1_000_000_000 - now.nanos;
    let whole = if diff >= 0 {
        diff / 60_000_000_000
    } else {
        -((-diff) / 60_000_000_000)
    };
    if whole > i32::MAX {
        i32::MAX as int
    } else if whole < i32::MIN {
        i32::MIN as int
    } else {
        whole
    }
}

/// Whole minutes from the instant `now` until `target_secs`.
pub fn minutes_between(target_secs: i64, now: Instant) -> (r: i32)
    ensures
        r == minutes_between_spec(target_secs as int, now),
{
    let diff: i128 = ((target_secs as i128) - (now.secs as i128)) * 1_000_000_000 - (
    now.nanos as i128);
    let whole: i128 = if diff >= 0 {
        diff / 60_000_000_000
    } else {
        -((-diff) / 60_000_000_000)
    };
    if whole > 2147483647 {
        2147483647
    } else if whole < -2147483648 {
        -2147483648
    } else {
        whole as i32
    }
}

/// The current instant, as `chrono::Utc::now` reads it from the system
/// clock. Nothing is claimed of the value.
#[verifier::external_body]
fn now() -> Instant {
    let at = chrono::Utc::now();
    Instant { secs: at.timestamp(), nanos: at.timestamp_subsec_nanos() }
}

/// Whole minutes from now until `target_secs` (seconds since the Unix
/// epoch): `minutes_between` of it and some reading of the clock.
pub fn minutes_until(target_secs: i64) -> (r: i32)
    ensures
        exists|at: Instant| r == minutes_between_spec(target_secs as int, at),
{
    let at = now();
    minutes_between(target_secs, at)
}

} // verus!
