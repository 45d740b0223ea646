use chrono::Timelike;
use vstd::prelude::*;
use vstd::string::*;
use crate::text::{digit_char, digits, push_digits};

verus! {

/// A local wall-clock time of day, to the minute.
#[derive(Clone, Copy, Debug, PartialEq, Eq, Structural)]
pub struct ClockTime {
    pub hour: u8,
    pub minute: u8,
}

impl ClockTime {
    pub open spec fn wf(&self) -> bool {
        self.hour < 24 && self.minute < 60
    }

    /// A time of day from an hour (0 to 23) and a minute (0 to 59); `None`
    /// when either is out of range.
    pub fn from_hm(hour: u8, minute: u8) -> (r: Option<ClockTime>)
        ensures
            r is Some <==> (hour < 24 && minute < 60),
            r matches Some(t) ==> t.hour == hour && t.minute == minute && t.wf(),
    {
        if hour < 24 && minute < 60 {
            Some(ClockTime { hour, minute })
        } else {
            None
        }
    }
}

/// The hour on a twelve-hour dial: 12 for midnight and noon.
pub open spec fn hour12(h: nat) -> nat {
    if h % 12 == 0 { 12 } else { h % 12 }
}

/// A minute as two digits.
pub open spec fn two_digits(m: nat) -> Seq<char> {
    seq![digit_char(m / 10), digit_char(m % 10)]
}

/// `AM` before noon, `PM` from noon on.
pub open spec fn meridiem(h: nat) -> Seq<char> {
    if h < 12 { seq!['A', 'M'] } else { seq!['P', 'M'] }
}

/// A time as `h:mm AM`, the hour unpadded on a twelve-hour dial.
pub open spec fn clock_text(t: ClockTime) -> Seq<char> {
    digits(hour12(t.hour as nat)) + seq![':'] + two_digits(t.minute as nat) + seq![' ']
        + meridiem(t.hour as nat)
}

/// The caption that tells when the screen was last drawn.
pub open spec fn updated_text(t: ClockTime) -> Seq<char> {
    seq!['U', 'p', 'd', 'a', 't', 'e', 'd', ':', ' '] + clock_text(t)
}

/// Appends `t` as `h:mm AM` to `out`.
pub fn push_clock(out: &mut String, t: &ClockTime)
    requires
        t.wf(),
    ensures
        final(out)@ == old(out)@ + clock_text(*t),
{
    let h12: u32 = if t.hour % 12 == 0 { 12 } else { (t.hour % 12) as u32 };
    push_digits(out, h12);
    proof { reveal_strlit(":"); }
    out.append(":");
    let m = t.minute as u32;
    push_digits(out, m / 10);
    push_digits(out, m % 10);
    if t.hour < 12 {
        proof { reveal_strlit(" AM"); }
        out.append(" AM");
    } else {
        proof { reveal_strlit(" PM"); }
        out.append(" PM");
    }
    assert(final(out)@ =~= old(out)@ + clock_text(*t));
}

/// Formats the caption `Updated: h:mm AM` for a time of day.
pub fn format_updated(t: &ClockTime) -> (r: String)
    requires
        t.wf(),
    ensures
        r@ == updated_text(*t),
{
    proof { reveal_strlit("Updated: "); }
    let mut out = String::from_str("Updated: ");
    push_clock(&mut out, t);
    assert(out@ =~= updated_text(*t));
    out
}

/// Relies on chrono::Local::now with Timelike::hour (0 to 23) and
/// Timelike::minute (0 to 59): the local time of day now.
#[verifier::external_body]
pub(crate) fn local_now() -> (r: ClockTime)
    ensures
        r.wf(),
{
    let now = chrono::Local::now();
    ClockTime { hour: now.hour() as u8, minute: now.minute() as u8 }
}

} // verus!
