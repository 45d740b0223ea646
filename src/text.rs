use vstd::prelude::*;
use vstd::string::*;

verus! {

/// The decimal digit character for `d < 10`.
pub open spec fn digit_char(d: nat) -> char {
    if d == 0 { '0' }
    else if d == 1 { '1' }
    else if d == 2 { '2' }
    else if d == 3 { '3' }
    else if d == 4 { '4' }
    else if d == 5 { '5' }
    else if d == 6 { '6' }
    else if d == 7 { '7' }
    else if d == 8 { '8' }
    else { '9' }
}

/// The decimal digits of `n`, without leading zeros.
pub open spec fn digits(n: nat) -> Seq<char>
    decreases n,
{
    if n < 10 {
        seq![digit_char(n)]
    } else {
        digits(n / 10) + seq![digit_char(n % 10)]
    }
}

/// The decimal text of an integer, with a leading minus when negative.
pub open spec fn decimal(i: int) -> Seq<char> {
    if i < 0 {
        seq!['-'] + digits((-i) as nat)
    } else {
        digits(i as nat)
    }
}

/// A whole-degree temperature followed by the degree sign.
pub open spec fn temperature_text(t: int) -> Seq<char> {
    decimal(t) + seq!['\u{b0}']
}

fn digit_str(d: u32) -> (r: &'static str)
    requires
        d < 10,
    ensures
        r@ == seq![digit_char(d as nat)],
{
    proof {
        reveal_strlit("0");
        reveal_strlit("1");
        reveal_strlit("2");
        reveal_strlit("3");
        reveal_strlit("4");
        reveal_strlit("5");
        reveal_strlit("6");
        reveal_strlit("7");
        reveal_strlit("8");
        reveal_strlit("9");
    }
    if d == 0 { "0" }
    else if d == 1 { "1" }
    else if d == 2 { "2" }
    else if d == 3 { "3" }
    else if d == 4 { "4" }
    else if d == 5 { "5" }
    else if d == 6 { "6" }
    else if d == 7 { "7" }
    else if d == 8 { "8" }
    else { "9" }
}

/// Appends the decimal digits of `n` to `out`.
pub fn push_digits(out: &mut String, n: u32)
    ensures
        final(out)@ == old(out)@ + digits(n as nat),
    decreases n,
{
    if n >= 10 {
        push_digits(out, n / 10);
        out.append(digit_str(n % 10));
        assert(final(out)@ =~= old(out)@ + digits(n as nat));
    } else {
        out.append(digit_str(n));
        assert(final(out)@ =~= old(out)@ + digits(n as nat));
    }
}

/// Formats a whole-degree temperature, such as `21°` or `-4°`.
pub fn format_temperature(t: i8) -> (r: String)
    ensures
        r@ == temperature_text(t as int),
{
    let mut out = String::new();
    if t < 0 {
        proof { reveal_strlit("-"); }
        out.append("-");
        let mag: u32 = (0i16 - t as i16) as u32;
        push_digits(&mut out, mag);
    } else {
        push_digits(&mut out, t as u32);
    }
    proof { reveal_strlit("\u{b0}"); }
    out.append("\u{b0}");
    assert(out@ =~= temperature_text(t as int));
    out
}

} // verus!
