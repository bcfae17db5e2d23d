//! The texts shown to the user: the pre-break notification and the tray
//! menu's countdown line.
use vstd::prelude::*;
use vstd::string::StringExecFns;

verus! {

/// The character of the decimal digit `d`.
pub open spec fn digit_char(d: nat) -> char {
    if d == 0 {
        '0'
    } else if d == 1 {
        '1'
    } else if d == 2 {
        '2'
    } else if d == 3 {
        '3'
    } else if d == 4 {
        '4'
    } else if d == 5 {
        '5'
    } else if d == 6 {
        '6'
    } else if d == 7 {
        '7'
    } else if d == 8 {
        '8'
    } else {
        '9'
    }
}

/// `n` written in decimal, without leading zeros.
pub open spec fn decimal(n: nat) -> Seq<char>
    decreases n,
{
    if n < 10 {
        seq![digit_char(n)]
    } else {
        decimal(n / 10) + seq![digit_char(n % 10)]
    }
}

/// `n` in decimal, padded with a zero to at least two digits.
pub open spec fn two_digits(n: nat) -> Seq<char> {
    if n < 10 {
        "0"@ + decimal(n)
    } else {
        decimal(n)
    }
}

/// "s" unless the count is one.
pub open spec fn plural(n: nat) -> Seq<char> {
    if n == 1 {
        Seq::empty()
    } else {
        "s"@
    }
}

/// A count with its unit: "1 minute", "2 seconds". `unit` starts with a space.
pub open spec fn counted(n: nat, unit: Seq<char>) -> Seq<char> {
    decimal(n) + unit + plural(n)
}

/// The warning's lead time in words: whole minutes, seconds under a minute,
/// or both.
pub open spec fn lead_label(lead: nat) -> Seq<char> {
    let m = lead / 60;
    let s = lead % 60;
    if m > 0 && s == 0 {
        counted(m, " minute"@)
    } else if m == 0 {
        counted(s, " second"@)
    } else {
        counted(m, " minute"@) + " "@ + counted(s, " second"@)
    }
}

/// The text of the pre-break notification.
pub open spec fn pre_break_text(lead: nat) -> Seq<char> {
    "Eye break in "@ + lead_label(lead) + " \u{2014} get ready to look away"@
}

/// The tray menu's countdown line.
pub open spec fn tray_text(seconds_remaining: nat, is_paused: bool) -> Seq<char> {
    if is_paused {
        "Paused"@
    } else {
        "Next break in "@ + two_digits(seconds_remaining / 60) + ":"@ + two_digits(
            seconds_remaining % 60,
        )
    }
}

fn digit_str(d: u32) -> (r: &'static str)
    requires
        d < 10,
    ensures
        r@ == seq![digit_char(d as nat)],
{
    proof {
        reveal_strlit("0");
        reveal_strlit("1");
        reveal_strlit("2");
        reveal_strlit("3");
        reveal_strlit("4");
        reveal_strlit("5");
        reveal_strlit("6");
        reveal_strlit("7");
        reveal_strlit("8");
        reveal_strlit("9");
    }
    let r = if d == 0 {
        "0"
    } else if d == 1 {
        "1"
    } else if d == 2 {
        "2"
    } else if d == 3 {
        "3"
    } else if d == 4 {
        "4"
    } else if d == 5 {
        "5"
    } else if d == 6 {
        "6"
    } else if d == 7 {
        "7"
    } else if d == 8 {
        "8"
    } else {
        "9"
    };
    assert(r@ =~= seq![digit_char(d as nat)]);
    r
}

/// Append `n` in decimal.
pub fn push_decimal(out: &mut String, n: u32)
    ensures
        final(out)@ == old(out)@ + decimal(n as nat),
    decreases n,
{
    if n >= 10 {
        push_decimal(out, n / 10);
    }
    out.append(digit_str(n % 10));
    assert(final(out)@ =~= old(out)@ + decimal(n as nat));
}

fn push_two_digits(out: &mut String, n: u32)
    ensures
        final(out)@ == old(out)@ + two_digits(n as nat),
{
    if n < 10 {
        out.append("0");
    }
    push_decimal(out, n);
    assert(final(out)@ =~= old(out)@ + two_digits(n as nat));
}

fn push_counted(out: &mut String, n: u32, unit: &str)
    ensures
        final(out)@ == old(out)@ + counted(n as nat, unit@),
{
    push_decimal(out, n);
    out.append(unit);
    if n != 1 {
        out.append("s");
    }
    assert(final(out)@ =~= old(out)@ + counted(n as nat, unit@));
}

/// The lead time of the pre-break warning in words.
pub fn pre_break_label(lead_seconds: u32) -> (r: String)
    ensures
        r@ == lead_label(lead_seconds as nat),
{
    let m = lead_seconds / 60;
    let s = lead_seconds % 60;
    let mut out = String::new();
    if m > 0 && s == 0 {
        push_counted(&mut out, m, " minute");
    } else if m == 0 {
        push_counted(&mut out, s, " second");
    } else {
        push_counted(&mut out, m, " minute");
        out.append(" ");
        push_counted(&mut out, s, " second");
    }
    assert(out@ =~= lead_label(lead_seconds as nat));
    out
}

/// The text of the notification sent ahead of a break.
pub fn pre_break_message(lead_seconds: u32) -> (r: String)
    ensures
        r@ == pre_break_text(lead_seconds as nat),
{
    let mut out = String::from_str("Eye break in ");
    let label = pre_break_label(lead_seconds);
    out.append(label.as_str());
    out.append(" \u{2014} get ready to look away");
    assert(out@ =~= pre_break_text(lead_seconds as nat));
    out
}

/// The tray menu's countdown line: "Paused", or the time to the next break
/// as minutes and seconds.
pub fn tray_label(seconds_remaining: u32, is_paused: bool) -> (r: String)
    ensures
        r@ == tray_text(seconds_remaining as nat, is_paused),
{
    if is_paused {
        return String::from_str("Paused");
    }
    let mut out = String::from_str("Next break in ");
    push_two_digits(&mut out, seconds_remaining / 60);
    out.append(":");
    push_two_digits(&mut out, seconds_remaining % 60);
    assert(out@ =~= tray_text(seconds_remaining as nat, is_paused));
    out
}

} // verus!
