//! The text of the messages: decimal numbers, the remaining time as a
//! breakdown or as a summary, and the line that a sink prints.

use crate::topic::{get_verb, verb_text, Topic};
use vstd::prelude::*;
use vstd::string::*;

verus! {

/// The character of one decimal digit.
pub open spec fn digit(d: int) -> char {
    if d == 0 {
        '0'
    } else if d == 1 {
        '1'
    } else if d == 2 {
        '2'
    } else if d == 3 {
        '3'
    } else if d == 4 {
        '4'
    } else if d == 5 {
        '5'
    } else if d == 6 {
        '6'
    } else if d == 7 {
        '7'
    } else if d == 8 {
        '8'
    } else {
        '9'
    }
}

/// A natural number in decimal, without leading zeros.
pub open spec fn decimal(n: nat) -> Seq<char>
    decreases n,
{
    if n < 10 {
        seq![digit(n as int)]
    } else {
        decimal(n / 10).push(digit((n % 10) as int))
    }
}

/// A number of seconds as hours, minutes and seconds: `1h 2m 3s`.
pub open spec fn breakdown(secs: nat) -> Seq<char> {
    decimal(secs / 3600) + "h "@ + decimal((secs % 3600) / 60) + "m "@ + decimal(secs % 60)
        + "s"@
}

/// A number of seconds in its largest unit alone, rounded down: `2h`, `5m`
/// or `42s`.
pub open spec fn summary(secs: nat) -> Seq<char> {
    if secs >= 3600 {
        decimal(secs / 3600) + "h"@
    } else if secs >= 60 {
        decimal(secs / 60) + "m"@
    } else {
        decimal(secs) + "s"@
    }
}

/// The seconds that have passed since `start`, zero before it.
pub open spec fn elapsed_secs(start: int, now: int) -> nat {
    if now > start {
        (now - start) as nat
    } else {
        0
    }
}

/// The seconds that are left until `end`, zero from `end` on.
pub open spec fn remaining_secs(now: int, end: int) -> nat {
    if now < end {
        (end - now) as nat
    } else {
        0
    }
}

/// The message of a tick that sees `remaining` seconds left, `elapsed`
/// seconds after the start.
///
/// On arrival it is the label alone. While counting it is the label and the
/// remaining time: as a summary, or, when `verbose`, as a breakdown followed
/// by the raw counts of seconds left and elapsed.
pub open spec fn message_text(
    topic: Topic,
    end_text: Seq<char>,
    remaining: nat,
    elapsed: nat,
    verbose: bool,
) -> Seq<char> {
    match topic {
        Topic::Arrived => end_text,
        Topic::Counting => if verbose {
            end_text + " in "@ + breakdown(remaining) + " ("@ + decimal(remaining) + "s left, "@
                + decimal(elapsed) + "s elapsed)"@
        } else {
            end_text + " in "@ + summary(remaining)
        },
    }
}

/// The line that a sink prints for a message: the topic's verb, a space, the
/// message.
pub open spec fn announcement_text(topic: Topic, message: Seq<char>) -> Seq<char> {
    verb_text(topic) + " "@ + message
}

fn digit_str(d: u64) -> (s: &'static str)
    requires
        d < 10,
    ensures
        s@ == seq![digit(d as int)],
{
    proof {
        reveal_strlit("0");
        reveal_strlit("1");
        reveal_strlit("2");
        reveal_strlit("3");
        reveal_strlit("4");
        reveal_strlit("5");
        reveal_strlit("6");
        reveal_strlit("7");
        reveal_strlit("8");
        reveal_strlit("9");
    }
    if d == 0 {
        "0"
    } else if d == 1 {
        "1"
    } else if d == 2 {
        "2"
    } else if d == 3 {
        "3"
    } else if d == 4 {
        "4"
    } else if d == 5 {
        "5"
    } else if d == 6 {
        "6"
    } else if d == 7 {
        "7"
    } else if d == 8 {
        "8"
    } else {
        "9"
    }
}

/// Writes `n` in decimal.
pub fn render_decimal(n: u64) -> (text: String)
    ensures
        text@ == decimal(n as nat),
    decreases n,
{
    if n < 10 {
        digit_str(n).to_owned()
    } else {
        let mut text = render_decimal(n / 10);
        text.append(digit_str(n % 10));
        text
    }
}

/// Writes a number of seconds as hours, minutes and seconds.
pub fn render_breakdown(secs: u64) -> (text: String)
    ensures
        text@ == breakdown(secs as nat),
{
    let mut text = render_decimal(secs / 3600);
    text.append("h ");
    text.append(render_decimal((secs % 3600) / 60).as_str());
    text.append("m ");
    text.append(render_decimal(secs % 60).as_str());
    text.append("s");
    text
}

/// Writes a number of seconds in its largest unit alone.
pub fn render_summary(secs: u64) -> (text: String)
    ensures
        text@ == summary(secs as nat),
{
    if secs >= 3600 {
        let mut text = render_decimal(secs / 3600);
        text.append("h");
        text
    } else if secs >= 60 {
        let mut text = render_decimal(secs / 60);
        text.append("m");
        text
    } else {
        let mut text = render_decimal(secs);
        text.append("s");
        text
    }
}

/// Formats the message of one tick.
pub fn format_message(
    topic: Topic,
    end_text: &str,
    remaining: u64,
    elapsed: u64,
    verbose: bool,
) -> (message: String)
    ensures
        message@ == message_text(topic, end_text@, remaining as nat, elapsed as nat, verbose),
{
    let mut message = end_text.to_owned();
    match topic {
        Topic::Arrived => {},
        Topic::Counting => {
            message.append(" in ");
            if verbose {
                message.append(render_breakdown(remaining).as_str());
                message.append(" (");
                message.append(render_decimal(remaining).as_str());
                message.append("s left, ");
                message.append(render_decimal(elapsed).as_str());
                message.append("s elapsed)");
            } else {
                message.append(render_summary(remaining).as_str());
            }
        },
    }
    message
}

/// Formats the line that a sink prints for a message.
pub fn announcement(topic: Topic, message: &str) -> (line: String)
    ensures
        line@ == announcement_text(topic, message@),
{
    let mut line = get_verb(&topic).to_owned();
    line.append(" ");
    line.append(message);
    line
}

} // verus!
