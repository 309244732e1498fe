//! Helpers shared by the commands: splitting raw arguments, checking package
//! names, the error type, and the marked-up status lines.

pub mod args_parser;
pub mod error;
pub mod validator;

use crate::text::concat_str;
use colored::Colorize;
use vstd::prelude::*;
use vstd::string::*;

verus! {

/// The colours that status lines are written in.
#[derive(Debug, Clone, Copy, PartialEq, Eq, Structural)]
pub enum Tone {
    Green,
    Red,
    Yellow,
    Blue,
}

/// The escape sequence that switches a colour on.
pub open spec fn tone_on(tone: Tone) -> Seq<char> {
    match tone {
        Tone::Green => "\x1b[32m"@,
        Tone::Red => "\x1b[31m"@,
        Tone::Yellow => "\x1b[33m"@,
        Tone::Blue => "\x1b[34m"@,
    }
}

/// The escape sequence that switches all colours off.
pub open spec fn tone_off() -> Seq<char> {
    "\x1b[0m"@
}

/// `painted` is `msg` written in a colour: either the text as it is, where
/// colours are switched off, or the text between the sequence that switches
/// the colour on and the one that switches it off. A text that itself holds
/// an escape character may be changed in between.
pub open spec fn painted_as(painted: Seq<char>, msg: Seq<char>, tone: Tone) -> bool {
    ||| painted == msg
    ||| {
        &&& tone_on(tone).is_prefix_of(painted)
        &&& tone_off().is_suffix_of(painted)
        &&& !msg.contains('\x1b') ==> painted == tone_on(tone) + msg + tone_off()
    }
}

/// Calls `Colorize::color` of the crate colored on the text and renders the
/// result. Whether colours are written depends on the terminal and on
/// variables of the process, so the contract holds of both outcomes: the
/// text comes back unchanged, or wrapped in the escape sequences of the
/// colour.
#[verifier::external_body]
fn paint(msg: &str, tone: Tone) -> (painted: String)
    ensures
        painted_as(painted@, msg@, tone),
{
    let color = match tone {
        Tone::Green => colored::Color::Green,
        Tone::Red => colored::Color::Red,
        Tone::Yellow => colored::Color::Yellow,
        Tone::Blue => colored::Color::Blue,
    };
    msg.color(color).to_string()
}

/// A painted text between a lead and a trail.
pub fn status_line(lead: &str, painted: &str, trail: &str) -> (line: String)
    ensures
        line@ == lead@ + painted@ + trail@,
{
    let mut line = String::new();
    line.append(lead);
    line.append(painted);
    line.append(trail);
    assert(line@ =~= lead@ + painted@ + trail@);
    line
}

/// `line` is a status line for `msg`: the message, written in the colour
/// `tone`, between `lead` and `trail`.
pub open spec fn is_status_line(
    line: Seq<char>,
    lead: Seq<char>,
    msg: Seq<char>,
    tone: Tone,
    trail: Seq<char>,
) -> bool {
    exists|painted: Seq<char>| #[trigger]
        painted_as(painted, msg, tone) && line == lead + painted + trail
}

/// `line` is the line for a success with the message `msg`.
pub open spec fn is_success_line(line: Seq<char>, msg: Seq<char>) -> bool {
    is_status_line(line, "✅ "@, msg, Tone::Green, Seq::empty())
}

/// `line` is the line for an error with the message `msg`.
pub open spec fn is_error_line(line: Seq<char>, msg: Seq<char>) -> bool {
    is_status_line(line, "❌ "@, msg, Tone::Red, " "@)
}

/// `line` is the line for a warning with the message `msg`.
pub open spec fn is_warning_line(line: Seq<char>, msg: Seq<char>) -> bool {
    is_status_line(line, "⚠️  "@, msg, Tone::Yellow, " "@)
}

/// `line` is the line for a piece of information with the message `msg`.
pub open spec fn is_info_line(line: Seq<char>, msg: Seq<char>) -> bool {
    is_status_line(line, "ℹ️  "@, msg, Tone::Blue, " "@)
}

/// The line for a success: a check mark, then the message in green.
pub fn success_message(msg: &str) -> (line: String)
    ensures
        is_success_line(line@, msg@),
{
    let painted = paint(msg, Tone::Green);
    let line = concat_str("✅ ", painted.as_str());
    assert(painted_as(painted@, msg@, Tone::Green) && line@ =~= "✅ "@ + painted@
        + Seq::<char>::empty());
    line
}

/// The line for an error: a cross, then the message in red, then a space.
pub fn error_message(msg: &str) -> (line: String)
    ensures
        is_error_line(line@, msg@),
{
    let painted = paint(msg, Tone::Red);
    let line = status_line("❌ ", painted.as_str(), " ");
    assert(painted_as(painted@, msg@, Tone::Red) && line@ == "❌ "@ + painted@ + " "@);
    line
}

/// The line for a warning: a warning sign and two spaces, then the message
/// in yellow, then a space.
pub fn warning_message(msg: &str) -> (line: String)
    ensures
        is_warning_line(line@, msg@),
{
    let painted = paint(msg, Tone::Yellow);
    let line = status_line("⚠️  ", painted.as_str(), " ");
    assert(painted_as(painted@, msg@, Tone::Yellow) && line@ == "⚠️  "@ + painted@ + " "@);
    line
}

/// The line for a piece of information: an information sign and two spaces,
/// then the message in blue, then a space.
pub fn info_message(msg: &str) -> (line: String)
    ensures
        is_info_line(line@, msg@),
{
    let painted = paint(msg, Tone::Blue);
    let line = status_line("ℹ️  ", painted.as_str(), " ");
    assert(painted_as(painted@, msg@, Tone::Blue) && line@ == "ℹ️  "@ + painted@ + " "@);
    line
}

} // verus!
