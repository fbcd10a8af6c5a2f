//! How a state is shown: its name, and the colour of the line that reports it.

use vstd::prelude::*;
use vstd::string::*;
use crate::severity::{no_state_name, state_name, Severity};

verus! {

/// The name shown for a state code: `OK`, `WARNING`, `CRITICAL` or `UNKNOWN`
/// for the codes 0 to 3, and `???` for every other number, so that an
/// unexpected code never stops the output.
pub fn state_to_string(s: i64) -> (r: String)
    ensures
        r@ == state_name(s as int),
        0 <= s <= 3 ==> r@ == Severity::from_code_spec(s as int)->Some_0.name_spec(),
        s < 0 || s > 3 ==> r@ == no_state_name(),
{
    match Severity::from_code(s) {
        Some(severity) => String::from_str(severity.name()),
        None => String::from_str("???"),
    }
}

/// The colours that lines are shown in.
#[derive(Clone, Copy, PartialEq, Eq, Structural, Debug)]
pub enum Tint {
    Green,
    Yellow,
    Red,
    Purple,
}

impl Tint {
    /// The number of the colour in an escape sequence.
    pub open spec fn code_spec(self) -> Seq<char> {
        match self {
            Tint::Green => "32"@,
            Tint::Yellow => "33"@,
            Tint::Red => "31"@,
            Tint::Purple => "35"@,
        }
    }
}

/// The escape sequence that ends every coloured text.
pub open spec fn ansi_reset() -> Seq<char> {
    "\x1B[0m"@
}

/// A text in a plain colour.
pub open spec fn plain_paint(tint: Tint, text: Seq<char>) -> Seq<char> {
    "\x1B["@ + tint.code_spec() + "m"@ + text + ansi_reset()
}

/// A text in a colour, bold and underlined.
pub open spec fn emphasised_paint(tint: Tint, text: Seq<char>) -> Seq<char> {
    "\x1B[1;4;"@ + tint.code_spec() + "m"@ + text + ansi_reset()
}

/// Calls `paint` on the `ansi_term::Colour` of the tint and writes the result
/// out. ansi_term puts the escape sequence of the foreground colour in front
/// of the text and the reset sequence behind it.
#[verifier::external_body]
fn paint_plain(tint: Tint, text: &str) -> (r: String)
    ensures
        r@ == plain_paint(tint, text@),
{
    let colour = match tint {
        Tint::Green => ansi_term::Colour::Green,
        Tint::Yellow => ansi_term::Colour::Yellow,
        Tint::Red => ansi_term::Colour::Red,
        Tint::Purple => ansi_term::Colour::Purple,
    };
    colour.paint(text).to_string()
}

/// Calls `bold().underline().paint` on the `ansi_term::Colour` of the tint and
/// writes the result out. ansi_term puts one escape sequence in front of the
/// text, with the codes 1 for bold, 4 for underline and that of the
/// foreground colour, and the reset sequence behind it.
#[verifier::external_body]
fn paint_emphasised(tint: Tint, text: &str) -> (r: String)
    ensures
        r@ == emphasised_paint(tint, text@),
{
    let colour = match tint {
        Tint::Green => ansi_term::Colour::Green,
        Tint::Yellow => ansi_term::Colour::Yellow,
        Tint::Red => ansi_term::Colour::Red,
        Tint::Purple => ansi_term::Colour::Purple,
    };
    colour.bold().underline().paint(text).to_string()
}

/// The colour of a state.
pub open spec fn tint_of(severity: Severity) -> Tint {
    match severity {
        Severity::Okay => Tint::Green,
        Severity::Warning => Tint::Yellow,
        Severity::Critical => Tint::Red,
        Severity::Unknown => Tint::Purple,
    }
}

/// A line as it is shown for an object in the state called `st` with the
/// acknowledgement code `a`.
pub open spec fn shown_state(s: Seq<char>, st: Seq<char>, a: int, color: bool) -> Seq<char> {
    if !color {
        s
    } else {
        match Severity::from_name_spec(st) {
            None => s,
            Some(Severity::Okay) => plain_paint(Tint::Green, s),
            Some(severity) => if a != 0 {
                plain_paint(tint_of(severity), s)
            } else {
                emphasised_paint(tint_of(severity), s)
            },
        }
    }
}

/// Gives the line `s` the colour of the state called `st`: green for `OK`,
/// yellow for `WARNING`, red for `CRITICAL`, purple for `UNKNOWN`. A problem
/// that nobody has acknowledged (`a` is 0) stands out: its line is bold and
/// underlined as well. Under any other state name, and with `color` off, the
/// line stays as it is.
pub fn paint_state(s: &str, st: &str, a: i64, color: bool) -> (r: String)
    ensures
        r@ == shown_state(s@, st@, a as int, color),
        !color ==> r@ == s@,
{
    if !color {
        return String::from_str(s);
    }
    match Severity::from_name(st) {
        None => String::from_str(s),
        Some(Severity::Okay) => paint_plain(Tint::Green, s),
        Some(Severity::Warning) => if a != 0 {
            paint_plain(Tint::Yellow, s)
        } else {
            paint_emphasised(Tint::Yellow, s)
        },
        Some(Severity::Critical) => if a != 0 {
            paint_plain(Tint::Red, s)
        } else {
            paint_emphasised(Tint::Red, s)
        },
        Some(Severity::Unknown) => if a != 0 {
            paint_plain(Tint::Purple, s)
        } else {
            paint_emphasised(Tint::Purple, s)
        },
    }
}

/// Without colour a line is shown as it is, whatever the state and the
/// acknowledgement: two objects with the same line are shown alike.
pub proof fn lemma_no_color_ignores_state(s: Seq<char>, st1: Seq<char>, a1: int, st2: Seq<char>, a2: int)
    ensures
        shown_state(s, st1, a1, false) == s,
        shown_state(s, st1, a1, false) == shown_state(s, st2, a2, false),
{
}

/// With colour, a problem state is bold and underlined exactly as long as it
/// is not acknowledged; the colour is that of the state either way.
pub proof fn lemma_emphasis_marks_unacknowledged(s: Seq<char>, severity: Severity, a: int)
    requires
        severity != Severity::Okay,
    ensures
        a == 0 ==> shown_state(s, severity.name_spec(), a, true) == emphasised_paint(
            tint_of(severity),
            s,
        ),
        a != 0 ==> shown_state(s, severity.name_spec(), a, true) == plain_paint(
            tint_of(severity),
            s,
        ),
        emphasised_paint(tint_of(severity), s) != plain_paint(tint_of(severity), s),
{
    crate::severity::lemma_names_differ();
    assert(Severity::Okay.name_spec() == "OK"@);
    assert(Severity::Warning.name_spec() == "WARNING"@);
    assert(Severity::Critical.name_spec() == "CRITICAL"@);
    assert(Severity::Unknown.name_spec() == "UNKNOWN"@);
    // The two sequences differ in the character behind the bracket.
    reveal_strlit("\x1B[");
    reveal_strlit("\x1B[1;4;");
    reveal_strlit("32");
    reveal_strlit("33");
    reveal_strlit("31");
    reveal_strlit("35");
    assert(plain_paint(tint_of(severity), s)[2] == '3');
    assert(emphasised_paint(tint_of(severity), s)[2] == '1');
}

} // verus!
