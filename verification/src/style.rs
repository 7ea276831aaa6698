//! The colours of the rendered output.
//!
//! Which kind of text gets which colour is decided here; the escape codes
//! themselves are written by `yansi`.

use vstd::prelude::*;
use vstd::string::*;

verus! {

/// What a piece of rendered text is.
#[derive(Clone, Copy, Debug, PartialEq, Eq, Structural)]
pub enum Kind {
    /// The brackets of an array index.
    Array,
    Bool,
    Datetime,
    Number,
    /// A line of an input that has no structure.
    Plain,
    /// `null`, and whatever else is no ordinary value.
    Special,
    String,
    /// The number in front of a line.
    ValueCount,
}

/// A colour and manner of writing.
#[derive(Clone, Copy, Debug, PartialEq, Eq, Structural)]
pub enum Tint {
    /// No styling at all.
    Plain,
    Red,
    Green,
    Yellow,
    Blue,
    ItalicWhite,
}

/// The escape code that switches a tint on: `ESC [`, the number of the
/// manner of writing if there is one (3 for italic), the number of the
/// colour (3 and the colour's digit), and `m`. No styling has no code.
pub open spec fn ansi_prefix(tint: Tint) -> Seq<char> {
    match tint {
        Tint::Plain => Seq::empty(),
        Tint::Red => "\x1B[31m"@,
        Tint::Green => "\x1B[32m"@,
        Tint::Yellow => "\x1B[33m"@,
        Tint::Blue => "\x1B[34m"@,
        Tint::ItalicWhite => "\x1B[3;37m"@,
    }
}

/// The escape code that switches a tint off again: the reset code, and
/// nothing where there is no styling.
pub open spec fn ansi_suffix(tint: Tint) -> Seq<char> {
    match tint {
        Tint::Plain => Seq::empty(),
        _ => "\x1B[0m"@,
    }
}

/// `yansi::Style::fmt_prefix`, for the style with this tint: the escape code
/// that switches the style on, as `ansi_prefix` spells it out. It is
/// written whether or not `yansi`'s process-wide switch is on.
#[verifier::external_body]
fn style_prefix(tint: Tint) -> (code: String)
    ensures
        code@ == ansi_prefix(tint),
{
    let style = match tint {
        Tint::Plain => yansi::Style::default(),
        Tint::Red => yansi::Style::new(yansi::Color::Red),
        Tint::Green => yansi::Style::new(yansi::Color::Green),
        Tint::Yellow => yansi::Style::new(yansi::Color::Yellow),
        Tint::Blue => yansi::Style::new(yansi::Color::Blue),
        Tint::ItalicWhite => yansi::Style::new(yansi::Color::White).italic(),
    };
    let mut code = String::new();
    let _ = style.fmt_prefix(&mut code);
    code
}

/// `yansi::Style::fmt_suffix`, for the style with this tint: the escape code
/// that switches the style off again, as `ansi_suffix` spells it out.
#[verifier::external_body]
fn style_suffix(tint: Tint) -> (code: String)
    ensures
        code@ == ansi_suffix(tint),
{
    let style = match tint {
        Tint::Plain => yansi::Style::default(),
        Tint::Red => yansi::Style::new(yansi::Color::Red),
        Tint::Green => yansi::Style::new(yansi::Color::Green),
        Tint::Yellow => yansi::Style::new(yansi::Color::Yellow),
        Tint::Blue => yansi::Style::new(yansi::Color::Blue),
        Tint::ItalicWhite => yansi::Style::new(yansi::Color::White).italic(),
    };
    let mut code = String::new();
    let _ = style.fmt_suffix(&mut code);
    code
}

/// The tint of each kind of text: array brackets and datetimes are green,
/// booleans red, numbers blue, strings and line numbers yellow, special
/// values white and italic, plain lines unstyled.
pub open spec fn tint_of(kind: Kind) -> Tint {
    match kind {
        Kind::Array => Tint::Green,
        Kind::Bool => Tint::Red,
        Kind::Datetime => Tint::Green,
        Kind::Number => Tint::Blue,
        Kind::Plain => Tint::Plain,
        Kind::Special => Tint::ItalicWhite,
        Kind::String => Tint::Yellow,
        Kind::ValueCount => Tint::Yellow,
    }
}

/// `text` as it is written: between the escape codes of its kind where
/// colours are on, and as it stands where they are off.
pub open spec fn painted(colorful: bool, kind: Kind, text: Seq<char>) -> Seq<char> {
    if colorful {
        ansi_prefix(tint_of(kind)) + text + ansi_suffix(tint_of(kind))
    } else {
        text
    }
}

/// The tint of a kind of text.
pub fn tint(kind: Kind) -> (tint: Tint)
    ensures
        tint == tint_of(kind),
{
    match kind {
        Kind::Array => Tint::Green,
        Kind::Bool => Tint::Red,
        Kind::Datetime => Tint::Green,
        Kind::Number => Tint::Blue,
        Kind::Plain => Tint::Plain,
        Kind::Special => Tint::ItalicWhite,
        Kind::String => Tint::Yellow,
        Kind::ValueCount => Tint::Yellow,
    }
}

/// Appends `text`, painted as its kind asks, to `out`. One switch, `colorful`,
/// decides for all kinds whether any escape code is written.
pub fn push_painted(out: &mut String, colorful: bool, kind: Kind, text: &str)
    ensures
        final(out)@ == old(out)@ + painted(colorful, kind, text@),
{
    if colorful {
        let tint = tint(kind);
        let prefix = style_prefix(tint);
        let suffix = style_suffix(tint);
        out.append(prefix.as_str());
        out.append(text);
        out.append(suffix.as_str());
        assert(out@ =~= old(out)@ + painted(colorful, kind, text@));
    } else {
        out.append(text);
    }
}

} // verus!
