//! The color policy of the console sink: one fixed terminal color per
//! severity, a muted grey for decorative text, and the painting of a piece of
//! text with the ANSI escape codes of a color.

use vstd::prelude::*;
use crate::severity::Severity;

verus! {

/// A terminal color used by the console formatter.
#[derive(Clone, Copy, PartialEq, Eq, Structural, Debug)]
pub enum ColorCode {
    BrightMagenta,
    BrightCyan,
    BrightGreen,
    Yellow,
    Red,
    Grey,
}

/// The color chosen for a severity: bright magenta for trace, bright cyan
/// for debug, bright green for info, yellow for warnings, red for errors.
pub open spec fn color_for_spec(s: Severity) -> ColorCode {
    match s {
        Severity::Trace => ColorCode::BrightMagenta,
        Severity::Debug => ColorCode::BrightCyan,
        Severity::Info => ColorCode::BrightGreen,
        Severity::Warn => ColorCode::Yellow,
        Severity::Error => ColorCode::Red,
    }
}

/// Maps a severity to its console color.
pub fn color_for(s: Severity) -> (c: ColorCode)
    ensures
        c == color_for_spec(s),
{
    match s {
        Severity::Trace => ColorCode::BrightMagenta,
        Severity::Debug => ColorCode::BrightCyan,
        Severity::Info => ColorCode::BrightGreen,
        Severity::Warn => ColorCode::Yellow,
        Severity::Error => ColorCode::Red,
    }
}

/// The muted grey used for all non-severity decorative text.
pub fn muted_color() -> (c: ColorCode)
    ensures
        c == ColorCode::Grey,
{
    ColorCode::Grey
}

/// The color of a severity is total and deterministic: each of the five
/// severities has exactly the fixed color of the policy, with no fallback.
pub proof fn lemma_color_for_total()
    ensures
        color_for_spec(Severity::Trace) == ColorCode::BrightMagenta,
        color_for_spec(Severity::Debug) == ColorCode::BrightCyan,
        color_for_spec(Severity::Info) == ColorCode::BrightGreen,
        color_for_spec(Severity::Warn) == ColorCode::Yellow,
        color_for_spec(Severity::Error) == ColorCode::Red,
{
}

/// The escape sequence that switches the terminal's foreground to `c`.
pub open spec fn ansi_prefix(c: ColorCode) -> Seq<char> {
    match c {
        ColorCode::BrightMagenta => "\u{1b}[38;5;13m"@,
        ColorCode::BrightCyan => "\u{1b}[38;5;14m"@,
        ColorCode::BrightGreen => "\u{1b}[38;5;10m"@,
        ColorCode::Yellow => "\u{1b}[33m"@,
        ColorCode::Red => "\u{1b}[31m"@,
        ColorCode::Grey => "\u{1b}[38;5;8m"@,
    }
}

/// The escape sequence that resets the terminal's style.
pub open spec fn ansi_reset() -> Seq<char> {
    "\u{1b}[0m"@
}

/// `s` painted in color `c`: the color's escape prefix, the text, then the
/// reset sequence.
pub open spec fn painted(c: ColorCode, s: Seq<char>) -> Seq<char> {
    ansi_prefix(c) + s + ansi_reset()
}

/// Relies on `ansi_term::Colour::paint` and the `Display` of the resulting
/// `ANSIString`: a foreground-only style writes `ESC [` followed by the
/// foreground code of the color (`38;5;n` for a fixed color, `33` for
/// yellow, `31` for red) and `m`, then the text, then the reset sequence
/// `ESC [ 0 m`.
#[verifier::external_body]
pub(crate) fn paint(c: ColorCode, text: &str) -> (r: String)
    ensures
        r@ == painted(c, text@),
{
    let colour = match c {
        ColorCode::BrightMagenta => ansi_term::Colour::Fixed(13),
        ColorCode::BrightCyan => ansi_term::Colour::Fixed(14),
        ColorCode::BrightGreen => ansi_term::Colour::Fixed(10),
        ColorCode::Yellow => ansi_term::Colour::Yellow,
        ColorCode::Red => ansi_term::Colour::Red,
        ColorCode::Grey => ansi_term::Colour::Fixed(8),
    };
    colour.paint(text).to_string()
}

} // verus!
