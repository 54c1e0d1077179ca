//! Terminal styling for the two places the tool highlights text: the
//! `Error:` token of every diagnostic line and the program name in the usage
//! banner.  The `text_colorizer` crate decides at run time whether the
//! stream supports color; either way the surrounding text is pinned exactly.

use text_colorizer::Colorize;
use vstd::prelude::*;

verus! {

/// The ANSI style sequence that opens bold red text.
pub open spec fn style_bold_red() -> Seq<char> {
    "\x1B[1;31m"@
}

/// The ANSI style sequence that opens green text.
pub open spec fn style_green() -> Seq<char> {
    "\x1B[32m"@
}

/// The ANSI sequence that resets all styling.
pub open spec fn style_reset() -> Seq<char> {
    "\x1B[0m"@
}

/// Text free of the escape character, which the colorizer would rewrite.
pub open spec fn no_escape(s: Seq<char>) -> bool {
    forall|i: int| 0 <= i < s.len() ==> s[i] != '\x1b'
}

/// Relies on text_colorizer's `Colorize::red`, `Colorize::bold` and the
/// `Display` of `ColoredString`: when the crate decides that color is
/// enabled, the text comes back wrapped in the bold-red style sequence and a
/// reset; otherwise it comes back unchanged.  The precondition keeps out
/// text holding escape sequences of its own, which the crate would rewrite.
#[verifier::external_body]
fn paint_bold_red(s: &str) -> (r: String)
    requires
        no_escape(s@),
    ensures
        r@ == s@ || r@ == style_bold_red() + s@ + style_reset(),
{
    s.red().bold().to_string()
}

/// Relies on text_colorizer's `Colorize::green` and the `Display` of
/// `ColoredString`: when the crate decides that color is enabled, the text
/// comes back wrapped in the green style sequence and a reset; otherwise it
/// comes back unchanged.  The precondition keeps out text holding escape
/// sequences of its own, which the crate would rewrite.
#[verifier::external_body]
fn paint_green(s: &str) -> (r: String)
    requires
        no_escape(s@),
    ensures
        r@ == s@ || r@ == style_green() + s@ + style_reset(),
{
    s.green().to_string()
}

/// A diagnostic line with a plain `Error:` token.
pub open spec fn error_line_plain(message: Seq<char>) -> Seq<char> {
    "Error:"@ + " "@ + message
}

/// A diagnostic line with the `Error:` token in bold red.
pub open spec fn error_line_colored(message: Seq<char>) -> Seq<char> {
    style_bold_red() + "Error:"@ + style_reset() + " "@ + message
}

/// The full diagnostic line for a message: the `Error:` token, highlighted
/// when the error stream supports it and plain otherwise, then the message.
pub fn error_line(message: &str) -> (r: String)
    ensures
        r@ == error_line_plain(message@) || r@ == error_line_colored(message@),
{
    proof {
        reveal_strlit("Error:");
        assert(no_escape("Error:"@));
    }
    let mut r = paint_bold_red("Error:");
    r.push_str(" ");
    r.push_str(message);
    proof {
        assert(r@ == error_line_plain(message@) || r@ == error_line_colored(message@)) by {
            assert(("Error:"@ + " "@ + message@) =~= error_line_plain(message@));
            assert((style_bold_red() + "Error:"@ + style_reset()) + " "@ + message@
                =~= error_line_colored(message@));
        }
    }
    r
}

/// The first line of the usage banner, with a plain program name.
pub open spec fn usage_heading_plain() -> Seq<char> {
    "quickreplace"@ + " - change occurrences of one string into another"@
}

/// The first line of the usage banner, with the program name in green.
pub open spec fn usage_heading_colored() -> Seq<char> {
    style_green() + "quickreplace"@ + style_reset()
        + " - change occurrences of one string into another"@
}

/// The second line of the usage banner.
pub open spec fn usage_pattern_text() -> Seq<char> {
    "Usage: quickreplace <target> <replacement> <INPUT> <OUTPUT>"@
}

/// The two lines of the usage banner, printed to the error stream when the
/// argument count is wrong: the program name (highlighted when the stream
/// supports it) with a one-line description, then the usage pattern.
pub fn usage_lines() -> (r: Vec<String>)
    ensures
        r@.len() == 2,
        r@[0]@ == usage_heading_plain() || r@[0]@ == usage_heading_colored(),
        r@[1]@ == usage_pattern_text(),
{
    proof {
        reveal_strlit("quickreplace");
        assert(no_escape("quickreplace"@));
    }
    let mut heading = paint_green("quickreplace");
    heading.push_str(" - change occurrences of one string into another");
    proof {
        assert(heading@ == usage_heading_plain() || heading@ == usage_heading_colored()) by {
            assert(("quickreplace"@ + " - change occurrences of one string into another"@)
                =~= usage_heading_plain());
            assert(((style_green() + "quickreplace"@ + style_reset())
                + " - change occurrences of one string into another"@)
                =~= usage_heading_colored());
        }
    }
    let pattern = "Usage: quickreplace <target> <replacement> <INPUT> <OUTPUT>".to_owned();
    let mut r: Vec<String> = Vec::new();
    r.push(heading);
    r.push(pattern);
    r
}

} // verus!
