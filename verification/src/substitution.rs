//! The substitution step: compile the target pattern as a regular expression
//! and replace every non-overlapping match in the text with the replacement
//! template, in one left-to-right pass.  The matching itself is the `regex`
//! crate's; its outcome is named below and every caller's contract goes
//! through those names.

use vstd::prelude::*;

verus! {

/// The error the `regex` crate reports when a pattern does not compile.
#[verifier::external_type_specification]
#[verifier::external_body]
pub struct ExRegexError(regex::Error);

/// Whether `regex::Regex::new` accepts the pattern: a syntactically valid
/// regular expression within the compiler's default limits.
pub uninterp spec fn pattern_valid(pattern: Seq<char>) -> bool;

/// What `regex::Regex::replace_all` returns for a valid pattern: the text
/// with every non-overlapping match replaced by the expanded template.
pub uninterp spec fn replaced_of(
    pattern: Seq<char>,
    replacement: Seq<char>,
    text: Seq<char>,
) -> Seq<char>;

/// Whether a valid pattern matches anywhere in the text, as
/// `regex::Regex::is_match` would report.
pub uninterp spec fn has_match(pattern: Seq<char>, text: Seq<char>) -> bool;

/// Relies on `regex::Regex::new` and `regex::Regex::replace_all`: `new`
/// succeeds exactly when the pattern is a valid regular expression (its
/// outcome depends on the pattern alone), and `replace_all` replaces every
/// non-overlapping match with the expanded template, returning the haystack
/// unchanged when there is no match (its result depends on the pattern,
/// template and haystack alone).
#[verifier::external_body]
fn regex_replace_all(target: &str, replacement: &str, text: &str) -> (r: Result<
    String,
    regex::Error,
>)
    ensures
        r is Ok <==> pattern_valid(target@),
        r is Ok ==> r->Ok_0@ == replaced_of(target@, replacement@, text@),
        r is Ok && !has_match(target@, text@) ==> r->Ok_0@ == text@,
{
    match regex::Regex::new(target) {
        Ok(re) => Ok(re.replace_all(text, replacement).to_string()),
        Err(e) => Err(e),
    }
}

/// Relies on the `Debug` impl of `regex::Error` for the human-readable
/// detail that the diagnostic line embeds.
#[verifier::external_body]
fn regex_error_detail(e: &regex::Error) -> String {
    format!("{:?}", e)
}

/// Replace every non-overlapping match of `target` in `text` with the
/// `replacement` template.  Succeeds exactly when `target` is a valid
/// regular expression; text with no match at all comes back unchanged.  On
/// failure the error carries the pattern error's description.
pub fn replace(target: &str, replacement: &str, text: &str) -> (r: Result<String, String>)
    ensures
        r is Ok <==> pattern_valid(target@),
        r is Ok ==> r->Ok_0@ == replaced_of(target@, replacement@, text@),
        r is Ok && !has_match(target@, text@) ==> r->Ok_0@ == text@,
{
    match regex_replace_all(target, replacement, text) {
        Ok(v) => Ok(v),
        Err(e) => Err(regex_error_detail(&e)),
    }
}

} // verus!
