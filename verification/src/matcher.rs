//! The search for a candidate substring, which the `regex` crate carries out.
//!
//! Nothing here is proved: these are the statements about `regex` that the
//! rest of the library takes on trust.

use regex::Regex;
use vstd::prelude::*;

verus! {

/// `regex::Regex`, a compiled regular expression, carried as it is.
#[verifier::external_type_specification]
#[verifier::external_body]
pub struct ExRegex(regex::Regex);

/// `regex::Error`, the reason why a pattern was refused, carried as it is.
#[verifier::external_type_specification]
#[verifier::external_body]
pub struct ExRegexError(regex::Error);

/// The pattern text that a compiled regular expression was built from: what
/// `Regex::as_str` hands back.
pub uninterp spec fn regex_pattern(re: Regex) -> Seq<char>;

/// Whether a compiled regular expression was built by `Regex::new`, that is
/// with the options that the crate sets by itself. A builder can compile the
/// same pattern text under other options, such as matching without regard
/// to case, and the expression then searches otherwise.
pub uninterp spec fn built_plain(re: Regex) -> bool;

/// The substring that `Regex::find` reports for a regular expression built
/// by `Regex::new` from `pattern` and searched for in `text`: the match
/// that starts leftmost, or `None` where the pattern matches nowhere in
/// `text`.
pub uninterp spec fn leftmost_match(pattern: Seq<char>, text: Seq<char>) -> Option<Seq<char>>;

/// Whether `part` is a run of consecutive characters of `whole`.
pub open spec fn is_part_of(part: Seq<char>, whole: Seq<char>) -> bool {
    exists|i: int, j: int| 0 <= i <= j <= whole.len() && part == #[trigger] whole.subrange(i, j)
}

/// `Regex::new` compiles `re` or refuses it. Whether it refuses is left
/// open, since a size limit of the crate decides together with the syntax.
/// Of a compiled expression this states that it keeps the pattern text it
/// was given, and that it was built with the crate's own options.
pub assume_specification[ Regex::new ](re: &str) -> (built: Result<Regex, regex::Error>)
    ensures
        built matches Ok(compiled) ==> regex_pattern(compiled) == re@ && built_plain(compiled),
;

/// `Regex::find` followed by `Match::as_str`: the text of the leftmost
/// match of `re` in `text`. For an expression that `Regex::new` built, the
/// result is a function of the pattern and the text alone. A match is cut
/// out of the text that was searched.
#[verifier::external_body]
pub(crate) fn first_match<'t>(re: &Regex, text: &'t str) -> (found: Option<&'t str>)
    requires
        built_plain(*re),
    ensures
        match found {
            Some(part) => leftmost_match(regex_pattern(*re), text@) == Some(part@) && is_part_of(
                part@,
                text@,
            ),
            None => leftmost_match(regex_pattern(*re), text@) is None,
        },
{
    match re.find(text) {
        Some(m) => Some(m.as_str()),
        None => None,
    }
}

} // verus!
