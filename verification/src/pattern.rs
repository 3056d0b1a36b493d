//! Pattern matching on text, done by the `regex` crate.

use vstd::prelude::*;
use crate::scrape::sub::COUNT_PATTERN;
use crate::scrape::timetable::ROOM_PATTERN;

verus! {

/// `regex::Regex`: a compiled pattern. Nothing inside it is read here.
#[verifier::external_type_specification]
#[verifier::external_body]
pub struct ExRegex(regex::Regex);

/// The pattern text that a compiled pattern was made from.
pub uninterp spec fn pattern_of(re: regex::Regex) -> Seq<char>;

/// What capture group `group` of the leftmost match of `pattern` in `text`
/// holds: `None` where the pattern does not match or the group took no part
/// in the match. Group 0 is the whole match.
pub uninterp spec fn capture_of(pattern: Seq<char>, text: Seq<char>, group: nat) -> Option<
    Seq<char>,
>;

/// Whether `pattern` is one of the two patterns that this library uses.
pub open spec fn is_fixed_pattern(pattern: Seq<char>) -> bool {
    pattern == ROOM_PATTERN@ || pattern == COUNT_PATTERN@
}

/// Whether the pattern compiler accepts the text `pattern`.
pub uninterp spec fn pattern_accepted(pattern: Seq<char>) -> bool;

/// `regex::Regex::new`, with the error dropped, for the fixed patterns of
/// this library.
///
/// A pattern is refused where its syntax is wrong or where the compiled
/// program is larger than the default size limit. The size of a program is
/// counted in bytes of the machine, so that for a pattern near the limit the
/// answer differs from one machine to another; the fixed patterns are far
/// below the limit, and for them the answer is a function of the text, named
/// [`pattern_accepted`]. Which texts are patterns is not said. A compiled
/// pattern remembers the text it was made from.
#[verifier::external_body]
pub(crate) fn compile(pattern: &str) -> (r: Option<regex::Regex>)
    requires
        is_fixed_pattern(pattern@),
    ensures
        r.is_some() == pattern_accepted(pattern@),
        r matches Some(re) ==> pattern_of(re) == pattern@,
{
    regex::Regex::new(pattern).ok()
}

/// `regex::Regex::captures` on a pattern that [`compile`] made, then
/// `Captures::get` and `Match::as_str`: the text of one capture group of
/// the leftmost match. The result is a function of the pattern text, the
/// searched text and the group number, and is named [`capture_of`]; what
/// the pattern language means is not said.
#[verifier::external_body]
pub(crate) fn capture(re: &regex::Regex, text: &str, group: usize) -> (r: Option<String>)
    ensures
        match r {
            Some(s) => capture_of(pattern_of(*re), text@, group as nat) == Some(s@),
            None => capture_of(pattern_of(*re), text@, group as nat).is_none(),
        },
{
    match re.captures(text) {
        Some(found) => found.get(group).map(|m| m.as_str().to_string()),
        None => None,
    }
}

} // verus!
