//! The timecode pattern, and the search for it in a text.
//!
//! The search itself is done by the `regex` crate.  What this module states
//! of it is believed, not proved.

use crate::numeral::is_numeral;
use vstd::prelude::*;

verus! {

/// The pattern of a timecode: four groups of one or more digits, with a
/// colon between each two.
pub open spec fn timecode_pattern() -> Seq<char> {
    r"(\d+):(\d+):(\d+):(\d+)"@
}

/// The pattern of a timecode, as the text that is handed to the search.
pub fn timecode_pattern_text() -> (pattern: &'static str)
    ensures
        pattern@ == timecode_pattern(),
{
    r"(\d+):(\d+):(\d+):(\d+)"
}

/// Four fields with a colon between each two.
pub open spec fn colon_joined(
    hours: Seq<char>,
    minutes: Seq<char>,
    seconds: Seq<char>,
    frames: Seq<char>,
) -> Seq<char> {
    hours + seq![':'] + minutes + seq![':'] + seconds + seq![':'] + frames
}

/// Whether `text` is, from its first character to its last, the four
/// numerals given, joined by colons.
pub open spec fn is_plain_timecode_of(
    text: Seq<char>,
    hours: Seq<char>,
    minutes: Seq<char>,
    seconds: Seq<char>,
    frames: Seq<char>,
) -> bool {
    &&& is_numeral(hours)
    &&& is_numeral(minutes)
    &&& is_numeral(seconds)
    &&& is_numeral(frames)
    &&& text == colon_joined(hours, minutes, seconds, frames)
}

/// What a search for the expression `pattern` in `text` finds: `None` where
/// `pattern` is no valid expression or matches nowhere in `text`; else the
/// capture groups of the leftmost match, the whole match first, each with
/// the part of `text` that it matched, or `None` for a group that took no
/// part in the match.
pub uninterp spec fn regex_captures(pattern: Seq<char>, text: Seq<char>) -> Option<
    Seq<Option<Seq<char>>>,
>;

/// Searches `text` for `pattern` with `regex::Regex::new` and
/// `regex::Regex::captures`.
///
/// Believed of them: the result depends on the two texts alone; and where
/// the pattern is the timecode pattern and the whole of `text` is four
/// numerals of ASCII digits joined by colons, the match is the whole text
/// and its four groups are the four numerals.  (The search takes the
/// leftmost match, `\d` takes every ASCII digit and never a colon, and `+`
/// takes as many characters as it can.)
#[verifier::external_body]
pub(crate) fn search(pattern: &str, text: &str) -> (found: Option<Vec<Option<String>>>)
    ensures
        found.deep_view() == regex_captures(pattern@, text@),
        forall|hours: Seq<char>, minutes: Seq<char>, seconds: Seq<char>, frames: Seq<char>|
            pattern@ == timecode_pattern() && #[trigger] is_plain_timecode_of(
                text@,
                hours,
                minutes,
                seconds,
                frames,
            ) ==> found.deep_view() == Some(
                seq![Some(text@), Some(hours), Some(minutes), Some(seconds), Some(frames)],
            ),
{
    let expression = regex::Regex::new(pattern).ok()?;
    let captures = expression.captures(text)?;
    Some(captures.iter().map(|group| group.map(|part| part.as_str().to_string())).collect())
}

} // verus!
