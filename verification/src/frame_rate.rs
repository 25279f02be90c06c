//! Frame rates as the probe prints them: a numerator and a denominator
//! with a slash between them.

use crate::text::{chars_of, trim, trimmed};
use vstd::prelude::*;
use vstd::string::*;

verus! {

/// The place of the first slash in `s`, or the length of `s` where it holds
/// none.
pub open spec fn first_slash(s: Seq<char>) -> int
    decreases s.len(),
{
    if s.len() == 0 || s[0] == '/' {
        0
    } else {
        1 + first_slash(s.drop_first())
    }
}

/// Whether `s` holds a slash.
pub open spec fn has_slash(s: Seq<char>) -> bool {
    first_slash(s) < s.len()
}

/// The numerator and the denominator of the frame rate `s`, each without
/// the white space around it: what stands before the slash and what stands
/// after it, where `s` holds exactly one slash.  Any other text is no frame
/// rate.
pub open spec fn rate_tokens(s: Seq<char>) -> Option<(Seq<char>, Seq<char>)> {
    let at = first_slash(s);
    if has_slash(s) && !has_slash(s.skip(at + 1)) {
        Some((trimmed(s.take(at)), trimmed(s.skip(at + 1))))
    } else {
        None
    }
}

/// The first slash stands where no character before it is one.
proof fn lemma_first_slash(s: Seq<char>, at: int)
    requires
        0 <= at <= s.len(),
        forall|k: int| 0 <= k < at ==> #[trigger] s[k] != '/',
        at < s.len() ==> s[at] == '/',
    ensures
        first_slash(s) == at,
    decreases s.len(),
{
    if at > 0 {
        lemma_first_slash(s.drop_first(), at - 1);
    }
}

/// The place of the first slash among the characters from `from` on, or the
/// number of characters where none of them is a slash.
fn find_slash(chars: &Vec<char>, from: usize) -> (at: usize)
    requires
        from <= chars.len(),
    ensures
        from <= at <= chars.len(),
        at - from == first_slash(chars@.skip(from as int)),
{
    let mut at = from;
    while at < chars.len() && chars[at] != '/'
        invariant
            from <= at <= chars.len(),
            forall|k: int| from <= k < at ==> #[trigger] chars@[k] != '/',
        decreases chars.len() - at,
    {
        at += 1;
    }
    proof {
        lemma_first_slash(chars@.skip(from as int), at - from);
    }
    at
}

/// Splits the frame rate `text` into its numerator and its denominator.
///
/// Whether the two are numbers is not looked at here.
pub fn split_rate(text: &str) -> (tokens: Option<(String, String)>)
    ensures
        tokens.deep_view() == rate_tokens(text@),
{
    let chars = chars_of(text);
    let n = chars.len();
    let at = find_slash(&chars, 0);
    proof {
        assert(chars@.skip(0) =~= chars@);
    }
    if at == n {
        return None;
    }
    let next = find_slash(&chars, at + 1);
    if next < n {
        return None;
    }
    let numerator = trim(text.substring_char(0, at));
    let denominator = trim(text.substring_char(at + 1, n));
    Some((numerator.to_owned(), denominator.to_owned()))
}

} // verus!
