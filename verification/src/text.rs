//! Unicode text facts the validation rules rest on: what counts as whitespace,
//! what trimming removes, and how many grapheme clusters a string has.

use unicode_segmentation::UnicodeSegmentation;
use vstd::prelude::*;

verus! {

/// The characters with the Unicode `White_Space` property.
pub open spec fn is_whitespace(c: char) -> bool {
    let u = c as u32;
    ||| 0x09 <= u <= 0x0D
    ||| u == 0x20
    ||| u == 0x85
    ||| u == 0xA0
    ||| u == 0x1680
    ||| 0x2000 <= u <= 0x200A
    ||| u == 0x2028
    ||| u == 0x2029
    ||| u == 0x202F
    ||| u == 0x205F
    ||| u == 0x3000
}

/// `s` without its leading whitespace.
pub open spec fn without_leading_whitespace(s: Seq<char>) -> Seq<char>
    decreases s.len(),
{
    if s.len() > 0 && is_whitespace(s.first()) {
        without_leading_whitespace(s.drop_first())
    } else {
        s
    }
}

/// `s` without its trailing whitespace.
pub open spec fn without_trailing_whitespace(s: Seq<char>) -> Seq<char>
    decreases s.len(),
{
    if s.len() > 0 && is_whitespace(s.last()) {
        without_trailing_whitespace(s.drop_last())
    } else {
        s
    }
}

/// `s` without its leading and trailing whitespace.
pub open spec fn trimmed(s: Seq<char>) -> Seq<char> {
    without_trailing_whitespace(without_leading_whitespace(s))
}

/// Every character of `s` is whitespace; true of the empty string.
pub open spec fn is_blank(s: Seq<char>) -> bool {
    forall|i: int| 0 <= i < s.len() ==> is_whitespace(#[trigger] s[i])
}

/// Specification of `str::trim`: the result is the input with the leading and
/// trailing `White_Space` characters removed. Taken from the standard
/// library's documentation, not proved here.
pub assume_specification[ str::trim ](s: &str) -> (t: &str)
    ensures
        t@ == trimmed(s@),
;

/// The number of extended grapheme clusters of a string, as
/// `unicode_segmentation` segments it.
pub uninterp spec fn grapheme_count(s: Seq<char>) -> nat;

/// Counts the extended grapheme clusters of `s` with
/// `UnicodeSegmentation::graphemes(s, true)`. Trusted: the count is a function
/// of the text alone; the clusters are non-empty, consecutive pieces of the
/// string, so there are no more of them than characters, and at least one
/// unless the string is empty.
#[verifier::external_body]
pub(crate) fn count_graphemes(s: &str) -> (n: usize)
    ensures
        n == grapheme_count(s@),
        n <= s@.len(),
        s@.len() > 0 ==> n >= 1,
{
    s.graphemes(true).count()
}

/// Trimming at the start leaves nothing exactly of a blank string, and what
/// it leaves of any other begins with a character that is not whitespace.
pub proof fn lemma_trim_start_blank(s: Seq<char>)
    ensures
        without_leading_whitespace(s).len() == 0 <==> is_blank(s),
        without_leading_whitespace(s).len() > 0 ==> !is_whitespace(
            without_leading_whitespace(s).first(),
        ),
    decreases s.len(),
{
    if s.len() > 0 && is_whitespace(s.first()) {
        lemma_trim_start_blank(s.drop_first());
        if is_blank(s.drop_first()) {
            assert forall|i: int| 0 <= i < s.len() implies is_whitespace(#[trigger] s[i]) by {
                if i > 0 {
                    assert(s[i] == s.drop_first()[i - 1]);
                }
            }
        } else {
            let rest = s.drop_first();
            let j = choose|j: int| 0 <= j < rest.len() && !is_whitespace(#[trigger] rest[j]);
            assert(s[j + 1] == rest[j]);
        }
    } else if s.len() > 0 {
        assert(!is_whitespace(s[0]));
    }
}

/// Trimming at the end leaves nothing exactly of a blank string.
pub proof fn lemma_trim_end_blank(s: Seq<char>)
    ensures
        without_trailing_whitespace(s).len() == 0 <==> is_blank(s),
    decreases s.len(),
{
    if s.len() > 0 && is_whitespace(s.last()) {
        let rest = s.drop_last();
        lemma_trim_end_blank(rest);
        if is_blank(rest) {
            assert forall|i: int| 0 <= i < s.len() implies is_whitespace(#[trigger] s[i]) by {
                if i < rest.len() {
                    assert(s[i] == rest[i]);
                }
            }
        } else {
            let j = choose|j: int| 0 <= j < rest.len() && !is_whitespace(#[trigger] rest[j]);
            assert(s[j] == rest[j]);
        }
    } else if s.len() > 0 {
        assert(!is_whitespace(s[s.len() - 1]));
    }
}

/// Trimming leaves nothing exactly of the strings that are empty or hold only
/// whitespace.
pub proof fn lemma_trim_blank(s: Seq<char>)
    ensures
        trimmed(s).len() == 0 <==> is_blank(s),
{
    lemma_trim_start_blank(s);
    let t = without_leading_whitespace(s);
    lemma_trim_end_blank(t);
    if t.len() > 0 {
        assert(!is_whitespace(t[0]));
    }
}

} // verus!
