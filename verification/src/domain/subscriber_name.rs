//! Subscriber names and the rule that admits them.

use crate::text::{count_graphemes, grapheme_count, is_blank, lemma_trim_blank, trimmed};
use vstd::prelude::*;

verus! {

/// The largest number of grapheme clusters a name may have.
pub const MAX_NAME_GRAPHEMES: usize = 256;

/// Why a submitted value was turned down.
#[derive(Clone, Copy, Debug, PartialEq, Eq, Structural)]
pub enum ValidationError {
    /// The name is empty or holds only whitespace.
    BlankName,
    /// The name has more than [`MAX_NAME_GRAPHEMES`] grapheme clusters.
    NameTooLong,
    /// The name holds one of `/ ( ) " < > \ { }`.
    ForbiddenCharacter,
    /// The email address is not syntactically valid.
    InvalidEmail,
}

/// The characters no name may hold.
pub open spec fn is_forbidden(c: char) -> bool {
    c == '/' || c == '(' || c == ')' || c == '"' || c == '<' || c == '>' || c == '\\' || c == '{'
        || c == '}'
}

/// Some character of `s` is forbidden.
pub open spec fn has_forbidden_char(s: Seq<char>) -> bool {
    exists|i: int| 0 <= i < s.len() && is_forbidden(#[trigger] s[i])
}

/// What is wrong with `s` as a name, if anything, when it has `graphemes`
/// grapheme clusters. The three checks are reported in this order.
pub open spec fn name_fault(s: Seq<char>, graphemes: nat) -> Option<ValidationError> {
    if is_blank(s) {
        Some(ValidationError::BlankName)
    } else if graphemes > MAX_NAME_GRAPHEMES {
        Some(ValidationError::NameTooLong)
    } else if has_forbidden_char(s) {
        Some(ValidationError::ForbiddenCharacter)
    } else {
        None
    }
}

/// `s` is an acceptable subscriber name.
pub open spec fn name_is_valid(s: Seq<char>) -> bool {
    name_fault(s, grapheme_count(s)) is None
}

fn is_forbidden_char(c: char) -> (r: bool)
    ensures
        r == is_forbidden(c),
{
    c == '/' || c == '(' || c == ')' || c == '"' || c == '<' || c == '>' || c == '\\' || c == '{'
        || c == '}'
}

fn contains_forbidden_char(s: &str) -> (found: bool)
    ensures
        found == has_forbidden_char(s@),
{
    for c in it: s.chars()
        invariant
            it.seq() == s@,
            forall|j: int| 0 <= j < it.index() ==> !is_forbidden(#[trigger] s@[j]),
    {
        if is_forbidden_char(c) {
            return true;
        }
    }
    false
}

/// Judges `s` as a name, given the number of its grapheme clusters.
pub fn check_name(s: &str, graphemes: usize) -> (r: Result<(), ValidationError>)
    ensures
        match name_fault(s@, graphemes as nat) {
            Some(fault) => r == Err::<(), ValidationError>(fault),
            None => r == Ok::<(), ValidationError>(()),
        },
{
    proof {
        lemma_trim_blank(s@);
    }
    if s.trim().is_empty() {
        Err(ValidationError::BlankName)
    } else if graphemes > MAX_NAME_GRAPHEMES {
        Err(ValidationError::NameTooLong)
    } else if contains_forbidden_char(s) {
        Err(ValidationError::ForbiddenCharacter)
    } else {
        Ok(())
    }
}

/// Tells whether `s` satisfies every constraint on subscriber names.
pub fn is_valid_name(s: &str) -> (ok: bool)
    ensures
        ok == name_is_valid(s@),
        s@.len() <= MAX_NAME_GRAPHEMES ==> ok == (!is_blank(s@) && !has_forbidden_char(s@)),
{
    let graphemes = count_graphemes(s);
    check_name(s, graphemes).is_ok()
}

/// A subscriber's name. Every value of this type satisfies [`name_is_valid`]:
/// [`SubscriberName::parse`] is the only way to make one.
#[derive(Debug)]
pub struct SubscriberName(String);

impl View for SubscriberName {
    type V = Seq<char>;

    closed spec fn view(&self) -> Seq<char> {
        self.0@
    }
}

impl SubscriberName {
    #[verifier::type_invariant]
    spec fn well_formed(self) -> bool {
        name_is_valid(self.0@)
    }

    /// Accepts `s` as a name if it is not blank, has at most
    /// [`MAX_NAME_GRAPHEMES`] grapheme clusters and holds no forbidden
    /// character, and otherwise names the first of these checks that fails.
    pub fn parse(s: String) -> (r: Result<SubscriberName, ValidationError>)
        ensures
            r is Ok <==> name_is_valid(s@),
            r matches Ok(name) ==> name@ == s@,
            r matches Err(e) ==> name_fault(s@, grapheme_count(s@)) == Some(e),
            s@.len() <= MAX_NAME_GRAPHEMES ==> (r is Ok <==> !is_blank(s@) && !has_forbidden_char(
                s@,
            )),
    {
        let graphemes = count_graphemes(s.as_str());
        match check_name(s.as_str(), graphemes) {
            Ok(()) => Ok(SubscriberName(s)),
            Err(e) => Err(e),
        }
    }

    /// The text of the name.
    pub fn as_ref(&self) -> (s: &str)
        ensures
            s@ == self@,
            name_is_valid(s@),
    {
        proof {
            use_type_invariant(self);
        }
        self.0.as_str()
    }
}

/// A name that is empty or holds only whitespace is never valid. These are
/// the names of which trimming leaves nothing.
pub proof fn law_blank_name_is_rejected(s: Seq<char>)
    ensures
        is_blank(s) ==> !name_is_valid(s),
        is_blank(s) <==> trimmed(s).len() == 0,
{
    lemma_trim_blank(s);
}

/// A name of more than [`MAX_NAME_GRAPHEMES`] grapheme clusters is never
/// valid. One of exactly that many is valid, unless it is blank or holds a
/// forbidden character.
pub proof fn law_name_length_boundary(s: Seq<char>)
    ensures
        grapheme_count(s) > MAX_NAME_GRAPHEMES ==> !name_is_valid(s),
        grapheme_count(s) == MAX_NAME_GRAPHEMES && !is_blank(s) && !has_forbidden_char(s)
            ==> name_is_valid(s),
{
}

/// A name that holds a forbidden character anywhere is never valid. One that
/// holds none is valid, unless it is blank or too long.
pub proof fn law_forbidden_character_is_rejected(s: Seq<char>)
    ensures
        forall|i: int| 0 <= i < s.len() && is_forbidden(#[trigger] s[i]) ==> !name_is_valid(s),
        !has_forbidden_char(s) && !is_blank(s) && grapheme_count(s) <= MAX_NAME_GRAPHEMES
            ==> name_is_valid(s),
{
}

} // verus!
