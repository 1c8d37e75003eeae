//! Subscriber email addresses and the grammar that admits them.
//!
//! An address is `local@domain`. The local part is 1 to 64 characters, each a
//! letter, a digit or one of ``.!#$%&'*+/=?^_`{|}~-``. The domain is at most
//! 255 characters: labels separated by dots, each label 1 to 63 letters,
//! digits or hyphens, with no hyphen at either end.

use crate::domain::subscriber_name::ValidationError;
use vstd::prelude::*;

verus! {

/// The longest local part an address may have.
pub const MAX_LOCAL_PART_LEN: usize = 64;

/// The longest domain an address may have.
pub const MAX_DOMAIN_LEN: usize = 255;

/// The longest label a domain may have.
pub const MAX_LABEL_LEN: usize = 63;

/// An ASCII letter or digit.
pub open spec fn is_alphanumeric(c: char) -> bool {
    ('a' <= c <= 'z') || ('A' <= c <= 'Z') || ('0' <= c <= '9')
}

/// A character that may stand in the local part.
pub open spec fn is_local_char(c: char) -> bool {
    is_alphanumeric(c) || c == '.' || c == '!' || c == '#' || c == '$' || c == '%' || c == '&'
        || c == '\'' || c == '*' || c == '+' || c == '/' || c == '=' || c == '?' || c == '^' || c
        == '_' || c == '`' || c == '{' || c == '|' || c == '}' || c == '~' || c == '-'
}

/// A character that may stand in a label of the domain.
pub open spec fn is_label_char(c: char) -> bool {
    is_alphanumeric(c) || c == '-'
}

/// `s` is a local part.
pub open spec fn is_local_part(s: Seq<char>) -> bool {
    &&& 1 <= s.len() <= MAX_LOCAL_PART_LEN
    &&& forall|i: int| 0 <= i < s.len() ==> is_local_char(#[trigger] s[i])
}

/// `s` is one label of a domain.
pub open spec fn is_label(s: Seq<char>) -> bool {
    &&& 1 <= s.len() <= MAX_LABEL_LEN
    &&& forall|i: int| 0 <= i < s.len() ==> is_label_char(#[trigger] s[i])
    &&& s.first() != '-'
    &&& s.last() != '-'
}

/// The number of characters of `s` before its first dot; its length if it
/// has none.
pub open spec fn first_label_len(s: Seq<char>) -> nat
    decreases s.len(),
{
    if s.len() == 0 || s.first() == '.' {
        0
    } else {
        1 + first_label_len(s.drop_first())
    }
}

/// `s` is one or more labels separated by single dots.
pub open spec fn is_dotted_labels(s: Seq<char>) -> bool
    decreases s.len(),
{
    let n = first_label_len(s) as int;
    if n >= s.len() {
        is_label(s)
    } else {
        is_label(s.take(n)) && is_dotted_labels(s.skip(n + 1))
    }
}

/// `s` is a domain.
pub open spec fn is_domain(s: Seq<char>) -> bool {
    s.len() <= MAX_DOMAIN_LEN && is_dotted_labels(s)
}

/// `s` is a syntactically valid email address: a local part, an `@`, a domain.
pub open spec fn is_valid_email(s: Seq<char>) -> bool {
    exists|at: int|
        0 <= at < s.len() && #[trigger] s[at] == '@' && is_local_part(s.take(at)) && is_domain(
            s.skip(at + 1),
        )
}

fn is_alphanumeric_char(c: char) -> (r: bool)
    ensures
        r == is_alphanumeric(c),
{
    (c >= 'a' && c <= 'z') || (c >= 'A' && c <= 'Z') || (c >= '0' && c <= '9')
}

fn is_local_part_char(c: char) -> (r: bool)
    ensures
        r == is_local_char(c),
{
    is_alphanumeric_char(c) || c == '.' || c == '!' || c == '#' || c == '$' || c == '%' || c == '&'
        || c == '\'' || c == '*' || c == '+' || c == '/' || c == '=' || c == '?' || c == '^' || c
        == '_' || c == '`' || c == '{' || c == '|' || c == '}' || c == '~' || c == '-'
}

/// The characters of `s`, in order.
fn chars_of(s: &str) -> (v: Vec<char>)
    ensures
        v@ == s@,
{
    let mut v: Vec<char> = Vec::new();
    for c in it: s.chars()
        invariant
            it.seq() == s@,
            v@ == s@.take(it.index() as int),
    {
        v.push(c);
        assert(s@.take(it.index() + 1) =~= s@.take(it.index() as int).push(c));
    }
    assert(s@.take(s@.len() as int) =~= s@);
    v
}

/// The first index at or after `from` where `v` holds `needle`; the length of
/// `v` if there is none.
fn find_from(v: &Vec<char>, from: usize, needle: char) -> (at: usize)
    requires
        from <= v.len(),
    ensures
        from <= at <= v.len(),
        forall|k: int| from <= k < at ==> v@[k] != needle,
        at < v.len() ==> v@[at as int] == needle,
{
    let mut at = from;
    while at < v.len() && v[at] != needle
        invariant
            from <= at <= v.len(),
            forall|k: int| from <= k < at ==> v@[k] != needle,
        decreases v.len() - at,
    {
        at += 1;
    }
    at
}

/// Whether `v[from..to]` is a local part.
fn is_local_part_at(v: &Vec<char>, from: usize, to: usize) -> (r: bool)
    requires
        from <= to <= v.len(),
    ensures
        r == is_local_part(v@.subrange(from as int, to as int)),
{
    let ghost part = v@.subrange(from as int, to as int);
    if to - from < 1 || to - from > MAX_LOCAL_PART_LEN {
        return false;
    }
    let mut i = from;
    while i < to
        invariant
            from <= i <= to <= v.len(),
            part == v@.subrange(from as int, to as int),
            forall|k: int| 0 <= k < i - from ==> is_local_char(#[trigger] part[k]),
        decreases to - i,
    {
        if !is_local_part_char(v[i]) {
            assert(!is_local_char(part[i - from]));
            return false;
        }
        i += 1;
    }
    true
}

/// Whether `v[from..to]` is a label.
fn is_label_at(v: &Vec<char>, from: usize, to: usize) -> (r: bool)
    requires
        from <= to <= v.len(),
    ensures
        r == is_label(v@.subrange(from as int, to as int)),
{
    let ghost label = v@.subrange(from as int, to as int);
    if to - from < 1 || to - from > MAX_LABEL_LEN {
        return false;
    }
    if v[from] == '-' || v[to - 1] == '-' {
        return false;
    }
    let mut i = from;
    while i < to
        invariant
            from <= i <= to <= v.len(),
            label == v@.subrange(from as int, to as int),
            forall|k: int| 0 <= k < i - from ==> is_label_char(#[trigger] label[k]),
        decreases to - i,
    {
        let c = v[i];
        if !(is_alphanumeric_char(c) || c == '-') {
            assert(!is_label_char(label[i - from]));
            return false;
        }
        i += 1;
    }
    true
}

/// A stretch without a dot that ends at a dot, or at the end, is the first
/// label.
proof fn lemma_first_label_len(s: Seq<char>, n: int)
    requires
        0 <= n <= s.len(),
        forall|k: int| 0 <= k < n ==> s[k] != '.',
        n < s.len() ==> s[n] == '.',
    ensures
        first_label_len(s) == n,
    decreases n,
{
    if n > 0 {
        let rest = s.drop_first();
        assert forall|k: int| 0 <= k < n - 1 implies rest[k] != '.' by {
            assert(rest[k] == s[k + 1]);
        }
        lemma_first_label_len(rest, n - 1);
    }
}

/// Whether `v[from..]` is one or more labels separated by single dots.
fn is_dotted_labels_at(v: &Vec<char>, from: usize) -> (r: bool)
    requires
        from <= v.len(),
    ensures
        r == is_dotted_labels(v@.skip(from as int)),
{
    let mut start = from;
    loop
        invariant
            from <= start <= v.len(),
            is_dotted_labels(v@.skip(from as int)) == is_dotted_labels(v@.skip(start as int)),
        decreases v.len() - start,
    {
        let dot = find_from(v, start, '.');
        let ghost rest = v@.skip(start as int);
        proof {
            assert forall|k: int| 0 <= k < dot - start implies rest[k] != '.' by {
                assert(rest[k] == v@[start + k]);
            }
            lemma_first_label_len(rest, dot - start);
            assert(rest.take(dot - start) =~= v@.subrange(start as int, dot as int));
            if dot == v.len() {
                assert(rest =~= v@.subrange(start as int, dot as int));
            } else {
                assert(rest.skip(dot - start + 1) =~= v@.skip(dot + 1));
            }
        }
        if !is_label_at(v, start, dot) {
            return false;
        }
        if dot == v.len() {
            return true;
        }
        start = dot + 1;
    }
}

/// Whether the characters `v` spell a valid address.
fn is_valid_email_chars(v: &Vec<char>) -> (r: bool)
    ensures
        r == is_valid_email(v@),
{
    let at = find_from(v, 0, '@');
    if at == v.len() {
        return false;
    }
    proof {
        assert(v@.take(at as int) =~= v@.subrange(0, at as int));
        assert forall|other: int|
            0 <= other < v@.len() && #[trigger] v@[other] == '@' && is_local_part(
                v@.take(other),
            ) implies other == at by {
            if other > at {
                assert(v@.take(other)[at as int] == '@');
            }
        }
    }
    let domain_len = v.len() - at - 1;
    is_local_part_at(v, 0, at) && domain_len <= MAX_DOMAIN_LEN && is_dotted_labels_at(v, at + 1)
}

/// A subscriber's email address. Every value of this type satisfies
/// [`is_valid_email`]: [`SubscriberEmail::parse`] is the only way to make one.
#[derive(Debug)]
pub struct SubscriberEmail(String);

impl View for SubscriberEmail {
    type V = Seq<char>;

    closed spec fn view(&self) -> Seq<char> {
        self.0@
    }
}

impl SubscriberEmail {
    #[verifier::type_invariant]
    spec fn well_formed(self) -> bool {
        is_valid_email(self.0@)
    }

    /// Accepts `s` exactly when it is a syntactically valid address.
    pub fn parse(s: String) -> (r: Result<SubscriberEmail, ValidationError>)
        ensures
            r is Ok <==> is_valid_email(s@),
            r matches Ok(email) ==> email@ == s@,
            r matches Err(e) ==> e == ValidationError::InvalidEmail,
    {
        let chars = chars_of(s.as_str());
        if is_valid_email_chars(&chars) {
            Ok(SubscriberEmail(s))
        } else {
            Err(ValidationError::InvalidEmail)
        }
    }

    /// The text of the address.
    pub fn as_ref(&self) -> (s: &str)
        ensures
            s@ == self@,
            is_valid_email(s@),
    {
        proof {
            use_type_invariant(self);
        }
        self.0.as_str()
    }
}

/// A string without an `@` is no address.
pub proof fn law_email_needs_an_at_sign(s: Seq<char>)
    requires
        forall|i: int| 0 <= i < s.len() ==> s[i] != '@',
    ensures
        !is_valid_email(s),
{
}

/// A string that begins with `@` is no address: the local part would be
/// empty.
pub proof fn law_email_needs_a_local_part(s: Seq<char>)
    requires
        s.len() > 0,
        s[0] == '@',
    ensures
        !is_valid_email(s),
{
    assert forall|at: int| 0 <= at < s.len() && #[trigger] s[at] == '@' implies !is_local_part(
        s.take(at),
    ) by {
        if at > 0 {
            assert(s.take(at)[0] == '@');
        }
    }
}

/// A string that ends with `@` is no address: the domain would be empty.
pub proof fn law_email_needs_a_domain(s: Seq<char>)
    requires
        s.len() > 0,
        s.last() == '@',
    ensures
        !is_valid_email(s),
{
    assert forall|at: int| 0 <= at < s.len() && #[trigger] s[at] == '@' implies !is_domain(
        s.skip(at + 1),
    ) by {
        let domain = s.skip(at + 1);
        if is_dotted_labels(domain) && domain.len() > 0 {
            assert(domain.last() == s.last());
            lemma_labels_hold_label_chars_and_dots(domain, domain.len() - 1);
        }
    }
}

/// A valid address holds exactly one `@`, and nothing but `@` and the
/// characters of the local part and of the domain, all of them ASCII.
pub proof fn law_valid_email_has_one_at_sign(s: Seq<char>)
    requires
        is_valid_email(s),
    ensures
        exists|at: int|
            0 <= at < s.len() && #[trigger] s[at] == '@' && forall|k: int|
                0 <= k < s.len() && k != at ==> s[k] != '@',
        forall|k: int|
            0 <= k < s.len() ==> #[trigger] s[k] == '@' || is_local_char(s[k]) || is_label_char(
                s[k],
            ),
        forall|k: int| 0 <= k < s.len() ==> (#[trigger] s[k]) <= '\u{7f}',
{
    let at = choose|at: int|
        0 <= at < s.len() && #[trigger] s[at] == '@' && is_local_part(s.take(at)) && is_domain(
            s.skip(at + 1),
        );
    let domain = s.skip(at + 1);
    assert forall|k: int| 0 <= k < s.len() && k != at implies (#[trigger] s[k]) != '@'
        && (is_local_char(s[k]) || is_label_char(s[k])) by {
        if k < at {
            assert(s.take(at)[k] == s[k]);
        } else {
            assert(domain[k - at - 1] == s[k]);
            lemma_labels_hold_label_chars_and_dots(domain, k - at - 1);
        }
    }
}

/// Dotted labels hold only letters, digits, hyphens and dots.
pub proof fn lemma_labels_hold_label_chars_and_dots(s: Seq<char>, i: int)
    requires
        is_dotted_labels(s),
        0 <= i < s.len(),
    ensures
        is_label_char(s[i]) || s[i] == '.',
    decreases s.len(),
{
    let n = first_label_len(s) as int;
    lemma_first_label_bounds(s);
    if n >= s.len() {
    } else if i < n {
        assert(s.take(n)[i] == s[i]);
    } else if i > n {
        assert(s.skip(n + 1)[i - n - 1] == s[i]);
        lemma_labels_hold_label_chars_and_dots(s.skip(n + 1), i - n - 1);
    }
}

/// The first label ends within the string, at a dot or at the end.
pub proof fn lemma_first_label_bounds(s: Seq<char>)
    ensures
        first_label_len(s) <= s.len(),
        first_label_len(s) < s.len() ==> s[first_label_len(s) as int] == '.',
    decreases s.len(),
{
    if s.len() > 0 && s.first() != '.' {
        lemma_first_label_bounds(s.drop_first());
    }
}

} // verus!
