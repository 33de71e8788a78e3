//! Validated value objects for a subscriber's identity: `SubscriberName`,
//! `SubscriberEmail`, and the `NewSubscriber` aggregate built from them.
//!
//! Each value object can only be obtained through its fallible `parse`
//! constructor, so a value of one of these types is itself the proof that the
//! text inside satisfies the type's invariants.

use vstd::prelude::*;
use vstd::string::*;

verus! {

/// The characters that may never occur in a subscriber name.
pub open spec fn forbidden_char(c: char) -> bool {
    c == '/' || c == '(' || c == ')' || c == '"' || c == '<' || c == '>' || c == '\\' || c == '{'
        || c == '}'
}

pub open spec fn contains_forbidden_char(s: Seq<char>) -> bool {
    exists|i: int| 0 <= i < s.len() && forbidden_char(s[i])
}

/// Whether a character has the Unicode White_Space property, as
/// `char::is_whitespace` decides it.
pub uninterp spec fn is_whitespace_char(c: char) -> bool;

/// Relies on `char::is_whitespace`: whether a character has the Unicode
/// White_Space property, a function of the character alone.
pub assume_specification[ char::is_whitespace ](c: char) -> (r: bool)
    ensures
        r == is_whitespace_char(c),
;

/// True of the empty string and of strings made of whitespace only:
/// exactly the strings whose trimmed form is empty.
pub open spec fn all_whitespace(s: Seq<char>) -> bool {
    forall|i: int| 0 <= i < s.len() ==> is_whitespace_char(s[i])
}

/// The number of extended grapheme clusters (user-perceived characters) of a
/// string, as unicode-segmentation counts them.
pub uninterp spec fn grapheme_count(s: Seq<char>) -> nat;

/// A subscriber name may hold at most this many user-perceived characters.
pub const MAX_NAME_GRAPHEMES: usize = 256;

/// The invariant of `SubscriberName`: not empty or all-whitespace, at most
/// `MAX_NAME_GRAPHEMES` user-perceived characters, no forbidden character.
pub open spec fn valid_subscriber_name(s: Seq<char>) -> bool {
    &&& !all_whitespace(s)
    &&& grapheme_count(s) <= MAX_NAME_GRAPHEMES
    &&& !contains_forbidden_char(s)
}

/// Relies on unicode-segmentation's `UnicodeSegmentation::graphemes` with the
/// extended grapheme cluster rules: the clusters of a string, and hence how
/// many there are, depend on its characters alone.
#[verifier::external_body]
pub(crate) fn count_graphemes(s: &str) -> (n: usize)
    ensures
        n == grapheme_count(s@),
{
    unicode_segmentation::UnicodeSegmentation::graphemes(s, true).count()
}

/// Decides whether the string is empty or made of whitespace only, i.e.
/// whether its trimmed form is empty.
pub(crate) fn is_empty_or_whitespace(s: &str) -> (r: bool)
    ensures
        r == all_whitespace(s@),
{
    let len = s.unicode_len();
    let mut i: usize = 0;
    while i < len
        invariant
            i <= len,
            len == s@.len(),
            forall|j: int| 0 <= j < i ==> is_whitespace_char(s@[j]),
        decreases len - i,
    {
        let c = s.get_char(i);
        if !c.is_whitespace() {
            assert(!is_whitespace_char(s@[i as int]));
            return false;
        }
        i += 1;
    }
    true
}

/// Decides whether the string holds any of the characters a subscriber name
/// must not contain.
pub(crate) fn contains_forbidden_characters(s: &str) -> (r: bool)
    ensures
        r == contains_forbidden_char(s@),
{
    let len = s.unicode_len();
    let mut i: usize = 0;
    while i < len
        invariant
            i <= len,
            len == s@.len(),
            forall|j: int| 0 <= j < i ==> !forbidden_char(s@[j]),
        decreases len - i,
    {
        let c = s.get_char(i);
        if c == '/' || c == '(' || c == ')' || c == '"' || c == '<' || c == '>' || c == '\\'
            || c == '{' || c == '}' {
            assert(forbidden_char(s@[i as int]));
            return true;
        }
        i += 1;
    }
    false
}

/// A subscriber's display name, guaranteed to satisfy
/// `valid_subscriber_name`. Immutable after construction: the only read
/// access is the shared string view `as_ref`.
#[derive(Debug)]
pub struct SubscriberName(String);

impl View for SubscriberName {
    type V = Seq<char>;

    closed spec fn view(&self) -> Seq<char> {
        self.0@
    }
}

impl SubscriberName {
    /// The invariant every constructed value carries.
    pub open spec fn wf(&self) -> bool {
        valid_subscriber_name(self@)
    }

    /// Returns an instance of `SubscriberName` if and only if the input
    /// satisfies all our validation constraints on subscriber names, and
    /// keeps the accepted text exactly as it was given. A rejection carries
    /// the offending text in its message, and is pinned down so that callers
    /// can promise to propagate it verbatim.
    pub fn parse(s: String) -> (r: Result<SubscriberName, String>)
        ensures
            r is Ok <==> valid_subscriber_name(s@),
            r is Ok ==> r->Ok_0@ == s@ && r->Ok_0.wf(),
            r is Err ==> r->Err_0@ == s@ + " is not a valid subscriber name."@,
    {
        let is_empty_or_ws = is_empty_or_whitespace(s.as_str());
        let is_too_long = count_graphemes(s.as_str()) > MAX_NAME_GRAPHEMES;
        let has_forbidden = contains_forbidden_characters(s.as_str());
        if is_empty_or_ws || is_too_long || has_forbidden {
            Err(s.concat(" is not a valid subscriber name."))
        } else {
            Ok(SubscriberName(s))
        }
    }

    /// Shared read-only view of the validated text.
    pub fn as_ref(&self) -> (r: &str)
        ensures
            r@ == self@,
    {
        self.0.as_str()
    }
}

/// A string consisting of just one forbidden character is not a valid
/// subscriber name, whichever of the forbidden characters it is.
pub proof fn lemma_forbidden_char_alone_is_invalid(c: char)
    requires
        forbidden_char(c),
    ensures
        !valid_subscriber_name(seq![c]),
{
    assert(contains_forbidden_char(seq![c])) by {
        assert(forbidden_char(seq![c][0]));
    }
}

/// How many times the character `c` occurs in `s`.
pub open spec fn count_char(s: Seq<char>, c: char) -> nat
    decreases s.len(),
{
    if s.len() == 0 {
        0
    } else {
        count_char(s.drop_last(), c) + if s.last() == c {
            1nat
        } else {
            0nat
        }
    }
}

/// The invariant of `SubscriberEmail`: exactly one `@`, with a non-empty
/// local part before it and a non-empty domain after it.
pub open spec fn valid_subscriber_email(s: Seq<char>) -> bool {
    &&& count_char(s, '@') == 1
    &&& s.first() != '@'
    &&& s.last() != '@'
}

/// Counts how often `c` occurs among the characters of `s`.
pub(crate) fn count_occurrences(s: &str, c: char) -> (n: usize)
    ensures
        n == count_char(s@, c),
{
    let len = s.unicode_len();
    let mut n: usize = 0;
    let mut i: usize = 0;
    assert(s@.subrange(0, 0) =~= Seq::<char>::empty());
    while i < len
        invariant
            i <= len,
            n <= i,
            len == s@.len(),
            n == count_char(s@.subrange(0, i as int), c),
        decreases len - i,
    {
        let ch = s.get_char(i);
        proof {
            assert(s@.subrange(0, i + 1).drop_last() =~= s@.subrange(0, i as int));
            assert(s@.subrange(0, i + 1).last() == s@[i as int]);
        }
        if ch == c {
            n += 1;
        }
        i += 1;
    }
    proof {
        assert(s@.subrange(0, len as int) =~= s@);
    }
    n
}

/// A subscriber's email address, guaranteed to satisfy
/// `valid_subscriber_email`. Immutable after construction.
#[derive(Debug)]
pub struct SubscriberEmail(String);

impl View for SubscriberEmail {
    type V = Seq<char>;

    closed spec fn view(&self) -> Seq<char> {
        self.0@
    }
}

impl SubscriberEmail {
    /// The invariant every constructed value carries.
    pub open spec fn wf(&self) -> bool {
        valid_subscriber_email(self@)
    }

    /// Returns an instance of `SubscriberEmail` if and only if the input has
    /// the shape of an email address (one `@` between a non-empty local part
    /// and a non-empty domain), and keeps the accepted text exactly as given.
    /// A rejection carries the offending text in its message, pinned down as
    /// `SubscriberName::parse` pins its own.
    pub fn parse(s: String) -> (r: Result<SubscriberEmail, String>)
        ensures
            r is Ok <==> valid_subscriber_email(s@),
            r is Ok ==> r->Ok_0@ == s@ && r->Ok_0.wf(),
            r is Err ==> r->Err_0@ == s@ + " is not a valid subscriber email."@,
    {
        let len = s.as_str().unicode_len();
        if len == 0 {
            assert(count_char(s@, '@') == 0);
            return Err(s.concat(" is not a valid subscriber email."));
        }
        if s.as_str().get_char(0) == '@' || s.as_str().get_char(len - 1) == '@' {
            return Err(s.concat(" is not a valid subscriber email."));
        }
        let ats = count_occurrences(s.as_str(), '@');
        if ats != 1 {
            Err(s.concat(" is not a valid subscriber email."))
        } else {
            Ok(SubscriberEmail(s))
        }
    }

    /// Shared read-only view of the validated text.
    pub fn as_ref(&self) -> (r: &str)
        ensures
            r@ == self@,
    {
        self.0.as_str()
    }
}

/// The unit of validity handed to persistence: both fields have passed their
/// own validation, so the aggregate's existence is the proof that the
/// subscriber identity is valid.
#[derive(Debug)]
pub struct NewSubscriber {
    pub email: SubscriberEmail,
    pub name: SubscriberName,
}

impl NewSubscriber {
    /// Validity of the aggregate: validity of both parts.
    pub open spec fn wf(&self) -> bool {
        self.email.wf() && self.name.wf()
    }
}

} // verus!
