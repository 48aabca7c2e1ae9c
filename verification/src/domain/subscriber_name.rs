//! A subscriber's display name.

use crate::domain::validation_error::ValidationError;
use unicode_segmentation::UnicodeSegmentation;
use vstd::prelude::*;
use vstd::std_specs::iter::IteratorSpec;

verus! {

/// The longest name accepted, in grapheme clusters.
pub const MAX_NAME_GRAPHEMES: usize = 256;

/// The number of extended grapheme clusters of a text, as
/// `unicode_segmentation` segments it.
pub uninterp spec fn grapheme_count(s: Seq<char>) -> nat;

/// A text with its leading and trailing whitespace removed, as `str::trim`
/// removes it.
pub uninterp spec fn trimmed(s: Seq<char>) -> Seq<char>;

/// `str::trim`: the result is the trimmed text, which is never longer than
/// the text it was cut from.
pub assume_specification[ str::trim ](s: &str) -> (r: &str)
    ensures
        r@ == trimmed(s@),
        r@.len() <= s@.len(),
;

/// `UnicodeSegmentation::graphemes` in extended mode, counted: the result is
/// the number of grapheme clusters of `s`.
#[verifier::external_body]
fn count_graphemes(s: &str) -> (n: usize)
    ensures
        n == grapheme_count(s@),
{
    s.graphemes(true).count()
}

/// The characters that no name may hold.
pub open spec fn is_forbidden(c: char) -> bool {
    c == '/' || c == '(' || c == ')' || c == '"' || c == '<' || c == '>' || c == '\\' || c == '{'
        || c == '}'
}

/// Some character of `s` is forbidden.
pub open spec fn has_forbidden(s: Seq<char>) -> bool {
    exists|i: int| 0 <= i < s.len() && is_forbidden(#[trigger] s[i])
}

/// Nothing is left of `s` once it is trimmed.
pub open spec fn is_blank(s: Seq<char>) -> bool {
    trimmed(s).len() == 0
}

/// The verdict on a name `s` of which the trimmed length and the number of
/// grapheme clusters are known.
pub open spec fn is_acceptable(trimmed_len: nat, graphemes: nat, s: Seq<char>) -> bool {
    &&& trimmed_len > 0
    &&& graphemes <= MAX_NAME_GRAPHEMES
    &&& !has_forbidden(s)
}

/// What a name must satisfy to be accepted.
pub open spec fn is_valid_name(s: Seq<char>) -> bool {
    is_acceptable(trimmed(s).len(), grapheme_count(s), s)
}

fn forbidden(c: char) -> (b: bool)
    ensures
        b == is_forbidden(c),
{
    c == '/' || c == '(' || c == ')' || c == '"' || c == '<' || c == '>' || c == '\\' || c == '{'
        || c == '}'
}

/// Whether any character of `s` is forbidden in a name.
pub fn contains_forbidden(s: &str) -> (b: bool)
    ensures
        b == has_forbidden(s@),
{
    let mut rest = s.chars();
    let ghost mut seen: int = 0;
    loop
        invariant
            0 <= seen <= s@.len(),
            rest.remaining() == s@.skip(seen),
            forall|i: int| 0 <= i < seen ==> !is_forbidden(#[trigger] s@[i]),
        decreases s@.len() - seen,
    {
        match rest.next() {
            Some(c) => {
                if forbidden(c) {
                    assert(is_forbidden(s@[seen]));
                    return true;
                }
                proof {
                    assert(s@.skip(seen).drop_first() =~= s@.skip(seen + 1));
                    seen = seen + 1;
                }
            },
            None => {
                return false;
            },
        }
    }
}

/// Judges a name of which it is known whether anything is left after
/// trimming, and how many grapheme clusters it has: it is acceptable when
/// something is left, the clusters are at most [`MAX_NAME_GRAPHEMES`], and
/// no character is forbidden.
pub fn name_is_acceptable(s: &str, blank: bool, graphemes: usize) -> (b: bool)
    ensures
        b == (!blank && graphemes <= MAX_NAME_GRAPHEMES && !has_forbidden(s@)),
{
    !(blank || graphemes > MAX_NAME_GRAPHEMES || contains_forbidden(s))
}

/// A name that passed validation. It is made by [`SubscriberName::parse`]
/// alone and never changes afterwards.
pub struct SubscriberName(String);

impl View for SubscriberName {
    type V = Seq<char>;

    closed spec fn view(&self) -> Seq<char> {
        self.0@
    }
}

impl SubscriberName {
    #[verifier::type_invariant]
    spec fn valid(self) -> bool {
        is_valid_name(self.0@)
    }

    /// What [`SubscriberName::parse`] makes of a text: the text itself
    /// where it is a valid name, a rejection where it is not.
    pub open spec fn parsed(s: Seq<char>) -> Result<Seq<char>, ValidationError> {
        if is_valid_name(s) {
            Ok(s)
        } else {
            Err(ValidationError::InvalidName)
        }
    }

    /// Accepts `s` as a name exactly when it is not blank, has at most
    /// [`MAX_NAME_GRAPHEMES`] grapheme clusters and holds no forbidden
    /// character. The accepted name keeps the text as it was given. The
    /// empty text is always rejected.
    pub fn parse(s: String) -> (r: Result<SubscriberName, ValidationError>)
        ensures
            s@.len() == 0 ==> r is Err,
            (match r {
                Ok(name) => Self::parsed(s@) == Ok::<Seq<char>, ValidationError>(name@),
                Err(e) => Self::parsed(s@) == Err::<Seq<char>, ValidationError>(e),
            }),
    {
        let is_empty_or_whitespace = s.as_str().trim().is_empty();
        let graphemes = count_graphemes(s.as_str());
        if name_is_acceptable(s.as_str(), is_empty_or_whitespace, graphemes) {
            Ok(SubscriberName(s))
        } else {
            Err(ValidationError::InvalidName)
        }
    }

    /// The name's text.
    pub fn as_ref(&self) -> (r: &str)
        ensures
            r@ == self@,
            is_valid_name(r@),
    {
        proof {
            use_type_invariant(self);
        }
        self.0.as_str()
    }
}

impl AsRef<str> for SubscriberName {
    /// The text, as it was parsed.
    fn as_ref(&self) -> (r: &str)
        ensures
            r@ == self@,
            is_valid_name(r@),
    {
        proof {
            use_type_invariant(self);
        }
        self.0.as_str()
    }
}

/// A text that is blank, or has more than [`MAX_NAME_GRAPHEMES`] grapheme
/// clusters, or holds a forbidden character, is no valid name, and parsing
/// it fails.
pub proof fn lemma_invalid_names_are_rejected(s: Seq<char>)
    requires
        is_blank(s) || grapheme_count(s) > MAX_NAME_GRAPHEMES || has_forbidden(s),
    ensures
        !is_valid_name(s),
        SubscriberName::parsed(s) == Err::<Seq<char>, ValidationError>(
            ValidationError::InvalidName,
        ),
{
}

} // verus!
