//! A subscriber's email address.

use crate::domain::text::{alphanumeric, chars_of, is_alphanumeric};
use crate::domain::validation_error::ValidationError;
use vstd::prelude::*;

verus! {

/// A punctuation mark that may stand in the part before the `@`.
pub open spec fn is_local_mark(c: char) -> bool {
    c == '.' || c == '!' || c == '#' || c == '$' || c == '%' || c == '&' || c == '\'' || c == '*'
        || c == '+' || c == '/' || c == '=' || c == '?' || c == '^' || c == '_' || c == '`'
        || c == '{' || c == '|' || c == '}' || c == '~' || c == '-'
}

/// A character that may stand in the part before the `@`.
pub open spec fn is_local_char(c: char) -> bool {
    is_alphanumeric(c) || is_local_mark(c)
}

/// A dot, which parts two labels of a domain, or a hyphen, which joins two
/// pieces of one label.
pub open spec fn is_separator(c: char) -> bool {
    c == '.' || c == '-'
}

/// The part before the `@`: one or more local characters.
pub open spec fn is_local_part(s: Seq<char>) -> bool {
    &&& s.len() > 0
    &&& forall|i: int| 0 <= i < s.len() ==> is_local_char(#[trigger] s[i])
}

/// What holds of the character at `i` in a domain `d`: it is a letter or a
/// digit, or a separator that stands at neither end and beside no dot.
pub open spec fn domain_char_ok(d: Seq<char>, i: int) -> bool {
    is_alphanumeric(d[i]) || (is_separator(d[i]) && 0 < i < d.len() - 1 && d[i - 1] != '.' && d[i
        + 1] != '.')
}

/// The part after the `@`: one or more labels parted by single dots, each
/// label made of letters, digits and hyphens, with no hyphen at either end
/// of it.
pub open spec fn is_domain(d: Seq<char>) -> bool {
    &&& d.len() > 0
    &&& forall|i: int| 0 <= i < d.len() ==> #[trigger] domain_char_ok(d, i)
}

/// An email address: a local part, an `@`, and a domain.
pub open spec fn is_email(s: Seq<char>) -> bool {
    exists|at: int|
        0 <= at < s.len() && s[at] == '@' && is_local_part(#[trigger] s.subrange(0, at))
            && is_domain(s.subrange(at + 1, s.len() as int))
}

fn local_char(c: char) -> (b: bool)
    ensures
        b == is_local_char(c),
{
    alphanumeric(c) || c == '.' || c == '!' || c == '#' || c == '$' || c == '%' || c == '&' || c
        == '\'' || c == '*' || c == '+' || c == '/' || c == '=' || c == '?' || c == '^' || c
        == '_' || c == '`' || c == '{' || c == '|' || c == '}' || c == '~' || c == '-'
}

/// Whether the characters before position `end` form a local part.
fn local_part_before(v: &Vec<char>, end: usize) -> (b: bool)
    requires
        end <= v@.len(),
    ensures
        b == is_local_part(v@.subrange(0, end as int)),
{
    let ghost part = v@.subrange(0, end as int);
    if end == 0 {
        return false;
    }
    let mut i: usize = 0;
    while i < end
        invariant
            i <= end <= v@.len(),
            part == v@.subrange(0, end as int),
            forall|k: int| 0 <= k < i ==> is_local_char(#[trigger] part[k]),
        decreases end - i,
    {
        if !local_char(v[i]) {
            assert(!is_local_char(part[i as int]));
            return false;
        }
        i = i + 1;
    }
    true
}

/// Whether the characters from position `start` on form a domain.
fn domain_from(v: &Vec<char>, start: usize) -> (b: bool)
    requires
        start <= v@.len(),
    ensures
        b == is_domain(v@.subrange(start as int, v@.len() as int)),
{
    let ghost d = v@.subrange(start as int, v@.len() as int);
    let n: usize = v.len();
    if start == n {
        return false;
    }
    let mut i: usize = start;
    while i < n
        invariant
            start <= i <= n,
            n == v@.len(),
            d == v@.subrange(start as int, n as int),
            forall|k: int| 0 <= k < i - start ==> #[trigger] domain_char_ok(d, k),
        decreases n - i,
    {
        let c = v[i];
        assert(d[i - start] == c);
        if !alphanumeric(c) {
            if !(c == '.' || c == '-') || i == start || i + 1 == n {
                assert(!domain_char_ok(d, i - start));
                return false;
            }
            assert(d[i - start - 1] == v@[i - 1]);
            assert(d[i - start + 1] == v@[i + 1]);
            if v[i - 1] == '.' || v[i + 1] == '.' {
                assert(!domain_char_ok(d, i - start));
                return false;
            }
        }
        assert(domain_char_ok(d, i - start));
        i = i + 1;
    }
    true
}

/// The position of the first `@` of `v`, or the length of `v` where it holds
/// none.
fn first_at(v: &Vec<char>) -> (at: usize)
    ensures
        at <= v@.len(),
        forall|i: int| 0 <= i < at ==> #[trigger] v@[i] != '@',
        at < v@.len() ==> v@[at as int] == '@',
{
    let mut at: usize = 0;
    while at < v.len() && v[at] != '@'
        invariant
            at <= v@.len(),
            forall|i: int| 0 <= i < at ==> #[trigger] v@[i] != '@',
        decreases v@.len() - at,
    {
        at = at + 1;
    }
    at
}

/// In an email address, the `@` that parts it is the first `@` of the text.
proof fn lemma_split_at_first(s: Seq<char>, first: int, at: int)
    requires
        0 <= first < s.len(),
        s[first] == '@',
        forall|i: int| 0 <= i < first ==> #[trigger] s[i] != '@',
        0 <= at < s.len(),
        s[at] == '@',
        is_local_part(s.subrange(0, at)),
    ensures
        at == first,
{
    if first < at {
        assert(s.subrange(0, at)[first] == '@');
        assert(!is_local_char(s.subrange(0, at)[first]));
    }
}

/// Whether `s` is an email address.
pub fn email_is_valid(s: &str) -> (b: bool)
    ensures
        b == is_email(s@),
{
    let v = chars_of(s);
    let at = first_at(&v);
    if at == v.len() {
        return false;
    }
    let ok = local_part_before(&v, at) && domain_from(&v, at + 1);
    proof {
        if ok {
            assert(is_local_part(s@.subrange(0, at as int)));
        } else {
            assert forall|other: int|
                0 <= other < s@.len() && s@[other] == '@' && is_local_part(
                    #[trigger] s@.subrange(0, other),
                ) implies !is_domain(s@.subrange(other + 1, s@.len() as int)) by {
                lemma_split_at_first(s@, at as int, other);
            }
        }
    }
    ok
}

/// An address that passed validation. It is made by
/// [`SubscriberEmail::parse`] alone and never changes afterwards.
pub struct SubscriberEmail(String);

impl View for SubscriberEmail {
    type V = Seq<char>;

    closed spec fn view(&self) -> Seq<char> {
        self.0@
    }
}

impl SubscriberEmail {
    #[verifier::type_invariant]
    spec fn valid(self) -> bool {
        is_email(self.0@)
    }

    /// What [`SubscriberEmail::parse`] makes of a text: the text itself
    /// where it is an email address, a rejection where it is not.
    pub open spec fn parsed(s: Seq<char>) -> Result<Seq<char>, ValidationError> {
        if is_email(s) {
            Ok(s)
        } else {
            Err(ValidationError::InvalidEmail)
        }
    }

    /// Accepts `s` exactly when it is an email address, and keeps the text
    /// as it was given.
    pub fn parse(s: String) -> (r: Result<SubscriberEmail, ValidationError>)
        ensures
            (match r {
                Ok(email) => Self::parsed(s@) == Ok::<Seq<char>, ValidationError>(email@),
                Err(e) => Self::parsed(s@) == Err::<Seq<char>, ValidationError>(e),
            }),
    {
        if email_is_valid(s.as_str()) {
            Ok(SubscriberEmail(s))
        } else {
            Err(ValidationError::InvalidEmail)
        }
    }

    /// The address's text.
    pub fn as_ref(&self) -> (r: &str)
        ensures
            r@ == self@,
            is_email(r@),
    {
        proof {
            use_type_invariant(self);
        }
        self.0.as_str()
    }
}

impl AsRef<str> for SubscriberEmail {
    /// The text, as it was parsed.
    fn as_ref(&self) -> (r: &str)
        ensures
            r@ == self@,
            is_email(r@),
    {
        proof {
            use_type_invariant(self);
        }
        self.0.as_str()
    }
}

impl Clone for SubscriberEmail {
    fn clone(&self) -> (r: Self)
        ensures
            r@ == self@,
    {
        proof {
            use_type_invariant(self);
        }
        SubscriberEmail(self.0.clone())
    }
}

/// Parsing an email address succeeds and gives back the very text that was
/// parsed.
pub proof fn lemma_valid_email_round_trips(s: Seq<char>)
    requires
        is_email(s),
    ensures
        SubscriberEmail::parsed(s) == Ok::<Seq<char>, ValidationError>(s),
{
}

/// A text without an `@`, or with nothing behind its last `@`, is no email
/// address.
pub proof fn lemma_email_needs_at_and_domain(s: Seq<char>)
    requires
        (forall|i: int| 0 <= i < s.len() ==> s[i] != '@') || (s.len() > 0 && s.last() == '@'),
    ensures
        !is_email(s),
        SubscriberEmail::parsed(s) == Err::<Seq<char>, ValidationError>(
            ValidationError::InvalidEmail,
        ),
{
    if is_email(s) {
        let at = choose|at: int|
            0 <= at < s.len() && s[at] == '@' && is_local_part(#[trigger] s.subrange(0, at))
                && is_domain(s.subrange(at + 1, s.len() as int));
        let d = s.subrange(at + 1, s.len() as int);
        assert(d.len() > 0);
        assert(domain_char_ok(d, d.len() - 1));
        assert(d[d.len() - 1] == s.last());
    }
}

} // verus!
