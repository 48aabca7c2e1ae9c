//! Confirmation tokens and their generator.

use crate::domain::text::{alphanumeric, is_alphanumeric};
use rand::distributions::Alphanumeric;
use rand::Rng;
use vstd::prelude::*;

verus! {

/// The number of characters of a generated token.
pub const TOKEN_LENGTH: usize = 25;

/// What holds of every token: at least [`TOKEN_LENGTH`] characters, each an
/// ASCII letter or digit.
pub open spec fn is_token(s: Seq<char>) -> bool {
    &&& s.len() >= TOKEN_LENGTH
    &&& forall|i: int| 0 <= i < s.len() ==> is_alphanumeric(#[trigger] s[i])
}

/// `String::push`: the character is appended to the text.
pub assume_specification[ String::push ](s: &mut String, c: char)
    ensures
        final(s)@ == old(s)@.push(c),
;

/// One draw of `rand`'s `Alphanumeric` distribution from the thread-local
/// generator `thread_rng`, which the operating system seeds: the result is
/// an ASCII letter or digit. Which one is not stated. The draw panics where
/// the generator cannot be seeded.
#[verifier::external_body]
fn random_alphanumeric() -> (c: char)
    ensures
        is_alphanumeric(c),
{
    rand::thread_rng().sample(Alphanumeric) as char
}

/// An opaque credential that proves receipt of a confirmation message.
pub struct ConfirmationToken(String);

impl View for ConfirmationToken {
    type V = Seq<char>;

    closed spec fn view(&self) -> Seq<char> {
        self.0@
    }
}

impl ConfirmationToken {
    #[verifier::type_invariant]
    spec fn valid(self) -> bool {
        is_token(self.0@)
    }

    /// The token made of `characters`, where they are at least
    /// [`TOKEN_LENGTH`] and each is an ASCII letter or digit; nothing
    /// otherwise.
    pub fn from_characters(characters: &Vec<char>) -> (r: Option<ConfirmationToken>)
        ensures
            (match r {
                Some(token) => is_token(characters@) && token@ == characters@,
                None => !is_token(characters@),
            }),
    {
        if characters.len() < TOKEN_LENGTH {
            return None;
        }
        let mut text = String::new();
        let mut n: usize = 0;
        while n < characters.len()
            invariant
                n <= characters@.len(),
                text@ == characters@.take(n as int),
                forall|i: int| 0 <= i < n ==> is_alphanumeric(#[trigger] characters@[i]),
            decreases characters@.len() - n,
        {
            let c = characters[n];
            if !alphanumeric(c) {
                return None;
            }
            text.push(c);
            assert(characters@.take(n as int).push(c) =~= characters@.take(n + 1));
            n = n + 1;
        }
        assert(characters@.take(n as int) =~= characters@);
        Some(ConfirmationToken(text))
    }

    /// A fresh token of [`TOKEN_LENGTH`] random letters and digits.
    pub fn generate() -> (t: ConfirmationToken)
        ensures
            t@.len() == TOKEN_LENGTH,
            is_token(t@),
    {
        let mut characters: Vec<char> = Vec::new();
        while characters.len() < TOKEN_LENGTH
            invariant
                characters@.len() <= TOKEN_LENGTH,
                forall|i: int|
                    0 <= i < characters@.len() ==> is_alphanumeric(#[trigger] characters@[i]),
            decreases TOKEN_LENGTH - characters@.len(),
        {
            let c = random_alphanumeric();
            characters.push(c);
        }
        match ConfirmationToken::from_characters(&characters) {
            Some(token) => token,
            None => {
                proof {
                    assert(is_token(characters@));
                }
                vstd::pervasive::unreached()
            },
        }
    }

    /// Whether `text` is this token.
    pub fn matches(&self, text: &String) -> (b: bool)
        ensures
            b == (self@ == text@),
    {
        self.0 == *text
    }

    /// The token's text.
    pub fn as_ref(&self) -> (r: &str)
        ensures
            r@ == self@,
            is_token(r@),
    {
        proof {
            use_type_invariant(self);
        }
        self.0.as_str()
    }
}

impl Clone for ConfirmationToken {
    fn clone(&self) -> (r: Self)
        ensures
            r@ == self@,
    {
        proof {
            use_type_invariant(self);
        }
        ConfirmationToken(self.0.clone())
    }
}

} // verus!
