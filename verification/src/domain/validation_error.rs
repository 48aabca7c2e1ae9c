//! The reasons for which a submitted field is rejected.

use vstd::prelude::*;

verus! {

/// Why a raw field of a submission was rejected.
#[derive(Debug, Clone, Copy, PartialEq, Eq, Structural)]
pub enum ValidationError {
    /// The name is blank, too long, or holds a forbidden character.
    InvalidName,
    /// The address does not follow the grammar of an email address.
    InvalidEmail,
}

} // verus!
