//! The failures of the flow that are found before any I/O is done.

use vstd::prelude::*;

verus! {

/// A failure that ends the flow. None of them is retried.
#[derive(Clone, Copy, Debug, PartialEq, Eq, Structural)]
pub enum OAuthError {
    /// The state that came back differs from the one that was issued,
    /// or one of the two is missing.
    CsrfStateMismatch,
    /// The callback is no absolute URI, or its query carries neither a
    /// code nor an error.
    MalformedCallback,
    /// The verifier text holds this byte, which is not an unreserved
    /// character.
    InvalidPkceCharacter(u8),
}

} // verus!
