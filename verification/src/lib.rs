//! Client-side engine for the OAuth 2.0 authorization code grant
//! (RFC 6749) with the PKCE extension (RFC 7636).
//!
//! The crate models every parameter set of the grant, encodes and
//! decodes them on the wire, and follows the token exchange as a
//! resumable state machine that never performs I/O itself: the
//! caller runs the HTTP coroutine and the transport, and hands over
//! each step.
//!
//! The protocol lives in [`v2_0`]. The other modules bind the crates
//! that do the encoding, hashing, parsing and request building. What
//! they say of those crates is relied upon; everything else is
//! proved.

pub mod clock;
pub mod digest;
pub mod form;
pub mod form_laws;
pub mod json;
pub mod random;
pub mod secret;
pub mod text;
pub mod transport;
pub mod uri;
pub mod v2_0;
