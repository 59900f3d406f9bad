//! The authorization code grant (RFC 6749, section 4.1).

pub mod access_token_request;
pub mod authorization_request;
pub mod authorization_response;
pub mod laws;
pub mod pkce;
pub mod state;

pub use self::access_token_request::{AccessTokenRequestParams, SendAccessTokenRequest};
pub use self::authorization_request::AuthorizationRequestParams;
pub use self::authorization_response::{AuthorizationErrorParams, AuthorizationResponseParams};
pub use self::pkce::{PkceCodeChallenge, PkceCodeChallengeMethod, PkceCodeVerifier};
pub use self::state::State;
