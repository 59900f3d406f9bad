//! The OAuth 2.0 authorization framework (RFC 6749).

pub mod authorization_code_grant;
pub mod error;
pub mod exchange;
pub mod issue_access_token;
pub mod refresh_access_token;
pub mod scope;

pub use self::error::OAuthError;
pub use self::exchange::{ExchangeState, RequestBuildError, TokenExchange};
pub use self::issue_access_token::{
    AccessTokenResponse, IssueAccessTokenErrorCode, IssueAccessTokenErrorParams,
    IssueAccessTokenSuccessParams, ResponseParseError,
};
pub use self::refresh_access_token::{RefreshAccessToken, RefreshAccessTokenParams};
pub use self::scope::Scope;
