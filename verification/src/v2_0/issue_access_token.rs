//! Issuing an access token (RFC 6749, section 5).
//!
//! The token endpoint answers with a JSON object. A response with a
//! 2xx status is read as a grant, any other as a refusal. A body that
//! has neither shape is reported as a parse error, which is another
//! thing than a refusal that the server has spelled out.

use crate::clock::{elapsed, now, whole_seconds};
use crate::json::{
    json_document, lookup, member_of, parse_document, JsonMember, JsonMemberView, Members,
};
use crate::secret::SecretText;
use crate::text::same_text;
use std::time::SystemTime;
use vstd::prelude::*;

verus! {

/// The answer of the token endpoint: the grant, or the refusal that
/// the server reported.
pub type AccessTokenResponse = Result<IssueAccessTokenSuccessParams, IssueAccessTokenErrorParams>;

/// Why a response body could not be read.
#[derive(Debug)]
pub enum ResponseParseError {
    /// The body is not a JSON document.
    Syntax(serde_json::Error),
    /// The body is JSON, but a member that the response needs is
    /// missing, or a member has a value of the wrong kind.
    Shape,
}

/// The lifetime that is left of `expires_in` seconds when `elapsed`
/// seconds have passed: the difference, and zero once the token has
/// expired.
pub open spec fn remaining_lifetime(expires_in: usize, elapsed: u64) -> usize {
    if elapsed >= expires_in {
        0
    } else {
        (expires_in - elapsed) as usize
    }
}

/// The lifetime after it has been brought up to date: the elapsed
/// seconds are taken off, and nothing changes without a lifetime or
/// when no time is known to have passed.
pub open spec fn synced_lifetime(expires_in: Option<usize>, elapsed: Option<u64>) -> Option<usize> {
    match (expires_in, elapsed) {
        (Some(lifetime), Some(seconds)) => Some(remaining_lifetime(lifetime, seconds)),
        _ => expires_in,
    }
}

/// A required string member: it has to be a string.
pub open spec fn required_text(member: JsonMemberView) -> Option<Seq<char>> {
    match member {
        JsonMemberView::Text(text) => Some(text),
        _ => None,
    }
}

/// An optional string member: absent, `null` or a string. The outer
/// `None` stands for a value of another kind.
pub open spec fn optional_text(member: JsonMemberView) -> Option<Option<Seq<char>>> {
    match member {
        JsonMemberView::Absent => Some(None),
        JsonMemberView::Null => Some(None),
        JsonMemberView::Text(text) => Some(Some(text)),
        _ => None,
    }
}

/// An optional count member: absent, `null` or an integer that fits
/// `usize`. The outer `None` stands for any other value.
pub open spec fn optional_count(member: JsonMemberView) -> Option<Option<usize>> {
    match member {
        JsonMemberView::Absent => Some(None),
        JsonMemberView::Null => Some(None),
        JsonMemberView::Number(Some(count)) => if count <= usize::MAX {
            Some(Some(count as usize))
        } else {
            None
        },
        _ => None,
    }
}

/// The members of a grant, as specifications see them.
pub struct SuccessFields {
    pub access_token: Seq<char>,
    pub token_type: Seq<char>,
    pub expires_in: Option<usize>,
    pub refresh_token: Option<Seq<char>>,
    pub scope: Option<Seq<char>>,
}

/// The grant that five members spell, or `None` if one of them has
/// not the kind that the grant asks for: `access_token` and
/// `token_type` are strings; `expires_in` is an integer if it is
/// there; `refresh_token` and `scope` are strings if they are there.
pub open spec fn success_fields(
    access_token: JsonMemberView,
    token_type: JsonMemberView,
    expires_in: JsonMemberView,
    refresh_token: JsonMemberView,
    scope: JsonMemberView,
) -> Option<SuccessFields> {
    if required_text(access_token) is Some && required_text(token_type) is Some && optional_count(
        expires_in,
    ) is Some && optional_text(refresh_token) is Some && optional_text(scope) is Some {
        Some(
            SuccessFields {
                access_token: required_text(access_token)->Some_0,
                token_type: required_text(token_type)->Some_0,
                expires_in: optional_count(expires_in)->Some_0,
                refresh_token: optional_text(refresh_token)->Some_0,
                scope: optional_text(scope)->Some_0,
            },
        )
    } else {
        None
    }
}

/// The grant that the members of a JSON object spell.
pub open spec fn success_of(members: Members) -> Option<SuccessFields> {
    success_fields(
        member_of(members, "access_token"@),
        member_of(members, "token_type"@),
        member_of(members, "expires_in"@),
        member_of(members, "refresh_token"@),
        member_of(members, "scope"@),
    )
}

/// Reads a required string member.
fn take_required_text(member: JsonMember) -> (text: Option<String>)
    ensures
        match text {
            Some(text) => required_text(member@) == Some(text@),
            None => required_text(member@) is None,
        },
{
    match member {
        JsonMember::Text(text) => Some(text),
        _ => None,
    }
}

/// Reads an optional string member.
fn take_optional_text(member: JsonMember) -> (text: Option<Option<String>>)
    ensures
        match text {
            Some(Some(text)) => optional_text(member@) == Some(Some(text@)),
            Some(None) => optional_text(member@) == Some(None::<Seq<char>>),
            None => optional_text(member@) is None,
        },
{
    match member {
        JsonMember::Absent => Some(None),
        JsonMember::Null => Some(None),
        JsonMember::Text(text) => Some(Some(text)),
        _ => None,
    }
}

/// Reads an optional count member.
fn take_optional_count(member: JsonMember) -> (count: Option<Option<usize>>)
    ensures
        count == optional_count(member@),
{
    match member {
        JsonMember::Absent => Some(None),
        JsonMember::Null => Some(None),
        JsonMember::Number(Some(count)) => {
            if count <= usize::MAX as u64 {
                Some(Some(count as usize))
            } else {
                None
            }
        },
        _ => None,
    }
}

/// The response of the authorization server to a valid and authorized
/// access token request.
#[derive(Debug)]
pub struct IssueAccessTokenSuccessParams {
    /// The access token issued by the authorization server.
    pub access_token: SecretText,
    /// The type of the token issued.
    pub token_type: String,
    /// The lifetime in seconds of the access token.
    pub expires_in: Option<usize>,
    /// The refresh token, which can be used to obtain new access
    /// tokens for the same grant.
    pub refresh_token: Option<SecretText>,
    /// The scope of the access token, if it differs from the one that
    /// the client asked for.
    pub scope: Option<String>,
    /// The time at which the response was read. The server sends no
    /// time of its own, so the lifetime is counted from here, as if
    /// the response had taken no time to arrive.
    pub issued_at: SystemTime,
}

impl IssueAccessTokenSuccessParams {
    /// The members of the grant.
    pub open spec fn fields(&self) -> SuccessFields {
        SuccessFields {
            access_token: self.access_token@,
            token_type: self.token_type@,
            expires_in: self.expires_in,
            refresh_token: match self.refresh_token {
                Some(token) => Some(token@),
                None => None,
            },
            scope: match self.scope {
                Some(scope) => Some(scope@),
                None => None,
            },
        }
    }

    /// Builds a grant from the five members of a response, read at
    /// the time `issued_at`.
    pub fn from_members(
        access_token: JsonMember,
        token_type: JsonMember,
        expires_in: JsonMember,
        refresh_token: JsonMember,
        scope: JsonMember,
        issued_at: SystemTime,
    ) -> (parsed: Result<Self, ResponseParseError>)
        ensures
            match parsed {
                Ok(params) => {
                    &&& success_fields(
                        access_token@,
                        token_type@,
                        expires_in@,
                        refresh_token@,
                        scope@,
                    ) == Some(params.fields())
                    &&& params.issued_at == issued_at
                },
                Err(error) => {
                    &&& error is Shape
                    &&& success_fields(
                        access_token@,
                        token_type@,
                        expires_in@,
                        refresh_token@,
                        scope@,
                    ) is None
                },
            },
    {
        let access_token = match take_required_text(access_token) {
            Some(text) => text,
            None => {
                return Err(ResponseParseError::Shape);
            },
        };
        let token_type = match take_required_text(token_type) {
            Some(text) => text,
            None => {
                return Err(ResponseParseError::Shape);
            },
        };
        let expires_in = match take_optional_count(expires_in) {
            Some(count) => count,
            None => {
                return Err(ResponseParseError::Shape);
            },
        };
        let refresh_token = match take_optional_text(refresh_token) {
            Some(text) => text,
            None => {
                return Err(ResponseParseError::Shape);
            },
        };
        let scope = match take_optional_text(scope) {
            Some(text) => text,
            None => {
                return Err(ResponseParseError::Shape);
            },
        };
        let refresh_token = match refresh_token {
            Some(text) => Some(SecretText::new(text)),
            None => None,
        };
        Ok(
            IssueAccessTokenSuccessParams {
                access_token: SecretText::new(access_token),
                token_type,
                expires_in,
                refresh_token,
                scope,
                issued_at,
            },
        )
    }

    /// Reads a grant from the JSON bytes of a response body. The
    /// current time becomes the time of issue.
    ///
    /// The body has to be a JSON object. Of a member name that occurs
    /// more than once the last value counts. Members that the grant
    /// does not know are passed over, a member `issued_at` among them.
    /// A reader derived by `serde` for the same fields differs in all
    /// three: it takes a JSON array of the values in field order,
    /// refuses a repeated name, and reads `issued_at`.
    pub fn try_from(bytes: &[u8]) -> (parsed: Result<Self, ResponseParseError>)
        ensures
            match parsed {
                Ok(params) => json_document(bytes@) is Some && success_of(
                    json_document(bytes@)->Some_0,
                ) == Some(params.fields()),
                Err(ResponseParseError::Syntax(_)) => json_document(bytes@) is None,
                Err(ResponseParseError::Shape) => json_document(bytes@) is Some && success_of(
                    json_document(bytes@)->Some_0,
                ) is None,
            },
    {
        let document = match parse_document(bytes) {
            Ok(document) => document,
            Err(error) => {
                return Err(ResponseParseError::Syntax(error));
            },
        };
        IssueAccessTokenSuccessParams::from_members(
            lookup(&document, "access_token"),
            lookup(&document, "token_type"),
            lookup(&document, "expires_in"),
            lookup(&document, "refresh_token"),
            lookup(&document, "scope"),
            now(),
        )
    }

    /// Brings `expires_in` up to date, given the whole seconds that
    /// have passed since the time of issue: that many seconds are
    /// taken off, down to zero. Without an `expires_in` nothing
    /// changes.
    pub fn sync_expires_in_after(&mut self, elapsed_seconds: u64)
        ensures
            final(self).expires_in == match old(self).expires_in {
                Some(expires_in) => Some(remaining_lifetime(expires_in, elapsed_seconds)),
                None => None,
            },
            final(self).access_token == old(self).access_token,
            final(self).token_type == old(self).token_type,
            final(self).refresh_token == old(self).refresh_token,
            final(self).scope == old(self).scope,
            final(self).issued_at == old(self).issued_at,
    {
        if let Some(expires_in) = self.expires_in {
            let left: usize = if elapsed_seconds >= expires_in as u64 {
                0
            } else {
                expires_in - elapsed_seconds as usize
            };
            self.expires_in = Some(left);
        }
    }

    /// Brings `expires_in` up to date, given what the clock says of
    /// the time of issue: the whole seconds that have passed since, or
    /// `None` if the time of issue lies in the future. The seconds are
    /// taken off, down to zero. Nothing changes when the time of issue
    /// lies in the future, or without an `expires_in`.
    pub fn sync_expires_in_with(&mut self, elapsed_seconds: Option<u64>)
        ensures
            final(self).expires_in == synced_lifetime(old(self).expires_in, elapsed_seconds),
            final(self).access_token == old(self).access_token,
            final(self).token_type == old(self).token_type,
            final(self).refresh_token == old(self).refresh_token,
            final(self).scope == old(self).scope,
            final(self).issued_at == old(self).issued_at,
    {
        if let Some(seconds) = elapsed_seconds {
            self.sync_expires_in_after(seconds);
        }
    }

    /// Brings `expires_in` up to date by the system clock: the whole
    /// seconds since the time of issue are taken off, down to zero.
    /// Nothing changes without an `expires_in`, or when the time of
    /// issue lies in the future. The time of issue stays, so every
    /// call takes off all the time since then: call it once before
    /// trusting `expires_in`, not over and over. The lifetime never
    /// grows.
    pub fn sync_expires_in(&mut self)
        ensures
            exists|elapsed_seconds: Option<u64>|
                final(self).expires_in == #[trigger] synced_lifetime(
                    old(self).expires_in,
                    elapsed_seconds,
                ),
            match old(self).expires_in {
                Some(before) => final(self).expires_in is Some && final(self).expires_in->Some_0
                    <= before,
                None => final(self).expires_in is None,
            },
            final(self).access_token == old(self).access_token,
            final(self).token_type == old(self).token_type,
            final(self).refresh_token == old(self).refresh_token,
            final(self).scope == old(self).scope,
            final(self).issued_at == old(self).issued_at,
    {
        let elapsed_seconds: Option<u64> = match elapsed(&self.issued_at) {
            Some(duration) => Some(whole_seconds(&duration)),
            None => None,
        };
        self.sync_expires_in_with(elapsed_seconds);
        proof {
            assert(self.expires_in == synced_lifetime(old(self).expires_in, elapsed_seconds));
        }
    }
}

impl Clone for IssueAccessTokenSuccessParams {
    fn clone(&self) -> (copy: Self)
        ensures
            copy.fields() == self.fields(),
            copy.issued_at == self.issued_at,
    {
        let refresh_token = match &self.refresh_token {
            Some(token) => Some(token.clone()),
            None => None,
        };
        let scope = match &self.scope {
            Some(scope) => Some(scope.clone()),
            None => None,
        };
        IssueAccessTokenSuccessParams {
            access_token: self.access_token.clone(),
            token_type: self.token_type.clone(),
            expires_in: self.expires_in,
            refresh_token,
            scope,
            issued_at: self.issued_at,
        }
    }
}

/// Taking off zero seconds changes nothing, whatever has been taken
/// off before.
pub proof fn lemma_sync_idempotent(expires_in: usize, elapsed: u64)
    ensures
        remaining_lifetime(expires_in, 0) == expires_in,
        remaining_lifetime(remaining_lifetime(expires_in, elapsed), 0) == remaining_lifetime(
            expires_in,
            elapsed,
        ),
{
}

/// The lifetime that is left never grows, and it shrinks as time
/// goes by.
pub proof fn lemma_remaining_monotone(expires_in: usize, earlier: u64, later: u64)
    requires
        earlier <= later,
    ensures
        remaining_lifetime(expires_in, later) <= remaining_lifetime(expires_in, earlier),
        remaining_lifetime(expires_in, earlier) <= expires_in,
{
}

/// The error code of a refusal.
#[derive(Clone, Copy, Debug, PartialEq, Eq, Structural)]
pub enum IssueAccessTokenErrorCode {
    /// Client authentication failed.
    InvalidClient,
    /// The authorization grant or refresh token is invalid, expired
    /// or revoked, does not match the redirection URI of the
    /// authorization request, or was issued to another client.
    InvalidGrant,
    /// The request is malformed: a parameter is missing, repeated or
    /// not supported.
    InvalidRequest,
    /// The requested scope is invalid, unknown or malformed, or goes
    /// beyond the scope that the resource owner granted.
    InvalidScope,
    /// The client is not authorized to use this grant type.
    UnauthorizedClient,
    /// The authorization server does not support this grant type.
    UnsupportedGrantType,
}

/// The error code with the given wire name, if there is one.
pub open spec fn code_named(name: Seq<char>) -> Option<IssueAccessTokenErrorCode> {
    if name == "invalid_client"@ {
        Some(IssueAccessTokenErrorCode::InvalidClient)
    } else if name == "invalid_grant"@ {
        Some(IssueAccessTokenErrorCode::InvalidGrant)
    } else if name == "invalid_request"@ {
        Some(IssueAccessTokenErrorCode::InvalidRequest)
    } else if name == "invalid_scope"@ {
        Some(IssueAccessTokenErrorCode::InvalidScope)
    } else if name == "unauthorized_client"@ {
        Some(IssueAccessTokenErrorCode::UnauthorizedClient)
    } else if name == "unsupported_grant_type"@ {
        Some(IssueAccessTokenErrorCode::UnsupportedGrantType)
    } else {
        None
    }
}

impl IssueAccessTokenErrorCode {
    /// The wire name of the code.
    pub open spec fn name(self) -> Seq<char> {
        match self {
            IssueAccessTokenErrorCode::InvalidClient => "invalid_client"@,
            IssueAccessTokenErrorCode::InvalidGrant => "invalid_grant"@,
            IssueAccessTokenErrorCode::InvalidRequest => "invalid_request"@,
            IssueAccessTokenErrorCode::InvalidScope => "invalid_scope"@,
            IssueAccessTokenErrorCode::UnauthorizedClient => "unauthorized_client"@,
            IssueAccessTokenErrorCode::UnsupportedGrantType => "unsupported_grant_type"@,
        }
    }

    /// Returns the wire name of the code.
    pub fn as_str(&self) -> (name: &'static str)
        ensures
            name@ == self.name(),
    {
        match self {
            IssueAccessTokenErrorCode::InvalidClient => "invalid_client",
            IssueAccessTokenErrorCode::InvalidGrant => "invalid_grant",
            IssueAccessTokenErrorCode::InvalidRequest => "invalid_request",
            IssueAccessTokenErrorCode::InvalidScope => "invalid_scope",
            IssueAccessTokenErrorCode::UnauthorizedClient => "unauthorized_client",
            IssueAccessTokenErrorCode::UnsupportedGrantType => "unsupported_grant_type",
        }
    }

    /// Reads an error code from its wire name.
    pub fn parse(name: &str) -> (code: Option<Self>)
        ensures
            code == code_named(name@),
    {
        if same_text(name, "invalid_client") {
            Some(IssueAccessTokenErrorCode::InvalidClient)
        } else if same_text(name, "invalid_grant") {
            Some(IssueAccessTokenErrorCode::InvalidGrant)
        } else if same_text(name, "invalid_request") {
            Some(IssueAccessTokenErrorCode::InvalidRequest)
        } else if same_text(name, "invalid_scope") {
            Some(IssueAccessTokenErrorCode::InvalidScope)
        } else if same_text(name, "unauthorized_client") {
            Some(IssueAccessTokenErrorCode::UnauthorizedClient)
        } else if same_text(name, "unsupported_grant_type") {
            Some(IssueAccessTokenErrorCode::UnsupportedGrantType)
        } else {
            None
        }
    }
}

/// The members of a refusal, as specifications see them.
pub struct ErrorFields {
    pub error: IssueAccessTokenErrorCode,
    pub error_description: Option<Seq<char>>,
    pub error_uri: Option<Seq<char>>,
}

/// The refusal that three members spell, or `None` if one of them has
/// not the kind that the refusal asks for: `error` is the name of an
/// error code; `error_description` and `error_uri` are strings if
/// they are there.
pub open spec fn error_fields(
    error: JsonMemberView,
    error_description: JsonMemberView,
    error_uri: JsonMemberView,
) -> Option<ErrorFields> {
    if required_text(error) is Some && code_named(required_text(error)->Some_0) is Some
        && optional_text(error_description) is Some && optional_text(error_uri) is Some {
        Some(
            ErrorFields {
                error: code_named(required_text(error)->Some_0)->Some_0,
                error_description: optional_text(error_description)->Some_0,
                error_uri: optional_text(error_uri)->Some_0,
            },
        )
    } else {
        None
    }
}

/// The refusal that the members of a JSON object spell.
pub open spec fn error_of(members: Members) -> Option<ErrorFields> {
    error_fields(
        member_of(members, "error"@),
        member_of(members, "error_description"@),
        member_of(members, "error_uri"@),
    )
}

/// The response of the authorization server to an access token
/// request that is invalid or not authorized.
#[derive(Debug)]
pub struct IssueAccessTokenErrorParams {
    /// The error code.
    pub error: IssueAccessTokenErrorCode,
    /// A text for the developer of the client that says more about
    /// the error.
    pub error_description: Option<String>,
    /// The address of a page for the developer of the client with
    /// information about the error.
    pub error_uri: Option<String>,
}

impl IssueAccessTokenErrorParams {
    /// The members of the refusal.
    pub open spec fn fields(&self) -> ErrorFields {
        ErrorFields {
            error: self.error,
            error_description: match self.error_description {
                Some(text) => Some(text@),
                None => None,
            },
            error_uri: match self.error_uri {
                Some(text) => Some(text@),
                None => None,
            },
        }
    }

    /// Builds a refusal from the three members of a response.
    pub fn from_members(
        error: JsonMember,
        error_description: JsonMember,
        error_uri: JsonMember,
    ) -> (parsed: Result<Self, ResponseParseError>)
        ensures
            match parsed {
                Ok(params) => error_fields(error@, error_description@, error_uri@) == Some(
                    params.fields(),
                ),
                Err(failure) => {
                    &&& failure is Shape
                    &&& error_fields(error@, error_description@, error_uri@) is None
                },
            },
    {
        let name = match take_required_text(error) {
            Some(text) => text,
            None => {
                return Err(ResponseParseError::Shape);
            },
        };
        let code = match IssueAccessTokenErrorCode::parse(name.as_str()) {
            Some(code) => code,
            None => {
                return Err(ResponseParseError::Shape);
            },
        };
        let error_description = match take_optional_text(error_description) {
            Some(text) => text,
            None => {
                return Err(ResponseParseError::Shape);
            },
        };
        let error_uri = match take_optional_text(error_uri) {
            Some(text) => text,
            None => {
                return Err(ResponseParseError::Shape);
            },
        };
        Ok(IssueAccessTokenErrorParams { error: code, error_description, error_uri })
    }

    /// Reads a refusal from the JSON bytes of a response body.
    ///
    /// The body has to be a JSON object. Of a member name that occurs
    /// more than once the last value counts, and members that the
    /// refusal does not know are passed over. A reader derived by
    /// `serde` for the same fields takes a JSON array of the values in
    /// field order too, and refuses a repeated name.
    pub fn try_from(bytes: &[u8]) -> (parsed: Result<Self, ResponseParseError>)
        ensures
            match parsed {
                Ok(params) => json_document(bytes@) is Some && error_of(
                    json_document(bytes@)->Some_0,
                ) == Some(params.fields()),
                Err(ResponseParseError::Syntax(_)) => json_document(bytes@) is None,
                Err(ResponseParseError::Shape) => json_document(bytes@) is Some && error_of(
                    json_document(bytes@)->Some_0,
                ) is None,
            },
    {
        let document = match parse_document(bytes) {
            Ok(document) => document,
            Err(error) => {
                return Err(ResponseParseError::Syntax(error));
            },
        };
        IssueAccessTokenErrorParams::from_members(
            lookup(&document, "error"),
            lookup(&document, "error_description"),
            lookup(&document, "error_uri"),
        )
    }
}

impl Clone for IssueAccessTokenErrorParams {
    fn clone(&self) -> (copy: Self)
        ensures
            copy.fields() == self.fields(),
    {
        let error_description = match &self.error_description {
            Some(text) => Some(text.clone()),
            None => None,
        };
        let error_uri = match &self.error_uri {
            Some(text) => Some(text.clone()),
            None => None,
        };
        IssueAccessTokenErrorParams { error: self.error, error_description, error_uri }
    }
}

} // verus!
