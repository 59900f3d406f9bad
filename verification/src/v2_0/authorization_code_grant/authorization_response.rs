//! The authorization response of the authorization code grant
//! (RFC 6749, sections 4.1.2 and 4.1.2.1).
//!
//! The authorization server answers the authorization request by
//! sending the user-agent back to the redirection URI of the client,
//! with the outcome in the query component: a `code` on success, an
//! `error` otherwise, and in both cases the `state` of the request if
//! it had one.

use crate::form::{decode_pairs, pairs_of, parse_query, Pair};
use crate::text::same_text;
use crate::uri::{query_of_uri, uri_query};
use crate::v2_0::authorization_code_grant::state::State;
use crate::v2_0::error::OAuthError;
use vstd::prelude::*;
use vstd::utf8::*;

verus! {

/// The value of the first pair with the given name.
pub open spec fn first_value(pairs: Seq<Pair>, name: Seq<char>) -> Option<Seq<char>>
    decreases pairs.len(),
{
    if pairs.len() == 0 {
        None
    } else if pairs[0].0 == name {
        Some(pairs[0].1)
    } else {
        first_value(pairs.skip(1), name)
    }
}

/// The refusal of an authorization request, as specifications see it.
pub struct RefusalFields {
    pub error: Seq<char>,
    pub error_description: Option<Seq<char>>,
    pub error_uri: Option<Seq<char>>,
}

/// The outcome of an authorization request, as specifications see
/// it.
pub struct ResponseFields {
    pub outcome: Result<Seq<char>, RefusalFields>,
    pub state: Option<Seq<u8>>,
}

/// The bytes of an optional text.
pub open spec fn optional_bytes(text: Option<Seq<char>>) -> Option<Seq<u8>> {
    match text {
        Some(text) => Some(encode_utf8(text)),
        None => None,
    }
}

/// The response that the pairs of a callback spell. A callback with
/// an `error` is a refusal, whatever else it holds. Without an
/// `error`, a `code` makes it a success. A callback with neither is
/// malformed. Of a parameter that occurs more than once, the first
/// value counts.
pub open spec fn response_of(pairs: Seq<Pair>) -> Option<ResponseFields> {
    match first_value(pairs, "error"@) {
        Some(error) => Some(
            ResponseFields {
                outcome: Err(
                    RefusalFields {
                        error,
                        error_description: first_value(pairs, "error_description"@),
                        error_uri: first_value(pairs, "error_uri"@),
                    },
                ),
                state: optional_bytes(first_value(pairs, "state"@)),
            },
        ),
        None => match first_value(pairs, "code"@) {
            Some(code) => Some(
                ResponseFields {
                    outcome: Ok(code),
                    state: optional_bytes(first_value(pairs, "state"@)),
                },
            ),
            None => None,
        },
    }
}

/// The response of a query component.
pub open spec fn response_of_query(query: Seq<char>) -> Option<ResponseFields> {
    response_of(decode_pairs(encode_utf8(query)))
}

/// The response of an optional query component. A URI without a
/// query has no parameters.
pub open spec fn response_of_optional_query(query: Option<Seq<char>>) -> Option<ResponseFields> {
    match query {
        Some(query) => response_of_query(query),
        None => None,
    }
}

/// Returns a copy of the value of the first pair with the given name.
pub fn find_value(pairs: &Vec<(String, String)>, name: &str) -> (value: Option<String>)
    ensures
        match value {
            Some(text) => first_value(pairs_of(pairs@), name@) == Some(text@),
            None => first_value(pairs_of(pairs@), name@) is None,
        },
{
    let mut i: usize = 0;
    proof {
        assert(pairs_of(pairs@).skip(0) =~= pairs_of(pairs@));
    }
    while i < pairs.len()
        invariant
            i <= pairs.len(),
            first_value(pairs_of(pairs@), name@) == first_value(
                pairs_of(pairs@).skip(i as int),
                name@,
            ),
        decreases pairs.len() - i,
    {
        let ghost rest = pairs_of(pairs@).skip(i as int);
        proof {
            assert(rest.skip(1) =~= pairs_of(pairs@).skip(i + 1));
        }
        if same_text(pairs[i].0.as_str(), name) {
            return Some(pairs[i].1.clone());
        }
        i = i + 1;
    }
    None
}

/// The error response of the authorization endpoint.
#[derive(Debug)]
pub struct AuthorizationErrorParams {
    /// The error code, such as `access_denied`.
    pub error: String,
    /// A text for the developer of the client that says more about
    /// the error.
    pub error_description: Option<String>,
    /// The address of a page for the developer of the client with
    /// information about the error.
    pub error_uri: Option<String>,
}

impl AuthorizationErrorParams {
    /// The members of the refusal.
    pub open spec fn fields(&self) -> RefusalFields {
        RefusalFields {
            error: self.error@,
            error_description: match self.error_description {
                Some(text) => Some(text@),
                None => None,
            },
            error_uri: match self.error_uri {
                Some(text) => Some(text@),
                None => None,
            },
        }
    }
}

/// What the callback of an authorization request carries.
pub struct AuthorizationResponseParams {
    /// The authorization code, or the refusal of the request.
    pub outcome: Result<String, AuthorizationErrorParams>,
    /// The state that came back, exactly as it was received. It is
    /// for the caller to compare it with the state that was sent.
    pub state: Option<State>,
}

impl AuthorizationResponseParams {
    /// The content of the response.
    pub open spec fn fields(&self) -> ResponseFields {
        ResponseFields {
            outcome: match self.outcome {
                Ok(code) => Ok(code@),
                Err(refusal) => Err(refusal.fields()),
            },
            state: match self.state {
                Some(state) => Some(state@),
                None => None,
            },
        }
    }

    /// Reads the response from the pairs of the callback query.
    pub fn from_pairs(pairs: &Vec<(String, String)>) -> (parsed: Result<Self, OAuthError>)
        ensures
            match parsed {
                Ok(params) => response_of(pairs_of(pairs@)) == Some(params.fields()),
                Err(error) => error == OAuthError::MalformedCallback && response_of(
                    pairs_of(pairs@),
                ) is None,
            },
    {
        let state = match find_value(pairs, "state") {
            Some(text) => Some(State::from_text(text.as_str())),
            None => None,
        };
        match find_value(pairs, "error") {
            Some(error) => {
                let refusal = AuthorizationErrorParams {
                    error,
                    error_description: find_value(pairs, "error_description"),
                    error_uri: find_value(pairs, "error_uri"),
                };
                Ok(AuthorizationResponseParams { outcome: Err(refusal), state })
            },
            None => match find_value(pairs, "code") {
                Some(code) => Ok(AuthorizationResponseParams { outcome: Ok(code), state }),
                None => Err(OAuthError::MalformedCallback),
            },
        }
    }

    /// Reads the response from the query component of the callback
    /// URI.
    pub fn from_query(query: &str) -> (parsed: Result<Self, OAuthError>)
        ensures
            match parsed {
                Ok(params) => response_of_query(query@) == Some(params.fields()),
                Err(error) => error == OAuthError::MalformedCallback && response_of_query(query@)
                    is None,
            },
    {
        let pairs = parse_query(query);
        AuthorizationResponseParams::from_pairs(&pairs)
    }

    /// Reads the response from the callback URI. Fails if the text is
    /// no absolute URI, or if its query carries neither a code nor an
    /// error.
    pub fn from_callback_uri(uri: &str) -> (parsed: Result<Self, OAuthError>)
        ensures
            match parsed {
                Ok(params) => uri_query(uri@) is Some && response_of_optional_query(
                    uri_query(uri@)->Some_0,
                ) == Some(params.fields()),
                Err(error) => error == OAuthError::MalformedCallback && (uri_query(uri@) is None
                    || response_of_optional_query(uri_query(uri@)->Some_0) is None),
            },
    {
        match query_of_uri(uri) {
            Ok(Some(query)) => AuthorizationResponseParams::from_query(query.as_str()),
            Ok(None) => Err(OAuthError::MalformedCallback),
            Err(_) => Err(OAuthError::MalformedCallback),
        }
    }
}

} // verus!
