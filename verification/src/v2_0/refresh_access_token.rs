//! Refreshing an access token (RFC 6749, section 6).

use crate::form::{
    encode_pairs, encode_pairs_text, lemma_encode_pairs_push, lemma_encoded_text, FormSerializer,
    Pair,
};
use crate::secret::SecretText;
use crate::transport::{
    builder_head, request_body, request_head, takes_content_type, with_field, HttpReply,
    RequestHead,
};
use crate::v2_0::authorization_code_grant::authorization_request::scope_pairs;
use crate::v2_0::exchange::{
    state_after, step_gives, ExchangeState, RequestBuildError, TokenExchange, FORM_MEDIA_TYPE,
};
use crate::v2_0::issue_access_token::{AccessTokenResponse, ResponseParseError};
use crate::v2_0::scope::Scope;
use http::request::Builder;
use http::Request;
use io_stream::Io;
use vstd::prelude::*;
use vstd::string::StringSliceAdditionalSpecFns;
use vstd::utf8::*;

verus! {

/// The parameters that the client sends to the token endpoint to
/// trade a refresh token for a new access token.
#[derive(Debug)]
pub struct RefreshAccessTokenParams {
    /// The client identifier.
    pub client_id: String,
    /// The refresh token issued to the client.
    pub refresh_token: SecretText,
    /// The scope of the access request. It must not include any token
    /// that the resource owner has not granted; left empty, the scope
    /// that was granted before is asked for.
    pub scopes: Scope,
}

impl RefreshAccessTokenParams {
    /// The pairs of the request body, in the order in which they are
    /// written: `grant_type`, `client_id`, `refresh_token`, and
    /// `scope` unless it is empty.
    pub open spec fn pairs(&self) -> Seq<Pair> {
        seq![
            ("grant_type"@, "refresh_token"@),
            ("client_id"@, self.client_id@),
            ("refresh_token"@, self.refresh_token@),
        ] + scope_pairs(self.scopes)
    }

    /// The request body.
    pub open spec fn encoded(&self) -> Seq<char> {
        encode_pairs_text(self.pairs())
    }

    /// The parameters of a refresh that asks for the scope that was
    /// granted before.
    pub fn new(client_id: &str, refresh_token: SecretText) -> (params: Self)
        ensures
            params.client_id@ == client_id@,
            params.refresh_token@ == refresh_token@,
            params.scopes@ == Seq::<Seq<char>>::empty(),
            params.scopes.wf(),
    {
        RefreshAccessTokenParams {
            client_id: client_id.to_owned(),
            refresh_token,
            scopes: Scope::new(),
        }
    }

    /// Writes the parameters into a new serializer, to which further
    /// pairs can be appended. This exposes the refresh token.
    pub fn to_serializer(&self) -> (serializer: FormSerializer)
        ensures
            serializer.bytes() == encode_pairs(self.pairs()),
    {
        let mut serializer = FormSerializer::new();
        let ghost mut written: Seq<Pair> = Seq::empty();

        serializer.append_pair("grant_type", "refresh_token");
        proof {
            lemma_encode_pairs_push(written, ("grant_type"@, "refresh_token"@));
            written = written.push(("grant_type"@, "refresh_token"@));
        }
        serializer.append_pair("client_id", self.client_id.as_str());
        proof {
            lemma_encode_pairs_push(written, ("client_id"@, self.client_id@));
            written = written.push(("client_id"@, self.client_id@));
        }
        serializer.append_pair("refresh_token", self.refresh_token.expose());
        proof {
            lemma_encode_pairs_push(written, ("refresh_token"@, self.refresh_token@));
            written = written.push(("refresh_token"@, self.refresh_token@));
        }

        if !self.scopes.is_empty() {
            let scope = self.scopes.join();
            serializer.append_pair("scope", scope.as_str());
            proof {
                lemma_encode_pairs_push(written, ("scope"@, scope@));
                written = written.push(("scope"@, scope@));
            }
        }
        proof {
            assert(written == self.pairs());
        }

        serializer
    }

    /// Returns the request body. This exposes the refresh token.
    pub fn to_string(&self) -> (body: String)
        ensures
            body@ == self.encoded(),
    {
        let text = self.to_serializer().finish();
        proof {
            lemma_encoded_text(text@, self.pairs());
        }
        text
    }
}

/// The coroutine that refreshes an access token: it holds the refresh
/// request, follows the HTTP coroutine that sends it to the token
/// endpoint, and reads the grant or the refusal from the response. It
/// performs no I/O itself.
pub struct RefreshAccessToken {
    exchange: TokenExchange,
}

impl RefreshAccessToken {
    /// Where the exchange stands.
    pub closed spec fn state(&self) -> ExchangeState {
        self.exchange.state()
    }

    /// The head of the request that the coroutine sends.
    pub closed spec fn head(&self) -> RequestHead {
        self.exchange.head()
    }

    /// The body of the request that the coroutine sends.
    pub closed spec fn body(&self) -> Seq<u8> {
        self.exchange.body()
    }

    /// Builds the coroutine from the head of the request and the
    /// parameters of the refresh, which become the body of the request
    /// as a form. The coroutine is built whenever the request head
    /// takes the media type of the form as its content type, whatever
    /// the parameters are. Method, URI and header fields are those of
    /// the request head, with the content type added. Nothing has
    /// been sent yet.
    pub fn new(request: Builder, body: RefreshAccessTokenParams) -> (built: Result<
        Self,
        RequestBuildError,
    >)
        ensures
            built is Ok <==> takes_content_type(request, FORM_MEDIA_TYPE.spec_bytes()),
            built matches Ok(coroutine) ==> {
                &&& coroutine.state() == ExchangeState::Built
                &&& coroutine.body() == encode_utf8(body.encoded())
                &&& coroutine.head() == with_field(
                    builder_head(request),
                    "content-type"@,
                    FORM_MEDIA_TYPE.spec_bytes(),
                )
            },
    {
        let form = body.to_string();
        match TokenExchange::new(request, form.as_str()) {
            Ok(exchange) => Ok(RefreshAccessToken { exchange }),
            Err(error) => Err(error),
        }
    }

    /// Returns where the exchange stands.
    pub fn current_state(&self) -> (state: ExchangeState)
        ensures
            state == self.state(),
    {
        self.exchange.current_state()
    }

    /// Returns the request to send, for the HTTP coroutine that the
    /// caller runs.
    pub fn request(&self) -> (request: &Request<Vec<u8>>)
        ensures
            request_head(*request) == self.head(),
            request_body(*request) == self.body(),
    {
        self.exchange.request()
    }

    /// Makes the coroutine progress by one step of the HTTP coroutine
    /// that sends the request. The caller resumes that coroutine,
    /// first without input and afterwards with the outcome of the I/O
    /// that it asked for, and hands each step over as it came.
    ///
    /// A step that asks for I/O, or that reports the failure of the
    /// transport, is handed on unchanged as `Err`. A step that brings
    /// the response ends the exchange with `Ok`: the response is read
    /// by its status class and then by the shape of its body.
    pub fn resume(&mut self, step: Result<HttpReply, Io>) -> (resumed: Result<
        Result<AccessTokenResponse, ResponseParseError>,
        Io,
    >)
        ensures
            step_gives(step, resumed),
            final(self).state() == state_after(step),
            final(self).head() == old(self).head(),
            final(self).body() == old(self).body(),
    {
        self.exchange.resume(step)
    }
}

} // verus!
