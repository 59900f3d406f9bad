//! The access token request of the authorization code grant
//! (RFC 6749, section 4.1.3).

use crate::form::{
    encode_pairs, encode_pairs_text, lemma_encode_pairs_push, lemma_encoded_text, FormSerializer,
    Pair,
};
use crate::text::{ascii_text, is_ascii_bytes, lemma_ascii_bytes_decode, text_from_utf8_lossy};
use crate::transport::{
    builder_head, request_body, request_head, takes_content_type, with_field, HttpReply,
    RequestHead,
};
use crate::v2_0::authorization_code_grant::authorization_request::optional_pair;
use crate::v2_0::authorization_code_grant::pkce::PkceCodeVerifier;
use crate::v2_0::exchange::{
    state_after, step_gives, ExchangeState, RequestBuildError, TokenExchange, FORM_MEDIA_TYPE,
};
use crate::v2_0::issue_access_token::{AccessTokenResponse, ResponseParseError};
use http::request::Builder;
use http::Request;
use io_stream::Io;
use vstd::prelude::*;
use vstd::string::StringSliceAdditionalSpecFns;
use vstd::utf8::*;

verus! {

/// The parameters that the client sends to the token endpoint to
/// redeem an authorization code.
pub struct AccessTokenRequestParams {
    /// The authorization code received from the authorization server.
    pub code: String,
    /// The redirection URI of the authorization request, if it had
    /// one.
    pub redirect_uri: Option<String>,
    /// The client identifier.
    pub client_id: String,
    /// The PKCE code verifier. Without one, no PKCE parameter is
    /// sent.
    pub pkce_code_verifier: Option<PkceCodeVerifier>,
}

impl AccessTokenRequestParams {
    /// The redirection URI, if one is set.
    pub open spec fn redirect_uri_text(&self) -> Option<Seq<char>> {
        match self.redirect_uri {
            Some(uri) => Some(uri@),
            None => None,
        }
    }

    /// The text of the `code_verifier` parameter, if a verifier is
    /// set.
    pub open spec fn verifier_text(&self) -> Option<Seq<char>> {
        match self.pkce_code_verifier {
            Some(verifier) => Some(ascii_text(verifier@)),
            None => None,
        }
    }

    /// The parameters that the token endpoint requires are there: the
    /// code and the client identifier are not empty.
    pub open spec fn complete(&self) -> bool {
        self.code@.len() > 0 && self.client_id@.len() > 0
    }

    /// Tells whether the required parameters are there.
    pub fn is_complete(&self) -> (complete: bool)
        ensures
            complete == self.complete(),
    {
        !self.code.as_str().is_empty() && !self.client_id.as_str().is_empty()
    }

    /// The pairs of the request body, in the order in which they are
    /// written: `grant_type`, `code`, `redirect_uri` if set,
    /// `client_id`, and `code_verifier` if set.
    pub open spec fn pairs(&self) -> Seq<Pair> {
        seq![("grant_type"@, "authorization_code"@), ("code"@, self.code@)] + optional_pair(
            "redirect_uri"@,
            self.redirect_uri_text(),
        ) + seq![("client_id"@, self.client_id@)] + optional_pair(
            "code_verifier"@,
            self.verifier_text(),
        )
    }

    /// The request body.
    pub open spec fn encoded(&self) -> Seq<char> {
        encode_pairs_text(self.pairs())
    }

    /// Writes the parameters into a new serializer, to which further
    /// pairs can be appended. This exposes the code and the PKCE code
    /// verifier.
    pub fn to_form_url_encoded_serializer(&self) -> (serializer: FormSerializer)
        ensures
            serializer.bytes() == encode_pairs(self.pairs()),
    {
        let mut serializer = FormSerializer::new();
        let ghost mut written: Seq<Pair> = Seq::empty();

        serializer.append_pair("grant_type", "authorization_code");
        proof {
            lemma_encode_pairs_push(written, ("grant_type"@, "authorization_code"@));
            written = written.push(("grant_type"@, "authorization_code"@));
        }
        serializer.append_pair("code", self.code.as_str());
        proof {
            lemma_encode_pairs_push(written, ("code"@, self.code@));
            written = written.push(("code"@, self.code@));
        }

        if let Some(uri) = &self.redirect_uri {
            serializer.append_pair("redirect_uri", uri.as_str());
            proof {
                lemma_encode_pairs_push(written, ("redirect_uri"@, uri@));
                written = written.push(("redirect_uri"@, uri@));
            }
        }

        serializer.append_pair("client_id", self.client_id.as_str());
        proof {
            lemma_encode_pairs_push(written, ("client_id"@, self.client_id@));
            written = written.push(("client_id"@, self.client_id@));
        }

        if let Some(verifier) = &self.pkce_code_verifier {
            let bytes = verifier.expose();
            proof {
                assert(is_ascii_bytes(bytes@));
                lemma_ascii_bytes_decode(bytes@);
            }
            let text = text_from_utf8_lossy(bytes);
            serializer.append_pair("code_verifier", text.as_str());
            proof {
                lemma_encode_pairs_push(written, ("code_verifier"@, text@));
                written = written.push(("code_verifier"@, text@));
            }
        }
        proof {
            assert(written == self.pairs());
        }

        serializer
    }

    /// Returns the request body. This exposes the code and the PKCE
    /// code verifier.
    pub fn to_string(&self) -> (body: String)
        ensures
            body@ == self.encoded(),
    {
        let text = self.to_form_url_encoded_serializer().finish();
        proof {
            lemma_encoded_text(text@, self.pairs());
        }
        text
    }
}

/// The coroutine that redeems an authorization code: it holds the
/// access token request, follows the HTTP coroutine that sends it to
/// the token endpoint, and reads the grant or the refusal from the
/// response. It performs no I/O itself.
pub struct SendAccessTokenRequest {
    exchange: TokenExchange,
}

impl SendAccessTokenRequest {
    /// Where the exchange stands.
    pub closed spec fn state(&self) -> ExchangeState {
        self.exchange.state()
    }

    /// The head of the request that the coroutine sends.
    pub closed spec fn head(&self) -> RequestHead {
        self.exchange.head()
    }

    /// The body of the request that the coroutine sends.
    pub closed spec fn body(&self) -> Seq<u8> {
        self.exchange.body()
    }

    /// Builds the coroutine from the head of the request and the
    /// parameters of the grant, which become the body of the request
    /// as a form. The coroutine is built whenever the request head
    /// takes the media type of the form as its content type, whatever
    /// the parameters are. Method, URI and header fields are those of
    /// the request head, with the content type added. Nothing has
    /// been sent yet.
    pub fn new(request: Builder, body: AccessTokenRequestParams) -> (built: Result<
        Self,
        RequestBuildError,
    >)
        ensures
            built is Ok <==> takes_content_type(request, FORM_MEDIA_TYPE.spec_bytes()),
            built matches Ok(coroutine) ==> {
                &&& coroutine.state() == ExchangeState::Built
                &&& coroutine.body() == encode_utf8(body.encoded())
                &&& coroutine.head() == with_field(
                    builder_head(request),
                    "content-type"@,
                    FORM_MEDIA_TYPE.spec_bytes(),
                )
            },
    {
        let form = body.to_string();
        match TokenExchange::new(request, form.as_str()) {
            Ok(exchange) => Ok(SendAccessTokenRequest { exchange }),
            Err(error) => Err(error),
        }
    }

    /// Returns where the exchange stands.
    pub fn current_state(&self) -> (state: ExchangeState)
        ensures
            state == self.state(),
    {
        self.exchange.current_state()
    }

    /// Returns the request to send, for the HTTP coroutine that the
    /// caller runs.
    pub fn request(&self) -> (request: &Request<Vec<u8>>)
        ensures
            request_head(*request) == self.head(),
            request_body(*request) == self.body(),
    {
        self.exchange.request()
    }

    /// Makes the coroutine progress by one step of the HTTP coroutine
    /// that sends the request. The caller resumes that coroutine,
    /// first without input and afterwards with the outcome of the I/O
    /// that it asked for, and hands each step over as it came.
    ///
    /// A step that asks for I/O, or that reports the failure of the
    /// transport, is handed on unchanged as `Err`. A step that brings
    /// the response ends the exchange with `Ok`: the response is read
    /// by its status class and then by the shape of its body.
    pub fn resume(&mut self, step: Result<HttpReply, Io>) -> (resumed: Result<
        Result<AccessTokenResponse, ResponseParseError>,
        Io,
    >)
        ensures
            step_gives(step, resumed),
            final(self).state() == state_after(step),
            final(self).head() == old(self).head(),
            final(self).body() == old(self).body(),
    {
        self.exchange.resume(step)
    }
}

} // verus!
