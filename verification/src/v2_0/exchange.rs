//! The exchange with the token endpoint as a resumable state machine.
//!
//! An exchange is built from a request head and the form-encoded
//! parameters of a grant. The caller runs the HTTP coroutine that
//! sends the request, and hands each of its steps to `resume`: a step
//! that asks for I/O is handed on, for the caller to perform and to
//! answer, and the step that brings the response ends the exchange
//! with the parsed response. The exchange itself performs no I/O.

use crate::json::json_document;
use crate::transport::{
    builder_head, request_body, request_head, request_with_body, takes_content_type, with_field,
    HttpReply, RequestHead,
};
use crate::v2_0::issue_access_token::{
    error_of, success_of, AccessTokenResponse, IssueAccessTokenErrorParams,
    IssueAccessTokenSuccessParams, ResponseParseError,
};
use http::request::Builder;
use http::Request;
use io_stream::Io;
use vstd::prelude::*;
use vstd::string::StrSliceExecFns;
use vstd::string::StringSliceAdditionalSpecFns;
use vstd::utf8::*;

verus! {

/// The media type of the request body.
pub const FORM_MEDIA_TYPE: &'static str = "application/x-www-form-urlencoded";

/// Where an exchange stands.
#[derive(Clone, Copy, Debug, PartialEq, Eq, Structural)]
pub enum ExchangeState {
    /// The request is built, and nothing has been sent.
    Built,
    /// The exchange has handed out an I/O request, or the failure of
    /// the transport, and waits to be resumed.
    AwaitingIo,
    /// The exchange has ended with a response.
    Complete,
}

/// The request could not be built, for instance because the builder
/// was given a malformed URI or header before.
#[derive(Debug)]
pub struct RequestBuildError {
    pub source: http::Error,
}

/// True for the status codes from 200 to 299.
pub open spec fn is_success_status(status: u16) -> bool {
    200 <= status < 300
}

/// How a response is read: by its status class first, then by the
/// shape of its body. A response with a 2xx status is a grant, any
/// other a refusal, and a body that has not the shape of its class is
/// a parse error.
pub open spec fn reads_as(
    status: u16,
    body: Seq<u8>,
    outcome: Result<AccessTokenResponse, ResponseParseError>,
) -> bool {
    match json_document(body) {
        None => outcome matches Err(ResponseParseError::Syntax(_)),
        Some(members) => if is_success_status(status) {
            match success_of(members) {
                Some(fields) => outcome matches Ok(Ok(params)) && params.fields() == fields,
                None => outcome matches Err(ResponseParseError::Shape),
            }
        } else {
            match error_of(members) {
                Some(fields) => outcome matches Ok(Err(params)) && params.fields() == fields,
                None => outcome matches Err(ResponseParseError::Shape),
            }
        },
    }
}

/// Reads a response of the token endpoint from its status code and
/// its body.
pub fn read_response(status: u16, body: &[u8]) -> (outcome: Result<
    AccessTokenResponse,
    ResponseParseError,
>)
    ensures
        reads_as(status, body@, outcome),
{
    if 200 <= status && status < 300 {
        match IssueAccessTokenSuccessParams::try_from(body) {
            Ok(params) => Ok(Ok(params)),
            Err(error) => Err(error),
        }
    } else {
        match IssueAccessTokenErrorParams::try_from(body) {
            Ok(params) => Ok(Err(params)),
            Err(error) => Err(error),
        }
    }
}

/// The state after a step of the HTTP coroutine: asking for I/O
/// leaves the exchange waiting, and a response completes it.
pub open spec fn state_after(step: Result<HttpReply, Io>) -> ExchangeState {
    match step {
        Ok(_) => ExchangeState::Complete,
        Err(_) => ExchangeState::AwaitingIo,
    }
}

/// What a step of the HTTP coroutine comes to: an I/O request, or the
/// failure of the transport, is handed on as it is, and a response is
/// read by its status class and then by the shape of its body.
pub open spec fn step_gives(
    step: Result<HttpReply, Io>,
    resumed: Result<Result<AccessTokenResponse, ResponseParseError>, Io>,
) -> bool {
    match step {
        Ok(reply) => resumed matches Ok(outcome) && reads_as(reply.status, reply.body@, outcome),
        Err(io) => resumed == Err::<Result<AccessTokenResponse, ResponseParseError>, Io>(io),
    }
}

/// An exchange with the token endpoint: the request to send, and how
/// far the exchange has come.
pub struct TokenExchange {
    request: Request<Vec<u8>>,
    state: ExchangeState,
}

impl TokenExchange {
    /// Where the exchange stands.
    pub closed spec fn state(&self) -> ExchangeState {
        self.state
    }

    /// The head of the request that the exchange sends.
    pub closed spec fn head(&self) -> RequestHead {
        request_head(self.request)
    }

    /// The body of the request that the exchange sends.
    pub closed spec fn body(&self) -> Seq<u8> {
        request_body(self.request)
    }

    /// Builds the exchange that sends `body` as a form with the given
    /// request head. The exchange is built whenever the request head
    /// takes the media type of the form as its content type, whatever
    /// the body is. Method, URI and header fields are those of the
    /// request head, with the content type added.
    pub fn new(request: Builder, body: &str) -> (built: Result<Self, RequestBuildError>)
        ensures
            built is Ok <==> takes_content_type(request, FORM_MEDIA_TYPE.spec_bytes()),
            built matches Ok(exchange) ==> {
                &&& exchange.state() == ExchangeState::Built
                &&& exchange.body() == body.spec_bytes()
                &&& exchange.head() == with_field(
                    builder_head(request),
                    "content-type"@,
                    FORM_MEDIA_TYPE.spec_bytes(),
                )
            },
    {
        match request_with_body(request, FORM_MEDIA_TYPE, body.as_bytes_vec()) {
            Ok(request) => Ok(TokenExchange { request, state: ExchangeState::Built }),
            Err(source) => Err(RequestBuildError { source }),
        }
    }

    /// Returns where the exchange stands.
    pub fn current_state(&self) -> (state: ExchangeState)
        ensures
            state == self.state(),
    {
        self.state
    }

    /// Returns the request to send, for the HTTP coroutine that the
    /// caller runs.
    pub fn request(&self) -> (request: &Request<Vec<u8>>)
        ensures
            request_head(*request) == self.head(),
            request_body(*request) == self.body(),
    {
        &self.request
    }

    /// Makes the exchange progress by one step of the HTTP coroutine
    /// that sends the request. The caller resumes that coroutine,
    /// first without input and afterwards with the outcome of the I/O
    /// that it asked for, and hands each step over as it came.
    ///
    /// A step that asks for I/O, or that reports the failure of the
    /// transport, is handed on unchanged as `Err`, and the exchange
    /// waits. A step that brings the response ends the exchange with
    /// `Ok`: the response is read by [`read_response`].
    pub fn resume(&mut self, step: Result<HttpReply, Io>) -> (resumed: Result<
        Result<AccessTokenResponse, ResponseParseError>,
        Io,
    >)
        ensures
            step_gives(step, resumed),
            final(self).state() == state_after(step),
            final(self).head() == old(self).head(),
            final(self).body() == old(self).body(),
    {
        match step {
            Ok(reply) => {
                let outcome = read_response(reply.status, reply.body.as_slice());
                self.state = ExchangeState::Complete;
                Ok(outcome)
            },
            Err(io) => {
                self.state = ExchangeState::AwaitingIo;
                Err(io)
            },
        }
    }
}

} // verus!
