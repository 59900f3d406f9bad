//! The HTTP request of an exchange, and what comes back for it.
//!
//! Requests are built with the `http` crate. Sending one and
//! receiving its response is the work of an HTTP coroutine that the
//! caller runs: it hands out the bytes to write or the buffer to fill
//! as an `Io` value of `io-stream`, and ends with a response, of
//! which this crate takes the status and the body.

use http::request::Builder;
use http::Request;
use io_stream::Io;
use vstd::prelude::*;
use vstd::string::StringSliceAdditionalSpecFns;

verus! {

/// `http::request::Builder`: a request under construction.
#[verifier::external_type_specification]
#[verifier::external_body]
pub struct ExBuilder(Builder);

/// `http::Request`: a request head with a body.
#[verifier::external_type_specification]
#[verifier::external_body]
#[verifier::reject_recursive_types(T)]
pub struct ExRequest<T>(Request<T>);

/// `http::Error`: why a request could not be built.
#[verifier::external_type_specification]
#[verifier::external_body]
pub struct ExHttpError(http::Error);

/// `io_stream::Io`: an I/O request of a coroutine, or the answer of
/// the transport to one.
#[verifier::external_type_specification]
#[verifier::external_body]
pub struct ExIo(Io);

/// The head of a request, as specifications see it.
pub struct RequestHead {
    /// The method.
    pub method: Seq<char>,
    /// The target URI.
    pub uri: Seq<char>,
    /// The protocol version.
    pub version: Seq<char>,
    /// The values of the header fields by lower-case name, each list
    /// in the order in which its values were added.
    pub fields: Map<Seq<char>, Seq<Seq<u8>>>,
}

/// The status and the body of a response.
pub struct HttpReply {
    pub status: u16,
    pub body: Vec<u8>,
}

/// The values that a head holds under a name of header fields.
pub open spec fn field_values(head: RequestHead, name: Seq<char>) -> Seq<Seq<u8>> {
    if head.fields.dom().contains(name) {
        head.fields[name]
    } else {
        Seq::empty()
    }
}

/// The head with one more header field: the value comes last among
/// the values of its name, and everything else stays.
pub open spec fn with_field(head: RequestHead, name: Seq<char>, value: Seq<u8>) -> RequestHead {
    RequestHead {
        method: head.method,
        uri: head.uri,
        version: head.version,
        fields: head.fields.insert(name, field_values(head, name).push(value)),
    }
}

/// The head that a builder has put together so far, if it holds no
/// error.
pub uninterp spec fn builder_head(builder: Builder) -> RequestHead;

/// The head of a request.
pub uninterp spec fn request_head(request: Request<Vec<u8>>) -> RequestHead;

/// The body of a request.
pub uninterp spec fn request_body(request: Request<Vec<u8>>) -> Seq<u8>;

/// True when a builder gives a request once a `content-type` header
/// field of the given value and a body are added to it: the builder
/// holds no error from an earlier step, the value is a legal header
/// value, and the header map has room for one more field.
pub uninterp spec fn takes_content_type(builder: Builder, value: Seq<u8>) -> bool;

/// `Builder::header` with the name `content-type`, then
/// `Builder::body`. Whether a request comes out depends on the builder
/// and on the header value, not on the body. On success, the request
/// has the given body, and its head is the one of the builder with
/// the given value added to the `content-type` header fields.
#[verifier::external_body]
pub(crate) fn request_with_body(builder: Builder, content_type: &str, body: Vec<u8>) -> (built:
    Result<Request<Vec<u8>>, http::Error>)
    ensures
        built is Ok <==> takes_content_type(builder, content_type.spec_bytes()),
        built matches Ok(request) ==> {
            &&& request_body(request) == body@
            &&& request_head(request) == with_field(
                builder_head(builder),
                "content-type"@,
                content_type.spec_bytes(),
            )
        },
{
    builder.header(http::header::CONTENT_TYPE, content_type).body(body)
}

} // verus!
