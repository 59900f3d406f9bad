use http::Request;
use io_oauth::v2_0::authorization_code_grant::{
    AccessTokenRequestParams, SendAccessTokenRequest,
};
use io_http::v1_1::coroutines::Send;
use io_oauth::transport::HttpReply;
use io_oauth::v2_0::exchange::{read_response, ExchangeState, TokenExchange, FORM_MEDIA_TYPE};
use io_oauth::v2_0::issue_access_token::{
    AccessTokenResponse, IssueAccessTokenErrorCode, ResponseParseError,
};
use io_oauth::v2_0::authorization_code_grant::pkce::PkceCodeVerifier;
use io_oauth::v2_0::refresh_access_token::{RefreshAccessToken, RefreshAccessTokenParams};
use io_oauth::secret::SecretText;
use io_stream::{Io, Output};

type Resumed = Result<Result<AccessTokenResponse, ResponseParseError>, Io>;

/// Plays the transport: it takes down what is written and answers
/// every read from `response`.
struct Peer {
    written: Vec<u8>,
    response: Vec<u8>,
    cursor: usize,
    rounds: usize,
}

impl Peer {
    fn new(response: &[u8]) -> Self {
        Peer { written: Vec::new(), response: response.to_vec(), cursor: 0, rounds: 0 }
    }

    fn answer(&mut self, io: Io) -> Io {
        self.rounds += 1;
        match io {
            Io::Write(Err(bytes)) => {
                self.written.extend_from_slice(&bytes);
                let bytes_count = bytes.len();
                Io::Write(Ok(Output { buffer: bytes, bytes_count }))
            }
            Io::Read(Err(mut buffer)) => {
                let left = &self.response[self.cursor..];
                let bytes_count = left.len().min(buffer.len());
                buffer[..bytes_count].copy_from_slice(&left[..bytes_count]);
                self.cursor += bytes_count;
                Io::Read(Ok(Output { buffer, bytes_count }))
            }
            other => panic!("unexpected I/O request: {:?}", other),
        }
    }
}

fn token_request() -> AccessTokenRequestParams {
    AccessTokenRequestParams {
        code: String::from("c0de"),
        redirect_uri: None,
        client_id: String::from("cid"),
        pkce_code_verifier: Some(PkceCodeVerifier::parse("abc123").unwrap()),
    }
}

fn response(status: &str, body: &str) -> Vec<u8> {
    format!(
        "HTTP/1.1 {}\r\nContent-Type: application/json\r\nContent-Length: {}\r\n\r\n{}",
        status,
        body.len(),
        body
    )
    .into_bytes()
}

/// One step of the HTTP coroutine that sends the request.
fn step(send: &mut Send, input: Option<Io>) -> Result<HttpReply, Io> {
    let response = send.resume(input)?;
    Ok(HttpReply { status: response.status().as_u16(), body: response.into_body() })
}

fn drive_access(coroutine: &mut SendAccessTokenRequest, peer: &mut Peer) -> Resumed {
    let mut send = Send::new(coroutine.request().clone());
    let mut input = None;
    loop {
        match coroutine.resume(step(&mut send, input.take())) {
            Err(Io::Error(message)) => return Err(Io::Error(message)),
            Err(io) => {
                assert_eq!(coroutine.current_state(), ExchangeState::AwaitingIo);
                input = Some(peer.answer(io));
            }
            Ok(outcome) => return Ok(outcome),
        }
    }
}

#[test]
fn media_type_of_the_request_body() {
    assert_eq!(FORM_MEDIA_TYPE, "application/x-www-form-urlencoded");
}

#[test]
fn access_token_exchange_ends_with_the_grant() {
    let request = Request::post("/token").header("Host", "as.example");
    let mut coroutine = SendAccessTokenRequest::new(request, token_request()).unwrap();
    assert_eq!(coroutine.current_state(), ExchangeState::Built);

    let mut peer = Peer::new(&response(
        "200 OK",
        r#"{"access_token":"AT","token_type":"Bearer","expires_in":3600}"#,
    ));
    let outcome = drive_access(&mut coroutine, &mut peer).unwrap();
    assert_eq!(coroutine.current_state(), ExchangeState::Complete);
    assert!(peer.rounds >= 2);

    let params = outcome.unwrap().unwrap();
    assert_eq!(params.access_token.expose(), "AT");
    assert_eq!(params.token_type, "Bearer");
    assert_eq!(params.expires_in, Some(3600));
    assert!(params.refresh_token.is_none());

    let written = String::from_utf8(peer.written).unwrap();
    let body = "grant_type=authorization_code&code=c0de&client_id=cid&code_verifier=abc123";
    assert!(written.starts_with("POST /token HTTP/1.1\r\n"));
    assert!(written.contains("host: as.example\r\n"));
    assert!(written.contains("content-type: application/x-www-form-urlencoded\r\n"));
    assert!(written.contains(&format!("content-length: {}\r\n", body.len())));
    assert!(written.ends_with(&format!("\r\n\r\n{}", body)));
}

#[test]
fn access_token_exchange_ends_with_the_refusal() {
    let request = Request::post("/token");
    let mut coroutine = SendAccessTokenRequest::new(request, token_request()).unwrap();
    let mut peer = Peer::new(&response("400 Bad Request", r#"{"error":"invalid_grant"}"#));
    let outcome = drive_access(&mut coroutine, &mut peer).unwrap();
    assert_eq!(coroutine.current_state(), ExchangeState::Complete);
    let refusal = outcome.unwrap().err().unwrap();
    assert_eq!(refusal.error, IssueAccessTokenErrorCode::InvalidGrant);
    assert_eq!(refusal.error_description, None);
    assert_eq!(refusal.error_uri, None);
}

#[test]
fn access_token_exchange_reports_a_body_of_another_shape() {
    let request = Request::post("/token");
    let mut coroutine = SendAccessTokenRequest::new(request, token_request()).unwrap();
    let mut peer = Peer::new(&response("200 OK", r#"{"error":"invalid_grant"}"#));
    let outcome = drive_access(&mut coroutine, &mut peer).unwrap();
    assert!(matches!(outcome, Err(ResponseParseError::Shape)));

    let request = Request::post("/token");
    let mut coroutine = SendAccessTokenRequest::new(request, token_request()).unwrap();
    let mut peer = Peer::new(&response("500 Internal Server Error", "<html>oops</html>"));
    let outcome = drive_access(&mut coroutine, &mut peer).unwrap();
    assert!(matches!(outcome, Err(ResponseParseError::Syntax(_))));
}

#[test]
fn first_resume_asks_for_the_request_to_be_written() {
    let request = Request::post("/token");
    let mut coroutine = SendAccessTokenRequest::new(request, token_request()).unwrap();
    let mut send = Send::new(coroutine.request().clone());
    match coroutine.resume(step(&mut send, None)) {
        Err(Io::Write(Err(bytes))) => assert!(bytes.starts_with(b"POST /token HTTP/1.1\r\n")),
        other => panic!("unexpected: {:?}", other),
    }
    assert_eq!(coroutine.current_state(), ExchangeState::AwaitingIo);
}

#[test]
fn transport_failure_is_handed_on() {
    let request = Request::post("/token");
    let mut coroutine = SendAccessTokenRequest::new(request, token_request()).unwrap();
    let mut peer = Peer::new(b"");
    match drive_access(&mut coroutine, &mut peer) {
        Err(Io::Error(_)) => {}
        other => panic!("unexpected: {:?}", other),
    }
    assert_eq!(coroutine.current_state(), ExchangeState::AwaitingIo);
}

#[test]
fn request_that_cannot_be_built_is_refused() {
    let request = Request::post("/token").header("bad name", "x");
    assert!(SendAccessTokenRequest::new(request, token_request()).is_err());
    let request = Request::post("http://[bad");
    let params = RefreshAccessTokenParams::new("cid", SecretText::new(String::from("RT")));
    assert!(RefreshAccessToken::new(request, params).is_err());
    let request = Request::post("/token").header("x", "a\nb");
    assert!(TokenExchange::new(request, "a=b").is_err());
}

#[test]
fn refresh_exchange_ends_with_the_grant() {
    let request = Request::post("/token");
    let mut params = RefreshAccessTokenParams::new("cid", SecretText::new(String::from("RT")));
    params.scopes.insert("read");
    let mut coroutine = RefreshAccessToken::new(request, params).unwrap();
    assert_eq!(coroutine.current_state(), ExchangeState::Built);

    let mut peer = Peer::new(&response(
        "200 OK",
        r#"{"access_token":"AT2","token_type":"Bearer","refresh_token":"RT2"}"#,
    ));
    let mut send = Send::new(coroutine.request().clone());
    let mut input = None;
    let outcome = loop {
        match coroutine.resume(step(&mut send, input.take())) {
            Err(io) => input = Some(peer.answer(io)),
            Ok(outcome) => break outcome,
        }
    };
    assert_eq!(coroutine.current_state(), ExchangeState::Complete);
    let params = outcome.unwrap().unwrap();
    assert_eq!(params.access_token.expose(), "AT2");
    assert_eq!(params.expires_in, None);
    assert_eq!(params.refresh_token.unwrap().expose(), "RT2");

    let written = String::from_utf8(peer.written).unwrap();
    assert!(written.contains("content-type: application/x-www-form-urlencoded\r\n"));
    assert!(written.ends_with("\r\n\r\ngrant_type=refresh_token&client_id=cid&refresh_token=RT&scope=read"));
}

#[test]
fn refresh_exchange_ends_with_the_refusal() {
    let request = Request::post("/token");
    let params = RefreshAccessTokenParams::new("cid", SecretText::new(String::from("RT")));
    let mut coroutine = RefreshAccessToken::new(request, params).unwrap();
    let mut peer = Peer::new(&response(
        "401 Unauthorized",
        r#"{"error":"invalid_client","error_description":"who are you"}"#,
    ));
    let mut send = Send::new(coroutine.request().clone());
    let mut input = None;
    let outcome = loop {
        match coroutine.resume(step(&mut send, input.take())) {
            Err(io) => input = Some(peer.answer(io)),
            Ok(outcome) => break outcome,
        }
    };
    let refusal = outcome.unwrap().err().unwrap();
    assert_eq!(refusal.error, IssueAccessTokenErrorCode::InvalidClient);
    assert_eq!(refusal.error_description.as_deref(), Some("who are you"));
}

#[test]
fn token_exchange_with_a_given_body() {
    let request = Request::post("/token");
    let mut exchange = TokenExchange::new(request, "a=b").unwrap();
    assert_eq!(exchange.current_state(), ExchangeState::Built);
    assert_eq!(exchange.request().body(), b"a=b");
    let mut send = Send::new(exchange.request().clone());
    match exchange.resume(step(&mut send, None)) {
        Err(Io::Write(Err(bytes))) => assert!(bytes.ends_with(b"\r\n\r\na=b")),
        other => panic!("unexpected: {:?}", other),
    }
    assert_eq!(exchange.current_state(), ExchangeState::AwaitingIo);
}

#[test]
fn responses_are_read_by_status_class_first() {
    let grant = br#"{"access_token":"AT","token_type":"Bearer"}"#;
    let refusal = br#"{"error":"invalid_request"}"#;
    for status in [200, 201, 204, 299] {
        assert!(matches!(read_response(status, grant), Ok(Ok(_))));
        assert!(matches!(read_response(status, refusal), Err(ResponseParseError::Shape)));
    }
    for status in [100, 199, 300, 302, 400, 401, 500, 599, 0, 999] {
        assert!(matches!(read_response(status, refusal), Ok(Err(_))));
        assert!(matches!(read_response(status, grant), Err(ResponseParseError::Shape)));
    }
    assert!(matches!(read_response(200, b"{"), Err(ResponseParseError::Syntax(_))));
    assert!(matches!(read_response(400, b"{"), Err(ResponseParseError::Syntax(_))));
}

#[test]
fn building_does_not_depend_on_the_body() {
    for body in ["", "a=b", "not a form at all \u{e9}\n\0"] {
        assert!(TokenExchange::new(Request::post("/token"), body).is_ok());
        assert!(TokenExchange::new(Request::post("/token").header("bad name", "x"), body).is_err());
    }
}

#[test]
fn request_keeps_the_head_and_gets_the_content_type() {
    let request = Request::put("https://as.example/token?x=1")
        .header("Host", "as.example")
        .header("Content-Type", "text/plain")
        .header("Accept", "application/json");
    let coroutine = SendAccessTokenRequest::new(request, token_request()).unwrap();
    let request = coroutine.request();
    assert_eq!(request.method(), "PUT");
    assert_eq!(request.uri(), "https://as.example/token?x=1");
    assert_eq!(request.headers().len(), 4);
    assert_eq!(request.headers()["host"], "as.example");
    assert_eq!(request.headers()["accept"], "application/json");
    let types: Vec<&[u8]> =
        request.headers().get_all("content-type").iter().map(|v| v.as_bytes()).collect();
    assert_eq!(types, vec![&b"text/plain"[..], &b"application/x-www-form-urlencoded"[..]]);
    assert_eq!(
        request.body().as_slice(),
        &b"grant_type=authorization_code&code=c0de&client_id=cid&code_verifier=abc123"[..]
    );
}

#[test]
fn steps_are_handed_on_as_they_come() {
    let mut exchange = TokenExchange::new(Request::post("/token"), "a=b").unwrap();
    let asked = Io::Read(Err(vec![1, 2, 3]));
    assert_eq!(exchange.resume(Err(asked.clone())).err(), Some(asked));
    assert_eq!(exchange.current_state(), ExchangeState::AwaitingIo);
    let failed = Io::Error(String::from("broken pipe"));
    assert_eq!(exchange.resume(Err(failed.clone())).err(), Some(failed));
    assert_eq!(exchange.current_state(), ExchangeState::AwaitingIo);

    let reply = HttpReply { status: 400, body: br#"{"error":"invalid_grant"}"#.to_vec() };
    let refusal = exchange.resume(Ok(reply)).ok().unwrap().unwrap().err().unwrap();
    assert_eq!(refusal.error, IssueAccessTokenErrorCode::InvalidGrant);
    assert_eq!(exchange.current_state(), ExchangeState::Complete);

    let mut exchange = TokenExchange::new(Request::post("/token"), "a=b").unwrap();
    let reply = HttpReply {
        status: 200,
        body: br#"{"access_token":"AT","token_type":"Bearer"}"#.to_vec(),
    };
    let grant = exchange.resume(Ok(reply)).ok().unwrap().unwrap().unwrap();
    assert_eq!(grant.access_token.expose(), "AT");
    assert_eq!(exchange.current_state(), ExchangeState::Complete);
}
