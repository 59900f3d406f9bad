use io_oauth::v2_0::authorization_code_grant::access_token_request::AccessTokenRequestParams;
use io_oauth::v2_0::authorization_code_grant::authorization_request::AuthorizationRequestParams;
use io_oauth::form::{parse_query, FormSerializer};
use io_oauth::v2_0::authorization_code_grant::pkce::{
    PkceCodeChallenge, PkceCodeChallengeMethod, PkceCodeVerifier,
};
use io_oauth::v2_0::refresh_access_token::RefreshAccessTokenParams;
use io_oauth::v2_0::scope::Scope;
use io_oauth::secret::SecretText;
use io_oauth::v2_0::authorization_code_grant::state::State;

fn scope_of(tokens: &[&str]) -> Scope {
    let mut scope = Scope::new();
    for token in tokens {
        assert!(scope.insert(token));
    }
    scope
}

fn pair(name: &str, value: &str) -> (String, String) {
    (name.to_string(), value.to_string())
}

#[test]
fn serializer_escapes_names_and_values() {
    let mut serializer = FormSerializer::new();
    serializer.append_pair("foo", "bar & baz");
    serializer.append_pair("saison", "\u{c9}t\u{e9}+hiver");
    assert_eq!(serializer.finish(), "foo=bar+%26+baz&saison=%C3%89t%C3%A9%2Bhiver");
}

#[test]
fn serializer_without_pairs_gives_the_empty_text() {
    assert_eq!(FormSerializer::new().finish(), "");
}

#[test]
fn serializer_keeps_literals_and_escapes_the_rest() {
    let mut serializer = FormSerializer::new();
    serializer.append_pair("*-._", "AZaz09~/:?=&%");
    serializer.append_pair("", "");
    assert_eq!(serializer.finish(), "*-._=AZaz09%7E%2F%3A%3F%3D%26%25&=");
}

#[test]
fn query_pairs_are_parsed() {
    assert_eq!(
        parse_query("%23first=%25try%25&a=b+c&&d&e=f=g&h=%4a%4A%zz%4"),
        vec![
            pair("#first", "%try%"),
            pair("a", "b c"),
            pair("d", ""),
            pair("e", "f=g"),
            pair("h", "JJ%zz%4"),
        ]
    );
    assert_eq!(parse_query(""), Vec::new());
    assert_eq!(parse_query("&&"), Vec::new());
    assert_eq!(parse_query("=v"), vec![pair("", "v")]);
    assert_eq!(parse_query("a=%FF"), vec![pair("a", "\u{fffd}")]);
}

#[test]
fn authorization_request_with_state_and_scope() {
    let params = AuthorizationRequestParams {
        client_id: String::from("cid"),
        redirect_uri: None,
        scope: scope_of(&["read", "write"]),
        state: Some(State::from_text("s1")),
        pkce_code_challenge: None,
    };
    assert_eq!(
        params.to_form_url_encoded_string(),
        "response_type=code&client_id=cid&state=s1&scope=read+write"
    );
}

#[test]
fn authorization_request_with_the_required_parameters_only() {
    let params = AuthorizationRequestParams {
        client_id: String::from("cid"),
        redirect_uri: None,
        scope: Scope::new(),
        state: None,
        pkce_code_challenge: None,
    };
    assert_eq!(params.to_form_url_encoded_string(), "response_type=code&client_id=cid");
}

#[test]
fn authorization_request_with_every_parameter() {
    let params = AuthorizationRequestParams {
        client_id: String::from("my client"),
        redirect_uri: Some(String::from("https://client.example/cb?x=1")),
        scope: scope_of(&["openid", "mail:read"]),
        state: Some(State::from_text("a/b")),
        pkce_code_challenge: Some(PkceCodeChallenge {
            method: PkceCodeChallengeMethod::Sha256,
            verifier: PkceCodeVerifier::parse("dBjftJeZ4CVP-mB92K27uhbUJU1p1r_wW1gFWFOEjXk")
                .unwrap(),
        }),
    };
    assert_eq!(
        params.to_form_url_encoded_string(),
        "response_type=code&client_id=my+client&state=a%2Fb\
         &redirect_uri=https%3A%2F%2Fclient.example%2Fcb%3Fx%3D1\
         &scope=openid+mail%3Aread\
         &code_challenge=E9Melhoa2OwvFrEMTJguCHaoeK1t8URWbuGJSstw-cM\
         &code_challenge_method=S256"
    );
}

#[test]
fn authorization_request_with_a_plain_challenge() {
    let params = AuthorizationRequestParams {
        client_id: String::from("cid"),
        redirect_uri: None,
        scope: Scope::new(),
        state: None,
        pkce_code_challenge: Some(PkceCodeChallenge {
            method: PkceCodeChallengeMethod::Plain,
            verifier: PkceCodeVerifier::parse("abc~123").unwrap(),
        }),
    };
    assert_eq!(
        params.to_form_url_encoded_string(),
        "response_type=code&client_id=cid&code_challenge=abc%7E123&code_challenge_method=plain"
    );
}

#[test]
fn authorization_request_serializer_takes_further_pairs() {
    let params = AuthorizationRequestParams {
        client_id: String::from("cid"),
        redirect_uri: None,
        scope: Scope::new(),
        state: None,
        pkce_code_challenge: None,
    };
    let mut serializer = params.to_form_url_encoded_serializer();
    serializer.append_pair("access_type", "offline");
    assert_eq!(serializer.finish(), "response_type=code&client_id=cid&access_type=offline");
}

#[test]
fn authorization_request_round_trip() {
    let state = State::new();
    let params = AuthorizationRequestParams {
        client_id: String::from("client & co=\u{e9}"),
        redirect_uri: Some(String::from("https://client.example/cb")),
        scope: scope_of(&["read", "write+more", "a%20b"]),
        state: Some(state.clone()),
        pkce_code_challenge: None,
    };
    let pairs = parse_query(&params.to_form_url_encoded_string());
    assert_eq!(
        pairs,
        vec![
            pair("response_type", "code"),
            pair("client_id", "client & co=\u{e9}"),
            pair("state", std::str::from_utf8(state.expose()).unwrap()),
            pair("redirect_uri", "https://client.example/cb"),
            pair("scope", "read write+more a%20b"),
        ]
    );
    let tokens: Vec<&str> = pairs[4].1.split(' ').collect();
    assert_eq!(tokens, vec!["read", "write+more", "a%20b"]);
}

#[test]
fn access_token_request_body() {
    let params = AccessTokenRequestParams {
        code: String::from("SplxlOBeZQQYbYS6WxSbIA"),
        redirect_uri: Some(String::from("https://client.example/cb")),
        client_id: String::from("cid"),
        pkce_code_verifier: Some(PkceCodeVerifier::parse("abc~123").unwrap()),
    };
    assert_eq!(
        params.to_string(),
        "grant_type=authorization_code&code=SplxlOBeZQQYbYS6WxSbIA\
         &redirect_uri=https%3A%2F%2Fclient.example%2Fcb&client_id=cid&code_verifier=abc%7E123"
    );
    assert_eq!(params.to_form_url_encoded_serializer().finish(), params.to_string());
}

#[test]
fn access_token_request_body_without_optional_parameters() {
    let params = AccessTokenRequestParams {
        code: String::from("c0de"),
        redirect_uri: None,
        client_id: String::from("cid"),
        pkce_code_verifier: None,
    };
    assert_eq!(params.to_string(), "grant_type=authorization_code&code=c0de&client_id=cid");
}

#[test]
fn refresh_request_body() {
    let mut params =
        RefreshAccessTokenParams::new("cid", SecretText::new(String::from("tGzv3JOkF0XG5Qx2TlKWIA")));
    assert_eq!(params.client_id, "cid");
    assert_eq!(params.refresh_token.expose(), "tGzv3JOkF0XG5Qx2TlKWIA");
    assert!(params.scopes.is_empty());
    assert_eq!(
        params.to_string(),
        "grant_type=refresh_token&client_id=cid&refresh_token=tGzv3JOkF0XG5Qx2TlKWIA"
    );
    params.scopes.insert("read");
    params.scopes.insert("write");
    assert_eq!(
        params.to_string(),
        "grant_type=refresh_token&client_id=cid&refresh_token=tGzv3JOkF0XG5Qx2TlKWIA\
         &scope=read+write"
    );
    assert_eq!(params.to_serializer().finish(), params.to_string());
}

#[test]
fn access_token_request_needs_a_code_and_a_client() {
    let mut params = AccessTokenRequestParams {
        code: String::from("c0de"),
        redirect_uri: None,
        client_id: String::from("cid"),
        pkce_code_verifier: None,
    };
    assert!(params.is_complete());
    params.code = String::new();
    assert!(!params.is_complete());
    params.code = String::from("c0de");
    params.client_id = String::new();
    assert!(!params.is_complete());
}
