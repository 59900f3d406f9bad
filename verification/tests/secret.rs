use io_oauth::json::JsonMember;
use io_oauth::secret::{SecretBytes, SecretText};
use io_oauth::v2_0::authorization_code_grant::{PkceCodeVerifier, State};
use io_oauth::v2_0::{IssueAccessTokenSuccessParams, RefreshAccessTokenParams};
use std::time::SystemTime;

#[test]
fn secret_bytes_hold_what_they_were_given() {
    let secret = SecretBytes::new(vec![1, 2, 3]);
    assert_eq!(secret.expose(), &[1, 2, 3]);
    assert_eq!(SecretBytes::new(Vec::new()).expose(), &[] as &[u8]);
}

#[test]
fn secret_bytes_clone_holds_the_same_bytes() {
    let secret = SecretBytes::new(vec![9, 8]);
    assert_eq!(secret.clone().expose(), &[9, 8]);
}

#[test]
fn secret_bytes_are_not_printed() {
    let secret = SecretBytes::new(b"hunter2".to_vec());
    let printed = format!("{:?}", secret);
    assert!(!printed.contains("hunter2"));
    assert!(!printed.contains("104"));
}

#[test]
fn secret_text_holds_what_it_was_given() {
    let secret = SecretText::new(String::from("token"));
    assert_eq!(secret.expose(), "token");
    assert_eq!(secret.clone().expose(), "token");
}

#[test]
fn secret_text_is_not_printed() {
    let secret = SecretText::new(String::from("hunter2"));
    assert!(!format!("{:?}", secret).contains("hunter2"));
}

#[test]
fn secrets_are_not_printed_by_their_owners() {
    let verifier = PkceCodeVerifier::parse("verifier-in-the-clear").unwrap();
    assert!(!format!("{:?}", verifier).contains("verifier-in-the-clear"));

    let state = State::from_text("state-in-the-clear");
    assert!(!format!("{:?}", state).contains("state-in-the-clear"));

    let grant = IssueAccessTokenSuccessParams::from_members(
        JsonMember::Text(String::from("access-in-the-clear")),
        JsonMember::Text(String::from("Bearer")),
        JsonMember::Absent,
        JsonMember::Text(String::from("refresh-in-the-clear")),
        JsonMember::Absent,
        SystemTime::now(),
    )
    .unwrap();
    let printed = format!("{:?}", grant);
    assert!(printed.contains("Bearer"));
    assert!(!printed.contains("access-in-the-clear"));
    assert!(!printed.contains("refresh-in-the-clear"));

    let refresh = RefreshAccessTokenParams::new(
        "cid",
        SecretText::new(String::from("refresh-in-the-clear")),
    );
    let printed = format!("{:?}", refresh);
    assert!(printed.contains("cid"));
    assert!(!printed.contains("refresh-in-the-clear"));
}
