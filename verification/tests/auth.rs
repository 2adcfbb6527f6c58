use cf_ddns::auth::{check_auth, AUTHORIZED_CODE};
use cf_ddns::envelope::{AuthResponse, CfMessage};
use cf_ddns::failure::Failure;

fn message(code: i32) -> CfMessage {
    CfMessage { code, message: String::from("This API Token is valid and active"), kind: None }
}

fn status(codes: &[i32]) -> AuthResponse {
    AuthResponse {
        success: true,
        errors: Vec::new(),
        messages: codes.iter().map(|code| message(*code)).collect(),
    }
}

#[test]
fn authorized_code_is_ten_thousand() {
    assert_eq!(AUTHORIZED_CODE, 10000);
}

#[test]
fn first_code_ten_thousand_is_authorized() {
    assert_eq!(check_auth(&status(&[10000])), Ok(false));
}

#[test]
fn any_other_first_code_is_not_authorized() {
    assert_eq!(check_auth(&status(&[9999])), Ok(true));
    assert_eq!(check_auth(&status(&[10001])), Ok(true));
    assert_eq!(check_auth(&status(&[0])), Ok(true));
    assert_eq!(check_auth(&status(&[-10000])), Ok(true));
    assert_eq!(check_auth(&status(&[i32::MAX])), Ok(true));
    assert_eq!(check_auth(&status(&[i32::MIN])), Ok(true));
}

#[test]
fn only_the_first_message_counts() {
    assert_eq!(check_auth(&status(&[1000, 10000])), Ok(true));
    assert_eq!(check_auth(&status(&[10000, 1000, 7])), Ok(false));
}

#[test]
fn empty_message_list_is_a_named_failure() {
    assert_eq!(check_auth(&status(&[])), Err(Failure::NoMessages));
}

#[test]
fn success_flag_and_errors_do_not_decide() {
    let refused_but_flagged = AuthResponse {
        success: true,
        errors: Vec::new(),
        messages: vec![message(6003)],
    };
    assert_eq!(check_auth(&refused_but_flagged), Ok(true));
    let accepted_but_unflagged = AuthResponse {
        success: false,
        errors: vec![String::from("something")],
        messages: vec![CfMessage {
            code: 10000,
            message: String::new(),
            kind: Some(String::from("note")),
        }],
    };
    assert_eq!(check_auth(&accepted_but_unflagged), Ok(false));
}

#[test]
fn failure_messages_are_fixed_texts() {
    assert_eq!(Failure::NoMessages.message(), "the token check answered without a message");
    assert_eq!(Failure::MissingOrigin.message(), "the address reply has no entry named origin");
    assert_eq!(Failure::MissingCredential.message(), "no credential for an authenticated call");
    assert_eq!(
        Failure::UnexpectedReply.message(),
        "the reply does not answer the call that was made"
    );
    assert_eq!(Failure::Transport(String::from("connection reset")).message(), "connection reset");
    assert_eq!(Failure::Transport(String::new()).message(), "");
}
