use classroom_auth::auth::{authenticate, Credentials, Role, StoreRead, User};
use classroom_auth::hasher::{set_config, Config, Hasher};
use classroom_auth::ids::{gen_6_digit_code, gen_reset_token};
use classroom_auth::keys::reset_key;
use classroom_auth::reset::{
    complete_reset, hand_out_token, VerifyCodeResponse,
    check_confirmation, check_reset_token, normalize_email, rehash_account, request_answer,
    request_reset,
    verify_reset_code, ForgotPasswordBody, ResetError, ResetPasswordBody, ResetState,
    VerifyCodeBody,
};

const T0: i64 = 1_700_000_000;

fn creds(password: &str) -> Credentials {
    Credentials { email: "alice@example.com".to_string(), password: password.to_string() }
}

fn hasher() -> Hasher {
    set_config(Config { secret_key: b"pepper".to_vec(), iterations: 1, parallelism: 1, memory_cost: 64 })
        .unwrap()
}

fn forgot(email: &str) -> ForgotPasswordBody {
    ForgotPasswordBody { email: email.to_string() }
}

fn verify_body(code: &str) -> VerifyCodeBody {
    VerifyCodeBody { email: "alice@example.com".to_string(), code: code.to_string() }
}

fn reset_body(token: &str, new: &str, confirm: &str) -> ResetPasswordBody {
    ResetPasswordBody {
        email: "alice@example.com".to_string(),
        reset_token: token.to_string(),
        new_password: new.to_string(),
        confirm: confirm.to_string(),
    }
}

fn alice(h: &Hasher, password: &str) -> User {
    User {
        id: "u1".to_string(),
        username: "alice".to_string(),
        email: "alice@example.com".to_string(),
        password: h.hash(password.as_bytes()).unwrap(),
        phone_number: "0900".to_string(),
        name: "Alice".to_string(),
        role: Role::User,
    }
}

#[test]
fn request_issues_code_and_mail() {
    let (state, mail) = request_reset(&forgot("  alice@example.com "), true, "123456".to_string(), T0).unwrap();
    assert_eq!(state, ResetState::CodeIssued { code: "123456".to_string(), expires_at: T0 + 600 });
    assert_eq!(state.ttl_seconds(), Some(600));
    assert_eq!(mail.to, "alice@example.com");
    assert_eq!(mail.subject, "Password Reset Verification Code");
    assert_eq!(
        mail.body,
        "Your password reset verification code is: 123456\n\nThis code will expire in 10 minutes."
    );
}

#[test]
fn request_for_unknown_email_sends_nothing() {
    assert!(request_reset(&forgot("nobody@example.com"), false, "123456".to_string(), T0).is_none());
}

#[test]
fn verify_trades_code_for_token() {
    let (state, _) = request_reset(&forgot("alice@example.com"), true, "654321".to_string(), T0).unwrap();
    let (next, resp) = verify_reset_code(state, &verify_body(" 654321 "), "tok".to_string(), T0 + 10).unwrap();
    assert_eq!(resp.reset_token, "tok");
    assert_eq!(next, ResetState::TokenIssued { token: "tok".to_string(), expires_at: T0 + 10 + 900 });
    assert_eq!(next.ttl_seconds(), Some(900));
}

#[test]
fn code_is_single_use() {
    let (state, _) = request_reset(&forgot("alice@example.com"), true, "111111".to_string(), T0).unwrap();
    let (next, _) = verify_reset_code(state, &verify_body("111111"), "t1".to_string(), T0 + 1).unwrap();
    let again = verify_reset_code(next, &verify_body("111111"), "t2".to_string(), T0 + 2);
    assert!(matches!(again, Err(ResetError::InvalidOrExpired)));
}

#[test]
fn second_request_supersedes_first() {
    let (s1, _) = request_reset(&forgot("alice@example.com"), true, "111111".to_string(), T0).unwrap();
    drop(s1);
    let (s2, _) = request_reset(&forgot("alice@example.com"), true, "222222".to_string(), T0 + 5).unwrap();
    let first = verify_reset_code(s2.clone(), &verify_body("111111"), "t".to_string(), T0 + 6);
    assert!(matches!(first, Err(ResetError::InvalidOrExpired)));
    assert!(verify_reset_code(s2, &verify_body("222222"), "t".to_string(), T0 + 6).is_ok());
}

#[test]
fn expired_code_is_rejected() {
    let (state, _) = request_reset(&forgot("alice@example.com"), true, "333333".to_string(), T0).unwrap();
    let late = verify_reset_code(state.clone(), &verify_body("333333"), "t".to_string(), T0 + 600);
    assert!(matches!(late, Err(ResetError::InvalidOrExpired)));
    assert!(verify_reset_code(state, &verify_body("333333"), "t".to_string(), T0 + 599).is_ok());
}

#[test]
fn wrong_code_and_failed_reads_are_rejected() {
    let (state, _) = request_reset(&forgot("alice@example.com"), true, "444444".to_string(), T0).unwrap();
    assert!(matches!(
        verify_reset_code(state, &verify_body("444445"), "t".to_string(), T0 + 1),
        Err(ResetError::InvalidOrExpired)
    ));
    for read in [StoreRead::Unavailable, StoreRead::Absent, StoreRead::Malformed] {
        let s = ResetState::from_read(read);
        assert_eq!(s, ResetState::NoActiveReset);
        assert!(matches!(
            verify_reset_code(s, &verify_body("444444"), "t".to_string(), T0 + 1),
            Err(ResetError::InvalidOrExpired)
        ));
    }
}

#[test]
fn mismatched_confirmation_is_validation_error_and_token_stays() {
    let state = ResetState::TokenIssued { token: "tok".to_string(), expires_at: T0 + 900 };
    let body = reset_body("tok", "a", "b");
    assert_eq!(check_confirmation(&body), Err(ResetError::ValidationError));
    assert_eq!(ResetError::ValidationError.status_code(), 400);
    assert_eq!(check_reset_token(&state, &reset_body("tok", "x", "x"), T0 + 1), Ok(()));
}

#[test]
fn token_checks() {
    let state = ResetState::TokenIssued { token: "tok".to_string(), expires_at: T0 + 900 };
    assert_eq!(check_reset_token(&state, &reset_body(" tok ", "x", "x"), T0), Ok(()));
    assert_eq!(check_reset_token(&state, &reset_body("tok", "x", "x"), T0 + 900), Err(ResetError::InvalidOrExpired));
    assert_eq!(check_reset_token(&state, &reset_body("tak", "x", "x"), T0), Err(ResetError::InvalidOrExpired));
    let code = ResetState::CodeIssued { code: "tok".to_string(), expires_at: T0 + 900 };
    assert_eq!(check_reset_token(&code, &reset_body("tok", "x", "x"), T0), Err(ResetError::InvalidOrExpired));
}

#[test]
fn rehash_missing_account_is_not_found() {
    let h = hasher();
    let r = rehash_account(&h, None, &reset_body("tok", "n", "n"));
    assert_eq!(r, Err(ResetError::NotFound));
    assert_eq!(ResetError::NotFound.status_code(), 404);
    assert_eq!(ResetError::StoreUnavailable.status_code(), 500);
    assert_eq!(ResetError::MailFailed.status_code(), 500);
}

#[test]
fn end_to_end_reset_changes_password() {
    let h = hasher();
    let account = alice(&h, "old-pw");
    let email = normalize_email(" alice@example.com ");
    assert_eq!(email, "alice@example.com");
    assert_eq!(reset_key(&email), "password_reset:alice@example.com");

    let code = gen_6_digit_code();
    let (state, mail) = request_reset(&forgot(&email), true, code.clone(), T0).unwrap();
    let intercepted: String = mail.body.chars().skip_while(|c| !c.is_ascii_digit()).take(6).collect();
    assert_eq!(intercepted, code);

    let token = gen_reset_token();
    let (state, resp) = verify_reset_code(state, &verify_body(&intercepted), token, T0 + 60).unwrap();
    let body = reset_body(&resp.reset_token, "new-pw", "new-pw");
    assert_eq!(check_confirmation(&body), Ok(()));
    assert_eq!(check_reset_token(&state, &body, T0 + 120), Ok(()));
    let updated = rehash_account(&h, Some(account.clone()), &body).unwrap();
    assert_eq!(updated.id, account.id);
    assert_ne!(updated.password, account.password);
    let state = ResetState::NoActiveReset;
    assert_eq!(state.ttl_seconds(), None);
    assert!(check_reset_token(&state, &body, T0 + 121).is_err());

    assert!(authenticate(&h, Some(updated.clone()), &creds("new-pw")).is_some());
    assert!(authenticate(&h, Some(updated), &creds("old-pw")).is_none());
}

#[test]
fn unknown_email_gets_the_same_answer_as_a_sent_code() {
    assert_eq!(request_answer(None, None), Ok(()));
    assert_eq!(request_answer(Some(true), Some(true)), Ok(()));
    assert_eq!(request_answer(Some(false), None), Err(ResetError::StoreUnavailable));
    assert_eq!(request_answer(Some(true), Some(false)), Err(ResetError::MailFailed));
}

#[test]
fn token_is_withheld_when_its_state_was_not_stored() {
    let ok = hand_out_token(true, VerifyCodeResponse { reset_token: "t".to_string() }).unwrap();
    assert_eq!(ok.reset_token, "t");
    let failed = hand_out_token(false, VerifyCodeResponse { reset_token: "t".to_string() });
    assert!(matches!(failed, Err(ResetError::StoreUnavailable)));
}

#[test]
fn completing_a_reset_clears_state_and_stale_snapshot() {
    let h = hasher();
    let u = alice(&h, "pw");
    let done = complete_reset(&u, true).unwrap();
    assert_eq!(done.next, ResetState::NoActiveReset);
    assert_eq!(done.next.ttl_seconds(), None);
    assert_eq!(done.stale_snapshot_key, "user_u1");
    assert!(check_reset_token(&done.next, &reset_body("tok", "x", "x"), T0).is_err());
    assert!(matches!(complete_reset(&u, false), Err(ResetError::StoreUnavailable)));
}

#[test]
fn codes_and_tokens_trim_to_themselves() {
    let code = gen_6_digit_code();
    assert_eq!(normalize_email(&code), code);
    let token = gen_reset_token();
    assert_eq!(normalize_email(&token), token);
    assert_eq!(normalize_email("\t a@b.c \n"), "a@b.c");
}

#[test]
fn unicode_whitespace_is_trimmed() {
    assert_eq!(normalize_email("\u{3000}a@b.c\u{2028}\u{a0}"), "a@b.c");
    assert_eq!(normalize_email(" \t\n"), "");
    assert_eq!(normalize_email("a b"), "a b");
}
