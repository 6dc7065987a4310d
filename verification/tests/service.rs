use auth_service::password::{hash_with_salt, verify};
use auth_service::service::{
    login, login_step, register, register_step, status_code, Action, Credentials, LoginState,
    Outcome, RegisterState,
};
use auth_service::store::{Event, StoreRequest};

/// Encoding of the password "password" under the salt "somesalt", with a
/// small memory cost.
const RECORD: &str =
    "$argon2id$v=19$m=256,t=2,p=1$c29tZXNhbHQ$nf65EOgLrQMR/uIPnA4rEsF5h7TKyQwu9U1bMCHGi/4";

fn user(username: &str, password: &str) -> Credentials {
    Credentials { username: username.to_string(), password: password.to_string() }
}

fn over(outcome: Outcome) -> (RegisterState, Action) {
    (RegisterState::Finished(outcome), Action::Reply(outcome))
}

fn login_over(outcome: Outcome) -> (LoginState, Action) {
    (LoginState::Finished(outcome), Action::Reply(outcome))
}

#[test]
fn status_codes() {
    assert_eq!(status_code(Outcome::Created), 201);
    assert_eq!(status_code(Outcome::Authenticated), 200);
    assert_eq!(status_code(Outcome::DuplicateUser), 400);
    assert_eq!(status_code(Outcome::UnknownUser), 400);
    assert_eq!(status_code(Outcome::InvalidCredentials), 401);
    assert_eq!(status_code(Outcome::StoreUnavailable), 503);
    assert_eq!(status_code(Outcome::HashingFailure), 500);
}

#[test]
fn register_starts_by_asking_whether_the_name_is_taken() {
    let next = register(RegisterState::Start, &user("tcross", "s3cret"), &Event::Request);
    assert_eq!(
        next,
        (RegisterState::Checking, Action::Ask(StoreRequest::Exists { key: "tcross".to_string() }))
    );
}

#[test]
fn register_start_does_not_read_the_event() {
    let next = register(RegisterState::Start, &user("tcross", "s3cret"), &Event::StoreFailed);
    assert_eq!(
        next,
        (RegisterState::Checking, Action::Ask(StoreRequest::Exists { key: "tcross".to_string() }))
    );
}

#[test]
fn register_taken_name_is_a_duplicate() {
    let next = register(RegisterState::Checking, &user("tcross", "s3cret"), &Event::Exists(true));
    assert_eq!(next, over(Outcome::DuplicateUser));
}

#[test]
fn register_free_name_writes_a_hash_of_the_password() {
    let (state, action) =
        register(RegisterState::Checking, &user("tcross", "s3cret"), &Event::Exists(false));
    assert_eq!(state, RegisterState::Storing);
    match action {
        Action::Ask(StoreRequest::Put { key, value }) => {
            assert_eq!(key, "tcross");
            assert_ne!(value, "s3cret");
            assert!(value.starts_with("$argon2id$v=19$m=19456,t=2,p=1$"));
            assert!(verify(&value, b"s3cret"));
        }
        other => panic!("expected a write, got {:?}", other),
    }
}

#[test]
fn register_hashes_the_password_in_utf8() {
    let (_, action) =
        register(RegisterState::Checking, &user("zoe", "pässwörd"), &Event::Exists(false));
    match action {
        Action::Ask(StoreRequest::Put { key, value }) => {
            assert_eq!(key, "zoe");
            assert!(verify(&value, "pässwörd".as_bytes()));
        }
        other => panic!("expected a write, got {:?}", other),
    }
}

#[test]
fn register_written_record_is_created() {
    let next = register(RegisterState::Storing, &user("tcross", "s3cret"), &Event::Stored);
    assert_eq!(next, over(Outcome::Created));
}

#[test]
fn register_store_failure_while_checking() {
    let next = register(RegisterState::Checking, &user("tcross", "s3cret"), &Event::StoreFailed);
    assert_eq!(next, over(Outcome::StoreUnavailable));
}

#[test]
fn register_store_failure_while_storing() {
    let next = register(RegisterState::Storing, &user("tcross", "s3cret"), &Event::StoreFailed);
    assert_eq!(next, over(Outcome::StoreUnavailable));
}

#[test]
fn register_answer_to_another_question() {
    let new_user = user("tcross", "s3cret");
    assert_eq!(
        register(RegisterState::Checking, &new_user, &Event::Stored),
        over(Outcome::StoreUnavailable)
    );
    assert_eq!(
        register(RegisterState::Checking, &new_user, &Event::Value(None)),
        over(Outcome::StoreUnavailable)
    );
    assert_eq!(
        register(RegisterState::Checking, &new_user, &Event::Request),
        over(Outcome::StoreUnavailable)
    );
    assert_eq!(
        register(RegisterState::Storing, &new_user, &Event::Exists(false)),
        over(Outcome::StoreUnavailable)
    );
}

#[test]
fn register_finished_stays_finished() {
    let new_user = user("tcross", "s3cret");
    assert_eq!(
        register(RegisterState::Finished(Outcome::Created), &new_user, &Event::Exists(false)),
        over(Outcome::Created)
    );
    assert_eq!(
        register(RegisterState::Finished(Outcome::DuplicateUser), &new_user, &Event::Stored),
        over(Outcome::DuplicateUser)
    );
}

#[test]
fn register_step_writes_the_encoding_it_is_given() {
    let next = register_step(
        RegisterState::Checking,
        &user("tcross", "s3cret"),
        &Event::Exists(false),
        Some("encoding".to_string()),
    );
    assert_eq!(
        next,
        (
            RegisterState::Storing,
            Action::Ask(StoreRequest::Put {
                key: "tcross".to_string(),
                value: "encoding".to_string()
            })
        )
    );
}

#[test]
fn register_step_without_encoding_is_a_hashing_failure() {
    let next = register_step(
        RegisterState::Checking,
        &user("tcross", "s3cret"),
        &Event::Exists(false),
        None,
    );
    assert_eq!(next, over(Outcome::HashingFailure));
}

#[test]
fn register_step_reads_the_encoding_only_for_a_free_name() {
    let new_user = user("tcross", "s3cret");
    let encoding = Some("encoding".to_string());
    assert_eq!(
        register_step(RegisterState::Checking, &new_user, &Event::Exists(true), encoding.clone()),
        over(Outcome::DuplicateUser)
    );
    assert_eq!(
        register_step(RegisterState::Storing, &new_user, &Event::Stored, encoding.clone()),
        over(Outcome::Created)
    );
    assert_eq!(
        register_step(RegisterState::Start, &new_user, &Event::Request, encoding),
        (RegisterState::Checking, Action::Ask(StoreRequest::Exists { key: "tcross".to_string() }))
    );
}

#[test]
fn login_starts_by_asking_for_the_record() {
    let next = login(LoginState::Start, &user("tcross", "s3cret"), &Event::Request);
    assert_eq!(
        next,
        (LoginState::Fetching, Action::Ask(StoreRequest::Get { key: "tcross".to_string() }))
    );
}

#[test]
fn login_without_record_is_unknown_user() {
    let next = login(LoginState::Fetching, &user("nouser", "x"), &Event::Value(None));
    assert_eq!(next, login_over(Outcome::UnknownUser));
}

#[test]
fn login_with_empty_record_is_unknown_user() {
    let next =
        login(LoginState::Fetching, &user("nouser", "x"), &Event::Value(Some(String::new())));
    assert_eq!(next, login_over(Outcome::UnknownUser));
}

#[test]
fn login_with_the_password_of_the_record() {
    let next = login(
        LoginState::Fetching,
        &user("tcross", "password"),
        &Event::Value(Some(RECORD.to_string())),
    );
    assert_eq!(next, login_over(Outcome::Authenticated));
}

#[test]
fn login_with_another_password() {
    let next = login(
        LoginState::Fetching,
        &user("tcross", "wrong"),
        &Event::Value(Some(RECORD.to_string())),
    );
    assert_eq!(next, login_over(Outcome::InvalidCredentials));
}

#[test]
fn login_against_a_record_that_is_no_encoding() {
    let next = login(
        LoginState::Fetching,
        &user("tcross", "password"),
        &Event::Value(Some("password".to_string())),
    );
    assert_eq!(next, login_over(Outcome::InvalidCredentials));
}

#[test]
fn login_against_a_record_hashed_with_the_default_parameters() {
    let record = hash_with_salt("pässwörd".as_bytes(), b"0123456789abcdef").unwrap();
    let next =
        login(LoginState::Fetching, &user("zoe", "pässwörd"), &Event::Value(Some(record)));
    assert_eq!(next, login_over(Outcome::Authenticated));
}

#[test]
fn login_store_failure() {
    let next = login(LoginState::Fetching, &user("tcross", "password"), &Event::StoreFailed);
    assert_eq!(next, login_over(Outcome::StoreUnavailable));
}

#[test]
fn login_answer_to_another_question() {
    let credentials = user("tcross", "password");
    assert_eq!(
        login(LoginState::Fetching, &credentials, &Event::Exists(true)),
        login_over(Outcome::StoreUnavailable)
    );
    assert_eq!(
        login(LoginState::Fetching, &credentials, &Event::Stored),
        login_over(Outcome::StoreUnavailable)
    );
    assert_eq!(
        login(LoginState::Fetching, &credentials, &Event::Request),
        login_over(Outcome::StoreUnavailable)
    );
}

#[test]
fn login_finished_stays_finished() {
    let credentials = user("tcross", "password");
    assert_eq!(
        login(
            LoginState::Finished(Outcome::InvalidCredentials),
            &credentials,
            &Event::Value(Some(RECORD.to_string()))
        ),
        login_over(Outcome::InvalidCredentials)
    );
}

#[test]
fn login_step_follows_the_verdict_it_is_given() {
    let credentials = user("tcross", "anything");
    let record = Event::Value(Some("record".to_string()));
    assert_eq!(
        login_step(LoginState::Fetching, &credentials, &record, true),
        login_over(Outcome::Authenticated)
    );
    assert_eq!(
        login_step(LoginState::Fetching, &credentials, &record, false),
        login_over(Outcome::InvalidCredentials)
    );
}

#[test]
fn login_step_reads_the_verdict_only_for_a_record() {
    let credentials = user("tcross", "anything");
    assert_eq!(
        login_step(LoginState::Fetching, &credentials, &Event::Value(None), true),
        login_over(Outcome::UnknownUser)
    );
    assert_eq!(
        login_step(LoginState::Fetching, &credentials, &Event::Value(Some(String::new())), true),
        login_over(Outcome::UnknownUser)
    );
    assert_eq!(
        login_step(LoginState::Fetching, &credentials, &Event::StoreFailed, true),
        login_over(Outcome::StoreUnavailable)
    );
    assert_eq!(
        login_step(LoginState::Start, &credentials, &Event::Request, true),
        (LoginState::Fetching, Action::Ask(StoreRequest::Get { key: "tcross".to_string() }))
    );
}
