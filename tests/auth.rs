use core_server::models::User;
use core_server::persist::auth::{Backend, Credentials, Error, DECOY_HASH};
use std::time::Instant;

fn backend() -> Backend<()> {
    Backend::new(())
}

fn creds(username: &str, password: &str) -> Credentials {
    Credentials::new(username.to_string(), password.to_string())
}

fn alice(hash: &str) -> User {
    User::new(1, "alice".to_string(), hash.to_string())
}

fn store_failure() -> sqlx::Error {
    sqlx::Error::PoolTimedOut
}

fn failed_join() -> tokio::task::JoinError {
    let rt = tokio::runtime::Builder::new_current_thread().build().unwrap();
    rt.block_on(async { tokio::spawn(async { panic!("verification task failed") }).await })
        .unwrap_err()
}

#[test]
fn seeded_store_scenario() {
    let hash = password_auth::generate_hash("correct-horse");
    let b = backend();

    let ok = b.authenticate(creds("alice", "correct-horse"), Ok(Some(alice(&hash))));
    let user = ok.unwrap().unwrap();
    assert_eq!(user.id, 1);
    assert_eq!(user.username, "alice");

    let wrong = b.authenticate(creds("alice", "wrong"), Ok(Some(alice(&hash))));
    assert!(matches!(wrong, Ok(None)));

    let unknown = b.authenticate(creds("bob", "anything"), Ok(None));
    assert!(matches!(unknown, Ok(None)));

    let found = b.get_user(1, Ok(Some(alice(&hash))));
    assert_eq!(found.unwrap().unwrap().id, 1);

    let missing = b.get_user(999, Ok(None));
    assert!(matches!(missing, Ok(None)));
}

#[test]
fn unknown_user_is_denied_not_an_error() {
    let r = backend().authenticate(creds("nobody", "whatever-pass"), Ok(None));
    assert!(matches!(r, Ok(None)));
}

#[test]
fn row_for_another_username_is_not_handed_out() {
    let hash = password_auth::generate_hash("correct-horse");
    let r = backend().authenticate(creds("mallory", "correct-horse"), Ok(Some(alice(&hash))));
    assert!(matches!(r, Ok(None)));
}

#[test]
fn repeated_attempts_agree() {
    let hash = password_auth::generate_hash("correct-horse");
    let b = backend();
    let first = b.authenticate(creds("alice", "correct-horse"), Ok(Some(alice(&hash))));
    let second = b.authenticate(creds("alice", "correct-horse"), Ok(Some(alice(&hash))));
    assert_eq!(first.unwrap().unwrap().id, second.unwrap().unwrap().id);
    let a = b.get_user(1, Ok(Some(alice(&hash))));
    let c = b.get_user(1, Ok(Some(alice(&hash))));
    assert_eq!(a.unwrap().unwrap().username, c.unwrap().unwrap().username);
}

#[test]
fn corrupted_stored_hash_is_denied() {
    let r = backend().authenticate(creds("alice", "correct-horse"), Ok(Some(alice("not-a-hash"))));
    assert!(matches!(r, Ok(None)));
}

#[test]
fn store_failure_is_a_database_error() {
    let b = backend();
    let r = b.authenticate(creds("alice", "correct-horse"), Err(store_failure()));
    assert!(matches!(r, Err(Error::Sqlx(sqlx::Error::PoolTimedOut))));
    let g = b.get_user(1, Err(store_failure()));
    assert!(matches!(g, Err(Error::Sqlx(sqlx::Error::PoolTimedOut))));
}

#[test]
fn get_user_skips_row_with_other_id() {
    let r = backend().get_user(2, Ok(Some(alice("x"))));
    assert!(matches!(r, Ok(None)));
}

#[test]
fn failed_verification_task_is_task_error() {
    let b = backend();
    let r = b.settle(Err(failed_join()));
    assert!(matches!(r, Err(Error::TaskJoin(_))));
    let kept = b.settle(Ok(Ok(None)));
    assert!(matches!(kept, Ok(None)));
}

#[test]
fn decoy_hash_parses_and_matches_nothing() {
    let r = password_auth::verify_password("correct-horse", DECOY_HASH);
    assert!(matches!(r, Err(password_auth::VerifyError::PasswordInvalid)));
    assert!(!password_auth::is_hash_obsolete(DECOY_HASH).unwrap());
}

#[test]
fn unknown_user_and_wrong_password_take_alike_long() {
    let hash = password_auth::generate_hash("correct-horse");
    let b = backend();
    let t0 = Instant::now();
    let wrong = b.authenticate(creds("alice", "wrong"), Ok(Some(alice(&hash))));
    let wrong_time = t0.elapsed();
    let t1 = Instant::now();
    let unknown = b.authenticate(creds("bob", "wrong"), Ok(None));
    let unknown_time = t1.elapsed();
    assert!(matches!(wrong, Ok(None)));
    assert!(matches!(unknown, Ok(None)));
    assert!(unknown_time * 4 >= wrong_time);
    assert!(wrong_time * 4 >= unknown_time);
}
