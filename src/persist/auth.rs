use vstd::prelude::*;

use crate::models::User;
use sqlx::Error as DbError;

verus! {

/// Declares `sqlx::Error`, the driver's report of a failed query or
/// connection; carried through opaquely.
#[verifier::external_type_specification]
#[verifier::external_body]
pub struct ExDbError(DbError);

/// Declares `tokio::task::JoinError`, the report of a blocking task that was
/// cancelled or panicked; carried through opaquely.
#[verifier::external_type_specification]
#[verifier::external_body]
pub struct ExJoinError(tokio::task::JoinError);

/// Whether `password` verifies against the stored PHC hash `hash`: the hash
/// carries its algorithm, parameters and salt, so the answer depends on the
/// two strings alone.
pub uninterp spec fn password_verifies(password: Seq<char>, hash: Seq<char>) -> bool;

/// Relies on `password_auth::verify_password`: `Ok(())` exactly when the hash
/// parses and the password verifies against it; a mismatch and an unparsable
/// hash both count as "does not verify". Stored hashes are the service's
/// own; one whose cost parameters ask for more memory than the machine has
/// would make the call abort.
#[verifier::external_body]
fn verify_password(password: &str, hash: &str) -> (r: bool)
    ensures
        r == password_verifies(password@, hash@),
{
    password_auth::verify_password(password, hash).is_ok()
}

/// A well-formed Argon2id hash (default cost) that no password is known to
/// match. Verifying against it when the username is unknown costs as much as
/// verifying a real user's password, so the two denials take alike long.
pub const DECOY_HASH: &'static str =
    "$argon2id$v=19$m=19456,t=2,p=1$al5e+Cv3WW/R3gE0gRtgMg$aFAw5l4KK1rrOMn7wRGpSIvpYpqyPi8gLazDDmOAERM";

/// Login form fields: a username and a plaintext password.
#[derive(Debug, Clone)]
pub struct Credentials {
    /// Username
    pub username: String,
    /// Password
    pub password: String,
}

impl Credentials {
    /// Pairs a username with a password.
    pub fn new(username: String, password: String) -> (r: Credentials)
        ensures
            r.username@ == username@,
            r.password@ == password@,
    {
        Credentials { username, password }
    }
}

/// An error during auth: the decision could not be made, which is never the
/// same as a denial.
#[derive(Debug)]
pub enum Error {
    /// The user store could not answer
    Sqlx(DbError),
    /// The offloaded verification did not complete
    TaskJoin(tokio::task::JoinError),
}

/// What the user store answered for a username look-up.
pub type Lookup = Result<Option<User>, DbError>;

/// The outcome of an authentication attempt, given the password offered and
/// what the store answered for the username: the user exactly when one was
/// found whose stored hash the password verifies against.
pub open spec fn authentication_outcome(
    username: Seq<char>,
    password: Seq<char>,
    found: Result<Option<User>, DbError>,
) -> Result<Option<User>, Error> {
    match found {
        Err(e) => Err(Error::Sqlx(e)),
        Ok(None) => Ok(None),
        Ok(Some(u)) => if u.username@ == username && password_verifies(password, u.password@) {
            Ok(Some(u))
        } else {
            Ok(None)
        },
    }
}

/// The outcome of a look-up by identifier: the user exactly when the store
/// answered with a row that carries that identifier.
pub open spec fn lookup_outcome(
    user_id: i64,
    found: Result<Option<User>, DbError>,
) -> Result<Option<User>, Error> {
    match found {
        Err(e) => Err(Error::Sqlx(e)),
        Ok(None) => Ok(None),
        Ok(Some(u)) => if u.id == user_id {
            Ok(Some(u))
        } else {
            Ok(None)
        },
    }
}

/// An unknown username is denied, not an error: when the store finds no
/// user, the outcome is `Ok(None)` whatever the password.
pub proof fn lemma_unknown_user_denied(username: Seq<char>, password: Seq<char>)
    ensures
        authentication_outcome(username, password, Ok(None)) == Ok::<Option<User>, Error>(None),
{
}

/// A stored user who offers a password that verifies against their stored
/// hash is authenticated as exactly that user.
pub proof fn lemma_correct_password_admits(u: User, password: Seq<char>)
    requires
        password_verifies(password, u.password@),
    ensures
        authentication_outcome(u.username@, password, Ok(Some(u))) == Ok::<Option<User>, Error>(
            Some(u),
        ),
{
}

/// A stored user who offers a password that does not verify against their
/// stored hash is denied with `Ok(None)`.
pub proof fn lemma_wrong_password_denied(u: User, password: Seq<char>)
    requires
        !password_verifies(password, u.password@),
    ensures
        authentication_outcome(u.username@, password, Ok(Some(u))) == Ok::<Option<User>, Error>(
            None,
        ),
{
}

/// A look-up by an identifier that no user has yields `None`; one by the
/// identifier of the row the store returned yields that user.
pub proof fn lemma_get_user(user_id: i64, u: User)
    ensures
        lookup_outcome(user_id, Ok(None)) == Ok::<Option<User>, Error>(None),
        u.id == user_id ==> lookup_outcome(user_id, Ok(Some(u))) == Ok::<Option<User>, Error>(
            Some(u),
        ),
{
}

/// Deciding again on a decided answer changes nothing: feeding the outcome
/// of an authentication (or of a look-up by identifier) back in as the
/// store's answer gives the same outcome.
pub proof fn lemma_outcomes_idempotent(
    username: Seq<char>,
    password: Seq<char>,
    user_id: i64,
    found: Result<Option<User>, DbError>,
)
    ensures
        authentication_outcome(username, password, found) matches Ok(o) ==> authentication_outcome(
            username,
            password,
            Ok(o),
        ) == authentication_outcome(username, password, found),
        lookup_outcome(user_id, found) matches Ok(o) ==> lookup_outcome(user_id, Ok(o))
            == lookup_outcome(user_id, found),
{
}

/// A failure of the store surfaces as an `Sqlx` error carrying the failure,
/// never as a denial.
pub proof fn lemma_store_failure_is_error(
    username: Seq<char>,
    password: Seq<char>,
    user_id: i64,
    e: DbError,
)
    ensures
        authentication_outcome(username, password, Err(e)) == Err::<Option<User>, Error>(
            Error::Sqlx(e),
        ),
        lookup_outcome(user_id, Err(e)) == Err::<Option<User>, Error>(Error::Sqlx(e)),
{
}

/// Auth backend, over the connection pool `P` that the look-ups run on
/// (a Postgres pool in the service).
#[derive(Debug, Clone)]
pub struct Backend<P> {
    pool: P,
}

impl<P> Backend<P> {
    /// Creates a new auth backend, using the given pool
    pub fn new(pool: P) -> (r: Backend<P>)
        ensures
            r.pool() == pool,
    {
        Backend { pool }
    }

    /// The pool that the look-ups run on.
    pub closed spec fn pool(&self) -> P {
        self.pool
    }

    /// The pool that the look-ups run on.
    pub fn connection_pool(&self) -> (r: &P)
        ensures
            *r == self.pool(),
    {
        &self.pool
    }

    /// Decides an authentication attempt from what the store answered for
    /// `creds.username`. The password is verified in every case where the
    /// store answered: against the user's stored hash, or against
    /// [`DECOY_HASH`] when no such user exists, so that an unknown username
    /// and a wrong password cost the same. Meant to run off the
    /// request-serving executor.
    pub fn authenticate(&self, creds: Credentials, found: Lookup) -> (r: Result<Option<User>, Error>)
        ensures
            r == authentication_outcome(creds.username@, creds.password@, found),
    {
        match found {
            Err(e) => Err(Error::Sqlx(e)),
            Ok(None) => {
                let _ = verify_password(creds.password.as_str(), DECOY_HASH);
                Ok(None)
            },
            Ok(Some(u)) => {
                let same_name = u.username == creds.username;
                let verified = verify_password(creds.password.as_str(), u.password.as_str());
                if same_name && verified {
                    Ok(Some(u))
                } else {
                    Ok(None)
                }
            },
        }
    }

    /// Folds the outcome of the offloaded verification task into the result:
    /// a task that did not complete is a `TaskJoin` error, never a denial.
    pub fn settle(
        &self,
        joined: Result<Result<Option<User>, Error>, tokio::task::JoinError>,
    ) -> (r: Result<Option<User>, Error>)
        ensures
            match joined {
                Ok(inner) => r == inner,
                Err(e) => r == Err::<Option<User>, Error>(Error::TaskJoin(e)),
            },
    {
        match joined {
            Ok(inner) => inner,
            Err(e) => Err(Error::TaskJoin(e)),
        }
    }

    /// Decides a look-up by identifier from what the store answered for
    /// `user_id`: absent stays absent, and a row with another identifier is
    /// not handed out.
    pub fn get_user(&self, user_id: i64, found: Lookup) -> (r: Result<Option<User>, Error>)
        ensures
            r == lookup_outcome(user_id, found),
    {
        match found {
            Err(e) => Err(Error::Sqlx(e)),
            Ok(None) => Ok(None),
            Ok(Some(u)) => if u.id == user_id {
                Ok(Some(u))
            } else {
                Ok(None)
            },
        }
    }
}

} // verus!
