//! The decisions of registration and login, between the database lookups
//! and writes that the server performs.
use vstd::prelude::*;
use vstd::utf8::encode_utf8;
use crate::auth::dto::{Credentials, UserRecord, normalized_email, credentials_rejection};
use crate::auth::error::AuthError;

verus! {

/// What `password_auth::verify_password` decides for a password and a stored hash.
pub uninterp spec fn password_verifies(password: Seq<u8>, hash: Seq<char>) -> bool;

/// `password_auth::verify_password`, reduced to whether it returned `Ok`.
#[verifier::external_body]
fn verify_password(password: &[u8], hash: &str) -> (r: bool)
    ensures
        r == password_verifies(password@, hash@),
{
    password_auth::verify_password(password, hash).is_ok()
}

/// A PHC string of the Argon2id algorithm: it begins `$argon2id$`.
pub open spec fn is_argon2id_phc(hash: Seq<char>) -> bool {
    hash.len() >= 10 && hash.take(10) == "$argon2id$"@
}

/// `password_auth::generate_hash`: an Argon2id hash of `password` under a
/// fresh random salt. Claims that the hash verifies against the same
/// password, as the crate's own round-trip test shows, and that it is the PHC
/// string of Argon2id (argon2's default algorithm, written `$argon2id$...` by
/// password-hash); the salt, and so the rest of the text, differ from call to call. The crate panics where Argon2 refuses the
/// input (a password over `0xFFFFFFFF` bytes, excluded here) or where the
/// system's random source fails.
#[verifier::external_body]
fn generate_hash(password: &[u8]) -> (r: String)
    requires
        password@.len() <= 0xFFFF_FFFF,
    ensures
        password_verifies(password@, r@),
        is_argon2id_phc(r@),
{
    password_auth::generate_hash(password)
}

/// A new account, ready to be stored.
#[derive(Debug, Clone, PartialEq, Eq)]
pub struct NewUser {
    pub email: String,
    pub password_hash: String,
}

/// What the database answered to an insertion.
#[derive(Debug, Clone, PartialEq, Eq)]
pub enum InsertOutcome {
    Inserted(UserRecord),
    /// The unique constraint on the address refused the row.
    UniqueViolation,
    /// Any other failure, described.
    Failed(String),
}

/// The fewest characters a new password may hold.
pub const MIN_PASSWORD_CHARS: usize = 15;

pub open spec fn short_password() -> AuthError {
    AuthError::InvalidInput {
        field: "password",
        message: "Password must contain at least 15 characters",
    }
}

/// The error that refuses a registration, if any.
pub open spec fn registration_rejection(email: Seq<char>, password: Seq<char>) -> Option<AuthError> {
    match credentials_rejection(email, password) {
        Some(e) => Some(e),
        None => if password.len() < 15 {
            Some(short_password())
        } else {
            None
        },
    }
}

/// `user` is what registering `credentials` prepares: the canonical address,
/// and an Argon2id hash that the submitted password verifies against.
pub open spec fn prepared_from(credentials: Credentials, user: NewUser) -> bool {
    &&& registration_rejection(credentials.email@, credentials.password@) is None
    &&& user.email@ == normalized_email(credentials.email@)
    &&& password_verifies(encode_utf8(credentials.password@), user.password_hash@)
    &&& is_argon2id_phc(user.password_hash@)
}

/// Who a login with `password` authenticates, given the account found for its address.
pub open spec fn authenticated(password: Seq<char>, user: Option<UserRecord>) -> Option<UserRecord> {
    match user {
        Some(u) => if password_verifies(encode_utf8(password), u.password_hash@) {
            Some(u)
        } else {
            None
        },
        None => None,
    }
}

/// The answer to a login, given what authentication returned.
pub open spec fn login_result(attempt: Result<Option<UserRecord>, AuthError>) -> Result<UserRecord, AuthError> {
    match attempt {
        Err(_) => Err(AuthError::Internal),
        Ok(None) => Err(AuthError::InvalidCredentials),
        Ok(Some(u)) => Ok(u),
    }
}

/// Account handling. Logins for unknown addresses are checked against a
/// hash of a random secret, so that they take as long as the others.
pub struct AuthService {
    dummy_hash: String,
}

impl AuthService {
    /// The hash that logins for unknown addresses are checked against.
    pub closed spec fn dummy_hash(&self) -> Seq<char> {
        self.dummy_hash@
    }

    /// A service whose stand-in hash is a hash of `secret`.
    pub fn new(secret: &[u8]) -> (r: AuthService)
        requires
            secret@.len() <= 0xFFFF_FFFF,
        ensures
            password_verifies(secret@, r.dummy_hash()),
            is_argon2id_phc(r.dummy_hash()),
    {
        AuthService { dummy_hash: generate_hash(secret) }
    }

    /// Checks a registration and prepares the account to be stored: the
    /// credentials must pass `Credentials::normalize` and the password must
    /// hold at least 15 characters.
    pub fn register(&self, credentials: Credentials) -> (r: Result<NewUser, AuthError>)
        ensures
            r is Ok <==> registration_rejection(credentials.email@, credentials.password@) is None,
            r matches Ok(u) ==> prepared_from(credentials, u),
            r matches Err(e) ==> registration_rejection(credentials.email@, credentials.password@)
                == Some(e),
    {
        let ghost submitted = credentials;
        let credentials = credentials.normalize()?;
        if credentials.password.as_str().unicode_len() < MIN_PASSWORD_CHARS {
            return Err(
                AuthError::InvalidInput {
                    field: "password",
                    message: "Password must contain at least 15 characters",
                },
            );
        }
        let password_hash = generate_hash(credentials.password.as_str().as_bytes());
        let user = NewUser { email: credentials.email, password_hash };
        assert(prepared_from(submitted, user));
        Ok(user)
    }

    /// The answer to storing a new account: the stored account, or
    /// `EmailTaken` where the address is already registered.
    pub fn registration_result(outcome: InsertOutcome) -> (r: Result<UserRecord, AuthError>)
        ensures
            r == match outcome {
                InsertOutcome::Inserted(u) => Ok(u),
                InsertOutcome::UniqueViolation => Err(AuthError::EmailTaken),
                InsertOutcome::Failed(detail) => Err(AuthError::Database(detail)),
            },
    {
        match outcome {
            InsertOutcome::Inserted(u) => Ok(u),
            InsertOutcome::UniqueViolation => Err(AuthError::EmailTaken),
            InsertOutcome::Failed(detail) => Err(AuthError::Database(detail)),
        }
    }

    /// The hash a login is checked against: the account's, or the stand-in.
    pub fn hash_to_check<'a>(&'a self, user: &'a Option<UserRecord>) -> (r: &'a str)
        ensures
            r@ == match user {
                Some(u) => u.password_hash@,
                None => self.dummy_hash(),
            },
    {
        match user {
            Some(u) => u.password_hash.as_str(),
            None => self.dummy_hash.as_str(),
        }
    }

    /// Authenticates `password` against the account found for the submitted
    /// address: the account where the password verifies against its hash.
    /// The password is verified exactly once whether or not an account was
    /// found, against the stand-in hash where none was, so that an unknown
    /// address costs the same work as a known one; the second component is
    /// what that verification decided.
    pub fn authenticate(&self, password: &str, user: Option<UserRecord>) -> (r: (
        Option<UserRecord>,
        bool,
    ))
        ensures
            r.0 == authenticated(password@, user),
            r.1 == password_verifies(
                encode_utf8(password@),
                match user {
                    Some(u) => u.password_hash@,
                    None => self.dummy_hash(),
                },
            ),
    {
        let valid = verify_password(password.as_bytes(), self.hash_to_check(&user));
        let found = match user {
            Some(u) => if valid {
                Some(u)
            } else {
                None
            },
            None => None,
        };
        (found, valid)
    }
}

/// The answer to a login: a failure of the authentication backend is an
/// internal error, and no account is `InvalidCredentials`.
pub fn login_outcome(attempt: Result<Option<UserRecord>, AuthError>) -> (r: Result<UserRecord, AuthError>)
    ensures
        r == login_result(attempt),
{
    match attempt {
        Err(_) => Err(AuthError::Internal),
        Ok(None) => Err(AuthError::InvalidCredentials),
        Ok(Some(u)) => Ok(u),
    }
}

/// The signed-in user of a request: `None` where the session layer is
/// missing (an internal error), `Some(None)` where nobody is signed in.
pub fn current_user(session: Option<Option<UserRecord>>) -> (r: Result<UserRecord, AuthError>)
    ensures
        r == match session {
            None => Err(AuthError::Internal),
            Some(None) => Err(AuthError::Unauthorized),
            Some(Some(u)) => Ok(u),
        },
{
    match session {
        None => Err(AuthError::Internal),
        Some(None) => Err(AuthError::Unauthorized),
        Some(Some(u)) => Ok(u),
    }
}

} // verus!
