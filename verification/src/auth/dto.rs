//! What clients send and receive on the authentication routes.
use vstd::prelude::*;
use vstd::utf8::encode_utf8;
use crate::auth::error::AuthError;
use crate::text::{trim, trimmed, to_lowercase, lowercased, utf8_len_at_most};

verus! {

/// What `email_address::EmailAddress::is_valid` decides for an address.
pub uninterp spec fn email_address_valid(address: Seq<char>) -> bool;

/// `email_address::EmailAddress::is_valid`, under its default options.
#[verifier::external_body]
fn is_valid_email(address: &str) -> (r: bool)
    ensures
        r == email_address_valid(address@),
{
    email_address::EmailAddress::is_valid(address)
}

/// An email address and a password, as a client submits them.
#[derive(Debug, Clone, PartialEq, Eq)]
pub struct Credentials {
    pub email: String,
    pub password: String,
}

/// The canonical form of a submitted address: trimmed, then lowercased.
pub open spec fn normalized_email(email: Seq<char>) -> Seq<char> {
    lowercased(trimmed(email))
}

/// A normalised address is accepted when it is a valid address of at most 254 bytes.
pub open spec fn email_acceptable(email: Seq<char>) -> bool {
    encode_utf8(email).len() <= 254 && email_address_valid(email)
}

/// A password is accepted when it is not empty and takes at most 1024 bytes.
pub open spec fn password_acceptable(password: Seq<char>) -> bool {
    password.len() > 0 && encode_utf8(password).len() <= 1024
}

pub open spec fn invalid_email() -> AuthError {
    AuthError::InvalidInput { field: "email", message: "Invalid email address" }
}

pub open spec fn invalid_password() -> AuthError {
    AuthError::InvalidInput { field: "password", message: "Password must contain 1 to 1024 bytes" }
}

/// The error that refuses a submission, if any: the address is checked first.
pub open spec fn credentials_rejection(email: Seq<char>, password: Seq<char>) -> Option<AuthError> {
    if !email_acceptable(normalized_email(email)) {
        Some(invalid_email())
    } else if !password_acceptable(password) {
        Some(invalid_password())
    } else {
        None
    }
}

impl Credentials {
    /// Puts the address in canonical form and checks both fields; the
    /// password is kept as it was sent.
    pub fn normalize(self) -> (r: Result<Credentials, AuthError>)
        ensures
            r is Ok <==> credentials_rejection(self.email@, self.password@) is None,
            r matches Ok(c) ==> c.email@ == normalized_email(self.email@) && c.password
                == self.password,
            r matches Err(e) ==> credentials_rejection(self.email@, self.password@) == Some(e),
    {
        let trimmed_email = trim(self.email.as_str());
        let email = to_lowercase(trimmed_email.as_str());
        if !utf8_len_at_most(email.as_str(), 254) || !is_valid_email(email.as_str()) {
            return Err(AuthError::InvalidInput { field: "email", message: "Invalid email address" });
        }
        if self.password.as_str().is_empty() || !utf8_len_at_most(self.password.as_str(), 1024) {
            return Err(
                AuthError::InvalidInput {
                    field: "password",
                    message: "Password must contain 1 to 1024 bytes",
                },
            );
        }
        Ok(Credentials { email, password: self.password })
    }
}

/// A stored account: the row of the `users` table.
#[derive(Debug, Clone, PartialEq, Eq)]
pub struct UserRecord {
    pub id: u128,
    pub email: String,
    pub password_hash: String,
    pub created_at: i64,
}

/// The public fields of an account, as the API returns them.
#[derive(Debug, Clone, PartialEq, Eq)]
pub struct UserResponse {
    pub id: u128,
    pub email: String,
}

impl vstd::std_specs::convert::FromSpecImpl<UserRecord> for UserResponse {
    open spec fn obeys_from_spec() -> bool {
        true
    }

    open spec fn from_spec(v: UserRecord) -> UserResponse {
        UserResponse { id: v.id, email: v.email }
    }
}

impl From<UserRecord> for UserResponse {
    fn from(user: UserRecord) -> (r: UserResponse) {
        UserResponse { id: user.id, email: user.email }
    }
}

} // verus!
