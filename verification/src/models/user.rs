//! Registration: when what a new user hands in is accepted.
use vstd::prelude::*;
use vstd::string::*;
use vstd::utf8::encode_utf8;
use crate::text::has_char;

verus! {

/// Why a registration is turned down. Where several reasons hold, the first
/// in this order is given.
#[derive(Debug, Clone, Copy, PartialEq, Eq, Structural)]
pub enum RegistrationError {
    UsernameEmpty,
    UsernameLength,
    PasswordEmpty,
    PasswordTooShort,
    EmailInvalid,
}

/// The least and the greatest length of a username, in bytes.
pub const USERNAME_MIN: usize = 3;
pub const USERNAME_MAX: usize = 50;
/// The least length of a password, in bytes.
pub const PASSWORD_MIN: usize = 8;

/// The verdict on a registration: the first rule that it breaks, if any.
/// Lengths are counted in bytes of UTF-8.
pub open spec fn registration_verdict(
    username: Seq<char>,
    password: Seq<char>,
    email: Seq<char>,
) -> Result<(), RegistrationError> {
    let username_bytes = encode_utf8(username).len();
    let password_bytes = encode_utf8(password).len();
    if username_bytes == 0 {
        Err(RegistrationError::UsernameEmpty)
    } else if username_bytes < USERNAME_MIN || username_bytes > USERNAME_MAX {
        Err(RegistrationError::UsernameLength)
    } else if password_bytes == 0 {
        Err(RegistrationError::PasswordEmpty)
    } else if password_bytes < PASSWORD_MIN {
        Err(RegistrationError::PasswordTooShort)
    } else if email.len() == 0 || !email.contains('@') {
        Err(RegistrationError::EmailInvalid)
    } else {
        Ok(())
    }
}

/// The sentence that tells a client why a registration was turned down.
pub open spec fn registration_message(error: RegistrationError) -> Seq<char> {
    match error {
        RegistrationError::UsernameEmpty => "Username cannot be empty"@,
        RegistrationError::UsernameLength => "Username must be between 3 and 50 characters"@,
        RegistrationError::PasswordEmpty => "Password cannot be empty"@,
        RegistrationError::PasswordTooShort => "Password must be at least 8 characters long"@,
        RegistrationError::EmailInvalid => "Valid email address is required"@,
    }
}

impl RegistrationError {
    /// The sentence that tells a client what was wrong.
    pub fn message(&self) -> (sentence: &'static str)
        ensures
            sentence@ == registration_message(*self),
    {
        match self {
            RegistrationError::UsernameEmpty => "Username cannot be empty",
            RegistrationError::UsernameLength => "Username must be between 3 and 50 characters",
            RegistrationError::PasswordEmpty => "Password cannot be empty",
            RegistrationError::PasswordTooShort => "Password must be at least 8 characters long",
            RegistrationError::EmailInvalid => "Valid email address is required",
        }
    }
}

/// Checks a registration before anything is stored. A username has 3 to 50
/// bytes, a password at least 8, and an email address holds an `@`.
pub fn validate_registration(username: &str, password: &str, email: &str) -> (verdict: Result<(), RegistrationError>)
    ensures
        verdict == registration_verdict(username@, password@, email@),
{
    let username_bytes: usize = username.as_bytes().len();
    let password_bytes: usize = password.as_bytes().len();
    if username_bytes == 0 {
        Err(RegistrationError::UsernameEmpty)
    } else if username_bytes < USERNAME_MIN || username_bytes > USERNAME_MAX {
        Err(RegistrationError::UsernameLength)
    } else if password_bytes == 0 {
        Err(RegistrationError::PasswordEmpty)
    } else if password_bytes < PASSWORD_MIN {
        Err(RegistrationError::PasswordTooShort)
    } else if email.is_empty() || !has_char(email, '@') {
        Err(RegistrationError::EmailInvalid)
    } else {
        Ok(())
    }
}

} // verus!
