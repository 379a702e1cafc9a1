use vstd::prelude::*;
use crate::errors::{HttpError, STATUS_BAD_REQUEST};
use crate::text::{all_username_chars, username_chars_ok};

verus! {

/// Whether the email validation of the validator crate accepts the
/// address: a function of the string alone.
pub uninterp spec fn is_valid_email(s: Seq<char>) -> bool;

/// Relies on validator::ValidateEmail::validate_email, whose result
/// depends only on the characters of the address; an empty string is
/// never accepted.
#[verifier::external_body]
pub fn email_is_valid(s: &str) -> (r: bool)
    ensures
        r == is_valid_email(s@),
        s@.len() == 0 ==> !r,
{
    validator::ValidateEmail::validate_email(&s)
}

/// A username is between 3 and 100 characters of ASCII letters, digits
/// and underscore.
pub open spec fn spec_username_ok(s: Seq<char>) -> bool {
    3 <= s.len() <= 100 && all_username_chars(s)
}

/// Request payload lengths accepted for a password field.
pub open spec fn spec_password_len_ok(s: Seq<char>) -> bool {
    8 <= s.len() <= 64
}

/// The request body of account creation.
pub struct CreateUserDto {
    pub username: String,
    pub email: String,
    pub password: String,
}

impl CreateUserDto {
    pub open spec fn spec_valid(self) -> bool {
        &&& spec_username_ok(self.username@)
        &&& is_valid_email(self.email@)
        &&& spec_password_len_ok(self.password@)
    }

    /// The message of the first field check that fails, in declaration
    /// order.
    pub open spec fn spec_error_message(self) -> Seq<char> {
        if !(3 <= self.username@.len() <= 100) {
            "username: The username must be between 3 and 100 characters"@
        } else if !all_username_chars(self.username@) {
            "username: Username contains invalid characters"@
        } else if !is_valid_email(self.email@) {
            "email: El correo electrónico es obligatorio"@
        } else {
            "password: Password must be between 8 and 64 characters"@
        }
    }

    /// Field-level validation, reported under the `validation` key.
    pub fn validate(&self) -> (r: Result<(), HttpError>)
        ensures
            r is Ok <==> self.spec_valid(),
            r matches Err(e) ==> e.is(STATUS_BAD_REQUEST, "validation"@, self.spec_error_message()),
    {
        let ulen = self.username.as_str().unicode_len();
        if !(3 <= ulen && ulen <= 100) {
            return Err(
                HttpError::errors("username: The username must be between 3 and 100 characters"),
            );
        }
        if !username_chars_ok(self.username.as_str()) {
            return Err(HttpError::errors("username: Username contains invalid characters"));
        }
        if !email_is_valid(self.email.as_str()) {
            return Err(HttpError::errors("email: El correo electrónico es obligatorio"));
        }
        let plen = self.password.as_str().unicode_len();
        if !(8 <= plen && plen <= 64) {
            return Err(HttpError::errors("password: Password must be between 8 and 64 characters"));
        }
        Ok(())
    }
}

/// The request body of an account update; only the supplied fields are
/// written.
pub struct UpdateUserDto {
    pub id: Option<i64>,
    pub username: Option<String>,
    pub email: Option<String>,
    pub permissions: Option<i64>,
}

impl UpdateUserDto {
    pub open spec fn spec_valid(self) -> bool {
        &&& match self.username {
            Some(u) => spec_username_ok(u@),
            None => true,
        }
        &&& match self.email {
            Some(e) => is_valid_email(e@),
            None => true,
        }
    }

    pub open spec fn spec_error_message(self) -> Seq<char> {
        if self.username matches Some(u) && !(3 <= u@.len() <= 100) {
            "username: The username must be between 3 and 100 characters"@
        } else if self.username matches Some(u) && !all_username_chars(u@) {
            "username: Username contains invalid characters"@
        } else {
            "email: The user mail is required"@
        }
    }

    pub fn validate(&self) -> (r: Result<(), HttpError>)
        ensures
            r is Ok <==> self.spec_valid(),
            r matches Err(e) ==> e.is(STATUS_BAD_REQUEST, "validation"@, self.spec_error_message()),
    {
        match &self.username {
            Some(u) => {
                let ulen = u.as_str().unicode_len();
                if !(3 <= ulen && ulen <= 100) {
                    return Err(
                        HttpError::errors(
                            "username: The username must be between 3 and 100 characters",
                        ),
                    );
                }
                if !username_chars_ok(u.as_str()) {
                    return Err(
                        HttpError::errors("username: Username contains invalid characters"),
                    );
                }
            },
            None => {},
        }
        match &self.email {
            Some(e) => {
                if !email_is_valid(e.as_str()) {
                    return Err(HttpError::errors("email: The user mail is required"));
                }
            },
            None => {},
        }
        Ok(())
    }
}

/// The request body of a password change: the previous password for
/// re-verification and the replacement.
pub struct ChangePasswordDto {
    pub previous_password: String,
    pub new_password: String,
}

impl ChangePasswordDto {
    pub open spec fn spec_valid(self) -> bool {
        spec_password_len_ok(self.new_password@)
    }

    pub fn validate(&self) -> (r: Result<(), HttpError>)
        ensures
            r is Ok <==> self.spec_valid(),
            r matches Err(e) ==> e.is(
                STATUS_BAD_REQUEST,
                "validation"@,
                "new_password: La nueva contraseña debe tener entre 8 y 64 caracteres"@,
            ),
    {
        let plen = self.new_password.as_str().unicode_len();
        if !(8 <= plen && plen <= 64) {
            return Err(
                HttpError::errors(
                    "new_password: La nueva contraseña debe tener entre 8 y 64 caracteres",
                ),
            );
        }
        Ok(())
    }
}

/// The request body of a login attempt.
pub struct LoginRequest {
    pub email: String,
    pub password: String,
}

impl LoginRequest {
    pub open spec fn spec_valid(self) -> bool {
        &&& is_valid_email(self.email@)
        &&& self.email@.len() <= 100
        &&& spec_password_len_ok(self.password@)
    }

    pub open spec fn spec_error_message(self) -> Seq<char> {
        if !is_valid_email(self.email@) {
            "email: El email es obligatorio"@
        } else if !(self.email@.len() <= 100) {
            "email: La longitud máxima del email es de 100 caracteres"@
        } else {
            "password: Password must be between 8 and 64 characters"@
        }
    }

    pub fn validate(&self) -> (r: Result<(), HttpError>)
        ensures
            r is Ok <==> self.spec_valid(),
            r matches Err(e) ==> e.is(STATUS_BAD_REQUEST, "validation"@, self.spec_error_message()),
    {
        if !email_is_valid(self.email.as_str()) {
            return Err(HttpError::errors("email: El email es obligatorio"));
        }
        let elen = self.email.as_str().unicode_len();
        if !(elen <= 100) {
            return Err(
                HttpError::errors("email: La longitud máxima del email es de 100 caracteres"),
            );
        }
        let plen = self.password.as_str().unicode_len();
        if !(8 <= plen && plen <= 64) {
            return Err(HttpError::errors("password: Password must be between 8 and 64 characters"));
        }
        Ok(())
    }
}

/// The response body of a successful login.
pub struct LoginResponse {
    pub token: String,
}

} // verus!
