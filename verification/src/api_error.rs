//! The boundary-facing error: each domain failure mapped to the one of
//! three transport classes it should surface as, with the caller-visible
//! message fixed here. Only this type ever reaches the boundary layer;
//! repository and cache errors never do.
use crate::auth::AuthorizationError;
use crate::login_user::LoginUserError;
use crate::refresh_token::RefreshTokenError;
use crate::register_user::PasswordHashingError;
use crate::register_user::RegisterUserError;
use crate::user_email::UserEmailEmptyError;
use crate::user_password::UserPasswordEmptyError;
use vstd::prelude::*;
use vstd::string::StringExecFns;

verus! {

/// The three caller-visible failure classes: an internal fault, an
/// unprocessable request, and a refused authorization. Each carries the
/// message shown to the caller.
#[derive(Debug)]
pub enum ApiError {
    InternalServerError(String),
    UnprocessableEntity(String),
    Unauthorized(String),
}

impl ApiError {
    /// The caller-visible message.
    pub fn message(&self) -> (r: &str)
        ensures
            self matches ApiError::InternalServerError(m) ==> r@ == m@,
            self matches ApiError::UnprocessableEntity(m) ==> r@ == m@,
            self matches ApiError::Unauthorized(m) ==> r@ == m@,
    {
        match self {
            ApiError::InternalServerError(msg) => msg.as_str(),
            ApiError::UnprocessableEntity(msg) => msg.as_str(),
            ApiError::Unauthorized(msg) => msg.as_str(),
        }
    }

    /// A duplicate registration is unprocessable, naming the e-mail;
    /// anything else is an opaque internal error.
    pub fn from_register_user_error(value: &RegisterUserError) -> (r: Self)
        ensures
            value matches RegisterUserError::Duplicate { email } ==> (r matches
                ApiError::UnprocessableEntity(m) && m@ == "User with email "@ + email@
                + " already exists"@),
            value is Unknown ==> (r matches ApiError::InternalServerError(m) && m@
                == "Internal Server Error"@),
    {
        match value {
            RegisterUserError::Duplicate { email } => {
                let mut m = String::new();
                m.append("User with email ");
                m.append(email.get());
                m.append(" already exists");
                ApiError::UnprocessableEntity(m)
            },
            RegisterUserError::Unknown => {
                ApiError::InternalServerError("Internal Server Error".to_owned())
            },
        }
    }

    /// A refused authorization keeps its reason; an internal fault stays
    /// opaque.
    pub fn from_authorization_error(value: AuthorizationError) -> (r: Self)
        ensures
            value matches AuthorizationError::InvalidCredentials { reason } ==> (r matches
                ApiError::Unauthorized(m) && m@ == reason@),
            value is Unknown ==> (r matches ApiError::InternalServerError(m) && m@
                == "Internal Server Error"@),
    {
        match value {
            AuthorizationError::InvalidCredentials { reason } => ApiError::Unauthorized(reason),
            AuthorizationError::Unknown => {
                ApiError::InternalServerError("Internal Server Error".to_owned())
            },
        }
    }

    /// A refused refresh keeps its reason; a missing token is its own
    /// refusal; an internal fault stays opaque.
    pub fn from_refresh_token_error(value: RefreshTokenError) -> (r: Self)
        ensures
            value matches RefreshTokenError::InvalidCredentials { reason } ==> (r matches
                ApiError::Unauthorized(m) && m@ == reason@),
            value is MissingCredentials ==> (r matches ApiError::Unauthorized(m) && m@
                == "Missing credentials"@),
            value is Unknown ==> (r matches ApiError::InternalServerError(m) && m@
                == "Internal Server Error"@),
    {
        match value {
            RefreshTokenError::InvalidCredentials { reason } => ApiError::Unauthorized(reason),
            RefreshTokenError::MissingCredentials => {
                ApiError::Unauthorized("Missing credentials".to_owned())
            },
            RefreshTokenError::Unknown => {
                ApiError::InternalServerError("Internal Server Error".to_owned())
            },
        }
    }

    /// An empty e-mail is unprocessable.
    pub fn from_user_email_empty_error(value: UserEmailEmptyError) -> (r: Self)
        ensures
            r matches ApiError::UnprocessableEntity(m) && m@ == "Email cannot be empty"@,
    {
        let _ = value;
        ApiError::UnprocessableEntity("Email cannot be empty".to_owned())
    }

    /// An empty password is unprocessable.
    pub fn from_user_password_empty_error(value: UserPasswordEmptyError) -> (r: Self)
        ensures
            r matches ApiError::UnprocessableEntity(m) && m@ == "Password cannot be empty"@,
    {
        let _ = value;
        ApiError::UnprocessableEntity("Password cannot be empty".to_owned())
    }

    /// A hashing-primitive failure is an opaque internal error.
    pub fn from_password_hashing_error(value: PasswordHashingError) -> (r: Self)
        ensures
            r matches ApiError::InternalServerError(m) && m@ == "Something went wrong"@,
    {
        let _ = value;
        ApiError::InternalServerError("Something went wrong".to_owned())
    }

    /// A failed login is one generic refusal — never which part was wrong;
    /// an internal fault stays opaque.
    pub fn from_login_user_error(value: &LoginUserError) -> (r: Self)
        ensures
            value is InvalidCredentials ==> (r matches ApiError::Unauthorized(m) && m@
                == "Invalid credentials"@),
            value is Unknown ==> (r matches ApiError::InternalServerError(m) && m@
                == "Internal Server Error"@),
    {
        match value {
            LoginUserError::InvalidCredentials => {
                ApiError::Unauthorized("Invalid credentials".to_owned())
            },
            LoginUserError::Unknown => {
                ApiError::InternalServerError("Internal Server Error".to_owned())
            },
        }
    }
}

} // verus!
