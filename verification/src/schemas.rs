//! The raw request bodies the boundary hands in, and their validation into
//! domain requests.
use crate::api_error::ApiError;
use crate::login_user::LoginUserRequest;
use crate::register_user::HashedUserPassword;
use crate::register_user::RegisterUserRequest;
use crate::security::password_matches;
use crate::text::trim_of;
use crate::user_email::UserEmail;
use crate::user_password::UserPassword;
use vstd::prelude::*;

verus! {

/// A raw registration body: e-mail and password as they arrived.
#[derive(Debug)]
pub struct RegisterUserSchema {
    pub email: String,
    pub password: String,
}

impl RegisterUserSchema {
    /// Validates both fields and hashes the password: a blank e-mail or
    /// password is unprocessable, naming the offending field; a hashing
    /// failure is an opaque internal error; on success the request carries
    /// the trimmed e-mail and a hash verifying against exactly the trimmed
    /// password.
    pub fn try_into_domain(self) -> (r: Result<RegisterUserRequest, ApiError>)
        ensures
            trim_of(self.email@).len() == 0 ==> (r matches Err(ApiError::UnprocessableEntity(m))
                && m@ == "Email cannot be empty"@),
            trim_of(self.email@).len() > 0 && trim_of(self.password@).len() == 0 ==> (r matches Err(
                ApiError::UnprocessableEntity(m),
            ) && m@ == "Password cannot be empty"@),
            trim_of(self.email@).len() > 0 && trim_of(self.password@).len() > 0 ==> (r is Ok || (
            r matches Err(ApiError::InternalServerError(m)) && m@ == "Something went wrong"@)),
            r matches Ok(req) ==> req.email@ == trim_of(self.email@) && (forall|q: Seq<char>|
                #[trigger] password_matches(q, req.hashed_password@) <==> q == trim_of(
                    self.password@,
                )),
    {
        let email = match UserEmail::new(self.email.as_str()) {
            Ok(e) => e,
            Err(e) => {
                return Err(ApiError::from_user_email_empty_error(e));
            },
        };
        let password = match UserPassword::new(self.password.as_str()) {
            Ok(p) => p,
            Err(e) => {
                return Err(ApiError::from_user_password_empty_error(e));
            },
        };
        let hashed_password = match HashedUserPassword::new(password) {
            Ok(h) => h,
            Err(e) => {
                return Err(ApiError::from_password_hashing_error(e));
            },
        };
        Ok(RegisterUserRequest::new(email, hashed_password))
    }
}

/// A raw login body: e-mail and password as they arrived.
#[derive(Debug)]
pub struct LoginUserSchema {
    pub email: String,
    pub password: String,
}

impl LoginUserSchema {
    /// Validates both fields: a blank e-mail or password is unprocessable,
    /// naming the offending field; on success the request carries both
    /// fields trimmed.
    pub fn try_into_domain(&self) -> (r: Result<LoginUserRequest, ApiError>)
        ensures
            r is Ok <==> trim_of(self.email@).len() > 0 && trim_of(self.password@).len() > 0,
            r matches Ok(req) ==> req.email@ == trim_of(self.email@) && req.password@ == trim_of(
                self.password@,
            ),
            trim_of(self.email@).len() == 0 ==> (r matches Err(ApiError::UnprocessableEntity(m))
                && m@ == "Email cannot be empty"@),
            trim_of(self.email@).len() > 0 && trim_of(self.password@).len() == 0 ==> (r matches Err(
                ApiError::UnprocessableEntity(m),
            ) && m@ == "Password cannot be empty"@),
    {
        let email = match UserEmail::new(self.email.as_str()) {
            Ok(e) => e,
            Err(e) => {
                return Err(ApiError::from_user_email_empty_error(e));
            },
        };
        let password = match UserPassword::new(self.password.as_str()) {
            Ok(p) => p,
            Err(e) => {
                return Err(ApiError::from_user_password_empty_error(e));
            },
        };
        Ok(LoginUserRequest::new(email, password))
    }
}

} // verus!
