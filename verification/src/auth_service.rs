//! The auth orchestrator: credential verification, token issuance, session
//! bookkeeping and revocation, coordinated over the credential repository,
//! the session cache and the token codec.
//!
//! Each operation is a pipeline over those parts with no shared mutable
//! state beyond them. Per token identifier the session lifecycle is:
//! issued and recorded, active while its record is present and unexpired,
//! and revoked or expired — terminally — once the record is deleted or its
//! expiry passes.
use crate::auth::AuthRequest;
use crate::auth::AuthorizationError;
use crate::auth_middleware::AuthMiddleware;
use crate::config::Config;
use crate::jwt::generate_jwt;
use crate::jwt::verify_jwt;
use crate::login_response::LoginResponse;
use crate::login_user::LoginUserError;
use crate::login_user::LoginUserRequest;
use crate::logout::LogoutRequest;
use crate::logout::LogoutResponse;
use crate::refresh_token::RefreshRequest;
use crate::refresh_token::RefreshResponse;
use crate::refresh_token::RefreshTokenError;
use crate::register_user::RegisterUserError;
use crate::register_user::RegisterUserRequest;
use crate::security::is_valid;
use crate::security::password_matches;
use crate::session_cache::expiry_at;
use crate::session_cache::expiry_representable;
use crate::session_cache::session_active;
use crate::session_cache::SessionCache;
use crate::session_cache::SessionEntry;
use crate::system::current_timestamp;
use crate::text::lower_seq;
use crate::token::CacheToken;
use crate::token::TokenDetails;
use crate::user::FilteredUser;
use crate::user::UserId;
use crate::user::UserView;
use crate::user_store::has_email;
use crate::user_store::has_id;
use crate::user_store::store_wf;
use crate::user_store::user_with_email;
use crate::user_store::user_with_id;
use crate::user_store::UserStore;
use vstd::prelude::*;

verus! {

/// Whether a login for `email` with `password` is entitled to succeed
/// against `users`: a record exists under the normalised e-mail and the
/// password verifies against its stored hash. Everything that falsifies
/// this — unknown address or wrong password alike — is one and the same
/// credential failure.
pub open spec fn login_auth_ok(
    users: Seq<UserView>,
    email: Seq<char>,
    password: Seq<char>,
) -> bool {
    &&& has_email(users, lower_seq(email))
    &&& password_matches(password, user_with_email(users, lower_seq(email)).password)
}

/// The authentication service: the credential repository, the session
/// cache, and the configuration holding key material and token lifetimes.
#[derive(Debug)]
pub struct Service {
    pub repo: UserStore,
    pub cache: SessionCache,
    pub config: Config,
}

impl Service {
    /// The service is well-formed when its repository is.
    pub open spec fn wf(&self) -> bool {
        self.repo.wf()
    }

    /// Registers a new user: the repository performs the duplicate check
    /// and the insertion; its errors are translated so that nothing
    /// repository-specific leaks to the caller.
    pub fn register(&mut self, request: &RegisterUserRequest) -> (r: Result<
        FilteredUser,
        RegisterUserError,
    >)
        requires
            old(self).wf(),
        ensures
            final(self).wf(),
            final(self).cache@ == old(self).cache@,
            final(self).config == old(self).config,
            (r matches Err(RegisterUserError::Duplicate { .. })) <==> has_email(
                old(self).repo@,
                lower_seq(request.email@),
            ),
            r matches Err(RegisterUserError::Duplicate { email }) ==> email@ == request.email@,
            r is Err ==> final(self).repo@ == old(self).repo@,
            r matches Ok(fu) ==> !has_email(old(self).repo@, lower_seq(request.email@)) && fu@.email
                == lower_seq(request.email@) && final(self).repo@ == old(self).repo@.push(
                UserView {
                    id: fu.id,
                    email: lower_seq(request.email@),
                    password: request.hashed_password@,
                    created_at: fu@.created_at,
                    updated_at: fu@.updated_at,
                },
            ),
    {
        match self.repo.register(request) {
            Ok(fu) => Ok(fu),
            Err(e) => Err(RegisterUserError::from_repository_error(e)),
        }
    }

    /// Logs a user in: fetches the record under the normalised e-mail,
    /// verifies the password, issues an access and a refresh token under
    /// their distinct private keys, and records both sessions together.
    ///
    /// `InvalidCredentials` is returned exactly when the credential check
    /// fails, whether the address is unknown or the password wrong — the
    /// two cases are indistinguishable to the caller. On any failure the
    /// cache is untouched: a token is never handed out, nor a session
    /// half-recorded, unless the whole login succeeds.
    pub fn login(&mut self, request: &LoginUserRequest) -> (r: Result<
        LoginResponse,
        LoginUserError,
    >)
        requires
            old(self).wf(),
        ensures
            final(self).wf(),
            final(self).repo@ == old(self).repo@,
            final(self).config == old(self).config,
            (r matches Err(LoginUserError::InvalidCredentials)) <==> !login_auth_ok(
                old(self).repo@,
                request.email@,
                request.password@,
            ),
            r is Err ==> final(self).cache@ == old(self).cache@,
            r matches Ok(resp) ==> login_auth_ok(old(self).repo@, request.email@, request.password@)
                && resp.access_token_max_age == old(self).config.access_token_max_age
                && resp.refresh_token_max_age == old(self).config.refresh_token_max_age && (exists|
                access_tid: u128,
                refresh_tid: u128,
                now: i64,
            |
                expiry_representable(now, old(self).config.access_token_max_age)
                    && expiry_representable(now, old(self).config.refresh_token_max_age)
                    && final(self).cache@ == #[trigger] old(self).cache@.insert(
                    access_tid,
                    SessionEntry {
                        user_id: user_with_email(
                            old(self).repo@,
                            lower_seq(request.email@),
                        ).id,
                        expires_at: expiry_at(now, old(self).config.access_token_max_age) as i64,
                    },
                ).insert(
                    refresh_tid,
                    SessionEntry {
                        user_id: user_with_email(
                            old(self).repo@,
                            lower_seq(request.email@),
                        ).id,
                        expires_at: expiry_at(now, old(self).config.refresh_token_max_age) as i64,
                    },
                )),
    {
        let user = match self.repo.login(request) {
            Ok(u) => u,
            Err(e) => {
                return Err(LoginUserError::from_repository_error(e));
            },
        };
        if !is_valid(request.password.get(), user.password.as_str()) {
            return Err(LoginUserError::InvalidCredentials);
        }
        let access_token_details = match generate_jwt(
            user.id,
            self.config.access_token_max_age,
            self.config.access_token_private_key.as_str(),
        ) {
            Ok(d) => d,
            Err(_) => {
                return Err(LoginUserError::Unknown);
            },
        };
        let refresh_token_details = match generate_jwt(
            user.id,
            self.config.refresh_token_max_age,
            self.config.refresh_token_private_key.as_str(),
        ) {
            Ok(d) => d,
            Err(_) => {
                return Err(LoginUserError::Unknown);
            },
        };
        let now = current_timestamp();
        match self.cache.save_tokens_data(
            &CacheToken::new(
                access_token_details.token_uuid,
                access_token_details.user_id,
                self.config.access_token_max_age,
            ),
            &CacheToken::new(
                refresh_token_details.token_uuid,
                refresh_token_details.user_id,
                self.config.refresh_token_max_age,
            ),
            now,
        ) {
            Ok(_) => {},
            Err(_) => {
                return Err(LoginUserError::Unknown);
            },
        }
        let access_token = match access_token_details.token {
            Some(t) => t,
            None => {
                return Err(LoginUserError::Unknown);
            },
        };
        let refresh_token = match refresh_token_details.token {
            Some(t) => t,
            None => {
                return Err(LoginUserError::Unknown);
            },
        };
        proof {
            let key = lower_seq(request.email@);
            let uid = user_with_email(old(self).repo@, key).id;
            assert(user.id == uid);
            assert(self.cache@ == old(self).cache@.insert(
                access_token_details.token_uuid,
                SessionEntry {
                    user_id: uid,
                    expires_at: crate::session_cache::expiry_at(
                        now,
                        self.config.access_token_max_age,
                    ) as i64,
                },
            ).insert(
                refresh_token_details.token_uuid,
                SessionEntry {
                    user_id: uid,
                    expires_at: crate::session_cache::expiry_at(
                        now,
                        self.config.refresh_token_max_age,
                    ) as i64,
                },
            ));
        }
        Ok(
            LoginResponse {
                access_token,
                access_token_max_age: self.config.access_token_max_age,
                refresh_token,
                refresh_token_max_age: self.config.refresh_token_max_age,
            },
        )
    }

    /// The session-authority decision behind authentication, verified for
    /// every possible codec outcome: given the identifiers a verified
    /// access token carried, succeed exactly when that token's session is
    /// active for that user at `now` and the user still exists — and then
    /// hand back that user and the token identifier.
    pub fn authenticate_decided(&self, details: &TokenDetails, now: i64) -> (r: Result<
        AuthMiddleware,
        AuthorizationError,
    >)
        requires
            self.wf(),
        ensures
            r is Ok <==> session_active(self.cache@, details.token_uuid, details.user_id, now)
                && has_id(self.repo@, details.user_id),
            r matches Ok(m) ==> m.user@ == user_with_id(self.repo@, details.user_id)
                && m.access_token_uuid == details.token_uuid,
            r is Err ==> r matches Err(AuthorizationError::InvalidCredentials { .. }),
    {
        match self.cache.verify_active_session(details, now) {
            Ok(_) => {},
            Err(e) => {
                return Err(AuthorizationError::from_cache_error(e));
            },
        }
        let user = match self.repo.fetch_user_by_id(&UserId::new(details.user_id)) {
            Ok(u) => u,
            Err(e) => {
                return Err(AuthorizationError::from_repository_error(e));
            },
        };
        Ok(AuthMiddleware::new(user, details.token_uuid))
    }

    /// Authenticates a request from its raw access token: the codec
    /// verifies signature and expiry, and the session decision does the
    /// rest. A failed verification is the same undistinguished credential
    /// failure as a revoked session. A returned identity always denotes an
    /// existing user with a session record of that token held by them.
    pub fn auth(&self, request: &AuthRequest) -> (r: Result<AuthMiddleware, AuthorizationError>)
        requires
            self.wf(),
        ensures
            r matches Ok(m) ==> has_id(self.repo@, m.user.id) && m.user@ == user_with_id(
                self.repo@,
                m.user.id,
            ) && (exists|now: i64|
                session_active(self.cache@, m.access_token_uuid, m.user.id, now)),
            r is Err ==> r matches Err(AuthorizationError::InvalidCredentials { .. }),
    {
        let details = match verify_jwt(
            self.config.access_token_public_key.as_str(),
            request.access_token.get(),
        ) {
            Ok(d) => d,
            Err(_) => {
                return Err(
                    AuthorizationError::InvalidCredentials {
                        reason: "Access token no longer valid".to_owned(),
                    },
                );
            },
        };
        let now = current_timestamp();
        let result = self.authenticate_decided(&details, now);
        proof {
            if result is Ok {
                let m = result->Ok_0;
                assert(user_with_id(self.repo@, details.user_id).id == details.user_id);
                assert(session_active(self.cache@, m.access_token_uuid, m.user.id, now));
            }
        }
        result
    }

    /// Logs out: deletes the access token's session record, making the
    /// token unusable no matter its signature or expiry. Idempotent —
    /// deleting an already-absent record is still a success.
    pub fn logout(&mut self, request: &LogoutRequest) -> (r: Result<
        LogoutResponse,
        AuthorizationError,
    >)
        requires
            old(self).wf(),
        ensures
            final(self).wf(),
            final(self).repo@ == old(self).repo@,
            final(self).config == old(self).config,
            final(self).cache@ == old(self).cache@.remove(request.token_id()),
            r is Ok,
            r matches Ok(resp) ==> resp@ == "User logged out"@,
    {
        match self.cache.delete_token(request.get_uuid()) {
            Ok(_) => {},
            Err(e) => {
                return Err(AuthorizationError::from_cache_error(e));
            },
        }
        Ok(LogoutResponse::new("User logged out"))
    }

    /// The session-authority decision behind a refresh, verified for every
    /// possible codec outcome: given the identifiers a verified refresh
    /// token carried, it fails as a credential failure exactly when that
    /// token's session is inactive at `now` or the user is gone; otherwise
    /// it issues and records a new access token for that user, or reports
    /// an internal fault leaving the cache untouched.
    pub fn refresh_decided(&mut self, details: &TokenDetails, now: i64) -> (r: Result<
        RefreshResponse,
        RefreshTokenError,
    >)
        requires
            old(self).wf(),
        ensures
            final(self).wf(),
            final(self).repo@ == old(self).repo@,
            final(self).config == old(self).config,
            (r matches Err(RefreshTokenError::InvalidCredentials { .. })) <==> !(session_active(
                old(self).cache@,
                details.token_uuid,
                details.user_id,
                now,
            ) && has_id(old(self).repo@, details.user_id)),
            r is Err ==> final(self).cache@ == old(self).cache@ && (r matches Err(
                RefreshTokenError::InvalidCredentials { .. },
            ) || r matches Err(RefreshTokenError::Unknown)),
            r matches Ok(resp) ==> resp.access_token_max_age
                == old(self).config.access_token_max_age && session_active(
                old(self).cache@,
                details.token_uuid,
                details.user_id,
                now,
            ) && has_id(old(self).repo@, details.user_id) && (exists|
                new_tid: u128,
                write_time: i64,
            |
                expiry_representable(write_time, old(self).config.access_token_max_age)
                    && final(self).cache@ == #[trigger] old(self).cache@.insert(
                    new_tid,
                    SessionEntry {
                        user_id: details.user_id,
                        expires_at: expiry_at(
                            write_time,
                            old(self).config.access_token_max_age,
                        ) as i64,
                    },
                )),
    {
        match self.cache.verify_active_session(details, now) {
            Ok(_) => {},
            Err(e) => {
                return Err(RefreshTokenError::from_cache_error(e));
            },
        }
        let user = match self.repo.fetch_user_by_id(&UserId::new(details.user_id)) {
            Ok(u) => u,
            Err(e) => {
                return Err(RefreshTokenError::from_repository_error(e));
            },
        };
        proof {
            assert(user_with_id(self.repo@, details.user_id).id == details.user_id);
        }
        let access_token_details = match generate_jwt(
            user.id,
            self.config.access_token_max_age,
            self.config.access_token_private_key.as_str(),
        ) {
            Ok(d) => d,
            Err(_) => {
                return Err(RefreshTokenError::Unknown);
            },
        };
        let write_time = current_timestamp();
        match self.cache.save_token_data(
            &CacheToken::new(
                access_token_details.token_uuid,
                access_token_details.user_id,
                self.config.access_token_max_age,
            ),
            write_time,
        ) {
            Ok(_) => {},
            Err(e) => {
                return Err(RefreshTokenError::from_cache_error(e));
            },
        }
        let access_token = match access_token_details.token {
            Some(t) => t,
            None => {
                return Err(RefreshTokenError::Unknown);
            },
        };
        Ok(
            RefreshResponse {
                access_token,
                access_token_max_age: self.config.access_token_max_age,
            },
        )
    }

    /// Mints a new access token from a refresh token: verifies it against
    /// the refresh public key — a distinct pair from the access keys — and
    /// hands the decision to the session authority. The refresh token and
    /// its own record are untouched.
    ///
    /// Every refusal is a credential failure or an internal fault, never
    /// anything else; an internal fault can only arise after an active
    /// session for an existing user was found, so against a cache with no
    /// active sessions a refusal is always `InvalidCredentials`. On any
    /// failure no new session record is written and nothing else changes:
    /// a refused refresh issues nothing.
    pub fn refresh(&mut self, request: &RefreshRequest) -> (r: Result<
        RefreshResponse,
        RefreshTokenError,
    >)
        requires
            old(self).wf(),
        ensures
            final(self).wf(),
            final(self).repo@ == old(self).repo@,
            final(self).config == old(self).config,
            r is Err ==> final(self).cache@ == old(self).cache@ && (r matches Err(
                RefreshTokenError::InvalidCredentials { .. },
            ) || r matches Err(RefreshTokenError::Unknown)),
            r matches Err(RefreshTokenError::Unknown) ==> (exists|
                tid: u128,
                uid: u128,
                checked_at: i64,
            |
                #[trigger] session_active(old(self).cache@, tid, uid, checked_at) && has_id(
                    old(self).repo@,
                    uid,
                )),
            r matches Ok(resp) ==> resp.access_token_max_age
                == old(self).config.access_token_max_age && (exists|
                refresh_tid: u128,
                uid: u128,
                checked_at: i64,
                new_tid: u128,
                write_time: i64,
            |
                has_id(old(self).repo@, uid) && #[trigger] session_active(
                    old(self).cache@,
                    refresh_tid,
                    uid,
                    checked_at,
                ) && expiry_representable(write_time, old(self).config.access_token_max_age)
                    && final(self).cache@ == #[trigger] old(self).cache@.insert(
                    new_tid,
                    SessionEntry {
                        user_id: uid,
                        expires_at: expiry_at(
                            write_time,
                            old(self).config.access_token_max_age,
                        ) as i64,
                    },
                )),
    {
        let refresh_token_details = match verify_jwt(
            self.config.refresh_token_public_key.as_str(),
            request.get_token(),
        ) {
            Ok(d) => d,
            Err(_) => {
                return Err(
                    RefreshTokenError::InvalidCredentials {
                        reason: "Refresh token no longer valid".to_owned(),
                    },
                );
            },
        };
        let now = current_timestamp();
        let ghost cache0 = self.cache@;
        let ghost repo0 = self.repo@;
        let result = self.refresh_decided(&refresh_token_details, now);
        proof {
            if result is Ok {
                let (new_tid, write_time) = choose|new_tid: u128, write_time: i64|
                    expiry_representable(write_time, self.config.access_token_max_age)
                        && self.cache@ == #[trigger] cache0.insert(
                        new_tid,
                        SessionEntry {
                            user_id: refresh_token_details.user_id,
                            expires_at: expiry_at(
                                write_time,
                                self.config.access_token_max_age,
                            ) as i64,
                        },
                    );
                assert(session_active(
                    cache0,
                    refresh_token_details.token_uuid,
                    refresh_token_details.user_id,
                    now,
                ) && has_id(repo0, refresh_token_details.user_id) && expiry_representable(
                    write_time,
                    self.config.access_token_max_age,
                ) && self.cache@ == cache0.insert(
                    new_tid,
                    SessionEntry {
                        user_id: refresh_token_details.user_id,
                        expires_at: expiry_at(
                            write_time,
                            self.config.access_token_max_age,
                        ) as i64,
                    },
                ));
            }
        }
        result
    }
}

/// Registration followed by login with the same credentials succeeds: once
/// a registration has added the record — the normalised e-mail with a hash
/// that verifies against exactly the registered password — the login
/// credential check accepts that e-mail and password, and the record found
/// is the registered one.
pub proof fn lemma_register_then_login(
    users: Seq<UserView>,
    email: Seq<char>,
    password: Seq<char>,
    u: UserView,
)
    requires
        store_wf(users),
        !has_email(users, lower_seq(email)),
        u.email == lower_seq(email),
        forall|q: Seq<char>| #[trigger] password_matches(q, u.password) <==> q == password,
    ensures
        login_auth_ok(users.push(u), email, password),
        user_with_email(users.push(u), lower_seq(email)) == u,
{
    let key = lower_seq(email);
    let after = users.push(u);
    assert(after[users.len() as int].email == key);
    assert(has_email(after, key));
    let i = choose|i: int| 0 <= i < after.len() && after[i].email == key;
    if i < users.len() {
        assert(users[i].email == key);
        assert(false);
    }
    assert(user_with_email(after, key) == u);
    assert(password_matches(password, u.password));
}

/// A wrong password and an unknown e-mail are the same failure: each
/// falsifies the one credential check that login reports as its
/// payload-free `InvalidCredentials`, so the two outcomes carry no
/// distinguishing information.
pub proof fn lemma_login_failure_indistinguishable(
    users: Seq<UserView>,
    known_email: Seq<char>,
    wrong_password: Seq<char>,
    unknown_email: Seq<char>,
    any_password: Seq<char>,
)
    requires
        has_email(users, lower_seq(known_email)),
        !password_matches(wrong_password, user_with_email(users, lower_seq(known_email)).password),
        !has_email(users, lower_seq(unknown_email)),
    ensures
        !login_auth_ok(users, known_email, wrong_password),
        !login_auth_ok(users, unknown_email, any_password),
{
}

/// A token issued by login passes authentication immediately: after the
/// two session records of a login are written, both the access and the
/// refresh token's sessions are active for their user at any time before
/// their expiries, so — the user existing — authentication succeeds.
pub proof fn lemma_issued_tokens_authenticate(
    sessions: Map<u128, SessionEntry>,
    access_tid: u128,
    refresh_tid: u128,
    uid: u128,
    access_exp: i64,
    refresh_exp: i64,
    now: i64,
)
    requires
        now < access_exp,
        now < refresh_exp,
    ensures
        session_active(
            sessions.insert(access_tid, SessionEntry { user_id: uid, expires_at: access_exp })
                .insert(refresh_tid, SessionEntry { user_id: uid, expires_at: refresh_exp }),
            access_tid,
            uid,
            now,
        ),
        session_active(
            sessions.insert(access_tid, SessionEntry { user_id: uid, expires_at: access_exp })
                .insert(refresh_tid, SessionEntry { user_id: uid, expires_at: refresh_exp }),
            refresh_tid,
            uid,
            now,
        ),
{
}

/// A token issued by refresh passes authentication immediately: once its
/// single session record is written, that session is active for its user
/// at any time before the expiry.
pub proof fn lemma_refreshed_token_authenticates(
    sessions: Map<u128, SessionEntry>,
    tid: u128,
    uid: u128,
    exp: i64,
    now: i64,
)
    requires
        now < exp,
    ensures
        session_active(
            sessions.insert(tid, SessionEntry { user_id: uid, expires_at: exp }),
            tid,
            uid,
            now,
        ),
{
}

/// Logout revokes: once the access token's session record is removed, the
/// session is inactive for every user and every time — even though the
/// token's signature and expiry are untouched — so a subsequent
/// authentication with that token fails as a credential failure.
pub proof fn lemma_logout_revokes(
    sessions: Map<u128, SessionEntry>,
    tid: u128,
    uid: u128,
    now: i64,
)
    ensures
        !session_active(sessions.remove(tid), tid, uid, now),
{
}

/// TTL lapse looks exactly like revocation: once a record's expiry has
/// passed, its session is inactive for every user, the same externally
/// observable effect as deleting the record. Neither state can become
/// active again for that record.
pub proof fn lemma_expired_session_rejected(
    sessions: Map<u128, SessionEntry>,
    tid: u128,
    uid: u128,
    now: i64,
)
    requires
        sessions.contains_key(tid) ==> now >= sessions[tid].expires_at,
    ensures
        !session_active(sessions, tid, uid, now),
{
}

/// Logout revokes only its own token: the record of any other token
/// identifier is untouched, so in particular a paired refresh token stays
/// active until its own expiry or deletion.
pub proof fn lemma_logout_leaves_others(
    sessions: Map<u128, SessionEntry>,
    tid: u128,
    other_tid: u128,
    uid: u128,
    now: i64,
)
    requires
        other_tid != tid,
    ensures
        session_active(sessions.remove(tid), other_tid, uid, now) == session_active(
            sessions,
            other_tid,
            uid,
            now,
        ),
{
}

/// Of two registrations with the same e-mail, the second observes the
/// duplicate: once the first has added its record under the normalised
/// e-mail, the duplicate check finds it, whatever else the store holds.
pub proof fn lemma_second_register_duplicate(users: Seq<UserView>, email: Seq<char>, u: UserView)
    requires
        u.email == lower_seq(email),
    ensures
        has_email(users.push(u), lower_seq(email)),
{
    let after = users.push(u);
    assert(after[users.len() as int].email == lower_seq(email));
}

} // verus!
