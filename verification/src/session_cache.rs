//! The session cache: the authority over which issued tokens are still
//! valid.
//!
//! A session record maps a token identifier to its owning user and its
//! absolute expiry. Existence of the record is the source of truth: a token
//! whose signature and time bounds are intact but whose record is gone is
//! revoked. Records are written at issuance, removed at logout, and ignored
//! once their expiry has passed, which externally looks the same as
//! revocation.
use crate::cache_errors::CacheOperationError;
use crate::token::CacheToken;
use crate::token::TokenDetails;
use crate::token_uuid::TokenUuid;
use std::collections::HashMap;
use vstd::prelude::*;

verus! {

broadcast use vstd::std_specs::hash::group_hash_axioms;

/// One session record: the owning user and the absolute expiry in Unix
/// seconds.
#[derive(Debug, Clone, Copy, PartialEq, Eq, Structural)]
pub struct SessionEntry {
    pub user_id: u128,
    pub expires_at: i64,
}

/// Whether a record for `token_uuid`, owned by `user_id` and unexpired at
/// `now`, is present: the condition under which a verified token is still
/// honoured.
pub open spec fn session_active(
    sessions: Map<u128, SessionEntry>,
    token_uuid: u128,
    user_id: u128,
    now: i64,
) -> bool {
    &&& sessions.contains_key(token_uuid)
    &&& sessions[token_uuid].user_id == user_id
    &&& now < sessions[token_uuid].expires_at
}

/// Whether the expiry `now + max_age minutes` is representable; a record
/// can only be written when it is.
pub open spec fn expiry_representable(now: i64, max_age: i64) -> bool {
    &&& i64::MIN <= max_age * 60 <= i64::MAX
    &&& i64::MIN <= now + max_age * 60 <= i64::MAX
}

/// The absolute expiry of a record written at `now` with a lifetime of
/// `max_age` minutes.
pub open spec fn expiry_at(now: i64, max_age: i64) -> int {
    now + max_age * 60
}

/// An in-memory session store keyed by token identifier, with per-record
/// expiry.
#[derive(Debug)]
pub struct SessionCache {
    entries: HashMap<u128, SessionEntry>,
}

impl View for SessionCache {
    type V = Map<u128, SessionEntry>;

    closed spec fn view(&self) -> Map<u128, SessionEntry> {
        self.entries@
    }
}

impl SessionCache {
    /// An empty cache: no token is honoured.
    pub fn new() -> (r: SessionCache)
        ensures
            r@ == Map::<u128, SessionEntry>::empty(),
    {
        SessionCache { entries: HashMap::new() }
    }

    /// Writes one session record; fails exactly when the expiry is not
    /// representable, and then changes nothing.
    pub fn save_token_data(&mut self, token: &CacheToken, now: i64) -> (r: Result<
        (),
        CacheOperationError,
    >)
        ensures
            r is Ok <==> expiry_representable(now, token.max_age),
            r is Ok ==> final(self)@ == old(self)@.insert(
                token.token_uuid,
                SessionEntry { user_id: token.user_id, expires_at: expiry_at(now, token.max_age) as i64 },
            ),
            r is Err ==> final(self)@ == old(self)@ && r matches Err(CacheOperationError::Save),
    {
        let seconds = match token.max_age.checked_mul(60) {
            Some(s) => s,
            None => {
                return Err(CacheOperationError::Save);
            },
        };
        let expires_at = match now.checked_add(seconds) {
            Some(e) => e,
            None => {
                return Err(CacheOperationError::Save);
            },
        };
        self.entries.insert(token.token_uuid, SessionEntry { user_id: token.user_id, expires_at });
        Ok(())
    }

    /// Writes the access and refresh records of one login together: either
    /// both records are present afterwards, or neither and an error is
    /// returned. A half-written session is never handed out.
    pub fn save_tokens_data(
        &mut self,
        access_token: &CacheToken,
        refresh_token: &CacheToken,
        now: i64,
    ) -> (r: Result<(), CacheOperationError>)
        ensures
            r is Ok <==> expiry_representable(now, access_token.max_age) && expiry_representable(
                now,
                refresh_token.max_age,
            ),
            r is Ok ==> final(self)@ == old(self)@.insert(
                access_token.token_uuid,
                SessionEntry {
                    user_id: access_token.user_id,
                    expires_at: expiry_at(now, access_token.max_age) as i64,
                },
            ).insert(
                refresh_token.token_uuid,
                SessionEntry {
                    user_id: refresh_token.user_id,
                    expires_at: expiry_at(now, refresh_token.max_age) as i64,
                },
            ),
            r is Err ==> final(self)@ == old(self)@ && r matches Err(CacheOperationError::Save),
    {
        let access_seconds = match access_token.max_age.checked_mul(60) {
            Some(s) => s,
            None => {
                return Err(CacheOperationError::Save);
            },
        };
        let access_expires_at = match now.checked_add(access_seconds) {
            Some(e) => e,
            None => {
                return Err(CacheOperationError::Save);
            },
        };
        let refresh_seconds = match refresh_token.max_age.checked_mul(60) {
            Some(s) => s,
            None => {
                return Err(CacheOperationError::Save);
            },
        };
        let refresh_expires_at = match now.checked_add(refresh_seconds) {
            Some(e) => e,
            None => {
                return Err(CacheOperationError::Save);
            },
        };
        self.entries.insert(
            access_token.token_uuid,
            SessionEntry { user_id: access_token.user_id, expires_at: access_expires_at },
        );
        self.entries.insert(
            refresh_token.token_uuid,
            SessionEntry { user_id: refresh_token.user_id, expires_at: refresh_expires_at },
        );
        Ok(())
    }

    /// Checks that the session behind a verified token is still active:
    /// present, owned by the token's user, and unexpired. A failure is the
    /// normal revoked-or-expired outcome, not a fault.
    pub fn verify_active_session(&self, token_details: &TokenDetails, now: i64) -> (r: Result<
        (),
        CacheOperationError,
    >)
        ensures
            r is Ok <==> session_active(self@, token_details.token_uuid, token_details.user_id, now),
            r is Err ==> r matches Err(CacheOperationError::Invalid { .. }),
    {
        match self.entries.get(&token_details.token_uuid) {
            Some(entry) => {
                if entry.user_id == token_details.user_id && now < entry.expires_at {
                    Ok(())
                } else {
                    Err(
                        CacheOperationError::Invalid {
                            reason: "Token is invalid or session has expired".to_owned(),
                        },
                    )
                }
            },
            None => {
                Err(
                    CacheOperationError::Invalid {
                        reason: "Token is invalid or session has expired".to_owned(),
                    },
                )
            },
        }
    }

    /// Removes a session record. Deleting an absent record is a success:
    /// logging out twice must not fail.
    pub fn delete_token(&mut self, token_uuid: &TokenUuid) -> (r: Result<(), CacheOperationError>)
        ensures
            r is Ok,
            final(self)@ == old(self)@.remove(token_uuid.value()),
    {
        self.entries.remove(&token_uuid.get());
        Ok(())
    }
}

} // verus!
