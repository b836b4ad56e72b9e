//! The credential repository: a durable store of user records keyed by
//! identity and by case-normalised e-mail.
//!
//! E-mails are stored lower-cased and looked up lower-cased, so two
//! addresses differing only in ASCII case denote the same account. The
//! store's invariant — unique e-mails, unique identities, e-mails already
//! normalised — is what makes the duplicate check at registration the
//! final backstop.
use crate::auth_repo_errors::AuthRepositoryError;
use crate::register_user::RegisterUserRequest;
use crate::system::current_timestamp;
use crate::system::fresh_uuid;
use crate::text::lemma_lower_seq_idempotent;
use crate::text::lower_seq;
use crate::text::to_ascii_lowercase;
use crate::user::FilteredUser;
use crate::user::User;
use crate::user::UserId;
use crate::user::UserView;
use vstd::prelude::*;

verus! {

/// Whether some record in `users` has exactly the (already normalised)
/// e-mail `email`.
pub open spec fn has_email(users: Seq<UserView>, email: Seq<char>) -> bool {
    exists|i: int| 0 <= i < users.len() && users[i].email == email
}

/// The record with e-mail `email`; meaningful only when `has_email` holds
/// and e-mails are unique.
pub open spec fn user_with_email(users: Seq<UserView>, email: Seq<char>) -> UserView {
    users[choose|i: int| 0 <= i < users.len() && users[i].email == email]
}

/// Whether some record in `users` has the identity `id`.
pub open spec fn has_id(users: Seq<UserView>, id: u128) -> bool {
    exists|i: int| 0 <= i < users.len() && users[i].id == id
}

/// The record with identity `id`; meaningful only when `has_id` holds and
/// identities are unique.
pub open spec fn user_with_id(users: Seq<UserView>, id: u128) -> UserView {
    users[choose|i: int| 0 <= i < users.len() && users[i].id == id]
}

/// The store's invariant: pairwise distinct e-mails and identities, and
/// every stored e-mail already in normalised form.
pub open spec fn store_wf(users: Seq<UserView>) -> bool {
    &&& forall|i: int, j: int|
        0 <= i < j < users.len() ==> users[i].email != users[j].email && users[i].id != users[j].id
    &&& forall|i: int| 0 <= i < users.len() ==> users[i].email == lower_seq(#[trigger] users[i].email)
}

/// An in-memory credential repository.
#[derive(Debug)]
pub struct UserStore {
    users: Vec<User>,
}

impl View for UserStore {
    type V = Seq<UserView>;

    closed spec fn view(&self) -> Seq<UserView> {
        self.users@.map_values(|u: User| u@)
    }
}

impl UserStore {
    /// The store's invariant, over its mathematical content.
    pub open spec fn wf(&self) -> bool {
        store_wf(self@)
    }

    /// An empty store.
    pub fn new() -> (r: UserStore)
        ensures
            r@ == Seq::<UserView>::empty(),
            r.wf(),
    {
        let r = UserStore { users: Vec::new() };
        proof {
            assert(r@ =~= Seq::<UserView>::empty());
        }
        r
    }

    /// Looks up the record whose stored e-mail equals `email` (which must
    /// already be normalised); returns its index.
    fn find_index_by_email(&self, email: &String) -> (r: Option<usize>)
        ensures
            r is Some <==> has_email(self@, email@),
            r matches Some(k) ==> 0 <= k < self@.len() && self@[k as int].email == email@,
            r is None ==> forall|i: int| 0 <= i < self@.len() ==> self@[i].email != email@,
    {
        let mut k: usize = 0;
        while k < self.users.len()
            invariant
                k <= self.users.len(),
                self@.len() == self.users@.len(),
                forall|i: int| 0 <= i < self@.len() ==> self@[i] == self.users@[i]@,
                forall|i: int| 0 <= i < k ==> self@[i].email != email@,
            decreases self.users.len() - k,
        {
            if self.users[k].email == *email {
                return Some(k);
            }
            k += 1;
        }
        None
    }

    /// Looks up the record with identity `id`; returns its index.
    fn find_index_by_id(&self, id: u128) -> (r: Option<usize>)
        ensures
            r is Some <==> has_id(self@, id),
            r matches Some(k) ==> 0 <= k < self@.len() && self@[k as int].id == id,
            r is None ==> forall|i: int| 0 <= i < self@.len() ==> self@[i].id != id,
    {
        let mut k: usize = 0;
        while k < self.users.len()
            invariant
                k <= self.users.len(),
                self@.len() == self.users@.len(),
                forall|i: int| 0 <= i < self@.len() ==> self@[i] == self.users@[i]@,
                forall|i: int| 0 <= i < k ==> self@[i].id != id,
            decreases self.users.len() - k,
        {
            if self.users[k].id == id {
                return Some(k);
            }
            k += 1;
        }
        None
    }

    /// Registers a new user under the normalised e-mail, with a fresh
    /// random identity and the current time as both timestamps.
    ///
    /// A duplicate e-mail is reported as `Duplicate` and changes nothing —
    /// the unique-e-mail invariant is the final backstop against
    /// double registration. A collision of the fresh identity with an
    /// existing one is reported as `Database` and changes nothing.
    pub fn register(&mut self, request: &RegisterUserRequest) -> (r: Result<
        FilteredUser,
        AuthRepositoryError,
    >)
        requires
            old(self).wf(),
        ensures
            final(self).wf(),
            (r matches Err(AuthRepositoryError::Duplicate { .. })) <==> has_email(
                old(self)@,
                lower_seq(request.email@),
            ),
            r matches Err(AuthRepositoryError::Duplicate { email }) ==> email@ == request.email@,
            r is Err ==> final(self)@ == old(self)@ && (r matches Err(
                AuthRepositoryError::Duplicate { .. },
            ) || r matches Err(AuthRepositoryError::Database { .. })),
            r matches Err(AuthRepositoryError::Database { .. }) ==> !has_email(
                old(self)@,
                lower_seq(request.email@),
            ),
            r matches Ok(fu) ==> !has_email(old(self)@, lower_seq(request.email@)) && !has_id(
                old(self)@,
                fu.id,
            ) && fu@.email == lower_seq(request.email@) && fu@.created_at is Some && fu@.updated_at
                == fu@.created_at && final(self)@ == old(self)@.push(
                UserView {
                    id: fu.id,
                    email: lower_seq(request.email@),
                    password: request.hashed_password@,
                    created_at: fu@.created_at,
                    updated_at: fu@.updated_at,
                },
            ),
    {
        let normalized = to_ascii_lowercase(request.email.get());
        if let Some(_) = self.find_index_by_email(&normalized) {
            return Err(AuthRepositoryError::Duplicate { email: request.email.duplicate() });
        }
        let id = fresh_uuid();
        if let Some(_) = self.find_index_by_id(id) {
            return Err(
                AuthRepositoryError::Database {
                    reason: "Database error while registering user".to_owned(),
                },
            );
        }
        let now = current_timestamp();
        let user = User {
            id,
            email: normalized,
            password: request.hashed_password.get().to_owned(),
            created_at: Some(now),
            updated_at: Some(now),
        };
        let filtered = FilteredUser::from_user(&user);
        let ghost old_view = self@;
        self.users.push(user);
        proof {
            assert(self@ =~= old_view.push(
                UserView {
                    id: id,
                    email: lower_seq(request.email@),
                    password: request.hashed_password@,
                    created_at: Some(now),
                    updated_at: Some(now),
                },
            ));
            lemma_lower_seq_idempotent(request.email@);
        }
        Ok(filtered)
    }

    /// Fetches the user for a login attempt: the record stored under the
    /// normalised e-mail, or `InvalidCredentials` when there is none. The
    /// reason never distinguishes an unknown address from anything else.
    pub fn login(&self, request: &crate::login_user::LoginUserRequest) -> (r: Result<
        User,
        AuthRepositoryError,
    >)
        requires
            self.wf(),
        ensures
            r is Ok <==> has_email(self@, lower_seq(request.email@)),
            r matches Ok(u) ==> u@ == user_with_email(self@, lower_seq(request.email@)),
            r is Err ==> r matches Err(AuthRepositoryError::InvalidCredentials { .. }),
    {
        let normalized = to_ascii_lowercase(request.email.get());
        match self.find_index_by_email(&normalized) {
            Some(k) => {
                let u = self.users[k].duplicate();
                proof {
                    let key = lower_seq(request.email@);
                    let i = choose|i: int| 0 <= i < self@.len() && self@[i].email == key;
                    if i != k {
                        assert(self@[i].email == self@[k as int].email);
                        assert(false);
                    }
                }
                Ok(u)
            },
            None => {
                Err(
                    AuthRepositoryError::InvalidCredentials {
                        reason: "User does not exist".to_owned(),
                    },
                )
            },
        }
    }

    /// Fetches a user by identity, for session re-validation; a missing
    /// record — the user vanished after issuance — is `InvalidCredentials`.
    pub fn fetch_user_by_id(&self, request: &UserId) -> (r: Result<User, AuthRepositoryError>)
        requires
            self.wf(),
        ensures
            r is Ok <==> has_id(self@, request.value()),
            r matches Ok(u) ==> u@ == user_with_id(self@, request.value()),
            r is Err ==> r matches Err(AuthRepositoryError::InvalidCredentials { .. }),
    {
        match self.find_index_by_id(request.get()) {
            Some(k) => {
                let u = self.users[k].duplicate();
                proof {
                    let i = choose|i: int|
                        0 <= i < self@.len() && self@[i].id == request.value();
                    if i != k {
                        assert(self@[i].id == self@[k as int].id);
                        assert(false);
                    }
                }
                Ok(u)
            },
            None => {
                Err(
                    AuthRepositoryError::InvalidCredentials {
                        reason: "The user belonging to this token no longer exists".to_owned(),
                    },
                )
            },
        }
    }
}

} // verus!
