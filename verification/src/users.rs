use vstd::prelude::*;

use argon2::{Argon2, PasswordHasher};
use password_hash::SaltString;
use rand_core::OsRng;

use crate::hashing::{hash_matches, verify_password};
use crate::store::{
    find_user_by_name, has_user_with_name, is_stored_user, lemma_push_keeps_user_ids,
    lemma_user_index_by_name_is, same_events, same_friendships, same_groups, same_participants,
    Store, StoreError,
};

verus! {

/// A user that has not been saved to the store yet.
pub struct UnsavedUser {
    pub username: String,
    pub password_hash: String,
}

/// A user record, as it stands in the store.
pub struct User {
    pub id: i32,
    pub username: String,
    pub password_hash: String,
}

impl Clone for User {
    fn clone(&self) -> (res: Self)
        ensures
            res == *self,
    {
        User {
            id: self.id,
            username: self.username.clone(),
            password_hash: self.password_hash.clone(),
        }
    }
}

impl UnsavedUser {
    /// Creates a password hash for the user using a fresh salt and the
    /// hashing algorithm.
    ///
    /// Relies on argon2's `PasswordHasher::hash_password` with a salt from
    /// `SaltString::generate`: the returned string carries the algorithm,
    /// parameters and salt, so the verifier, which recomputes the digest from
    /// exactly those, accepts the same password against it.
    #[verifier::external_body]
    pub fn hash(text: &str) -> (r: Option<String>)
        ensures
            r matches Some(h) ==> hash_matches(h@, text@),
    {
        let salt = SaltString::generate(&mut OsRng);
        let argon2 = Argon2::default();
        match argon2.hash_password(text.as_bytes(), &salt) {
            Ok(h) => Some(h.to_string()),
            Err(_) => None,
        }
    }

    /// Creates a new unsaved user, hashing the password. `None` only when the
    /// hashing primitive itself fails.
    pub fn try_new(username: String, password: String) -> (r: Option<UnsavedUser>)
        ensures
            r matches Some(u) ==> u.username == username && hash_matches(
                u.password_hash@,
                password@,
            ),
    {
        match UnsavedUser::hash(password.as_str()) {
            Some(h) => Some(UnsavedUser { username, password_hash: h }),
            None => None,
        }
    }

    /// Saves the user to the store. Fails with the store's uniqueness signal
    /// exactly when the username is already taken; otherwise appends the
    /// record under the next user id and returns it.
    pub fn save(self, store: &mut Store) -> (r: Result<User, StoreError>)
        requires
            old(store).wf(),
            old(store).next_user_id < i32::MAX,
        ensures
            final (store).wf(),
            has_user_with_name(old(store).users@, self.username@) ==> (r matches Err(
                StoreError::UniqueViolation,
            ) && *final (store) == *old(store)),
            !has_user_with_name(old(store).users@, self.username@) ==> (r matches Ok(u) && u == (
            User {
                id: old(store).next_user_id,
                username: self.username,
                password_hash: self.password_hash,
            }) && final (store).users@ == old(store).users@.push(u) && final (store).next_user_id
                == old(store).next_user_id + 1),
            same_friendships(*old(store), *final (store)),
            same_groups(*old(store), *final (store)),
            same_participants(*old(store), *final (store)),
            same_events(*old(store), *final (store)),
    {
        match find_user_by_name(&store.users, &self.username) {
            Some(_) => Err(StoreError::UniqueViolation),
            None => {
                let user = User {
                    id: store.next_user_id,
                    username: self.username,
                    password_hash: self.password_hash,
                };
                let stored = user.clone();
                store.next_user_id = store.next_user_id + 1;
                store.users.push(stored);
                proof {
                    lemma_push_keeps_user_ids(old(store).users@, user);
                }
                Ok(user)
            },
        }
    }
}

impl User {
    /// Loads the user with this username and checks the supplied password
    /// against the stored hash. A missing username and a wrong password are
    /// indistinguishable to the caller: both yield `None`.
    pub fn fetch_check(store: &Store, provided_username: String, provided_password: String) -> (r:
        Option<User>)
        requires
            store.wf(),
        ensures
            r matches Some(u) ==> is_stored_user(*store, u) && u.username@ == provided_username@
                && hash_matches(u.password_hash@, provided_password@),
            r is None ==> forall|i: int|
                0 <= i < store.users@.len() && store.users@[i].username@ == provided_username@
                    ==> !hash_matches(store.users@[i].password_hash@, provided_password@),
    {
        match find_user_by_name(&store.users, &provided_username) {
            None => None,
            Some(i) => {
                let user = store.users[i].clone();
                let is_password_correct = verify_password(
                    user.password_hash.as_str(),
                    provided_password.as_str(),
                );
                if is_password_correct {
                    Some(user)
                } else {
                    proof {
                        assert forall|k: int|
                            0 <= k < store.users@.len() && store.users@[k].username@
                                == provided_username@ implies !hash_matches(
                            store.users@[k].password_hash@,
                            provided_password@,
                        ) by {
                            lemma_user_index_by_name_is(store.users@, provided_username@, k);
                            lemma_user_index_by_name_is(store.users@, provided_username@, i as int);
                        }
                    }
                    None
                }
            },
        }
    }
}

} // verus!
