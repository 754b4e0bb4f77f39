use vstd::prelude::*;

use crate::endpoints::EndpointError;
use crate::group::{GroupParticipant, ParticipationType, UnsavedGroup, UnsavedGroupParticipant};
use crate::hashing::hash_matches;
use crate::store::{
    has_group_with_id, has_user_with_id, has_user_with_name, is_stored_user, same_events,
    same_friendships, Store, StoreError,
};
use crate::users::{UnsavedUser, User};

verus! {

/// A signup request.
pub struct SignupRequest {
    pub username: String,
    pub password: String,
}

/// A login request.
pub struct LoginRequest {
    pub username: String,
    pub password: String,
}

/// Registers a user. Fails with a taken-username message exactly when the
/// username is already stored, and with an internal error only when the
/// hashing primitive fails; otherwise, as one atomic unit, it stores the
/// user, their personal special group, and an accepted roster row linking
/// the two, and returns the stored user. No partial outcome is observable.
pub fn signup(store: &mut Store, req_body: SignupRequest) -> (r: Result<User, EndpointError>)
    requires
        old(store).wf(),
        old(store).next_user_id < i32::MAX,
        old(store).next_group_id < i32::MAX,
        old(store).next_participant_id < i32::MAX,
    ensures
        final (store).wf(),
        same_friendships(*old(store), *final (store)),
        same_events(*old(store), *final (store)),
        has_user_with_name(old(store).users@, req_body.username@) ==> r is Err,
        r matches Err(e) ==> (e matches EndpointError::BadClientData(m) ==> (has_user_with_name(
            old(store).users@,
            req_body.username@,
        ) && m@ == "This username is taken. Try using a different username."@)),
        !has_user_with_name(old(store).users@, req_body.username@) && r is Err ==> (r matches Err(
            EndpointError::InternalError,
        )),
        r is Err ==> *final (store) == *old(store),
        r matches Ok(u) ==> (!has_user_with_name(old(store).users@, req_body.username@) && u.id
            == old(store).next_user_id && u.username == req_body.username && hash_matches(
            u.password_hash@,
            req_body.password@,
        ) && final (store).users@ == old(store).users@.push(u) && final (store).next_user_id
            == old(store).next_user_id + 1 && final (store).groups@ == old(store).groups@.push(
            final (store).groups@.last(),
        ) && final (store).groups@.last().id == old(store).next_group_id
            && final (store).groups@.last().owner_id == u.id
            && final (store).groups@.last().is_special
            && final (store).groups@.last().name@ == "Myself"@
            && final (store).next_group_id == old(store).next_group_id + 1
            && final (store).participants@ == old(store).participants@.push(
            (GroupParticipant {
                id: old(store).next_participant_id,
                group_id: old(store).next_group_id,
                participant_id: u.id,
                participation_type: ParticipationType::Accepted,
            }),
        ) && final (store).next_participant_id == old(store).next_participant_id + 1),
{
    let unsaved_user = match UnsavedUser::try_new(req_body.username, req_body.password) {
        Some(u) => u,
        None => {
            return Err(EndpointError::InternalError);
        },
    };
    match unsaved_user.save(store) {
        Err(StoreError::UniqueViolation) => Err(
            EndpointError::BadClientData(
                "This username is taken. Try using a different username.",
            ),
        ),
        Ok(user) => {
            proof {
                assert(store.users@.last().id == user.id);
                assert(has_user_with_id(store.users@, user.id));
            }
            let unsaved_group = UnsavedGroup {
                name: personal_group_name(),
                owner_id: user.id,
                is_special: true,
            };
            let group = unsaved_group.save(store);
            proof {
                assert(store.groups@.last().id == group.id);
                assert(has_group_with_id(store.groups@, group.id));
            }
            let participation = UnsavedGroupParticipant {
                participation_type: ParticipationType::Accepted,
                group_id: group.id,
                participant_id: user.id,
            };
            participation.save(store);
            Ok(user)
        },
    }
}

/// The name given to every personal group at signup.
fn personal_group_name() -> (r: String)
    ensures
        r@ == "Myself"@,
{
    let s: &str = "Myself";
    s.to_owned()
}

/// Logs a user in: returns the stored user with this username when the
/// password checks out against the stored hash, and one indistinguishable
/// message for a missing username and a wrong password.
pub fn login(store: &Store, req_body: LoginRequest) -> (r: Result<User, EndpointError>)
    requires
        store.wf(),
    ensures
        r matches Ok(u) ==> (is_stored_user(*store, u) && u.username@ == req_body.username@
            && hash_matches(u.password_hash@, req_body.password@)),
        r matches Err(e) ==> (e matches EndpointError::BadClientData(m) && m@
            == "Incorrect username or password. Please double-check the username and password."@
            && forall|i: int|
            0 <= i < store.users@.len() && store.users@[i].username@ == req_body.username@
                ==> !hash_matches(store.users@[i].password_hash@, req_body.password@)),
{
    match User::fetch_check(store, req_body.username, req_body.password) {
        None => Err(
            EndpointError::BadClientData(
                "Incorrect username or password. Please double-check the username and password.",
            ),
        ),
        Some(user) => Ok(user),
    }
}

} // verus!
