use vstd::prelude::*;

use crate::endpoints::EndpointError;
use crate::friends::{add_friend_outcome, FriendAddResult, Friendship};
use crate::store::{is_stored_user, same_events, same_groups, same_participants, same_users, user_index_by_name, Store};
use crate::users::User;

verus! {

/// An add-friend request.
pub struct AddFriendRequest {
    pub username: String,
}

/// Adds a friend for the principal and maps each domain outcome to its own
/// client message: only a successful insertion answers `Ok`.
pub fn add_friend(store: &mut Store, user: &User, req_body: AddFriendRequest) -> (r: Result<
    &'static str,
    EndpointError,
>)
    requires
        old(store).wf(),
        is_stored_user(*old(store), *user),
        old(store).next_friendship_id < i32::MAX,
    ensures
        final (store).wf(),
        same_users(*old(store), *final (store)),
        same_groups(*old(store), *final (store)),
        same_participants(*old(store), *final (store)),
        same_events(*old(store), *final (store)),
        r is Ok <==> add_friend_outcome(*old(store), *user, req_body.username@)
            == FriendAddResult::Success,
        r matches Ok(m) ==> (m@ == "Success!"@ && final (store).friendships@ == old(
            store,
        ).friendships@.push(
            (Friendship {
                id: old(store).next_friendship_id,
                owner_id: user.id,
                friend_id: old(store).users@[user_index_by_name(
                    old(store).users@,
                    req_body.username@,
                )].id,
            }),
        ) && final (store).next_friendship_id == old(store).next_friendship_id + 1),
        r matches Err(e) ==> (e matches EndpointError::BadClientData(m) && *final (store)
            == *old(store) && (add_friend_outcome(*old(store), *user, req_body.username@)
            == FriendAddResult::TriedFriendThemselves ==> m@
            == "You can not add yourself as a friend"@) && (add_friend_outcome(
            *old(store),
            *user,
            req_body.username@,
        ) == FriendAddResult::AlreadyFriends ==> m@ == "You are already friends with this user."@)
            && (add_friend_outcome(*old(store), *user, req_body.username@)
            == FriendAddResult::UsernameNotFound ==> m@ == "This user does not exist."@)),
{
    let result = Friendship::add_friend(store, user, &req_body.username);
    match result {
        FriendAddResult::TriedFriendThemselves => Err(
            EndpointError::BadClientData("You can not add yourself as a friend"),
        ),
        FriendAddResult::AlreadyFriends => Err(
            EndpointError::BadClientData("You are already friends with this user."),
        ),
        FriendAddResult::UsernameNotFound => Err(
            EndpointError::BadClientData("This user does not exist."),
        ),
        FriendAddResult::Success => Ok("Success!"),
    }
}

} // verus!
