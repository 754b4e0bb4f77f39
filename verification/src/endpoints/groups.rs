use vstd::prelude::*;

use crate::endpoints::EndpointError;
use crate::group::{
    owned_group_pred, owned_roster_pred, Group, GroupParticipant, ParticipationType, UnsavedGroup,
    UnsavedGroupParticipant, UserParticipationData,
};
use crate::seq_util::filtered;
use crate::store::{
    check_owns_group, find_roster_row, find_user_by_id, group_index_by_id, has_group_with_id,
    has_participation, has_roster_row, has_user_with_id, is_stored_user, owns_group,
    roster_row_index, same_events, same_friendships, same_groups, same_participants, same_users,
    username_by_id, Store,
};
use crate::users::User;

verus! {

/// A create-group request.
pub struct CreateGroupRequest {
    pub name: String,
}

/// An invite-to-group request.
pub struct InviteToGroupRequest {
    pub user_id: i32,
    pub group_id: i32,
}

/// A rename-group request.
pub struct RenameGroupRequest {
    pub group_id: i32,
    pub new_name: String,
}

/// A remove-user-from-group request.
pub struct RemoveUserFromGroupRequest {
    pub group_id: i32,
    pub user_id: i32,
}

/// A reply-to-group-invitation request.
pub struct ReplyToGroupInvitationRequest {
    pub was_accepted: bool,
    pub group_id: i32,
}

/// The groups the principal owns, together with their rosters.
pub struct GetOwnedGroupsWithParticipantsResponse {
    pub groups: Vec<Group>,
    pub participants: Vec<UserParticipationData>,
}

/// Returns the groups the principal owns and the roster rows of those
/// groups, each roster entry carrying the participant's username.
pub fn get_owned_groups_with_participants(store: &Store, user: &User) -> (r:
    GetOwnedGroupsWithParticipantsResponse)
    requires
        store.wf(),
    ensures
        r.groups@ == filtered(store.groups@, owned_group_pred(user.id)),
        r.participants@.len() == filtered(
            store.participants@,
            owned_roster_pred(*store, user.id),
        ).len(),
        forall|j: int|
            0 <= j < r.participants@.len() ==> {
                let row = filtered(store.participants@, owned_roster_pred(*store, user.id))[j];
                (#[trigger] r.participants@[j]).group_id == row.group_id
                    && r.participants@[j].user_id == row.participant_id
                    && r.participants@[j].username@ == username_by_id(
                    store.users@,
                    row.participant_id,
                )
            },
{
    let groups = Group::get_owned_groups(store, user);
    let participants = Group::get_owned_groups_participants(store, user);
    GetOwnedGroupsWithParticipantsResponse { groups, participants }
}

/// Creates a group owned by the principal; a plain (non-special) group is
/// always accepted and appended under the next group id.
pub fn create_group(store: &mut Store, user: &User, req_body: CreateGroupRequest) -> (r: Result<
    &'static str,
    EndpointError,
>)
    requires
        old(store).wf(),
        is_stored_user(*old(store), *user),
        old(store).next_group_id < i32::MAX,
    ensures
        final (store).wf(),
        same_users(*old(store), *final (store)),
        same_friendships(*old(store), *final (store)),
        same_participants(*old(store), *final (store)),
        same_events(*old(store), *final (store)),
        r matches Ok(m) && m@ == "Success!"@,
        final (store).groups@ == old(store).groups@.push(
            (Group {
                id: old(store).next_group_id,
                is_special: false,
                name: req_body.name,
                owner_id: user.id,
            }),
        ),
        final (store).next_group_id == old(store).next_group_id + 1,
{
    proof {
        let k = choose|k: int| 0 <= k < store.users@.len() && store.users@[k] == *user;
        assert(store.users@[k].id == user.id);
    }
    let group = UnsavedGroup { name: req_body.name, owner_id: user.id, is_special: false };
    group.save(store);
    Ok("Success!")
}

/// Invites a user to a group. Only the group's owner may invite; a missing
/// group and someone else's group each answer their own client message. An
/// already-present roster row is left as it stands, so an invitation never
/// overwrites an answer; a target that is not a stored user is a storage
/// referential failure and surfaces as an internal error.
pub fn invite_to_group(store: &mut Store, user: &User, req_body: InviteToGroupRequest) -> (r:
    Result<&'static str, EndpointError>)
    requires
        old(store).wf(),
        old(store).next_participant_id < i32::MAX,
    ensures
        final (store).wf(),
        same_users(*old(store), *final (store)),
        same_friendships(*old(store), *final (store)),
        same_groups(*old(store), *final (store)),
        same_events(*old(store), *final (store)),
        !has_group_with_id(old(store).groups@, req_body.group_id) ==> (r matches Err(e) && e
            matches EndpointError::BadClientData(m) && m@ == "This group does not exist"@ && *final (store)
            == *old(store)),
        has_group_with_id(old(store).groups@, req_body.group_id) && !owns_group(
            *old(store),
            user.id,
            req_body.group_id,
        ) ==> (r matches Err(e) && e matches EndpointError::BadClientData(m) && m@
            == "You are not the group owner and so do not have the permission to invite users to the group."@
            && *final (store) == *old(store)),
        owns_group(*old(store), user.id, req_body.group_id) && has_roster_row(
            old(store).participants@,
            req_body.group_id,
            req_body.user_id,
        ) ==> (r matches Ok(m) && m@ == "Success!"@ && *final (store) == *old(store)),
        owns_group(*old(store), user.id, req_body.group_id) && !has_roster_row(
            old(store).participants@,
            req_body.group_id,
            req_body.user_id,
        ) && !has_user_with_id(old(store).users@, req_body.user_id) ==> (r matches Err(
            EndpointError::InternalError,
        ) && *final (store) == *old(store)),
        owns_group(*old(store), user.id, req_body.group_id) && !has_roster_row(
            old(store).participants@,
            req_body.group_id,
            req_body.user_id,
        ) && has_user_with_id(old(store).users@, req_body.user_id) ==> (r matches Ok(m) && m@
            == "Success!"@ && final (store).participants@ == old(store).participants@.push(
            (GroupParticipant {
                id: old(store).next_participant_id,
                group_id: req_body.group_id,
                participant_id: req_body.user_id,
                participation_type: ParticipationType::NoResponse,
            }),
        ) && final (store).next_participant_id == old(store).next_participant_id + 1),
{
    match Group::get_group_by_id(store, req_body.group_id) {
        None => Err(EndpointError::BadClientData("This group does not exist")),
        Some(_group) => {
            if !check_owns_group(store, user.id, req_body.group_id) {
                return Err(
                    EndpointError::BadClientData(
                        "You are not the group owner and so do not have the permission to invite users to the group.",
                    ),
                );
            }
            match find_roster_row(&store.participants, req_body.group_id, req_body.user_id) {
                Some(_) => Ok("Success!"),
                None => {
                    match find_user_by_id(&store.users, req_body.user_id) {
                        None => Err(EndpointError::InternalError),
                        Some(_) => {
                            let group_participant = UnsavedGroupParticipant {
                                group_id: req_body.group_id,
                                participant_id: req_body.user_id,
                                participation_type: ParticipationType::NoResponse,
                            };
                            group_participant.save(store);
                            Ok("Success!")
                        },
                    }
                },
            }
        },
    }
}

/// Renames a group. The update is filtered by ownership, and a caller who
/// does not own a group with this id cannot tell a missing group from
/// someone else's group: both surface as the one opaque internal error.
pub fn rename_group(store: &mut Store, user: &User, req_body: RenameGroupRequest) -> (r: Result<
    &'static str,
    EndpointError,
>)
    requires
        old(store).wf(),
    ensures
        final (store).wf(),
        same_users(*old(store), *final (store)),
        same_friendships(*old(store), *final (store)),
        same_participants(*old(store), *final (store)),
        same_events(*old(store), *final (store)),
        final (store).next_group_id == old(store).next_group_id,
        !owns_group(*old(store), user.id, req_body.group_id) ==> (r matches Err(
            EndpointError::InternalError,
        ) && *final (store) == *old(store)),
        owns_group(*old(store), user.id, req_body.group_id) ==> (r matches Ok(m) && m@
            == "Success!"@ && final (store).groups@ == old(store).groups@.update(
            group_index_by_id(old(store).groups@, req_body.group_id),
            (Group {
                id: req_body.group_id,
                is_special: old(store).groups@[group_index_by_id(
                    old(store).groups@,
                    req_body.group_id,
                )].is_special,
                name: req_body.new_name,
                owner_id: user.id,
            }),
        )),
{
    match Group::rename_group_by_id(store, req_body.group_id, user, req_body.new_name) {
        None => Err(EndpointError::InternalError),
        Some(_) => Ok("Success!"),
    }
}

/// Removes a user from a group. Only the group's owner may do so; the
/// authorization check happens here, once, and the roster row, if any, goes
/// away. Removing an absent row still answers success.
pub fn remove_user_from_group(
    store: &mut Store,
    user: &User,
    req_body: RemoveUserFromGroupRequest,
) -> (r: Result<&'static str, EndpointError>)
    requires
        old(store).wf(),
    ensures
        final (store).wf(),
        same_users(*old(store), *final (store)),
        same_friendships(*old(store), *final (store)),
        same_groups(*old(store), *final (store)),
        same_events(*old(store), *final (store)),
        final (store).next_participant_id == old(store).next_participant_id,
        !has_group_with_id(old(store).groups@, req_body.group_id) ==> (r matches Err(e) && e
            matches EndpointError::BadClientData(m) && m@ == "This group does not exist"@ && *final (store)
            == *old(store)),
        has_group_with_id(old(store).groups@, req_body.group_id) && !owns_group(
            *old(store),
            user.id,
            req_body.group_id,
        ) ==> (r matches Err(e) && e matches EndpointError::BadClientData(m) && m@
            == "You are not the group owner and so do not have the permission to remove users from groups."@
            && *final (store) == *old(store)),
        owns_group(*old(store), user.id, req_body.group_id) ==> (r matches Ok(m) && m@
            == "Success!"@),
        owns_group(*old(store), user.id, req_body.group_id) && has_roster_row(
            old(store).participants@,
            req_body.group_id,
            req_body.user_id,
        ) ==> final (store).participants@ == old(store).participants@.remove(
            roster_row_index(old(store).participants@, req_body.group_id, req_body.user_id),
        ),
        owns_group(*old(store), user.id, req_body.group_id) && !has_roster_row(
            old(store).participants@,
            req_body.group_id,
            req_body.user_id,
        ) ==> *final (store) == *old(store),
{
    match Group::get_group_by_id(store, req_body.group_id) {
        None => Err(EndpointError::BadClientData("This group does not exist")),
        Some(group) => {
            if !check_owns_group(store, user.id, req_body.group_id) {
                return Err(
                    EndpointError::BadClientData(
                        "You are not the group owner and so do not have the permission to remove users from groups.",
                    ),
                );
            }
            Group::remove_user(store, &group, req_body.user_id);
            Ok("Success!")
        },
    }
}

/// Records the principal's answer to a group invitation: `true` accepts,
/// `false` rejects. Only the principal's own still-unanswered roster row
/// for the group changes; everything else, including someone else's row and
/// an already-answered row, is left as it stands, and the call answers
/// success either way.
pub fn reply_to_group_invitation(
    store: &mut Store,
    user: &User,
    req_body: ReplyToGroupInvitationRequest,
) -> (r: Result<&'static str, EndpointError>)
    requires
        old(store).wf(),
    ensures
        final (store).wf(),
        same_users(*old(store), *final (store)),
        same_friendships(*old(store), *final (store)),
        same_groups(*old(store), *final (store)),
        same_events(*old(store), *final (store)),
        final (store).next_participant_id == old(store).next_participant_id,
        r matches Ok(m) && m@ == "Success!"@,
        has_participation(
            old(store).participants@,
            req_body.group_id,
            user.id,
            ParticipationType::NoResponse,
        ) ==> final (store).participants@ == old(store).participants@.update(
            roster_row_index(old(store).participants@, req_body.group_id, user.id),
            (GroupParticipant {
                id: old(store).participants@[roster_row_index(
                    old(store).participants@,
                    req_body.group_id,
                    user.id,
                )].id,
                group_id: req_body.group_id,
                participant_id: user.id,
                participation_type: (if req_body.was_accepted {
                    ParticipationType::Accepted
                } else {
                    ParticipationType::Rejected
                }),
            }),
        ),
        !has_participation(
            old(store).participants@,
            req_body.group_id,
            user.id,
            ParticipationType::NoResponse,
        ) ==> *final (store) == *old(store),
{
    let decision = if req_body.was_accepted {
        ParticipationType::Accepted
    } else {
        ParticipationType::Rejected
    };
    Group::reply_to_group_invitation(store, req_body.group_id, user, decision);
    Ok("Success!")
}

} // verus!
