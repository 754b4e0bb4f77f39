use vstd::prelude::*;

use crate::endpoints::EndpointError;
use crate::events::{Event, RecurrenceType, UnsavedEvent, VisibilityType};
use crate::group::Group;
use crate::store::{
    check_owns_group, has_group_with_id, owns_group, same_friendships, same_groups,
    same_participants, same_users, Store,
};
use crate::users::User;

verus! {

/// A create-event request.
pub struct CreateEventRequest {
    pub title: String,
    pub visibility: VisibilityType,
    pub start_time: i32,
    pub duration: i32,
    pub recurrence: RecurrenceType,
    pub group_id: i32,
}

/// Creates an event in a group. Only the group's owner may do so; a missing
/// group and someone else's group each answer their own client message, and
/// only an owner's request appends the event, under the next event id.
pub fn create_event(store: &mut Store, user: &User, req_body: CreateEventRequest) -> (r: Result<
    &'static str,
    EndpointError,
>)
    requires
        old(store).wf(),
        old(store).next_event_id < i32::MAX,
    ensures
        final (store).wf(),
        same_users(*old(store), *final (store)),
        same_friendships(*old(store), *final (store)),
        same_groups(*old(store), *final (store)),
        same_participants(*old(store), *final (store)),
        !has_group_with_id(old(store).groups@, req_body.group_id) ==> (r matches Err(e) && e
            matches EndpointError::BadClientData(m) && m@ == "This group does not exist"@ && *final (store)
            == *old(store)),
        has_group_with_id(old(store).groups@, req_body.group_id) && !owns_group(
            *old(store),
            user.id,
            req_body.group_id,
        ) ==> (r matches Err(e) && e matches EndpointError::BadClientData(m) && m@
            == "You are not the group owner and so do not have the permission to create events."@
            && *final (store) == *old(store)),
        owns_group(*old(store), user.id, req_body.group_id) ==> (r matches Ok(m) && m@
            == "Success!"@ && final (store).events@ == old(store).events@.push(
            (Event {
                id: old(store).next_event_id,
                title: req_body.title,
                visibility: req_body.visibility,
                start_time: req_body.start_time,
                duration: req_body.duration,
                recurrence_type: req_body.recurrence,
                group_id: req_body.group_id,
            }),
        ) && final (store).next_event_id == old(store).next_event_id + 1),
{
    match Group::get_group_by_id(store, req_body.group_id) {
        None => Err(EndpointError::BadClientData("This group does not exist")),
        Some(_group) => {
            if !check_owns_group(store, user.id, req_body.group_id) {
                return Err(
                    EndpointError::BadClientData(
                        "You are not the group owner and so do not have the permission to create events.",
                    ),
                );
            }
            let event = UnsavedEvent {
                title: req_body.title,
                visibility: req_body.visibility,
                recurrence: req_body.recurrence,
                start_time: req_body.start_time,
                duration: req_body.duration,
                group_id: req_body.group_id,
            };
            event.save(store);
            Ok("Success!")
        },
    }
}

} // verus!
