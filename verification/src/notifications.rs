use vstd::prelude::*;

use crate::group::{Group, ParticipationType};
use crate::seq_util::{filtered, lemma_filtered_step};
use crate::store::{check_participation, has_participation, Store};
use crate::users::User;

verus! {

/// A list of notifications.
pub struct NotificaitonVec(pub Vec<Notification>);

/// A notification to be shown to a user. Notifications are derived from the
/// store on every call; none is persisted.
pub enum Notification {
    Invitation(Group),
}

/// Holds of the groups whose invitation to `user_id` still awaits an answer.
pub open spec fn pending_group_pred(s: Store, user_id: i32) -> spec_fn(Group) -> bool {
    |g: Group|
        has_participation(s.participants@, g.id, user_id, ParticipationType::NoResponse)
}

impl Notification {
    /// Returns one invitation notification per group whose roster row for
    /// `user` still stands at `NoResponse`, in store order.
    pub fn get_user_notifications(store: &Store, user: &User) -> (r: Vec<Notification>)
        requires
            store.wf(),
        ensures
            r@.len() == filtered(store.groups@, pending_group_pred(*store, user.id)).len(),
            forall|j: int|
                0 <= j < r@.len() ==> #[trigger] r@[j] == Notification::Invitation(
                    filtered(store.groups@, pending_group_pred(*store, user.id))[j],
                ),
    {
        let ghost p = pending_group_pred(*store, user.id);
        let mut result: Vec<Notification> = Vec::new();
        let mut i: usize = 0;
        while i < store.groups.len()
            invariant
                store.wf(),
                i <= store.groups@.len(),
                result@.len() == filtered(store.groups@.take(i as int), p).len(),
                forall|j: int|
                    0 <= j < result@.len() ==> #[trigger] result@[j] == Notification::Invitation(
                        filtered(store.groups@.take(i as int), p)[j],
                    ),
                p == pending_group_pred(*store, user.id),
            decreases store.groups@.len() - i,
        {
            let candidate = &store.groups[i];
            if check_participation(store, candidate.id, user.id, ParticipationType::NoResponse) {
                result.push(Notification::Invitation(candidate.clone()));
            }
            proof {
                lemma_filtered_step(store.groups@, p, i as int);
            }
            i = i + 1;
        }
        proof {
            assert(store.groups@.take(store.groups@.len() as int) =~= store.groups@);
        }
        result
    }
}

} // verus!
