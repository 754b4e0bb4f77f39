use vstd::prelude::*;

use crate::group::ParticipationType;
use crate::seq_util::{
    filtered, lemma_filtered_keys_unique, lemma_filtered_membership, lemma_filtered_step,
};
use crate::store::{
    check_owns_group, check_participation, has_group_with_id, has_participation, owns_group,
    same_friendships, same_groups, same_participants, same_users, Store,
};
use crate::users::User;

verus! {

/// How often an event repeats.
#[derive(Clone, Copy, PartialEq, Eq, Structural, Debug)]
pub enum RecurrenceType {
    Weekly,
    Once,
}

/// Who may see an event.
#[derive(Clone, Copy, PartialEq, Eq, Structural, Debug)]
pub enum VisibilityType {
    Public,
    Private,
}

/// An event that has not been saved to the store yet.
pub struct UnsavedEvent {
    pub title: String,
    pub visibility: VisibilityType,
    pub start_time: i32,
    pub duration: i32,
    pub recurrence: RecurrenceType,
    pub group_id: i32,
}

/// An event record. An event always belongs to exactly one group; ownership
/// is transitive through the group's owner.
pub struct Event {
    pub id: i32,
    pub title: String,
    pub visibility: VisibilityType,
    pub start_time: i32,
    pub duration: i32,
    pub recurrence_type: RecurrenceType,
    pub group_id: i32,
}

impl Clone for Event {
    fn clone(&self) -> (res: Self)
        ensures
            res == *self,
    {
        Event {
            id: self.id,
            title: self.title.clone(),
            visibility: self.visibility,
            start_time: self.start_time,
            duration: self.duration,
            recurrence_type: self.recurrence_type,
            group_id: self.group_id,
        }
    }
}

/// Holds of the events whose group is owned by `user_id`.
pub open spec fn owned_event_pred(s: Store, user_id: i32) -> spec_fn(Event) -> bool {
    |e: Event| owns_group(s, user_id, e.group_id)
}

/// Holds of the events whose group the user has accepted an invitation to.
pub open spec fn accepted_event_pred(s: Store, user_id: i32) -> spec_fn(Event) -> bool {
    |e: Event|
        has_participation(s.participants@, e.group_id, user_id, ParticipationType::Accepted)
}

/// Holds of the events relevant to a user: those of groups they own and
/// those of groups they have accepted an invitation to. Rejected and
/// unanswered invitations never make an event relevant.
pub open spec fn relevant_event_pred(s: Store, user_id: i32) -> spec_fn(Event) -> bool {
    |e: Event|
        owns_group(s, user_id, e.group_id) || has_participation(
            s.participants@,
            e.group_id,
            user_id,
            ParticipationType::Accepted,
        )
}

impl Event {
    /// Returns exactly the events of groups the user owns, in store order.
    pub fn get_events_owned_by_user(store: &Store, user: &User) -> (r: Vec<Event>)
        requires
            store.wf(),
        ensures
            r@ == filtered(store.events@, owned_event_pred(*store, user.id)),
    {
        let ghost p = owned_event_pred(*store, user.id);
        let mut result: Vec<Event> = Vec::new();
        let mut i: usize = 0;
        while i < store.events.len()
            invariant
                store.wf(),
                i <= store.events@.len(),
                result@ == filtered(store.events@.take(i as int), p),
                p == owned_event_pred(*store, user.id),
            decreases store.events@.len() - i,
        {
            let candidate = &store.events[i];
            if check_owns_group(store, user.id, candidate.group_id) {
                result.push(candidate.clone());
            }
            proof {
                lemma_filtered_step(store.events@, p, i as int);
            }
            i = i + 1;
        }
        proof {
            assert(store.events@.take(store.events@.len() as int) =~= store.events@);
        }
        result
    }

    /// Returns exactly the events of groups the user has accepted an
    /// invitation to, in store order; ownership is not considered here.
    pub fn get_accepted_events_participated_in_by_user(store: &Store, user: &User) -> (r: Vec<
        Event,
    >)
        requires
            store.wf(),
        ensures
            r@ == filtered(store.events@, accepted_event_pred(*store, user.id)),
    {
        let ghost p = accepted_event_pred(*store, user.id);
        let mut result: Vec<Event> = Vec::new();
        let mut i: usize = 0;
        while i < store.events.len()
            invariant
                store.wf(),
                i <= store.events@.len(),
                result@ == filtered(store.events@.take(i as int), p),
                p == accepted_event_pred(*store, user.id),
            decreases store.events@.len() - i,
        {
            let candidate = &store.events[i];
            if check_participation(
                store,
                candidate.group_id,
                user.id,
                ParticipationType::Accepted,
            ) {
                result.push(candidate.clone());
            }
            proof {
                lemma_filtered_step(store.events@, p, i as int);
            }
            i = i + 1;
        }
        proof {
            assert(store.events@.take(store.events@.len() as int) =~= store.events@);
        }
        result
    }

    /// Returns every event the user needs to be aware of: the union of the
    /// events of groups they own and of groups they have accepted an
    /// invitation to, deduplicated by event id. No event surfaces from a
    /// group where the user's invitation is unanswered or rejected, unless
    /// they own that group.
    pub fn get_accepted_events_with_user(store: &Store, user: &User) -> (r: Vec<Event>)
        requires
            store.wf(),
        ensures
            r@ == filtered(store.events@, relevant_event_pred(*store, user.id)),
            forall|j: int|
                0 <= j < r@.len() ==> owns_group(*store, user.id, (#[trigger] r@[j]).group_id)
                    || has_participation(
                    store.participants@,
                    r@[j].group_id,
                    user.id,
                    ParticipationType::Accepted,
                ),
            forall|i: int|
                0 <= i < store.events@.len() && (owns_group(
                    *store,
                    user.id,
                    (#[trigger] store.events@[i]).group_id,
                ) || has_participation(
                    store.participants@,
                    store.events@[i].group_id,
                    user.id,
                    ParticipationType::Accepted,
                )) ==> r@.contains(store.events@[i]),
            forall|j1: int, j2: int| 0 <= j1 < j2 < r@.len() ==> r@[j1].id != r@[j2].id,
    {
        let ghost p = relevant_event_pred(*store, user.id);
        let mut result: Vec<Event> = Vec::new();
        let mut i: usize = 0;
        while i < store.events.len()
            invariant
                store.wf(),
                i <= store.events@.len(),
                result@ == filtered(store.events@.take(i as int), p),
                p == relevant_event_pred(*store, user.id),
            decreases store.events@.len() - i,
        {
            let candidate = &store.events[i];
            let owned = check_owns_group(store, user.id, candidate.group_id);
            let accepted = check_participation(
                store,
                candidate.group_id,
                user.id,
                ParticipationType::Accepted,
            );
            if owned || accepted {
                result.push(candidate.clone());
            }
            proof {
                lemma_filtered_step(store.events@, p, i as int);
            }
            i = i + 1;
        }
        proof {
            assert(store.events@.take(store.events@.len() as int) =~= store.events@);
            lemma_filtered_membership(store.events@, p);
            assert forall|j: int| 0 <= j < result@.len() implies owns_group(
                *store,
                user.id,
                (#[trigger] result@[j]).group_id,
            ) || has_participation(
                store.participants@,
                result@[j].group_id,
                user.id,
                ParticipationType::Accepted,
            ) by {
                assert(relevant_event_pred(*store, user.id)(result@[j]));
            }
            lemma_filtered_keys_unique(store.events@, p, |e: Event| e.id);
        }
        result
    }
}

impl UnsavedEvent {
    /// Appends this event to the store under the next event id and returns
    /// the stored record. The group must be stored.
    pub fn save(self, store: &mut Store) -> (r: Event)
        requires
            old(store).wf(),
            old(store).next_event_id < i32::MAX,
            has_group_with_id(old(store).groups@, self.group_id),
        ensures
            final (store).wf(),
            r == (Event {
                id: old(store).next_event_id,
                title: self.title,
                visibility: self.visibility,
                start_time: self.start_time,
                duration: self.duration,
                recurrence_type: self.recurrence,
                group_id: self.group_id,
            }),
            final (store).events@ == old(store).events@.push(r),
            final (store).next_event_id == old(store).next_event_id + 1,
            same_users(*old(store), *final (store)),
            same_friendships(*old(store), *final (store)),
            same_groups(*old(store), *final (store)),
            same_participants(*old(store), *final (store)),
    {
        let event = Event {
            id: store.next_event_id,
            title: self.title,
            visibility: self.visibility,
            start_time: self.start_time,
            duration: self.duration,
            recurrence_type: self.recurrence,
            group_id: self.group_id,
        };
        let stored = event.clone();
        store.next_event_id = store.next_event_id + 1;
        store.events.push(stored);
        event
    }
}

/// Law: once a user's roster row for a group stands at `Accepted`, every
/// stored event of that group is among the events relevant to them.
pub proof fn lemma_accepted_member_sees_group_events(s: Store, user_id: i32, group_id: i32, i: int)
    requires
        s.wf(),
        has_participation(s.participants@, group_id, user_id, ParticipationType::Accepted),
        0 <= i < s.events@.len(),
        s.events@[i].group_id == group_id,
    ensures
        filtered(s.events@, relevant_event_pred(s, user_id)).contains(s.events@[i]),
{
    lemma_filtered_membership(s.events@, relevant_event_pred(s, user_id));
}

/// Law: a user who neither owns a group nor has accepted an invitation to it
/// — in particular one whose invitation stands at `Rejected` or `NoResponse`
/// — sees none of that group's events among the events relevant to them.
pub proof fn lemma_outsider_sees_no_group_events(s: Store, user_id: i32, group_id: i32, e: Event)
    requires
        !owns_group(s, user_id, group_id),
        !has_participation(s.participants@, group_id, user_id, ParticipationType::Accepted),
        e.group_id == group_id,
    ensures
        !filtered(s.events@, relevant_event_pred(s, user_id)).contains(e),
{
    lemma_filtered_membership(s.events@, relevant_event_pred(s, user_id));
    if filtered(s.events@, relevant_event_pred(s, user_id)).contains(e) {
        let j = choose|j: int|
            0 <= j < filtered(s.events@, relevant_event_pred(s, user_id)).len() && filtered(
                s.events@,
                relevant_event_pred(s, user_id),
            )[j] == e;
        assert(relevant_event_pred(s, user_id)(e));
    }
}

} // verus!
