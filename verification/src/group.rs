use vstd::prelude::*;

use crate::seq_util::{filtered, lemma_filtered_membership, lemma_filtered_step};
use crate::store::{
    find_group_by_id, find_roster_row, find_user_by_id, group_index_by_id, has_group_with_id,
    has_participation, has_roster_row, has_user_with_id, lemma_group_index_by_id_is,
    lemma_push_keeps_group_ids, lemma_remove_participant_wf, lemma_roster_row_index_is,
    lemma_update_group_wf, lemma_update_participant_wf, lemma_user_index_by_id_is, owns_group,
    roster_row_index, same_events, same_friendships, same_groups, same_participants, same_users,
    username_by_id, Store,
};
use crate::users::User;

verus! {

/// How a participant has answered a group invitation. A row starts at
/// `NoResponse` and moves to `Accepted` or `Rejected`, which are terminal.
#[derive(Clone, Copy, PartialEq, Eq, Structural, Debug)]
pub enum ParticipationType {
    Rejected,
    Accepted,
    NoResponse,
}

/// A group record. `is_special` marks a user's implicit personal group,
/// created at signup. Ownership is immutable.
pub struct Group {
    pub id: i32,
    pub is_special: bool,
    pub name: String,
    pub owner_id: i32,
}

impl Clone for Group {
    fn clone(&self) -> (res: Self)
        ensures
            res == *self,
    {
        Group {
            id: self.id,
            is_special: self.is_special,
            name: self.name.clone(),
            owner_id: self.owner_id,
        }
    }
}

/// A group that has not been saved to the store yet.
pub struct UnsavedGroup {
    pub is_special: bool,
    pub name: String,
    pub owner_id: i32,
}

/// A roster row: a user participating in a group, with their answer so far.
#[derive(Clone, Copy, PartialEq, Eq, Structural, Debug)]
pub struct GroupParticipant {
    pub id: i32,
    pub group_id: i32,
    pub participant_id: i32,
    pub participation_type: ParticipationType,
}

/// A roster row that has not been saved to the store yet.
#[derive(Clone, Copy, PartialEq, Eq, Structural, Debug)]
pub struct UnsavedGroupParticipant {
    pub group_id: i32,
    pub participant_id: i32,
    pub participation_type: ParticipationType,
}

/// A denormalized roster entry: who participates in which owned group.
pub struct UserParticipationData {
    pub username: String,
    pub group_id: i32,
    pub user_id: i32,
}

/// Holds of the groups owned by `owner_id`.
pub open spec fn owned_group_pred(owner_id: i32) -> spec_fn(Group) -> bool {
    |g: Group| g.owner_id == owner_id
}

/// Holds of the roster rows whose group is owned by `owner_id`.
pub open spec fn owned_roster_pred(s: Store, owner_id: i32) -> spec_fn(GroupParticipant) -> bool {
    |p: GroupParticipant| owns_group(s, owner_id, p.group_id)
}

impl Group {
    /// Returns exactly the groups owned by `user`, in store order.
    pub fn get_owned_groups(store: &Store, user: &User) -> (r: Vec<Group>)
        ensures
            r@ == filtered(store.groups@, owned_group_pred(user.id)),
            forall|j: int| 0 <= j < r@.len() ==> (#[trigger] r@[j]).owner_id == user.id,
            forall|i: int|
                0 <= i < store.groups@.len() && (#[trigger] store.groups@[i]).owner_id == user.id
                    ==> r@.contains(store.groups@[i]),
    {
        let ghost p = owned_group_pred(user.id);
        let mut result: Vec<Group> = Vec::new();
        let mut i: usize = 0;
        while i < store.groups.len()
            invariant
                i <= store.groups@.len(),
                result@ == filtered(store.groups@.take(i as int), p),
                p == owned_group_pred(user.id),
            decreases store.groups@.len() - i,
        {
            let candidate = &store.groups[i];
            if candidate.owner_id == user.id {
                result.push(candidate.clone());
            }
            proof {
                lemma_filtered_step(store.groups@, p, i as int);
            }
            i = i + 1;
        }
        proof {
            assert(store.groups@.take(store.groups@.len() as int) =~= store.groups@);
            lemma_filtered_membership(store.groups@, p);
            assert forall|j: int| 0 <= j < result@.len() implies (#[trigger] result@[j]).owner_id
                == user.id by {
                assert(owned_group_pred(user.id)(result@[j]));
            }
        }
        result
    }

    /// Returns the roster of every group `user` owns: one entry per roster
    /// row of an owned group, carrying the participant's username, the group
    /// and the participant ids, in store order.
    pub fn get_owned_groups_participants(store: &Store, user: &User) -> (r: Vec<
        UserParticipationData,
    >)
        requires
            store.wf(),
        ensures
            r@.len() == filtered(store.participants@, owned_roster_pred(*store, user.id)).len(),
            forall|j: int|
                0 <= j < r@.len() ==> {
                    let row = filtered(store.participants@, owned_roster_pred(*store, user.id))[j];
                    (#[trigger] r@[j]).group_id == row.group_id && r@[j].user_id
                        == row.participant_id && r@[j].username@ == username_by_id(
                        store.users@,
                        row.participant_id,
                    )
                },
    {
        let ghost p = owned_roster_pred(*store, user.id);
        let mut result: Vec<UserParticipationData> = Vec::new();
        let mut i: usize = 0;
        while i < store.participants.len()
            invariant
                store.wf(),
                i <= store.participants@.len(),
                result@.len() == filtered(store.participants@.take(i as int), p).len(),
                forall|j: int|
                    0 <= j < result@.len() ==> {
                        let row = filtered(store.participants@.take(i as int), p)[j];
                        (#[trigger] result@[j]).group_id == row.group_id && result@[j].user_id
                            == row.participant_id && result@[j].username@ == username_by_id(
                            store.users@,
                            row.participant_id,
                        )
                    },
                p == owned_roster_pred(*store, user.id),
            decreases store.participants@.len() - i,
        {
            let row = store.participants[i];
            match find_group_by_id(&store.groups, row.group_id) {
                None => {
                    proof {
                        assert(false);
                    }
                },
                Some(gi) => {
                    if store.groups[gi].owner_id == user.id {
                        match find_user_by_id(&store.users, row.participant_id) {
                            None => {
                                proof {
                                    assert(false);
                                }
                            },
                            Some(ui) => {
                                let username = store.users[ui].username.clone();
                                result.push(
                                    UserParticipationData {
                                        username,
                                        group_id: row.group_id,
                                        user_id: row.participant_id,
                                    },
                                );
                                proof {
                                    lemma_user_index_by_id_is(
                                        store.users@,
                                        row.participant_id,
                                        ui as int,
                                    );
                                }
                            },
                        }
                    } else {
                        proof {
                            if owns_group(*store, user.id, row.group_id) {
                                let k = choose|k: int|
                                    0 <= k < store.groups@.len() && store.groups@[k].id
                                        == row.group_id && store.groups@[k].owner_id == user.id;
                                if k < gi as int {
                                    assert(store.groups@[k].id != store.groups@[gi as int].id);
                                } else if (gi as int) < k {
                                    assert(store.groups@[gi as int].id != store.groups@[k].id);
                                }
                            }
                        }
                    }
                },
            }
            proof {
                lemma_filtered_step(store.participants@, p, i as int);
            }
            i = i + 1;
        }
        proof {
            assert(store.participants@.take(store.participants@.len() as int)
                =~= store.participants@);
        }
        result
    }

    /// Returns the group with this id, if any is stored.
    pub fn get_group_by_id(store: &Store, group_id: i32) -> (r: Option<Group>)
        ensures
            r matches Some(g) ==> g.id == group_id && store.groups@.contains(g),
            r is None <==> !has_group_with_id(store.groups@, group_id),
    {
        match find_group_by_id(&store.groups, group_id) {
            None => None,
            Some(i) => {
                let g = store.groups[i].clone();
                proof {
                    assert(store.groups@[i as int] == g);
                }
                Some(g)
            },
        }
    }

    /// Renames the group in place, but only when `user` owns it. When no
    /// owned group with this id exists, nothing changes and the caller
    /// cannot tell a missing group from someone else's group.
    pub fn rename_group_by_id(store: &mut Store, group_id: i32, user: &User, new_name: String) -> (r:
        Option<Group>)
        requires
            old(store).wf(),
        ensures
            final (store).wf(),
            same_users(*old(store), *final (store)),
            same_friendships(*old(store), *final (store)),
            same_participants(*old(store), *final (store)),
            same_events(*old(store), *final (store)),
            final (store).next_group_id == old(store).next_group_id,
            !owns_group(*old(store), user.id, group_id) ==> (r is None && *final (store) == *old(
                store,
            )),
            owns_group(*old(store), user.id, group_id) ==> (r matches Some(g) && g == (Group {
                id: group_id,
                is_special: old(store).groups@[group_index_by_id(
                    old(store).groups@,
                    group_id,
                )].is_special,
                name: new_name,
                owner_id: user.id,
            }) && final (store).groups@ == old(store).groups@.update(
                group_index_by_id(old(store).groups@, group_id),
                g,
            )),
    {
        match find_group_by_id(&store.groups, group_id) {
            None => None,
            Some(i) => {
                if store.groups[i].owner_id == user.id {
                    proof {
                        lemma_group_index_by_id_is(store.groups@, group_id, i as int);
                    }
                    let updated = Group {
                        id: store.groups[i].id,
                        is_special: store.groups[i].is_special,
                        name: new_name,
                        owner_id: store.groups[i].owner_id,
                    };
                    let result = updated.clone();
                    store.groups[i] = updated;
                    proof {
                        lemma_update_group_wf(
                            *old(store),
                            *store,
                            i as int,
                            store.groups@[i as int],
                        );
                    }
                    Some(result)
                } else {
                    proof {
                        if owns_group(*store, user.id, group_id) {
                            let k = choose|k: int|
                                0 <= k < store.groups@.len() && store.groups@[k].id == group_id
                                    && store.groups@[k].owner_id == user.id;
                            if k < i as int {
                                assert(store.groups@[k].id != store.groups@[i as int].id);
                            } else if (i as int) < k {
                                assert(store.groups@[i as int].id != store.groups@[k].id);
                            }
                        }
                    }
                    None
                }
            },
        }
    }

    /// Removes the roster row linking `user_id` to this group, if one exists,
    /// and reports how many rows went away. Does not consider permissions:
    /// authorization is the caller's responsibility, settled before the call.
    pub fn remove_user(store: &mut Store, group: &Group, user_id: i32) -> (r: usize)
        requires
            old(store).wf(),
        ensures
            final (store).wf(),
            same_users(*old(store), *final (store)),
            same_friendships(*old(store), *final (store)),
            same_groups(*old(store), *final (store)),
            same_events(*old(store), *final (store)),
            final (store).next_participant_id == old(store).next_participant_id,
            has_roster_row(old(store).participants@, group.id, user_id) ==> (r == 1 && final (store).participants@
                == old(store).participants@.remove(
                roster_row_index(old(store).participants@, group.id, user_id),
            )),
            !has_roster_row(old(store).participants@, group.id, user_id) ==> (r == 0 && *final (store)
                == *old(store)),
    {
        match find_roster_row(&store.participants, group.id, user_id) {
            None => 0,
            Some(i) => {
                proof {
                    lemma_roster_row_index_is(store.participants@, group.id, user_id, i as int);
                }
                store.participants.remove(i);
                proof {
                    lemma_remove_participant_wf(*old(store), *store, i as int);
                }
                1
            },
        }
    }

    /// Records the user's answer to a group invitation: updates their own
    /// roster row for the group, in place, to the decision. Only a row that
    /// still awaits an answer transitions; `Accepted` and `Rejected` are
    /// terminal. Reports how many rows changed.
    pub fn reply_to_group_invitation(
        store: &mut Store,
        group_id: i32,
        user: &User,
        decision: ParticipationType,
    ) -> (r: usize)
        requires
            old(store).wf(),
            decision != ParticipationType::NoResponse,
        ensures
            final (store).wf(),
            same_users(*old(store), *final (store)),
            same_friendships(*old(store), *final (store)),
            same_groups(*old(store), *final (store)),
            same_events(*old(store), *final (store)),
            final (store).next_participant_id == old(store).next_participant_id,
            has_participation(
                old(store).participants@,
                group_id,
                user.id,
                ParticipationType::NoResponse,
            ) ==> (r == 1 && final (store).participants@ == old(store).participants@.update(
                roster_row_index(old(store).participants@, group_id, user.id),
                (GroupParticipant {
                    id: old(store).participants@[roster_row_index(
                        old(store).participants@,
                        group_id,
                        user.id,
                    )].id,
                    group_id: group_id,
                    participant_id: user.id,
                    participation_type: decision,
                }),
            )),
            !has_participation(
                old(store).participants@,
                group_id,
                user.id,
                ParticipationType::NoResponse,
            ) ==> (r == 0 && *final (store) == *old(store)),
    {
        match find_roster_row(&store.participants, group_id, user.id) {
            None => 0,
            Some(i) => {
                proof {
                    lemma_roster_row_index_is(store.participants@, group_id, user.id, i as int);
                }
                let row = store.participants[i];
                if row.participation_type == ParticipationType::NoResponse {
                    let updated = GroupParticipant {
                        id: row.id,
                        group_id: row.group_id,
                        participant_id: row.participant_id,
                        participation_type: decision,
                    };
                    store.participants[i] = updated;
                    proof {
                        lemma_update_participant_wf(*old(store), *store, i as int, updated);
                    }
                    1
                } else {
                    proof {
                        if has_participation(
                            store.participants@,
                            group_id,
                            user.id,
                            ParticipationType::NoResponse,
                        ) {
                            let k = choose|k: int|
                                0 <= k < store.participants@.len() && store.participants@[k].group_id
                                    == group_id && store.participants@[k].participant_id == user.id
                                    && store.participants@[k].participation_type
                                    == ParticipationType::NoResponse;
                            lemma_roster_row_index_is(store.participants@, group_id, user.id, k);
                        }
                    }
                    0
                }
            },
        }
    }
}

/// Law: answering a still-unanswered invitation records exactly that
/// answer, and only it: afterwards the user's row for the group carries the
/// decision, and no row of theirs for the group awaits an answer any more.
/// `post` is the roster that a reply with `decision` leaves behind.
pub proof fn lemma_reply_records_answer(
    pre: Store,
    post: Store,
    group_id: i32,
    user_id: i32,
    decision: ParticipationType,
)
    requires
        pre.wf(),
        decision != ParticipationType::NoResponse,
        has_participation(pre.participants@, group_id, user_id, ParticipationType::NoResponse),
        post.participants@ == pre.participants@.update(
            roster_row_index(pre.participants@, group_id, user_id),
            (GroupParticipant {
                id: pre.participants@[roster_row_index(pre.participants@, group_id, user_id)].id,
                group_id: group_id,
                participant_id: user_id,
                participation_type: decision,
            }),
        ),
    ensures
        has_participation(post.participants@, group_id, user_id, decision),
        !has_participation(post.participants@, group_id, user_id, ParticipationType::NoResponse),
{
    let idx = roster_row_index(pre.participants@, group_id, user_id);
    assert(0 <= idx < pre.participants@.len() && pre.participants@[idx].group_id == group_id
        && pre.participants@[idx].participant_id == user_id);
    assert(post.participants@[idx].participation_type == decision);
    if has_participation(post.participants@, group_id, user_id, ParticipationType::NoResponse) {
        let k = choose|k: int|
            0 <= k < post.participants@.len() && post.participants@[k].group_id == group_id
                && post.participants@[k].participant_id == user_id
                && post.participants@[k].participation_type == ParticipationType::NoResponse;
        assert(k != idx);
        assert(post.participants@[k] == pre.participants@[k]);
        lemma_roster_row_index_is(pre.participants@, group_id, user_id, k);
    }
}

impl UnsavedGroup {
    /// Appends this group to the store under the next group id and returns
    /// the stored record. The owner must be a stored user.
    pub fn save(self, store: &mut Store) -> (r: Group)
        requires
            old(store).wf(),
            old(store).next_group_id < i32::MAX,
            has_user_with_id(old(store).users@, self.owner_id),
        ensures
            final (store).wf(),
            r == (Group {
                id: old(store).next_group_id,
                is_special: self.is_special,
                name: self.name,
                owner_id: self.owner_id,
            }),
            final (store).groups@ == old(store).groups@.push(r),
            final (store).next_group_id == old(store).next_group_id + 1,
            same_users(*old(store), *final (store)),
            same_friendships(*old(store), *final (store)),
            same_participants(*old(store), *final (store)),
            same_events(*old(store), *final (store)),
    {
        let group = Group {
            id: store.next_group_id,
            is_special: self.is_special,
            name: self.name,
            owner_id: self.owner_id,
        };
        let stored = group.clone();
        store.next_group_id = store.next_group_id + 1;
        store.groups.push(stored);
        proof {
            lemma_push_keeps_group_ids(old(store).groups@, group);
        }
        group
    }
}

impl UnsavedGroupParticipant {
    /// Appends this roster row to the store under the next row id and
    /// returns the stored record. The group and the participant must be
    /// stored, and the pair must not have a row yet.
    pub fn save(self, store: &mut Store) -> (r: GroupParticipant)
        requires
            old(store).wf(),
            old(store).next_participant_id < i32::MAX,
            has_group_with_id(old(store).groups@, self.group_id),
            has_user_with_id(old(store).users@, self.participant_id),
            !has_roster_row(old(store).participants@, self.group_id, self.participant_id),
        ensures
            final (store).wf(),
            r == (GroupParticipant {
                id: old(store).next_participant_id,
                group_id: self.group_id,
                participant_id: self.participant_id,
                participation_type: self.participation_type,
            }),
            final (store).participants@ == old(store).participants@.push(r),
            final (store).next_participant_id == old(store).next_participant_id + 1,
            same_users(*old(store), *final (store)),
            same_friendships(*old(store), *final (store)),
            same_groups(*old(store), *final (store)),
            same_events(*old(store), *final (store)),
    {
        let row = GroupParticipant {
            id: store.next_participant_id,
            group_id: self.group_id,
            participant_id: self.participant_id,
            participation_type: self.participation_type,
        };
        store.next_participant_id = store.next_participant_id + 1;
        store.participants.push(row);
        row
    }
}

} // verus!
