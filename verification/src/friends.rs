use vstd::prelude::*;

use crate::seq_util::{
    filtered, lemma_filtered_keys_unique, lemma_filtered_membership, lemma_filtered_step,
};
use crate::store::{
    edge_exists, find_user_by_name, has_edge, has_user_with_id, has_user_with_name,
    is_stored_user, lemma_user_index_by_name_is, same_events, same_groups, same_participants,
    same_users, user_index_by_name, Store,
};
use crate::users::User;

verus! {

/// A friend relation between two users. It is unidirectional: the owner is
/// the user who initiated the friendship.
#[derive(Clone, Copy, PartialEq, Eq, Structural, Debug)]
pub struct Friendship {
    pub id: i32,
    pub owner_id: i32,
    pub friend_id: i32,
}

/// A friendship that has not been saved to the store yet.
#[derive(Clone, Copy, PartialEq, Eq, Structural, Debug)]
pub struct UnsavedFrienship {
    pub owner_id: i32,
    pub friend_id: i32,
}

/// The outcome of adding a friend: whether it was successful, and why it
/// failed if not.
#[derive(Clone, Copy, PartialEq, Eq, Structural, Debug)]
pub enum FriendAddResult {
    UsernameNotFound,
    TriedFriendThemselves,
    AlreadyFriends,
    Success,
}

/// Holds of the users that an outgoing friendship edge of `owner_id` points at.
pub open spec fn friend_pred(s: Store, owner_id: i32) -> spec_fn(User) -> bool {
    |u: User| has_edge(s.friendships@, owner_id, u.id)
}

/// What `add_friend` decides, in the order the checks short-circuit:
/// a self-friend attempt first, then an unknown username, then an existing
/// edge; only then is the edge inserted.
pub open spec fn add_friend_outcome(s: Store, owner: User, friend_username: Seq<char>) -> FriendAddResult {
    if friend_username == owner.username@ {
        FriendAddResult::TriedFriendThemselves
    } else if !has_user_with_name(s.users@, friend_username) {
        FriendAddResult::UsernameNotFound
    } else if has_edge(
        s.friendships@,
        owner.id,
        s.users@[user_index_by_name(s.users@, friend_username)].id,
    ) {
        FriendAddResult::AlreadyFriends
    } else {
        FriendAddResult::Success
    }
}

impl Friendship {
    /// Returns all friends of a user: exactly the stored users reachable via
    /// an outgoing edge from `user`. The edge is not symmetric, so nobody
    /// appears here merely for having added `user` themselves, and `user`
    /// never appears in their own friend list.
    pub fn get_friends(store: &Store, user: &User) -> (r: Vec<User>)
        requires
            store.wf(),
        ensures
            r@ == filtered(store.users@, friend_pred(*store, user.id)),
            forall|j: int|
                0 <= j < r@.len() ==> (#[trigger] r@[j]).id != user.id && is_stored_user(
                    *store,
                    r@[j],
                ) && has_edge(store.friendships@, user.id, r@[j].id),
            forall|i: int|
                0 <= i < store.users@.len() && has_edge(
                    store.friendships@,
                    user.id,
                    (#[trigger] store.users@[i]).id,
                ) ==> r@.contains(store.users@[i]),
            forall|j1: int, j2: int| 0 <= j1 < j2 < r@.len() ==> r@[j1].id != r@[j2].id,
    {
        let ghost p = friend_pred(*store, user.id);
        let mut result: Vec<User> = Vec::new();
        let mut i: usize = 0;
        while i < store.users.len()
            invariant
                store.wf(),
                i <= store.users@.len(),
                result@ == filtered(store.users@.take(i as int), p),
                p == friend_pred(*store, user.id),
            decreases store.users@.len() - i,
        {
            let candidate = &store.users[i];
            if edge_exists(&store.friendships, user.id, candidate.id) {
                result.push(candidate.clone());
            }
            proof {
                lemma_filtered_step(store.users@, p, i as int);
            }
            i = i + 1;
        }
        proof {
            assert(store.users@.take(store.users@.len() as int) =~= store.users@);
            lemma_filtered_membership(store.users@, p);
            assert forall|j: int| 0 <= j < result@.len() implies (#[trigger] result@[j]).id
                != user.id && is_stored_user(*store, result@[j]) && has_edge(
                store.friendships@,
                user.id,
                result@[j].id,
            ) by {
                assert(friend_pred(*store, user.id)(result@[j]));
                let e = choose|e: int|
                    0 <= e < store.friendships@.len() && store.friendships@[e].owner_id == user.id
                        && store.friendships@[e].friend_id == result@[j].id;
                assert(store.friendships@[e].owner_id != store.friendships@[e].friend_id);
            }
            lemma_filtered_keys_unique(store.users@, p, |u: User| u.id);
        }
        result
    }

    /// Adds a friend edge from `friendship_owner` to the user named
    /// `friend_username`. The checks short-circuit in a fixed order: self,
    /// unknown username, existing edge; only a `Success` outcome touches the
    /// store, and it appends exactly the one new edge.
    pub fn add_friend(store: &mut Store, friendship_owner: &User, friend_username: &String) -> (r:
        FriendAddResult)
        requires
            old(store).wf(),
            is_stored_user(*old(store), *friendship_owner),
            old(store).next_friendship_id < i32::MAX,
        ensures
            final (store).wf(),
            r == add_friend_outcome(*old(store), *friendship_owner, friend_username@),
            r != FriendAddResult::Success ==> *final (store) == *old(store),
            r == FriendAddResult::Success ==> (final (store).friendships@ == old(
                store,
            ).friendships@.push(
                (Friendship {
                    id: old(store).next_friendship_id,
                    owner_id: friendship_owner.id,
                    friend_id: old(store).users@[user_index_by_name(
                        old(store).users@,
                        friend_username@,
                    )].id,
                }),
            ) && final (store).next_friendship_id == old(store).next_friendship_id + 1),
            same_users(*old(store), *final (store)),
            same_groups(*old(store), *final (store)),
            same_participants(*old(store), *final (store)),
            same_events(*old(store), *final (store)),
    {
        if friendship_owner.username == *friend_username {
            return FriendAddResult::TriedFriendThemselves;
        }
        match find_user_by_name(&store.users, friend_username) {
            None => FriendAddResult::UsernameNotFound,
            Some(i) => {
                let friend_id = store.users[i].id;
                proof {
                    lemma_user_index_by_name_is(store.users@, friend_username@, i as int);
                }
                if edge_exists(&store.friendships, friendship_owner.id, friend_id) {
                    FriendAddResult::AlreadyFriends
                } else {
                    proof {
                        let k = choose|k: int|
                            0 <= k < store.users@.len() && store.users@[k] == *friendship_owner;
                        assert(store.users@[k].id == friendship_owner.id);
                        if k < i as int {
                            assert(store.users@[k].id != store.users@[i as int].id);
                        } else if (i as int) < k {
                            assert(store.users@[i as int].id != store.users@[k].id);
                        }
                        assert(friendship_owner.id != friend_id);
                    }
                    let friendship = UnsavedFrienship {
                        owner_id: friendship_owner.id,
                        friend_id,
                    };
                    let _saved = friendship.save(store);
                    FriendAddResult::Success
                }
            },
        }
    }
}

impl UnsavedFrienship {
    /// Appends this edge to the store under the next friendship id. The
    /// caller has already established that the edge is new, does not loop
    /// back to its owner, and links two stored users.
    pub fn save(self, store: &mut Store) -> (r: Friendship)
        requires
            old(store).wf(),
            old(store).next_friendship_id < i32::MAX,
            self.owner_id != self.friend_id,
            has_user_with_id(old(store).users@, self.owner_id),
            has_user_with_id(old(store).users@, self.friend_id),
            !has_edge(old(store).friendships@, self.owner_id, self.friend_id),
        ensures
            final (store).wf(),
            r == (Friendship {
                id: old(store).next_friendship_id,
                owner_id: self.owner_id,
                friend_id: self.friend_id,
            }),
            final (store).friendships@ == old(store).friendships@.push(r),
            final (store).next_friendship_id == old(store).next_friendship_id + 1,
            same_users(*old(store), *final (store)),
            same_groups(*old(store), *final (store)),
            same_participants(*old(store), *final (store)),
            same_events(*old(store), *final (store)),
    {
        let friendship = Friendship {
            id: store.next_friendship_id,
            owner_id: self.owner_id,
            friend_id: self.friend_id,
        };
        store.next_friendship_id = store.next_friendship_id + 1;
        store.friendships.push(friendship);
        friendship
    }
}

/// Law: trying to befriend yourself is always rejected as a self-friend
/// attempt, whatever the store holds.
pub proof fn lemma_add_friend_self(s: Store, owner: User)
    ensures
        add_friend_outcome(s, owner, owner.username@) == FriendAddResult::TriedFriendThemselves,
{
}

/// Law: right after an add-friend succeeds, adding the same friend again is
/// rejected as already-friends. `s1` is the store that a `Success` outcome
/// of `add_friend` on `s0` leaves behind.
pub proof fn lemma_add_friend_twice(s0: Store, s1: Store, owner: User, friend_username: Seq<char>)
    requires
        s0.wf(),
        add_friend_outcome(s0, owner, friend_username) == FriendAddResult::Success,
        s1.friendships@ == s0.friendships@.push(
            (Friendship {
                id: s0.next_friendship_id,
                owner_id: owner.id,
                friend_id: s0.users@[user_index_by_name(s0.users@, friend_username)].id,
            }),
        ),
        same_users(s0, s1),
    ensures
        add_friend_outcome(s1, owner, friend_username) == FriendAddResult::AlreadyFriends,
{
    let friend_id = s0.users@[user_index_by_name(s0.users@, friend_username)].id;
    let n = s0.friendships@.len() as int;
    assert(s1.friendships@[n].owner_id == owner.id && s1.friendships@[n].friend_id == friend_id);
    assert(has_edge(s1.friendships@, owner.id, friend_id));
}

} // verus!
