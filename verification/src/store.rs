use vstd::prelude::*;

use crate::events::Event;
use crate::friends::Friendship;
use crate::group::{Group, GroupParticipant, ParticipationType};
use crate::users::User;

verus! {

/// The persistence port, modelled as plain relational state: one table per
/// entity, plus the id each table will hand out next. Every core call takes
/// the store explicitly; the caller owns the transaction boundary.
pub struct Store {
    pub users: Vec<User>,
    pub friendships: Vec<Friendship>,
    pub groups: Vec<Group>,
    pub participants: Vec<GroupParticipant>,
    pub events: Vec<Event>,
    pub next_user_id: i32,
    pub next_friendship_id: i32,
    pub next_group_id: i32,
    pub next_participant_id: i32,
    pub next_event_id: i32,
}

/// The error signal of the persistence layer: a uniqueness constraint was
/// violated. It is distinguishable from every domain outcome.
#[derive(Clone, Copy, PartialEq, Eq, Structural, Debug)]
pub enum StoreError {
    UniqueViolation,
}

pub open spec fn has_user_with_id(users: Seq<User>, id: i32) -> bool {
    exists|i: int| 0 <= i < users.len() && users[i].id == id
}

pub open spec fn has_user_with_name(users: Seq<User>, name: Seq<char>) -> bool {
    exists|i: int| 0 <= i < users.len() && users[i].username@ == name
}

/// The position of the user with this username; meaningful only when the
/// username occurs, and unique when usernames are unique.
pub open spec fn user_index_by_name(users: Seq<User>, name: Seq<char>) -> int {
    choose|i: int| 0 <= i < users.len() && users[i].username@ == name
}

/// The position of the user with this id; meaningful only when the id occurs.
pub open spec fn user_index_by_id(users: Seq<User>, id: i32) -> int {
    choose|i: int| 0 <= i < users.len() && users[i].id == id
}

/// The username of the user with this id.
pub open spec fn username_by_id(users: Seq<User>, id: i32) -> Seq<char> {
    users[user_index_by_id(users, id)].username@
}

pub open spec fn has_edge(fs: Seq<Friendship>, owner_id: i32, friend_id: i32) -> bool {
    exists|i: int| 0 <= i < fs.len() && fs[i].owner_id == owner_id && fs[i].friend_id == friend_id
}

pub open spec fn has_group_with_id(groups: Seq<Group>, id: i32) -> bool {
    exists|i: int| 0 <= i < groups.len() && groups[i].id == id
}

/// The position of the group with this id; meaningful only when the id occurs.
pub open spec fn group_index_by_id(groups: Seq<Group>, id: i32) -> int {
    choose|i: int| 0 <= i < groups.len() && groups[i].id == id
}

/// Whether some roster row links this user to this group, whatever the answer.
pub open spec fn has_roster_row(parts: Seq<GroupParticipant>, group_id: i32, user_id: i32) -> bool {
    exists|i: int|
        0 <= i < parts.len() && parts[i].group_id == group_id && parts[i].participant_id == user_id
}

/// The position of the roster row for this group and user; meaningful only
/// when such a row exists, and unique when rows are pair-unique.
pub open spec fn roster_row_index(parts: Seq<GroupParticipant>, group_id: i32, user_id: i32) -> int {
    choose|i: int|
        0 <= i < parts.len() && parts[i].group_id == group_id && parts[i].participant_id == user_id
}

/// Whether this user's roster row for this group carries this answer.
pub open spec fn has_participation(
    parts: Seq<GroupParticipant>,
    group_id: i32,
    user_id: i32,
    t: ParticipationType,
) -> bool {
    exists|i: int|
        0 <= i < parts.len() && parts[i].group_id == group_id && parts[i].participant_id == user_id
            && parts[i].participation_type == t
}

/// The principal is a user record that stands in the store, field for field.
pub open spec fn is_stored_user(s: Store, u: User) -> bool {
    exists|i: int| 0 <= i < s.users@.len() && s.users@[i] == u
}

/// Whether the user owns the group with this id.
pub open spec fn owns_group(s: Store, user_id: i32, group_id: i32) -> bool {
    exists|i: int|
        0 <= i < s.groups@.len() && s.groups@[i].id == group_id && s.groups@[i].owner_id == user_id
}

pub open spec fn same_users(a: Store, b: Store) -> bool {
    a.users@ == b.users@ && a.next_user_id == b.next_user_id
}

pub open spec fn same_friendships(a: Store, b: Store) -> bool {
    a.friendships@ == b.friendships@ && a.next_friendship_id == b.next_friendship_id
}

pub open spec fn same_groups(a: Store, b: Store) -> bool {
    a.groups@ == b.groups@ && a.next_group_id == b.next_group_id
}

pub open spec fn same_participants(a: Store, b: Store) -> bool {
    a.participants@ == b.participants@ && a.next_participant_id == b.next_participant_id
}

pub open spec fn same_events(a: Store, b: Store) -> bool {
    a.events@ == b.events@ && a.next_event_id == b.next_event_id
}

impl Store {
    /// User ids and usernames are unique, and ids stay below the counter.
    pub open spec fn users_ok(self) -> bool {
        &&& forall|i: int, j: int|
            0 <= i < j < self.users@.len() ==> self.users@[i].id != self.users@[j].id
        &&& forall|i: int, j: int|
            0 <= i < j < self.users@.len() ==> self.users@[i].username@ != self.users@[j].username@
        &&& forall|i: int|
            0 <= i < self.users@.len() ==> #[trigger] self.users@[i].id < self.next_user_id
    }

    /// Friendship edges never point at their own owner, at most one edge per
    /// ordered pair exists, ids are unique and bounded, and both endpoints
    /// are stored users.
    pub open spec fn friendships_ok(self) -> bool {
        &&& forall|i: int, j: int|
            0 <= i < j < self.friendships@.len() ==> self.friendships@[i].id
                != self.friendships@[j].id
        &&& forall|i: int|
            0 <= i < self.friendships@.len() ==> #[trigger] self.friendships@[i].id
                < self.next_friendship_id
        &&& forall|i: int|
            0 <= i < self.friendships@.len() ==> #[trigger] self.friendships@[i].owner_id
                != self.friendships@[i].friend_id
        &&& forall|i: int, j: int|
            0 <= i < j < self.friendships@.len() ==> !(self.friendships@[i].owner_id
                == self.friendships@[j].owner_id && self.friendships@[i].friend_id
                == self.friendships@[j].friend_id)
        &&& forall|i: int|
            0 <= i < self.friendships@.len() ==> has_user_with_id(
                self.users@,
                #[trigger] self.friendships@[i].owner_id,
            ) && has_user_with_id(self.users@, self.friendships@[i].friend_id)
    }

    /// Group ids are unique and bounded, and every owner is a stored user.
    pub open spec fn groups_ok(self) -> bool {
        &&& forall|i: int, j: int|
            0 <= i < j < self.groups@.len() ==> self.groups@[i].id != self.groups@[j].id
        &&& forall|i: int|
            0 <= i < self.groups@.len() ==> #[trigger] self.groups@[i].id < self.next_group_id
        &&& forall|i: int|
            0 <= i < self.groups@.len() ==> has_user_with_id(
                self.users@,
                #[trigger] self.groups@[i].owner_id,
            )
    }

    /// Roster rows have unique bounded ids, at most one row per
    /// (group, participant) pair, and reference a stored group and user.
    pub open spec fn participants_ok(self) -> bool {
        &&& forall|i: int, j: int|
            0 <= i < j < self.participants@.len() ==> self.participants@[i].id
                != self.participants@[j].id
        &&& forall|i: int|
            0 <= i < self.participants@.len() ==> #[trigger] self.participants@[i].id
                < self.next_participant_id
        &&& forall|i: int, j: int|
            0 <= i < j < self.participants@.len() ==> !(self.participants@[i].group_id
                == self.participants@[j].group_id && self.participants@[i].participant_id
                == self.participants@[j].participant_id)
        &&& forall|i: int|
            0 <= i < self.participants@.len() ==> has_group_with_id(
                self.groups@,
                #[trigger] self.participants@[i].group_id,
            ) && has_user_with_id(self.users@, self.participants@[i].participant_id)
    }

    /// Event ids are unique and bounded, and every event's group is stored.
    pub open spec fn events_ok(self) -> bool {
        &&& forall|i: int, j: int|
            0 <= i < j < self.events@.len() ==> self.events@[i].id != self.events@[j].id
        &&& forall|i: int|
            0 <= i < self.events@.len() ==> #[trigger] self.events@[i].id < self.next_event_id
        &&& forall|i: int|
            0 <= i < self.events@.len() ==> has_group_with_id(
                self.groups@,
                #[trigger] self.events@[i].group_id,
            )
    }

    /// The store's well-formedness invariant: every constructor establishes
    /// it and every operation preserves it.
    pub open spec fn wf(self) -> bool {
        &&& self.users_ok()
        &&& self.friendships_ok()
        &&& self.groups_ok()
        &&& self.participants_ok()
        &&& self.events_ok()
    }

    /// An empty store, ready to hand out ids starting at 1.
    pub fn new() -> (s: Store)
        ensures
            s.wf(),
            s.users@ == Seq::<User>::empty(),
            s.friendships@ == Seq::<Friendship>::empty(),
            s.groups@ == Seq::<Group>::empty(),
            s.participants@ == Seq::<GroupParticipant>::empty(),
            s.events@ == Seq::<Event>::empty(),
            s.next_user_id == 1 && s.next_friendship_id == 1 && s.next_group_id == 1
                && s.next_participant_id == 1 && s.next_event_id == 1,
    {
        Store {
            users: Vec::new(),
            friendships: Vec::new(),
            groups: Vec::new(),
            participants: Vec::new(),
            events: Vec::new(),
            next_user_id: 1,
            next_friendship_id: 1,
            next_group_id: 1,
            next_participant_id: 1,
            next_event_id: 1,
        }
    }
}

/// A username that occurs in a sequence of users with unique usernames occurs
/// at exactly the chosen index.
pub proof fn lemma_user_index_by_name_is(users: Seq<User>, name: Seq<char>, k: int)
    requires
        forall|i: int, j: int| 0 <= i < j < users.len() ==> users[i].username@ != users[j].username@,
        0 <= k < users.len(),
        users[k].username@ == name,
    ensures
        user_index_by_name(users, name) == k,
{
    let i = user_index_by_name(users, name);
    assert(0 <= i < users.len() && users[i].username@ == name);
    if i < k {
        assert(users[i].username@ != users[k].username@);
    } else if k < i {
        assert(users[k].username@ != users[i].username@);
    }
}

/// A user id that occurs in a sequence of users with unique ids occurs at
/// exactly the chosen index.
pub proof fn lemma_user_index_by_id_is(users: Seq<User>, id: i32, k: int)
    requires
        forall|i: int, j: int| 0 <= i < j < users.len() ==> users[i].id != users[j].id,
        0 <= k < users.len(),
        users[k].id == id,
    ensures
        user_index_by_id(users, id) == k,
{
    let i = user_index_by_id(users, id);
    assert(0 <= i < users.len() && users[i].id == id);
    if i < k {
        assert(users[i].id != users[k].id);
    } else if k < i {
        assert(users[k].id != users[i].id);
    }
}

/// A group id that occurs in a sequence of groups with unique ids occurs at
/// exactly the chosen index.
pub proof fn lemma_group_index_by_id_is(groups: Seq<Group>, id: i32, k: int)
    requires
        forall|i: int, j: int| 0 <= i < j < groups.len() ==> groups[i].id != groups[j].id,
        0 <= k < groups.len(),
        groups[k].id == id,
    ensures
        group_index_by_id(groups, id) == k,
{
    let i = group_index_by_id(groups, id);
    assert(0 <= i < groups.len() && groups[i].id == id);
    if i < k {
        assert(groups[i].id != groups[k].id);
    } else if k < i {
        assert(groups[k].id != groups[i].id);
    }
}

/// A (group, participant) pair that occurs in a pair-unique roster occurs at
/// exactly the chosen index.
pub proof fn lemma_roster_row_index_is(
    parts: Seq<GroupParticipant>,
    group_id: i32,
    user_id: i32,
    k: int,
)
    requires
        forall|i: int, j: int|
            0 <= i < j < parts.len() ==> !(parts[i].group_id == parts[j].group_id
                && parts[i].participant_id == parts[j].participant_id),
        0 <= k < parts.len(),
        parts[k].group_id == group_id,
        parts[k].participant_id == user_id,
    ensures
        roster_row_index(parts, group_id, user_id) == k,
{
    let i = roster_row_index(parts, group_id, user_id);
    assert(0 <= i < parts.len() && parts[i].group_id == group_id && parts[i].participant_id
        == user_id);
    if i < k {
        assert(!(parts[i].group_id == parts[k].group_id && parts[i].participant_id
            == parts[k].participant_id));
    } else if k < i {
        assert(!(parts[k].group_id == parts[i].group_id && parts[k].participant_id
            == parts[i].participant_id));
    }
}

/// Appending a user keeps every user id that was present.
pub proof fn lemma_push_keeps_user_ids(users: Seq<User>, u: User)
    ensures
        forall|id: i32| has_user_with_id(users, id) ==> has_user_with_id(users.push(u), id),
{
    assert forall|id: i32| has_user_with_id(users, id) implies has_user_with_id(
        users.push(u),
        id,
    ) by {
        let i = choose|i: int| 0 <= i < users.len() && users[i].id == id;
        assert(users.push(u)[i] == users[i]);
    }
}

/// Appending a group keeps every group id that was present.
pub proof fn lemma_push_keeps_group_ids(groups: Seq<Group>, g: Group)
    ensures
        forall|id: i32| has_group_with_id(groups, id) ==> has_group_with_id(groups.push(g), id),
{
    assert forall|id: i32| has_group_with_id(groups, id) implies has_group_with_id(
        groups.push(g),
        id,
    ) by {
        let i = choose|i: int| 0 <= i < groups.len() && groups[i].id == id;
        assert(groups.push(g)[i] == groups[i]);
    }
}

/// Removing one roster row keeps the store well-formed: every remaining row
/// was already present, so uniqueness and referential integrity carry over.
pub proof fn lemma_remove_participant_wf(pre: Store, post: Store, i: int)
    requires
        pre.wf(),
        0 <= i < pre.participants@.len(),
        post.participants@ == pre.participants@.remove(i),
        post.users@ == pre.users@,
        post.friendships@ == pre.friendships@,
        post.groups@ == pre.groups@,
        post.events@ == pre.events@,
        post.next_user_id == pre.next_user_id,
        post.next_friendship_id == pre.next_friendship_id,
        post.next_group_id == pre.next_group_id,
        post.next_participant_id == pre.next_participant_id,
        post.next_event_id == pre.next_event_id,
    ensures
        post.wf(),
{
    pre.participants@.remove_ensures(i);
    assert forall|a: int| 0 <= a < post.participants@.len() implies post.participants@[a]
        == pre.participants@[if a < i {
        a
    } else {
        a + 1
    }] by {
        if a < i {
            assert(pre.participants@.remove(i)[a] == pre.participants@[a]);
        } else {
            assert(pre.participants@.remove(i)[a] == pre.participants@[a + 1]);
        }
    }
}

/// Updating one roster row in place, keeping its id and its
/// (group, participant) pair, keeps the store well-formed.
pub proof fn lemma_update_participant_wf(pre: Store, post: Store, i: int, row: GroupParticipant)
    requires
        pre.wf(),
        0 <= i < pre.participants@.len(),
        row.id == pre.participants@[i].id,
        row.group_id == pre.participants@[i].group_id,
        row.participant_id == pre.participants@[i].participant_id,
        post.participants@ == pre.participants@.update(i, row),
        post.users@ == pre.users@,
        post.friendships@ == pre.friendships@,
        post.groups@ == pre.groups@,
        post.events@ == pre.events@,
        post.next_user_id == pre.next_user_id,
        post.next_friendship_id == pre.next_friendship_id,
        post.next_group_id == pre.next_group_id,
        post.next_participant_id == pre.next_participant_id,
        post.next_event_id == pre.next_event_id,
    ensures
        post.wf(),
{
    assert(forall|a: int|
        0 <= a < post.participants@.len() ==> #[trigger] post.participants@[a].id
            == pre.participants@[a].id && post.participants@[a].group_id
            == pre.participants@[a].group_id && post.participants@[a].participant_id
            == pre.participants@[a].participant_id);
}

/// Updating one group in place, keeping its id and owner, keeps the store
/// well-formed.
pub proof fn lemma_update_group_wf(pre: Store, post: Store, i: int, g: Group)
    requires
        pre.wf(),
        0 <= i < pre.groups@.len(),
        g.id == pre.groups@[i].id,
        g.owner_id == pre.groups@[i].owner_id,
        post.groups@ == pre.groups@.update(i, g),
        post.users@ == pre.users@,
        post.friendships@ == pre.friendships@,
        post.participants@ == pre.participants@,
        post.events@ == pre.events@,
        post.next_user_id == pre.next_user_id,
        post.next_friendship_id == pre.next_friendship_id,
        post.next_group_id == pre.next_group_id,
        post.next_participant_id == pre.next_participant_id,
        post.next_event_id == pre.next_event_id,
    ensures
        post.wf(),
{
    assert(forall|a: int|
        0 <= a < post.groups@.len() ==> #[trigger] post.groups@[a].id == pre.groups@[a].id
            && post.groups@[a].owner_id == pre.groups@[a].owner_id);
    assert forall|id: i32| has_group_with_id(pre.groups@, id) implies has_group_with_id(
        post.groups@,
        id,
    ) by {
        let k = choose|k: int| 0 <= k < pre.groups@.len() && pre.groups@[k].id == id;
        assert(post.groups@[k].id == pre.groups@[k].id);
    }
}

/// In a pair-unique roster, the one row linking a user to a group carries
/// one answer: a row with one answer rules out a row with another.
pub proof fn lemma_one_row_one_answer(
    parts: Seq<GroupParticipant>,
    group_id: i32,
    user_id: i32,
    t1: ParticipationType,
    t2: ParticipationType,
)
    requires
        forall|i: int, j: int|
            0 <= i < j < parts.len() ==> !(parts[i].group_id == parts[j].group_id
                && parts[i].participant_id == parts[j].participant_id),
        has_participation(parts, group_id, user_id, t1),
        t1 != t2,
    ensures
        !has_participation(parts, group_id, user_id, t2),
{
    let a = choose|a: int|
        0 <= a < parts.len() && parts[a].group_id == group_id && parts[a].participant_id == user_id
            && parts[a].participation_type == t1;
    if has_participation(parts, group_id, user_id, t2) {
        let b = choose|b: int|
            0 <= b < parts.len() && parts[b].group_id == group_id && parts[b].participant_id
                == user_id && parts[b].participation_type == t2;
        if a < b {
            assert(!(parts[a].group_id == parts[b].group_id && parts[a].participant_id
                == parts[b].participant_id));
        } else if b < a {
            assert(!(parts[b].group_id == parts[a].group_id && parts[b].participant_id
                == parts[a].participant_id));
        }
    }
}

/// Decides whether the user owns the group with this id.
pub fn check_owns_group(store: &Store, user_id: i32, group_id: i32) -> (r: bool)
    requires
        store.wf(),
    ensures
        r == owns_group(*store, user_id, group_id),
{
    match find_group_by_id(&store.groups, group_id) {
        None => false,
        Some(i) => {
            let is_owner = store.groups[i].owner_id == user_id;
            proof {
                if !is_owner && owns_group(*store, user_id, group_id) {
                    let k = choose|k: int|
                        0 <= k < store.groups@.len() && store.groups@[k].id == group_id
                            && store.groups@[k].owner_id == user_id;
                    if k < i as int {
                        assert(store.groups@[k].id != store.groups@[i as int].id);
                    } else if (i as int) < k {
                        assert(store.groups@[i as int].id != store.groups@[k].id);
                    }
                }
            }
            is_owner
        },
    }
}

/// Decides whether the user's roster row for this group carries this answer.
pub fn check_participation(
    store: &Store,
    group_id: i32,
    user_id: i32,
    t: ParticipationType,
) -> (r: bool)
    requires
        store.wf(),
    ensures
        r == has_participation(store.participants@, group_id, user_id, t),
{
    match find_roster_row(&store.participants, group_id, user_id) {
        None => false,
        Some(i) => {
            let found = store.participants[i].participation_type == t;
            proof {
                if !found && has_participation(store.participants@, group_id, user_id, t) {
                    let k = choose|k: int|
                        0 <= k < store.participants@.len() && store.participants@[k].group_id
                            == group_id && store.participants@[k].participant_id == user_id
                            && store.participants@[k].participation_type == t;
                    lemma_roster_row_index_is(store.participants@, group_id, user_id, k);
                    lemma_roster_row_index_is(store.participants@, group_id, user_id, i as int);
                }
            }
            found
        },
    }
}

/// Finds the position of the user with this username, if any.
pub fn find_user_by_name(users: &Vec<User>, name: &String) -> (r: Option<usize>)
    ensures
        r matches Some(i) ==> i < users@.len() && users@[i as int].username@ == name@,
        r is None ==> !has_user_with_name(users@, name@),
{
    let mut i: usize = 0;
    while i < users.len()
        invariant
            i <= users@.len(),
            forall|k: int| 0 <= k < i ==> users@[k].username@ != name@,
        decreases users@.len() - i,
    {
        if users[i].username == *name {
            return Some(i);
        }
        i = i + 1;
    }
    None
}

/// Finds the position of the user with this id, if any.
pub fn find_user_by_id(users: &Vec<User>, id: i32) -> (r: Option<usize>)
    ensures
        r matches Some(i) ==> i < users@.len() && users@[i as int].id == id,
        r is None ==> !has_user_with_id(users@, id),
{
    let mut i: usize = 0;
    while i < users.len()
        invariant
            i <= users@.len(),
            forall|k: int| 0 <= k < i ==> users@[k].id != id,
        decreases users@.len() - i,
    {
        if users[i].id == id {
            return Some(i);
        }
        i = i + 1;
    }
    None
}

/// Finds the position of the group with this id, if any.
pub fn find_group_by_id(groups: &Vec<Group>, id: i32) -> (r: Option<usize>)
    ensures
        r matches Some(i) ==> i < groups@.len() && groups@[i as int].id == id,
        r is None ==> !has_group_with_id(groups@, id),
{
    let mut i: usize = 0;
    while i < groups.len()
        invariant
            i <= groups@.len(),
            forall|k: int| 0 <= k < i ==> groups@[k].id != id,
        decreases groups@.len() - i,
    {
        if groups[i].id == id {
            return Some(i);
        }
        i = i + 1;
    }
    None
}

/// Decides whether a friendship edge from `owner_id` to `friend_id` exists.
pub fn edge_exists(fs: &Vec<Friendship>, owner_id: i32, friend_id: i32) -> (r: bool)
    ensures
        r == has_edge(fs@, owner_id, friend_id),
{
    let mut i: usize = 0;
    while i < fs.len()
        invariant
            i <= fs@.len(),
            forall|k: int|
                0 <= k < i ==> !(fs@[k].owner_id == owner_id && fs@[k].friend_id == friend_id),
        decreases fs@.len() - i,
    {
        if fs[i].owner_id == owner_id && fs[i].friend_id == friend_id {
            return true;
        }
        i = i + 1;
    }
    false
}

/// Finds the position of the roster row for this group and user, if any.
pub fn find_roster_row(parts: &Vec<GroupParticipant>, group_id: i32, user_id: i32) -> (r: Option<
    usize,
>)
    ensures
        r matches Some(i) ==> i < parts@.len() && parts@[i as int].group_id == group_id
            && parts@[i as int].participant_id == user_id,
        r is None ==> !has_roster_row(parts@, group_id, user_id),
{
    let mut i: usize = 0;
    while i < parts.len()
        invariant
            i <= parts@.len(),
            forall|k: int|
                0 <= k < i ==> !(parts@[k].group_id == group_id && parts@[k].participant_id
                    == user_id),
        decreases parts@.len() - i,
    {
        if parts[i].group_id == group_id && parts[i].participant_id == user_id {
            return Some(i);
        }
        i = i + 1;
    }
    None
}

} // verus!
