use scheduler::endpoints::friends::{add_friend, AddFriendRequest};
use scheduler::endpoints::users::{signup, SignupRequest};
use scheduler::endpoints::EndpointError;
use scheduler::friends::{FriendAddResult, Friendship};
use scheduler::store::Store;
use scheduler::users::User;

fn register(store: &mut Store, name: &str) -> User {
    signup(
        store,
        SignupRequest { username: String::from(name), password: String::from("pw") },
    )
    .ok()
    .unwrap()
}

#[test]
fn befriending_yourself_is_always_rejected() {
    let mut store = Store::new();
    let alice = register(&mut store, "alice");
    register(&mut store, "bob");

    let r = Friendship::add_friend(&mut store, &alice, &String::from("alice"));
    assert_eq!(r, FriendAddResult::TriedFriendThemselves);

    // regardless of prior state
    let r = Friendship::add_friend(&mut store, &alice, &String::from("bob"));
    assert_eq!(r, FriendAddResult::Success);
    let r = Friendship::add_friend(&mut store, &alice, &String::from("alice"));
    assert_eq!(r, FriendAddResult::TriedFriendThemselves);

    let req = AddFriendRequest { username: String::from("alice") };
    match add_friend(&mut store, &alice, req) {
        Err(EndpointError::BadClientData(m)) => {
            assert_eq!(m, "You can not add yourself as a friend");
        }
        _ => panic!("a self-friend attempt must be rejected as client data"),
    }
}

#[test]
fn adding_a_friend_twice_is_success_then_already_friends() {
    let mut store = Store::new();
    let alice = register(&mut store, "alice");
    register(&mut store, "bob");

    let first = Friendship::add_friend(&mut store, &alice, &String::from("bob"));
    let second = Friendship::add_friend(&mut store, &alice, &String::from("bob"));
    assert_eq!(first, FriendAddResult::Success);
    assert_eq!(second, FriendAddResult::AlreadyFriends);

    let req = AddFriendRequest { username: String::from("bob") };
    match add_friend(&mut store, &alice, req) {
        Err(EndpointError::BadClientData(m)) => {
            assert_eq!(m, "You are already friends with this user.");
        }
        _ => panic!("an existing edge must be rejected as client data"),
    }
}

#[test]
fn adding_an_unknown_username_is_rejected() {
    let mut store = Store::new();
    let alice = register(&mut store, "alice");

    let r = Friendship::add_friend(&mut store, &alice, &String::from("nobody"));
    assert_eq!(r, FriendAddResult::UsernameNotFound);

    let req = AddFriendRequest { username: String::from("nobody") };
    match add_friend(&mut store, &alice, req) {
        Err(EndpointError::BadClientData(m)) => {
            assert_eq!(m, "This user does not exist.");
        }
        _ => panic!("an unknown username must be rejected as client data"),
    }
}

#[test]
fn friend_lists_are_unidirectional_and_never_contain_the_owner() {
    let mut store = Store::new();
    let alice = register(&mut store, "alice");
    let bob = register(&mut store, "bob");
    register(&mut store, "carol");

    assert!(Friendship::get_friends(&store, &alice).is_empty());

    let r = Friendship::add_friend(&mut store, &alice, &String::from("bob"));
    assert_eq!(r, FriendAddResult::Success);

    let alices_friends = Friendship::get_friends(&store, &alice);
    assert_eq!(alices_friends.len(), 1);
    assert_eq!(alices_friends[0].id, bob.id);
    assert_eq!(alices_friends[0].username, "bob");
    assert!(alices_friends.iter().all(|f| f.id != alice.id));

    // bob did not add alice, so alice is not bob's friend
    assert!(Friendship::get_friends(&store, &bob).is_empty());
}
