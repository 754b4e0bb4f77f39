use scheduler::endpoints::users::{login, signup, LoginRequest, SignupRequest};
use scheduler::endpoints::EndpointError;
use scheduler::group::Group;
use scheduler::notifications::Notification;
use scheduler::session::get_session;
use scheduler::store::Store;
use scheduler::users::{UnsavedUser, User};

fn req(username: &str, password: &str) -> SignupRequest {
    SignupRequest { username: String::from(username), password: String::from(password) }
}

#[test]
fn signup_creates_user_and_personal_group() {
    let mut store = Store::new();
    let alice = signup(&mut store, req("alice", "hunter2")).ok().unwrap();
    assert_eq!(alice.id, 1);
    assert_eq!(alice.username, "alice");

    let groups = Group::get_owned_groups(&store, &alice);
    assert_eq!(groups.len(), 1);
    assert_eq!(groups[0].name, "Myself");
    assert!(groups[0].is_special);
    assert_eq!(groups[0].owner_id, alice.id);

    let roster = Group::get_owned_groups_participants(&store, &alice);
    assert_eq!(roster.len(), 1);
    assert_eq!(roster[0].username, "alice");
    assert_eq!(roster[0].group_id, groups[0].id);
    assert_eq!(roster[0].user_id, alice.id);

    let notifications = Notification::get_user_notifications(&store, &alice);
    assert!(notifications.is_empty());
}

#[test]
fn signup_duplicate_username_rejected() {
    let mut store = Store::new();
    let alice = signup(&mut store, req("alice", "pw")).ok().unwrap();

    let second = signup(&mut store, req("alice", "pw2"));
    match second {
        Err(EndpointError::BadClientData(m)) => {
            assert_eq!(m, "This username is taken. Try using a different username.");
        }
        _ => panic!("a duplicate username must be rejected as client data"),
    }

    // the first alice's personal group and membership still exist and are queryable
    let groups = Group::get_owned_groups(&store, &alice);
    assert_eq!(groups.len(), 1);
    assert_eq!(groups[0].name, "Myself");
    let roster = Group::get_owned_groups_participants(&store, &alice);
    assert_eq!(roster.len(), 1);
}

#[test]
fn login_accepts_only_the_right_password() {
    let mut store = Store::new();
    let bob = signup(&mut store, req("bob", "s3cret")).ok().unwrap();

    let li = LoginRequest { username: String::from("bob"), password: String::from("s3cret") };
    let logged_in = login(&store, li).ok().unwrap();
    assert_eq!(logged_in.id, bob.id);
    assert_eq!(logged_in.username, "bob");

    let wrong = LoginRequest { username: String::from("bob"), password: String::from("nope") };
    let unknown = LoginRequest { username: String::from("eve"), password: String::from("s3cret") };
    let msg_wrong = match login(&store, wrong) {
        Err(EndpointError::BadClientData(m)) => m,
        _ => panic!("a wrong password must not log in"),
    };
    let msg_unknown = match login(&store, unknown) {
        Err(EndpointError::BadClientData(m)) => m,
        _ => panic!("an unknown username must not log in"),
    };
    // missing username and wrong password are indistinguishable
    assert_eq!(msg_wrong, msg_unknown);
    assert_eq!(
        msg_wrong,
        "Incorrect username or password. Please double-check the username and password."
    );
}

#[test]
fn fetch_check_verifies_the_stored_hash() {
    let mut store = Store::new();
    signup(&mut store, req("carol", "topsecret")).ok().unwrap();

    let hit = User::fetch_check(&store, String::from("carol"), String::from("topsecret"));
    assert!(hit.is_some());
    assert_eq!(hit.unwrap().username, "carol");

    let miss = User::fetch_check(&store, String::from("carol"), String::from("topsecreT"));
    assert!(miss.is_none());
}

#[test]
fn password_hash_is_not_the_password() {
    let hash = UnsavedUser::hash("hunter2").unwrap();
    assert_ne!(hash, "hunter2");

    let user = UnsavedUser::try_new(String::from("dave"), String::from("hunter2")).unwrap();
    assert_eq!(user.username, "dave");
    assert_ne!(user.password_hash, "hunter2");
}

#[test]
fn get_session_needs_all_three_fields() {
    let user = get_session(Some(7), Some(String::from("alice")), Some(String::from("h")));
    let user = user.unwrap();
    assert_eq!(user.id, 7);
    assert_eq!(user.username, "alice");
    assert_eq!(user.password_hash, "h");

    assert!(get_session(None, Some(String::from("alice")), Some(String::from("h"))).is_none());
    assert!(get_session(Some(7), None, Some(String::from("h"))).is_none());
    assert!(get_session(Some(7), Some(String::from("alice")), None).is_none());
}

#[test]
fn endpoint_errors_map_to_status_codes() {
    let internal = EndpointError::InternalError;
    assert_eq!(internal.status_code(), 500);
    assert_eq!(internal.message(), "Internal error. Please try again later.");

    let bad = EndpointError::BadClientData("This group does not exist");
    assert_eq!(bad.status_code(), 400);
    assert_eq!(bad.message(), "This group does not exist");
}
