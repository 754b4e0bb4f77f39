use scheduler::endpoints::events::{create_event, CreateEventRequest};
use scheduler::endpoints::groups::{
    create_group, invite_to_group, reply_to_group_invitation, CreateGroupRequest,
    InviteToGroupRequest, ReplyToGroupInvitationRequest,
};
use scheduler::endpoints::users::{signup, SignupRequest};
use scheduler::endpoints::EndpointError;
use scheduler::events::{Event, RecurrenceType, VisibilityType};
use scheduler::group::Group;
use scheduler::store::Store;
use scheduler::users::User;

fn register(store: &mut Store, name: &str) -> User {
    signup(
        store,
        SignupRequest { username: String::from(name), password: String::from("pw") },
    )
    .ok()
    .unwrap()
}

fn make_group(store: &mut Store, owner: &User, name: &str) -> Group {
    create_group(store, owner, CreateGroupRequest { name: String::from(name) }).ok().unwrap();
    let groups = Group::get_owned_groups(store, owner);
    groups.into_iter().find(|g| g.name == name).unwrap()
}

fn event_req(title: &str, group_id: i32) -> CreateEventRequest {
    CreateEventRequest {
        title: String::from(title),
        visibility: VisibilityType::Public,
        start_time: 900,
        duration: 60,
        recurrence: RecurrenceType::Once,
        group_id,
    }
}

fn invite_and_reply(store: &mut Store, owner: &User, target: &User, group_id: i32, accept: bool) {
    invite_to_group(store, owner, InviteToGroupRequest { user_id: target.id, group_id })
        .ok()
        .unwrap();
    reply_to_group_invitation(
        store,
        target,
        ReplyToGroupInvitationRequest { was_accepted: accept, group_id },
    )
    .ok()
    .unwrap();
}

#[test]
fn only_the_owner_may_create_events() {
    let mut store = Store::new();
    let alice = register(&mut store, "alice");
    let bob = register(&mut store, "bob");
    let team = make_group(&mut store, &alice, "Team");

    match create_event(&mut store, &bob, event_req("Standup", team.id)) {
        Err(EndpointError::BadClientData(m)) => assert_eq!(
            m,
            "You are not the group owner and so do not have the permission to create events."
        ),
        _ => panic!("a non-owner's event must be rejected as client data"),
    }

    match create_event(&mut store, &alice, event_req("Standup", 999)) {
        Err(EndpointError::BadClientData(m)) => assert_eq!(m, "This group does not exist"),
        _ => panic!("an event in a missing group must be rejected as client data"),
    }

    assert!(create_event(&mut store, &alice, event_req("Standup", team.id)).is_ok());
    let owned = Event::get_events_owned_by_user(&store, &alice);
    assert_eq!(owned.len(), 1);
    assert_eq!(owned[0].title, "Standup");
    assert_eq!(owned[0].group_id, team.id);
}

#[test]
fn accepting_an_invitation_makes_group_events_visible() {
    let mut store = Store::new();
    let alice = register(&mut store, "alice");
    let bob = register(&mut store, "bob");
    let team = make_group(&mut store, &alice, "Team");

    invite_and_reply(&mut store, &alice, &bob, team.id, true);
    create_event(&mut store, &alice, event_req("Standup", team.id)).ok().unwrap();

    let bobs = Event::get_accepted_events_with_user(&store, &bob);
    assert_eq!(bobs.len(), 1);
    assert_eq!(bobs[0].title, "Standup");
    assert_eq!(bobs[0].group_id, team.id);

    let participated = Event::get_accepted_events_participated_in_by_user(&store, &bob);
    assert_eq!(participated.len(), 1);
    assert!(Event::get_events_owned_by_user(&store, &bob).is_empty());
}

#[test]
fn rejecting_an_invitation_keeps_group_events_invisible() {
    let mut store = Store::new();
    let alice = register(&mut store, "alice");
    let bob = register(&mut store, "bob");
    let team = make_group(&mut store, &alice, "Team");

    invite_and_reply(&mut store, &alice, &bob, team.id, false);
    create_event(&mut store, &alice, event_req("Standup", team.id)).ok().unwrap();

    assert!(Event::get_accepted_events_with_user(&store, &bob).is_empty());
}

#[test]
fn an_unanswered_invitation_shows_no_events() {
    let mut store = Store::new();
    let alice = register(&mut store, "alice");
    let bob = register(&mut store, "bob");
    let team = make_group(&mut store, &alice, "Team");

    invite_to_group(&mut store, &alice, InviteToGroupRequest { user_id: bob.id, group_id: team.id })
        .ok()
        .unwrap();
    create_event(&mut store, &alice, event_req("Standup", team.id)).ok().unwrap();

    assert!(Event::get_accepted_events_with_user(&store, &bob).is_empty());
}

#[test]
fn relevant_events_are_the_union_of_owned_and_accepted_groups() {
    let mut store = Store::new();
    let alice = register(&mut store, "alice");
    let bob = register(&mut store, "bob");
    let carol = register(&mut store, "carol");
    let g = make_group(&mut store, &alice, "G");
    let h = make_group(&mut store, &bob, "H");

    // alice owns G and is an accepted participant of H
    invite_and_reply(&mut store, &bob, &alice, h.id, true);
    // carol has an unanswered invitation to G and a rejected one to H
    invite_to_group(&mut store, &alice, InviteToGroupRequest { user_id: carol.id, group_id: g.id })
        .ok()
        .unwrap();
    invite_and_reply(&mut store, &bob, &carol, h.id, false);

    create_event(&mut store, &alice, event_req("GEvent", g.id)).ok().unwrap();
    create_event(&mut store, &bob, event_req("HEvent", h.id)).ok().unwrap();

    let alices = Event::get_accepted_events_with_user(&store, &alice);
    assert_eq!(alices.len(), 2);
    assert!(alices.iter().any(|e| e.title == "GEvent"));
    assert!(alices.iter().any(|e| e.title == "HEvent"));

    assert!(Event::get_accepted_events_with_user(&store, &carol).is_empty());
}

#[test]
fn an_event_owned_and_participated_in_appears_once() {
    let mut store = Store::new();
    let alice = register(&mut store, "alice");
    // the personal group created at signup is owned by alice, who also has an
    // accepted roster row in it: events in it are reachable both ways
    let personal = Group::get_owned_groups(&store, &alice).into_iter().next().unwrap();
    create_event(&mut store, &alice, event_req("Me-time", personal.id)).ok().unwrap();

    let relevant = Event::get_accepted_events_with_user(&store, &alice);
    assert_eq!(relevant.len(), 1);
    assert_eq!(relevant[0].title, "Me-time");

    // each sub-query alone also finds it
    assert_eq!(Event::get_events_owned_by_user(&store, &alice).len(), 1);
    assert_eq!(Event::get_accepted_events_participated_in_by_user(&store, &alice).len(), 1);
}
