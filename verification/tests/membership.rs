use scheduler::endpoints::groups::{
    create_group, get_owned_groups_with_participants, invite_to_group, remove_user_from_group,
    rename_group, reply_to_group_invitation, CreateGroupRequest, InviteToGroupRequest,
    RemoveUserFromGroupRequest, RenameGroupRequest, ReplyToGroupInvitationRequest,
};
use scheduler::endpoints::users::{signup, SignupRequest};
use scheduler::endpoints::EndpointError;
use scheduler::group::{Group, ParticipationType};
use scheduler::notifications::Notification;
use scheduler::store::Store;
use scheduler::users::User;

fn register(store: &mut Store, name: &str) -> User {
    signup(
        store,
        SignupRequest { username: String::from(name), password: String::from("pw") },
    )
    .ok()
    .unwrap()
}

fn make_group(store: &mut Store, owner: &User, name: &str) -> Group {
    create_group(store, owner, CreateGroupRequest { name: String::from(name) }).ok().unwrap();
    let groups = Group::get_owned_groups(store, owner);
    groups.into_iter().find(|g| g.name == name).unwrap()
}

#[test]
fn create_group_is_not_special_and_owned() {
    let mut store = Store::new();
    let alice = register(&mut store, "alice");
    let team = make_group(&mut store, &alice, "Team");
    assert!(!team.is_special);
    assert_eq!(team.owner_id, alice.id);
    assert_eq!(Group::get_group_by_id(&store, team.id).unwrap().name, "Team");
}

#[test]
fn only_the_owner_may_invite() {
    let mut store = Store::new();
    let alice = register(&mut store, "alice");
    let bob = register(&mut store, "bob");
    let team = make_group(&mut store, &alice, "Team");

    let req = InviteToGroupRequest { user_id: alice.id, group_id: team.id };
    match invite_to_group(&mut store, &bob, req) {
        Err(EndpointError::BadClientData(m)) => assert_eq!(
            m,
            "You are not the group owner and so do not have the permission to invite users to the group."
        ),
        _ => panic!("a non-owner's invitation must be rejected as client data"),
    }

    let req = InviteToGroupRequest { user_id: bob.id, group_id: 999 };
    match invite_to_group(&mut store, &alice, req) {
        Err(EndpointError::BadClientData(m)) => assert_eq!(m, "This group does not exist"),
        _ => panic!("an invitation into a missing group must be rejected as client data"),
    }

    let req = InviteToGroupRequest { user_id: bob.id, group_id: team.id };
    assert!(invite_to_group(&mut store, &alice, req).is_ok());
    let roster = get_owned_groups_with_participants(&store, &alice);
    assert!(roster.participants.iter().any(|p| p.group_id == team.id && p.user_id == bob.id));
}

#[test]
fn an_invitation_is_a_pending_notification_until_answered() {
    let mut store = Store::new();
    let alice = register(&mut store, "alice");
    let bob = register(&mut store, "bob");
    let team = make_group(&mut store, &alice, "Team");

    assert!(Notification::get_user_notifications(&store, &bob).is_empty());

    let req = InviteToGroupRequest { user_id: bob.id, group_id: team.id };
    invite_to_group(&mut store, &alice, req).ok().unwrap();

    let pending = Notification::get_user_notifications(&store, &bob);
    assert_eq!(pending.len(), 1);
    let Notification::Invitation(g) = &pending[0];
    assert_eq!(g.id, team.id);
    assert_eq!(g.name, "Team");

    let req = ReplyToGroupInvitationRequest { was_accepted: true, group_id: team.id };
    reply_to_group_invitation(&mut store, &bob, req).ok().unwrap();
    assert!(Notification::get_user_notifications(&store, &bob).is_empty());
}

#[test]
fn reinviting_never_overwrites_an_answer() {
    let mut store = Store::new();
    let alice = register(&mut store, "alice");
    let bob = register(&mut store, "bob");
    let team = make_group(&mut store, &alice, "Team");

    let req = InviteToGroupRequest { user_id: bob.id, group_id: team.id };
    invite_to_group(&mut store, &alice, req).ok().unwrap();
    let req = ReplyToGroupInvitationRequest { was_accepted: true, group_id: team.id };
    reply_to_group_invitation(&mut store, &bob, req).ok().unwrap();

    // a second invitation answers success but leaves the accepted row alone
    let req = InviteToGroupRequest { user_id: bob.id, group_id: team.id };
    assert!(invite_to_group(&mut store, &alice, req).is_ok());
    assert!(Notification::get_user_notifications(&store, &bob).is_empty());

    let roster = get_owned_groups_with_participants(&store, &alice);
    let rows: Vec<_> =
        roster.participants.iter().filter(|p| p.group_id == team.id && p.user_id == bob.id).collect();
    assert_eq!(rows.len(), 1);
}

#[test]
fn answered_invitations_are_terminal() {
    let mut store = Store::new();
    let alice = register(&mut store, "alice");
    let bob = register(&mut store, "bob");
    let team = make_group(&mut store, &alice, "Team");

    invite_to_group(&mut store, &alice, InviteToGroupRequest { user_id: bob.id, group_id: team.id })
        .ok()
        .unwrap();
    reply_to_group_invitation(
        &mut store,
        &bob,
        ReplyToGroupInvitationRequest { was_accepted: true, group_id: team.id },
    )
    .ok()
    .unwrap();
    assert_eq!(
        Group::reply_to_group_invitation(&mut store, team.id, &bob, ParticipationType::Rejected),
        0
    );
    // and a direct second reply through the endpoint changes nothing either
    reply_to_group_invitation(
        &mut store,
        &bob,
        ReplyToGroupInvitationRequest { was_accepted: false, group_id: team.id },
    )
    .ok()
    .unwrap();
    assert!(Notification::get_user_notifications(&store, &bob).is_empty());
}

#[test]
fn replying_without_an_invitation_changes_nothing() {
    let mut store = Store::new();
    let alice = register(&mut store, "alice");
    let bob = register(&mut store, "bob");
    let team = make_group(&mut store, &alice, "Team");

    let changed =
        Group::reply_to_group_invitation(&mut store, team.id, &bob, ParticipationType::Accepted);
    assert_eq!(changed, 0);
    let roster = get_owned_groups_with_participants(&store, &alice);
    assert!(roster.participants.iter().all(|p| p.group_id != team.id));
}

#[test]
fn rename_by_the_owner_changes_the_name() {
    let mut store = Store::new();
    let alice = register(&mut store, "alice");
    let team = make_group(&mut store, &alice, "Team");

    let req = RenameGroupRequest { group_id: team.id, new_name: String::from("Crew") };
    rename_group(&mut store, &alice, req).ok().unwrap();
    assert_eq!(Group::get_group_by_id(&store, team.id).unwrap().name, "Crew");
}

#[test]
fn rename_by_a_non_owner_is_opaque_and_changes_nothing() {
    let mut store = Store::new();
    let alice = register(&mut store, "alice");
    let bob = register(&mut store, "bob");
    let team = make_group(&mut store, &alice, "Team");

    let req = RenameGroupRequest { group_id: team.id, new_name: String::from("X") };
    match rename_group(&mut store, &bob, req) {
        Err(EndpointError::InternalError) => {}
        _ => panic!("a non-owner's rename must fail with the opaque outcome"),
    }
    assert_eq!(Group::get_group_by_id(&store, team.id).unwrap().name, "Team");

    // a missing group is indistinguishable from someone else's group
    let req = RenameGroupRequest { group_id: 999, new_name: String::from("X") };
    match rename_group(&mut store, &bob, req) {
        Err(EndpointError::InternalError) => {}
        _ => panic!("a missing group must fail with the same opaque outcome"),
    }
}

#[test]
fn only_the_owner_may_remove_participants() {
    let mut store = Store::new();
    let alice = register(&mut store, "alice");
    let bob = register(&mut store, "bob");
    let team = make_group(&mut store, &alice, "Team");
    invite_to_group(&mut store, &alice, InviteToGroupRequest { user_id: bob.id, group_id: team.id })
        .ok()
        .unwrap();

    let req = RemoveUserFromGroupRequest { group_id: team.id, user_id: bob.id };
    match remove_user_from_group(&mut store, &bob, req) {
        Err(EndpointError::BadClientData(m)) => assert_eq!(
            m,
            "You are not the group owner and so do not have the permission to remove users from groups."
        ),
        _ => panic!("a non-owner's removal must be rejected as client data"),
    }

    let req = RemoveUserFromGroupRequest { group_id: team.id, user_id: bob.id };
    remove_user_from_group(&mut store, &alice, req).ok().unwrap();
    let roster = get_owned_groups_with_participants(&store, &alice);
    assert!(roster.participants.iter().all(|p| !(p.group_id == team.id && p.user_id == bob.id)));

    // removing an absent row still answers success
    let req = RemoveUserFromGroupRequest { group_id: team.id, user_id: bob.id };
    assert!(remove_user_from_group(&mut store, &alice, req).is_ok());
}

#[test]
fn owned_roster_is_scoped_to_the_callers_groups() {
    let mut store = Store::new();
    let alice = register(&mut store, "alice");
    let bob = register(&mut store, "bob");
    let team = make_group(&mut store, &alice, "Team");
    let band = make_group(&mut store, &bob, "Band");
    invite_to_group(&mut store, &alice, InviteToGroupRequest { user_id: bob.id, group_id: team.id })
        .ok()
        .unwrap();
    invite_to_group(&mut store, &bob, InviteToGroupRequest { user_id: alice.id, group_id: band.id })
        .ok()
        .unwrap();

    let response = get_owned_groups_with_participants(&store, &alice);
    assert!(response.groups.iter().any(|g| g.id == team.id));
    assert!(response.groups.iter().all(|g| g.id != band.id));
    assert!(response.participants.iter().all(|p| p.group_id != band.id));
    let row = response
        .participants
        .iter()
        .find(|p| p.group_id == team.id && p.user_id == bob.id)
        .unwrap();
    assert_eq!(row.username, "bob");
}
