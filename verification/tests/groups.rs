use groups_relay::connection::AuthStatus;
use groups_relay::event::Event;
use groups_relay::groups::action_of_kind;
use groups_relay::groups::AccessMode;
use groups_relay::groups::Group;
use groups_relay::groups::GroupAction;
use groups_relay::groups::Groups;
use groups_relay::groups::Role;
use groups_relay::groups::Visibility;
use groups_relay::message::Reason;
use groups_relay::registry::Registry;

fn tag(parts: &[&str]) -> Vec<String> {
    parts.iter().map(|part| String::from(*part)).collect()
}

fn event(signer: &str, kind: u16, tags: Vec<Vec<String>>) -> Event {
    Event {
        id: String::from("id"),
        pubkey: String::from(signer),
        created_at: 0,
        kind,
        tags,
        content: String::new(),
        sig: String::from("sig"),
    }
}

fn authed(pubkey: &str) -> AuthStatus {
    AuthStatus::Authenticated { pubkey: String::from(pubkey) }
}

fn s(text: &str) -> String {
    String::from(text)
}

fn one_group(access: AccessMode, visibility: Visibility) -> Groups {
    let mut group = Group::new(access, visibility);
    group.put_member(s("admin"), Role::Admin);
    group.put_member(s("member"), Role::Member);
    let mut groups = Groups::new(false);
    groups.put_group(s("g"), group);
    groups
}

#[test]
fn registry_files_values_under_keys() {
    let mut table: Registry<Role> = Registry::new();
    assert_eq!(table.len(), 0);
    table.insert(s("a"), Role::Member);
    table.insert(s("b"), Role::Admin);
    table.insert(s("a"), Role::Admin);
    assert_eq!(table.len(), 2);
    assert_eq!(table.get(&s("a")), Some(&Role::Admin));
    assert_eq!(table.get(&s("b")), Some(&Role::Admin));
    assert_eq!(table.get(&s("c")), None);
    assert!(table.contains_key(&s("b")));
    assert_eq!(table.remove(&s("a")), Some(Role::Admin));
    assert_eq!(table.remove(&s("a")), None);
    assert_eq!(table.len(), 1);
    assert!(!table.contains_key(&s("a")));
    assert_eq!(table.get(&s("b")), Some(&Role::Admin));
}

#[test]
fn kinds_ask_for_their_actions() {
    assert_eq!(action_of_kind(9000), GroupAction::PutUser);
    assert_eq!(action_of_kind(9001), GroupAction::RemoveUser);
    assert_eq!(action_of_kind(9002), GroupAction::EditSettings);
    assert_eq!(action_of_kind(9021), GroupAction::Join);
    assert_eq!(action_of_kind(9022), GroupAction::Leave);
    assert_eq!(action_of_kind(9), GroupAction::Post);
    assert_eq!(action_of_kind(1), GroupAction::Post);
    assert_eq!(action_of_kind(5), GroupAction::Post);
}

#[test]
fn event_without_group_reference_is_let_through() {
    let mut groups = one_group(AccessMode::Closed, Visibility::Private);
    let e = event("stranger", 1, vec![tag(&["p", "x"])]);
    assert_eq!(groups.authorize(&AuthStatus::Unauthenticated, &e), Ok(()));
    assert_eq!(groups.role_of(&s("g"), &s("stranger")), None);
}

#[test]
fn post_needs_membership() {
    let mut groups = one_group(AccessMode::Closed, Visibility::Public);
    let post = |signer: &str| event(signer, 9, vec![tag(&["h", "g"])]);
    assert_eq!(groups.authorize(&AuthStatus::Unauthenticated, &post("member")), Ok(()));
    assert_eq!(groups.authorize(&AuthStatus::Unauthenticated, &post("admin")), Ok(()));
    assert_eq!(
        groups.authorize(&AuthStatus::Unauthenticated, &post("stranger")),
        Err(Reason::NotMember)
    );
    assert_eq!(groups.authorize(&authed("stranger"), &post("stranger")), Err(Reason::NotMember));
    assert_eq!(groups.role_of(&s("g"), &s("stranger")), None);
}

#[test]
fn open_group_takes_in_who_asks() {
    let mut groups = one_group(AccessMode::Open, Visibility::Public);
    let join = event("stranger", 9021, vec![tag(&["h", "g"])]);
    assert_eq!(groups.authorize(&AuthStatus::Unauthenticated, &join), Ok(()));
    assert_eq!(groups.role_of(&s("g"), &s("stranger")), Some(Role::Member));
    let again = event("admin", 9021, vec![tag(&["h", "g"])]);
    assert_eq!(groups.authorize(&AuthStatus::Unauthenticated, &again), Ok(()));
    assert_eq!(groups.role_of(&s("g"), &s("admin")), Some(Role::Admin));
}

#[test]
fn closed_group_takes_in_nobody_who_asks() {
    let mut groups = one_group(AccessMode::Closed, Visibility::Public);
    let join = event("stranger", 9021, vec![tag(&["h", "g"])]);
    assert_eq!(groups.authorize(&authed("stranger"), &join), Err(Reason::GroupClosed));
    assert_eq!(groups.role_of(&s("g"), &s("stranger")), None);
    let member = event("member", 9021, vec![tag(&["h", "g"])]);
    assert_eq!(groups.authorize(&authed("member"), &member), Ok(()));
}

#[test]
fn member_may_leave() {
    let mut groups = one_group(AccessMode::Closed, Visibility::Public);
    let leave = event("member", 9022, vec![tag(&["h", "g"])]);
    assert_eq!(groups.authorize(&AuthStatus::Unauthenticated, &leave), Ok(()));
    assert_eq!(groups.role_of(&s("g"), &s("member")), None);
    assert_eq!(groups.role_of(&s("g"), &s("admin")), Some(Role::Admin));
    assert_eq!(groups.authorize(&AuthStatus::Unauthenticated, &leave), Err(Reason::NotMember));
}

#[test]
fn admin_puts_and_removes_members() {
    let mut groups = one_group(AccessMode::Closed, Visibility::Public);
    let put = event("admin", 9000, vec![tag(&["h", "g"]), tag(&["p", "newcomer"])]);
    assert_eq!(groups.authorize(&authed("admin"), &put), Ok(()));
    assert_eq!(groups.role_of(&s("g"), &s("newcomer")), Some(Role::Member));
    let promote = event("admin", 9000, vec![tag(&["h", "g"]), tag(&["p", "newcomer", "admin"])]);
    assert_eq!(groups.authorize(&authed("admin"), &promote), Ok(()));
    assert_eq!(groups.role_of(&s("g"), &s("newcomer")), Some(Role::Admin));
    let demote = event("admin", 9000, vec![tag(&["h", "g"]), tag(&["p", "newcomer", "moderator"])]);
    assert_eq!(groups.authorize(&authed("admin"), &demote), Ok(()));
    assert_eq!(groups.role_of(&s("g"), &s("newcomer")), Some(Role::Member));
    let remove = event("admin", 9001, vec![tag(&["h", "g"]), tag(&["p", "newcomer"])]);
    assert_eq!(groups.authorize(&authed("admin"), &remove), Ok(()));
    assert_eq!(groups.role_of(&s("g"), &s("newcomer")), None);
    assert_eq!(groups.authorize(&authed("admin"), &remove), Ok(()));
    assert_eq!(groups.role_of(&s("g"), &s("member")), Some(Role::Member));
}

#[test]
fn admin_action_needs_authentication_role_and_target() {
    let mut groups = one_group(AccessMode::Closed, Visibility::Public);
    let put = event("admin", 9000, vec![tag(&["h", "g"]), tag(&["p", "newcomer"])]);
    assert_eq!(groups.authorize(&AuthStatus::Unauthenticated, &put), Err(Reason::AuthRequired));
    assert_eq!(groups.authorize(&authed("member"), &put), Err(Reason::AuthRequired));
    let by_member = event("member", 9000, vec![tag(&["h", "g"]), tag(&["p", "newcomer"])]);
    assert_eq!(groups.authorize(&authed("member"), &by_member), Err(Reason::NotAdmin));
    let by_stranger = event("stranger", 9001, vec![tag(&["h", "g"]), tag(&["p", "member"])]);
    assert_eq!(groups.authorize(&authed("stranger"), &by_stranger), Err(Reason::NotAdmin));
    let no_target = event("admin", 9000, vec![tag(&["h", "g"]), tag(&["p"])]);
    assert_eq!(groups.authorize(&authed("admin"), &no_target), Err(Reason::MissingTarget));
    assert_eq!(groups.role_of(&s("g"), &s("newcomer")), None);
    assert_eq!(groups.role_of(&s("g"), &s("member")), Some(Role::Member));
}

#[test]
fn admin_edits_settings() {
    let mut groups = one_group(AccessMode::Open, Visibility::Public);
    let close = event("admin", 9002, vec![tag(&["h", "g"]), tag(&["closed"]), tag(&["private"])]);
    assert_eq!(groups.authorize(&authed("admin"), &close), Ok(()));
    assert_eq!(groups.group(&s("g")).unwrap().access(), AccessMode::Closed);
    assert_eq!(groups.group(&s("g")).unwrap().visibility(), Visibility::Private);
    let nothing = event("admin", 9002, vec![tag(&["h", "g"])]);
    assert_eq!(groups.authorize(&authed("admin"), &nothing), Ok(()));
    assert_eq!(groups.group(&s("g")).unwrap().access(), AccessMode::Closed);
    let both = event("admin", 9002, vec![tag(&["h", "g"]), tag(&["open"]), tag(&["closed"]), tag(&["public"])]);
    assert_eq!(groups.authorize(&authed("admin"), &both), Ok(()));
    assert_eq!(groups.group(&s("g")).unwrap().access(), AccessMode::Closed);
    assert_eq!(groups.group(&s("g")).unwrap().visibility(), Visibility::Public);
    let open = event("admin", 9002, vec![tag(&["h", "g"]), tag(&["open"])]);
    assert_eq!(groups.authorize(&authed("admin"), &open), Ok(()));
    assert_eq!(groups.group(&s("g")).unwrap().access(), AccessMode::Open);
    assert_eq!(groups.role_of(&s("g"), &s("member")), Some(Role::Member));
}

#[test]
fn unknown_group_is_refused_where_groups_are_not_founded_on_mention() {
    let mut groups = Groups::new(false);
    let post = event("founder", 9, vec![tag(&["h", "new"])]);
    assert_eq!(groups.authorize(&authed("founder"), &post), Err(Reason::UnknownGroup));
    assert!(groups.group(&s("new")).is_none());
}

#[test]
fn unknown_group_is_founded_by_the_first_who_names_it() {
    let mut groups = Groups::new(true);
    let post = event("founder", 9, vec![tag(&["h", "new"])]);
    assert_eq!(groups.authorize(&AuthStatus::Unauthenticated, &post), Ok(()));
    assert_eq!(groups.role_of(&s("new"), &s("founder")), Some(Role::Admin));
    assert_eq!(groups.group(&s("new")).unwrap().access(), AccessMode::Open);
    assert_eq!(groups.group(&s("new")).unwrap().visibility(), Visibility::Public);
    let other = event("other", 9, vec![tag(&["h", "new"])]);
    assert_eq!(groups.authorize(&AuthStatus::Unauthenticated, &other), Err(Reason::NotMember));
    assert_eq!(groups.role_of(&s("new"), &s("other")), None);
}

#[test]
fn refused_event_founds_no_group() {
    let mut groups = Groups::new(true);
    let put = event("founder", 9000, vec![tag(&["h", "new"]), tag(&["p", "x"])]);
    assert_eq!(groups.authorize(&AuthStatus::Unauthenticated, &put), Err(Reason::AuthRequired));
    assert!(groups.group(&s("new")).is_none());
}

#[test]
fn private_group_shows_its_events_to_members_only() {
    let groups = one_group(AccessMode::Closed, Visibility::Private);
    let post = event("member", 9, vec![tag(&["h", "g"])]);
    assert!(groups.may_receive(&authed("member"), &post));
    assert!(groups.may_receive(&authed("admin"), &post));
    assert!(!groups.may_receive(&authed("stranger"), &post));
    assert!(!groups.may_receive(&AuthStatus::Unauthenticated, &post));
    assert!(!groups.may_receive(&AuthStatus::ChallengeIssued { nonce: s("member") }, &post));
    let elsewhere = event("member", 9, vec![tag(&["h", "unknown"])]);
    assert!(groups.may_receive(&AuthStatus::Unauthenticated, &elsewhere));
    let plain = event("member", 1, vec![]);
    assert!(groups.may_receive(&AuthStatus::Unauthenticated, &plain));
}

#[test]
fn public_group_shows_its_events_to_all() {
    let groups = one_group(AccessMode::Closed, Visibility::Public);
    let post = event("member", 9, vec![tag(&["h", "g"])]);
    assert!(groups.may_receive(&AuthStatus::Unauthenticated, &post));
    assert!(groups.may_receive(&authed("stranger"), &post));
}
