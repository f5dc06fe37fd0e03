use groups_relay::admission::OverflowPolicy;
use groups_relay::codec::NostrMessageConverter;
use groups_relay::connection::AuthStatus;
use groups_relay::connection::NostrConnectionFactory;
use groups_relay::connection::NostrConnectionState;
use groups_relay::connection::SetupError;
use groups_relay::event::Event;
use groups_relay::executor::run_from;
use groups_relay::groups::AccessMode;
use groups_relay::groups::Group;
use groups_relay::groups::Groups;
use groups_relay::groups::Role;
use groups_relay::groups::Visibility;
use groups_relay::websocket_server::build_websocket_handler;
use groups_relay::websocket_server::standard_stages;
use groups_relay::websocket_server::Keys;
use groups_relay::websocket_server::WebSocketHandler;
use groups_relay::websocket_server::WebSocketSettings;
use groups_relay::message::ErrorClass;
use groups_relay::message::InboundMessage;
use groups_relay::message::OutboundMessage;
use groups_relay::message::Reason;
use groups_relay::pipeline::Command;
use groups_relay::pipeline::Disposition;
use groups_relay::pipeline::Environment;
use groups_relay::pipeline::Fault;
use groups_relay::pipeline::LogRecord;
use groups_relay::pipeline::Policy;
use groups_relay::pipeline::Stage;
use groups_relay::storage::StorageReport;
use groups_relay::storage::StoredEntry;
use nostr_sdk::prelude::ClientMessage;
use nostr_sdk::prelude::EventBuilder;
use nostr_sdk::prelude::FinalizeEvent;
use nostr_sdk::prelude::Keys as SignerKeys;
use nostr_sdk::prelude::Kind;
use nostr_sdk::prelude::Tag;
use nostr_sdk::prelude::Timestamp;

const RELAY_URL: &str = "wss://relay.example.com";
const NOW: u64 = 1_700_000_000;

fn s(text: &str) -> String {
    String::from(text)
}

fn signed(keys: &SignerKeys, kind: u16, tags: Vec<Vec<&str>>, content: &str, created_at: u64) -> Event {
    let tags: Vec<Tag> = tags.into_iter().map(|tag| Tag::parse(tag).unwrap()).collect();
    let wire = EventBuilder::new(Kind::from_u16(kind), content)
        .tags(tags)
        .custom_created_at(Timestamp::from_secs(created_at))
        .finalize(keys)
        .unwrap();
    match NostrMessageConverter.inbound_from_string(ClientMessage::event(wire).as_json()) {
        Some(InboundMessage::SubmitEvent(event)) => event,
        other => panic!("unexpected message: {:?}", other),
    }
}

fn settings() -> WebSocketSettings {
    WebSocketSettings {
        channel_size: 4,
        max_connection_time: Some(60),
        max_connections: Some(2),
        overflow: OverflowPolicy::Wait,
        challenge_on_connect: false,
    }
}

fn handler(groups: Groups, operator: &SignerKeys, settings: &WebSocketSettings) -> WebSocketHandler {
    build_websocket_handler(
        s(RELAY_URL),
        s(RELAY_URL),
        groups,
        &Keys::new(operator.public_key().to_hex()),
        settings,
    )
    .unwrap()
}

fn env(known: Vec<StoredEntry>) -> Environment {
    Environment { now: NOW, fresh_nonce: s("fresh-nonce"), storage: StorageReport::Known(known) }
}

fn closed_group_of(admin: &SignerKeys) -> Groups {
    let mut group = Group::new(AccessMode::Closed, Visibility::Private);
    group.put_member(admin.public_key().to_hex(), Role::Admin);
    let mut groups = Groups::new(false);
    groups.put_group(s("g"), group);
    groups
}

fn open_group_of(admin: &SignerKeys) -> Groups {
    let mut group = Group::new(AccessMode::Open, Visibility::Public);
    group.put_member(admin.public_key().to_hex(), Role::Admin);
    let mut groups = Groups::new(false);
    groups.put_group(s("g"), group);
    groups
}

fn connect(handler: &mut WebSocketHandler) -> NostrConnectionState {
    handler.accept(NOW, s("nonce-on-connect")).unwrap().state
}

fn ack(event: &Event, accepted: bool, message: &str) -> OutboundMessage {
    OutboundMessage::Ack { event_id: event.id.clone(), accepted, message: s(message) }
}

fn authenticate(handler: &mut WebSocketHandler, state: &mut NostrConnectionState, keys: &SignerKeys) {
    state.auth = AuthStatus::ChallengeIssued { nonce: s("nonce-N") };
    let answer = signed(keys, 22242, vec![vec!["relay", RELAY_URL], vec!["challenge", "nonce-N"]], "", NOW);
    let outcome = handler.process_inbound(state, &env(vec![]), InboundMessage::AuthResponse(answer.clone()));
    assert_eq!(outcome.replies, vec![ack(&answer, true, "")]);
}

#[test]
fn handler_is_built_with_the_stages_in_their_order() {
    let operator = SignerKeys::generate();
    let built = handler(Groups::new(false), &operator, &settings());
    assert_eq!(
        built.stages(),
        &vec![
            Stage::ErrorContainment,
            Stage::Logging,
            Stage::Authentication,
            Stage::Validation,
            Stage::Verification,
            Stage::ProtectedEvent,
            Stage::Deletion,
            Stage::GroupAuthorization,
        ]
    );
    assert_eq!(standard_stages(), built.stages().clone());
    assert_eq!(built.live_connections(), 0);
}

#[test]
fn handler_is_not_built_without_a_relay_address() {
    let built = build_websocket_handler(
        s("not a url"),
        s(RELAY_URL),
        Groups::new(false),
        &Keys::new(s("aa")),
        &settings(),
    );
    assert_eq!(built.err(), Some(SetupError::InvalidRelayUrl));
}

#[test]
fn plain_event_is_stored() {
    let operator = SignerKeys::generate();
    let client = SignerKeys::generate();
    let mut relay = handler(Groups::new(false), &operator, &settings());
    let mut state = connect(&mut relay);
    let event = signed(&client, 1, vec![], "hello", NOW);
    let outcome = relay.process_inbound(&mut state, &env(vec![]), InboundMessage::SubmitEvent(event.clone()));
    assert_eq!(outcome.replies, vec![ack(&event, true, "")]);
    assert_eq!(outcome.command, Command::Store { event, retract: vec![] });
    assert_eq!(outcome.disposition, Disposition::Accepted);
    assert_eq!(outcome.decided_by, None);
    assert_eq!(
        outcome.records,
        vec![LogRecord { connection_id: 0, stage: None, disposition: Disposition::Accepted }]
    );
    assert!(!outcome.close);
}

#[test]
fn non_member_post_in_closed_group_is_restricted() {
    let operator = SignerKeys::generate();
    let admin = SignerKeys::generate();
    let client = SignerKeys::generate();
    let mut relay = handler(closed_group_of(&admin), &operator, &settings());
    let mut state = connect(&mut relay);
    let event = signed(&client, 9, vec![vec!["h", "g"]], "hello group", NOW);
    let outcome = relay.process_inbound(&mut state, &env(vec![]), InboundMessage::SubmitEvent(event.clone()));
    assert_eq!(outcome.replies, vec![ack(&event, false, "restricted: not a member")]);
    assert_eq!(outcome.command, Command::Nothing);
    assert_eq!(outcome.disposition, Disposition::Rejected(Reason::NotMember));
    assert_eq!(outcome.decided_by, Some(Stage::GroupAuthorization));
    assert_eq!(
        outcome.records,
        vec![LogRecord {
            connection_id: 0,
            stage: Some(Stage::GroupAuthorization),
            disposition: Disposition::Rejected(Reason::NotMember),
        }]
    );
    assert!(!outcome.close);
    assert_eq!(relay.groups().role_of(&s("g"), &client.public_key().to_hex()), None);
}

#[test]
fn non_member_post_in_closed_group_arrives_as_text() {
    let operator = SignerKeys::generate();
    let admin = SignerKeys::generate();
    let client = SignerKeys::generate();
    let mut relay = handler(closed_group_of(&admin), &operator, &settings());
    let mut state = connect(&mut relay);
    let tags = vec![Tag::parse(vec!["h", "g"]).unwrap()];
    let wire = EventBuilder::new(Kind::from_u16(9), "hello group")
        .tags(tags)
        .custom_created_at(Timestamp::from_secs(NOW))
        .finalize(&client)
        .unwrap();
    let id = wire.id.to_hex();
    let outcome = relay.process_text(&mut state, &env(vec![]), ClientMessage::event(wire).as_json());
    assert_eq!(outcome.command, Command::Nothing);
    assert_eq!(outcome.replies.len(), 1);
    assert_eq!(
        NostrMessageConverter.outbound_to_string(outcome.replies[0].clone()),
        Some(format!("[\"OK\",\"{}\",false,\"restricted: not a member\"]", id))
    );
}

#[test]
fn member_post_in_closed_group_is_stored() {
    let operator = SignerKeys::generate();
    let admin = SignerKeys::generate();
    let mut relay = handler(closed_group_of(&admin), &operator, &settings());
    let mut state = connect(&mut relay);
    let event = signed(&admin, 9, vec![vec!["h", "g"]], "hello group", NOW);
    let outcome = relay.process_inbound(&mut state, &env(vec![]), InboundMessage::SubmitEvent(event.clone()));
    assert_eq!(outcome.replies, vec![ack(&event, true, "")]);
    assert_eq!(outcome.command, Command::Store { event, retract: vec![] });
}

#[test]
fn authenticated_client_cannot_delete_a_foreign_event() {
    let operator = SignerKeys::generate();
    let client = SignerKeys::generate();
    let other = SignerKeys::generate();
    let mut with_challenge = settings();
    with_challenge.challenge_on_connect = true;
    let mut relay = handler(Groups::new(false), &operator, &with_challenge);
    let mut connection = relay.accept(NOW, s("nonce-N")).unwrap();
    assert_eq!(connection.state.auth, AuthStatus::ChallengeIssued { nonce: s("nonce-N") });
    assert_eq!(connection.outbound.take(), Some(OutboundMessage::AuthChallenge(s("nonce-N"))));
    assert_eq!(connection.outbound.take(), None);
    let answer = signed(&client, 22242, vec![vec!["relay", RELAY_URL], vec!["challenge", "nonce-N"]], "", NOW);
    let outcome = relay.process_inbound(
        &mut connection.state,
        &env(vec![]),
        InboundMessage::AuthResponse(answer.clone()),
    );
    assert_eq!(outcome.replies, vec![ack(&answer, true, "")]);
    assert_eq!(outcome.command, Command::Nothing);
    assert_eq!(outcome.disposition, Disposition::Accepted);
    assert_eq!(outcome.decided_by, Some(Stage::Authentication));
    assert_eq!(
        connection.state.auth,
        AuthStatus::Authenticated { pubkey: client.public_key().to_hex() }
    );
    let target = signed(&other, 1, vec![], "not yours", NOW);
    let deletion = signed(&client, 5, vec![vec!["e", target.id.as_str()]], "", NOW);
    let known = vec![StoredEntry { id: target.id.clone(), author: target.pubkey.clone() }];
    let outcome = relay.process_inbound(
        &mut connection.state,
        &env(known),
        InboundMessage::SubmitEvent(deletion.clone()),
    );
    assert_eq!(
        outcome.replies,
        vec![ack(&deletion, false, "restricted: only the author may delete an event")]
    );
    assert_eq!(outcome.disposition, Disposition::Rejected(Reason::NotOwner));
    assert_eq!(Reason::NotOwner.class(), ErrorClass::Authorization);
    assert_eq!(outcome.decided_by, Some(Stage::Deletion));
    assert_eq!(outcome.command, Command::Nothing);
    assert!(!outcome.close);
}

#[test]
fn own_event_is_retracted() {
    let operator = SignerKeys::generate();
    let client = SignerKeys::generate();
    let mut relay = handler(Groups::new(false), &operator, &settings());
    let mut state = connect(&mut relay);
    let target = signed(&client, 1, vec![], "mine", NOW);
    let gone = "00".repeat(32);
    let deletion = signed(&client, 5, vec![vec!["e", gone.as_str()], vec!["e", target.id.as_str()]], "", NOW);
    let known = vec![StoredEntry { id: target.id.clone(), author: target.pubkey.clone() }];
    let outcome = relay.process_inbound(&mut state, &env(known), InboundMessage::SubmitEvent(deletion.clone()));
    assert_eq!(outcome.replies, vec![ack(&deletion, true, "")]);
    assert_eq!(outcome.command, Command::Store { event: deletion, retract: vec![target.id] });
}

#[test]
fn operator_retracts_a_foreign_event() {
    let operator = SignerKeys::generate();
    let other = SignerKeys::generate();
    let mut relay = handler(Groups::new(false), &operator, &settings());
    let mut state = connect(&mut relay);
    let target = signed(&other, 1, vec![], "theirs", NOW);
    let deletion = signed(&operator, 5, vec![vec!["e", target.id.as_str()]], "", NOW);
    let known = vec![StoredEntry { id: target.id.clone(), author: target.pubkey.clone() }];
    let outcome = relay.process_inbound(&mut state, &env(known), InboundMessage::SubmitEvent(deletion.clone()));
    assert_eq!(outcome.command, Command::Store { event: deletion, retract: vec![target.id] });
}

#[test]
fn expired_connection_is_told_and_its_subscriptions_closed() {
    let operator = SignerKeys::generate();
    let mut relay = handler(Groups::new(false), &operator, &settings());
    let mut state = connect(&mut relay);
    let subscribe = |id: &str| InboundMessage::Subscribe { subscription_id: s(id), filters: vec![s("{}")] };
    relay.process_inbound(&mut state, &env(vec![]), subscribe("first"));
    relay.process_inbound(&mut state, &env(vec![]), subscribe("second"));
    assert_eq!(relay.expire(&mut state, NOW + 60), None);
    assert_eq!(state.subscriptions, vec![s("first"), s("second")]);
    let text = "error: maximum connection time exceeded";
    assert_eq!(
        relay.expire(&mut state, NOW + 61),
        Some(vec![
            OutboundMessage::Notice(s(text)),
            OutboundMessage::Closed { subscription_id: s("first"), message: s(text) },
            OutboundMessage::Closed { subscription_id: s("second"), message: s(text) },
        ])
    );
    assert!(state.subscriptions.is_empty());
}

#[test]
fn connection_without_limit_never_expires() {
    let operator = SignerKeys::generate();
    let mut unlimited = settings();
    unlimited.max_connection_time = None;
    let mut relay = handler(Groups::new(false), &operator, &unlimited);
    let mut state = connect(&mut relay);
    assert_eq!(relay.expire(&mut state, u64::MAX), None);
}

#[test]
fn connections_are_admitted_up_to_the_ceiling() {
    let operator = SignerKeys::generate();
    let mut relay = handler(Groups::new(false), &operator, &settings());
    let first = relay.accept(NOW, s("a")).unwrap();
    let second = relay.accept(NOW + 1, s("b")).unwrap();
    assert_eq!(first.state.connection_id, 0);
    assert_eq!(second.state.connection_id, 1);
    assert_eq!(second.state.started_at, NOW + 1);
    assert_eq!(second.state.relay_url, RELAY_URL);
    assert_eq!(second.state.auth, AuthStatus::Unauthenticated);
    assert_eq!(relay.live_connections(), 2);
    assert!(relay.accept(NOW + 2, s("c")).is_none());
    assert_eq!(relay.live_connections(), 2);
    relay.disconnect(first);
    assert_eq!(relay.live_connections(), 1);
    let third = relay.accept(NOW + 3, s("d")).unwrap();
    assert_eq!(third.state.connection_id, 2);
    assert!(relay.accept(NOW + 4, s("e")).is_none());
}

#[test]
fn event_with_bad_signature_is_not_stored() {
    let operator = SignerKeys::generate();
    let admin = SignerKeys::generate();
    let mut relay = handler(open_group_of(&admin), &operator, &settings());
    let mut state = connect(&mut relay);
    let event = signed(&admin, 9, vec![vec!["h", "g"]], "hello", NOW);
    let other = signed(&admin, 9, vec![vec!["h", "g"]], "other", NOW);
    let mut forged = event.clone();
    forged.sig = other.sig;
    let outcome = relay.process_inbound(&mut state, &env(vec![]), InboundMessage::SubmitEvent(forged.clone()));
    assert_eq!(outcome.replies, vec![ack(&forged, false, "invalid: signature does not verify")]);
    assert_eq!(outcome.command, Command::Nothing);
    assert_eq!(outcome.decided_by, Some(Stage::Verification));
    let mut altered = event.clone();
    altered.content = s("changed");
    let outcome = relay.process_inbound(&mut state, &env(vec![]), InboundMessage::SubmitEvent(altered.clone()));
    assert_eq!(outcome.replies, vec![ack(&altered, false, "invalid: id does not match the event")]);
    assert_eq!(outcome.command, Command::Nothing);
}

#[test]
fn validation_comes_before_verification() {
    let operator = SignerKeys::generate();
    let client = SignerKeys::generate();
    let mut relay = handler(Groups::new(false), &operator, &settings());
    let mut state = connect(&mut relay);
    let mut event = signed(&client, 1, vec![], "hello", NOW + 901);
    event.content = s("changed");
    let outcome = relay.process_inbound(&mut state, &env(vec![]), InboundMessage::SubmitEvent(event.clone()));
    assert_eq!(outcome.replies, vec![ack(&event, false, "invalid: created_at is too far in the future")]);
    assert_eq!(outcome.decided_by, Some(Stage::Validation));
    assert_eq!(outcome.disposition, Disposition::Rejected(Reason::FutureTimestamp));
    assert_eq!(Reason::FutureTimestamp.class(), ErrorClass::Validation);
}

#[test]
fn unauthenticated_connection_is_challenged_once() {
    let operator = SignerKeys::generate();
    let client = SignerKeys::generate();
    let mut relay = handler(Groups::new(false), &operator, &settings());
    let mut state = connect(&mut relay);
    let event = signed(&client, 1, vec![vec!["-"]], "mine alone", NOW);
    let outcome = relay.process_inbound(&mut state, &env(vec![]), InboundMessage::SubmitEvent(event.clone()));
    let refusal = ack(&event, false, "auth-required: this event needs an authenticated connection");
    assert_eq!(outcome.replies, vec![OutboundMessage::AuthChallenge(s("fresh-nonce")), refusal.clone()]);
    assert_eq!(outcome.command, Command::Nothing);
    assert_eq!(outcome.disposition, Disposition::Rejected(Reason::AuthRequired));
    assert_eq!(outcome.decided_by, Some(Stage::Authentication));
    assert_eq!(state.auth, AuthStatus::ChallengeIssued { nonce: s("fresh-nonce") });
    let mut later = env(vec![]);
    later.fresh_nonce = s("another-nonce");
    let outcome = relay.process_inbound(&mut state, &later, InboundMessage::SubmitEvent(event.clone()));
    assert_eq!(outcome.replies, vec![refusal]);
    assert_eq!(state.auth, AuthStatus::ChallengeIssued { nonce: s("fresh-nonce") });
}

#[test]
fn unauthenticated_admin_action_changes_no_group() {
    let operator = SignerKeys::generate();
    let admin = SignerKeys::generate();
    let newcomer = SignerKeys::generate().public_key().to_hex();
    let mut relay = handler(closed_group_of(&admin), &operator, &settings());
    let mut state = connect(&mut relay);
    let put = signed(&admin, 9000, vec![vec!["h", "g"], vec!["p", newcomer.as_str()]], "", NOW);
    let outcome = relay.process_inbound(&mut state, &env(vec![]), InboundMessage::SubmitEvent(put.clone()));
    assert_eq!(outcome.disposition, Disposition::Rejected(Reason::AuthRequired));
    assert_eq!(outcome.command, Command::Nothing);
    assert_eq!(relay.groups().role_of(&s("g"), &newcomer), None);
    authenticate(&mut relay, &mut state, &admin);
    let outcome = relay.process_inbound(&mut state, &env(vec![]), InboundMessage::SubmitEvent(put.clone()));
    assert_eq!(outcome.command, Command::Store { event: put, retract: vec![] });
    assert_eq!(relay.groups().role_of(&s("g"), &newcomer), Some(Role::Member));
}

#[test]
fn protected_event_is_taken_from_its_authenticated_author() {
    let operator = SignerKeys::generate();
    let client = SignerKeys::generate();
    let other = SignerKeys::generate();
    let mut relay = handler(Groups::new(false), &operator, &settings());
    let mut state = connect(&mut relay);
    authenticate(&mut relay, &mut state, &client);
    let own = signed(&client, 1, vec![vec!["-"]], "mine", NOW);
    let outcome = relay.process_inbound(&mut state, &env(vec![]), InboundMessage::SubmitEvent(own.clone()));
    assert_eq!(outcome.command, Command::Store { event: own, retract: vec![] });
    let foreign = signed(&other, 1, vec![vec!["-"]], "theirs", NOW);
    let outcome = relay.process_inbound(&mut state, &env(vec![]), InboundMessage::SubmitEvent(foreign.clone()));
    assert_eq!(
        outcome.replies,
        vec![ack(&foreign, false, "restricted: only the author may publish this event")]
    );
    assert_eq!(outcome.decided_by, Some(Stage::ProtectedEvent));
    let state_event = signed(&client, 39000, vec![vec!["d", "g"]], "", NOW);
    let outcome = relay.process_inbound(&mut state, &env(vec![]), InboundMessage::SubmitEvent(state_event.clone()));
    assert_eq!(
        outcome.replies,
        vec![ack(&state_event, false, "restricted: only the relay operator may publish this kind")]
    );
}

#[test]
fn failed_answers_leave_the_connection_unauthenticated() {
    let operator = SignerKeys::generate();
    let client = SignerKeys::generate();
    let mut relay = handler(Groups::new(false), &operator, &settings());
    let mut state = connect(&mut relay);
    let answer = signed(&client, 22242, vec![vec!["relay", RELAY_URL], vec!["challenge", "nonce-N"]], "", NOW);
    let outcome = relay.process_inbound(&mut state, &env(vec![]), InboundMessage::AuthResponse(answer.clone()));
    assert_eq!(outcome.replies, vec![ack(&answer, false, "auth-required: no challenge is pending")]);
    assert_eq!(state.auth, AuthStatus::Unauthenticated);
    state.auth = AuthStatus::ChallengeIssued { nonce: s("nonce-N") };
    let pending = state.auth.clone();
    let wrong = signed(&client, 22242, vec![vec!["relay", RELAY_URL], vec!["challenge", "nonce-M"]], "", NOW);
    let outcome = relay.process_inbound(&mut state, &env(vec![]), InboundMessage::AuthResponse(wrong.clone()));
    assert_eq!(outcome.replies, vec![ack(&wrong, false, "auth-required: challenge does not match")]);
    assert_eq!(state.auth, pending);
    let elsewhere = signed(&client, 22242, vec![vec!["relay", "wss://other"], vec!["challenge", "nonce-N"]], "", NOW);
    let outcome = relay.process_inbound(&mut state, &env(vec![]), InboundMessage::AuthResponse(elsewhere.clone()));
    assert_eq!(outcome.replies, vec![ack(&elsewhere, false, "auth-required: relay does not match")]);
    let stale = signed(&client, 22242, vec![vec!["relay", RELAY_URL], vec!["challenge", "nonce-N"]], "", NOW - 601);
    let outcome = relay.process_inbound(&mut state, &env(vec![]), InboundMessage::AuthResponse(stale.clone()));
    assert_eq!(
        outcome.replies,
        vec![ack(&stale, false, "auth-required: created_at is outside the accepted window")]
    );
    let mut forged = answer.clone();
    forged.sig = stale.sig.clone();
    let outcome = relay.process_inbound(&mut state, &env(vec![]), InboundMessage::AuthResponse(forged.clone()));
    assert_eq!(outcome.replies, vec![ack(&forged, false, "auth-required: signature does not verify")]);
    let mut altered = answer.clone();
    altered.content = s("x");
    let outcome = relay.process_inbound(&mut state, &env(vec![]), InboundMessage::AuthResponse(altered.clone()));
    assert_eq!(outcome.replies, vec![ack(&altered, false, "auth-required: id does not match the event")]);
    let note = signed(&client, 1, vec![vec!["relay", RELAY_URL], vec!["challenge", "nonce-N"]], "", NOW);
    let outcome = relay.process_inbound(&mut state, &env(vec![]), InboundMessage::AuthResponse(note.clone()));
    assert_eq!(outcome.replies, vec![ack(&note, false, "auth-required: not an authentication event")]);
    assert_eq!(outcome.disposition, Disposition::Rejected(Reason::NotAnAuthEvent));
    assert_eq!(state.auth, pending);
    assert_eq!(outcome.command, Command::Nothing);
}

#[test]
fn resubmitted_event_is_accepted_without_a_second_change() {
    let operator = SignerKeys::generate();
    let admin = SignerKeys::generate();
    let client = SignerKeys::generate();
    let me = client.public_key().to_hex();
    let mut relay = handler(open_group_of(&admin), &operator, &settings());
    let mut state = connect(&mut relay);
    let join = signed(&client, 9021, vec![vec!["h", "g"]], "", NOW);
    let leave = signed(&client, 9022, vec![vec!["h", "g"]], "", NOW + 1);
    let outcome = relay.process_inbound(&mut state, &env(vec![]), InboundMessage::SubmitEvent(join.clone()));
    assert_eq!(outcome.replies, vec![ack(&join, true, "")]);
    assert_eq!(outcome.command, Command::Store { event: join.clone(), retract: vec![] });
    assert_eq!(relay.groups().role_of(&s("g"), &me), Some(Role::Member));
    let outcome = relay.process_inbound(&mut state, &env(vec![]), InboundMessage::SubmitEvent(leave.clone()));
    assert_eq!(outcome.command, Command::Store { event: leave.clone(), retract: vec![] });
    assert_eq!(relay.groups().role_of(&s("g"), &me), None);
    let stored = vec![
        StoredEntry { id: join.id.clone(), author: me.clone() },
        StoredEntry { id: leave.id.clone(), author: me.clone() },
    ];
    let outcome = relay.process_inbound(&mut state, &env(stored.clone()), InboundMessage::SubmitEvent(join.clone()));
    assert_eq!(outcome.replies, vec![ack(&join, true, "duplicate: already have this event")]);
    assert_eq!(outcome.command, Command::Nothing);
    assert_eq!(outcome.disposition, Disposition::Duplicate);
    assert_eq!(relay.groups().role_of(&s("g"), &me), None);
    let outcome = relay.process_inbound(&mut state, &env(stored), InboundMessage::SubmitEvent(leave.clone()));
    assert_eq!(outcome.replies, vec![ack(&leave, true, "duplicate: already have this event")]);
    assert_eq!(outcome.command, Command::Nothing);
    assert_eq!(relay.groups().role_of(&s("g"), &me), None);
}

#[test]
fn silent_store_is_contained() {
    let operator = SignerKeys::generate();
    let client = SignerKeys::generate();
    let mut relay = handler(Groups::new(true), &operator, &settings());
    let mut state = connect(&mut relay);
    let mut silent = env(vec![]);
    silent.storage = StorageReport::Unavailable;
    let post = signed(&client, 9, vec![vec!["h", "new"]], "hello", NOW);
    let outcome = relay.process_inbound(&mut state, &silent, InboundMessage::SubmitEvent(post.clone()));
    assert_eq!(outcome.replies, vec![ack(&post, false, "error: internal error")]);
    assert_eq!(outcome.command, Command::Nothing);
    assert_eq!(outcome.disposition, Disposition::Rejected(Reason::InternalError));
    assert_eq!(outcome.decided_by, Some(Stage::GroupAuthorization));
    assert_eq!(
        outcome.records,
        vec![LogRecord {
            connection_id: 0,
            stage: Some(Stage::GroupAuthorization),
            disposition: Disposition::Faulted(Fault::Internal),
        }]
    );
    assert!(!outcome.close);
    assert!(relay.groups().group(&s("new")).is_none());
    let deletion = signed(&client, 5, vec![vec!["e", "x"]], "", NOW);
    let outcome = relay.process_inbound(&mut state, &silent, InboundMessage::SubmitEvent(deletion.clone()));
    assert_eq!(outcome.replies, vec![ack(&deletion, false, "error: internal error")]);
    assert_eq!(outcome.decided_by, Some(Stage::Deletion));
    let note = signed(&client, 1, vec![], "hello", NOW);
    let outcome = relay.process_inbound(&mut state, &silent, InboundMessage::SubmitEvent(note.clone()));
    assert_eq!(outcome.replies, vec![ack(&note, false, "error: internal error")]);
    assert_eq!(outcome.decided_by, None);
    assert!(!outcome.close);
    let outcome = relay.process_inbound(&mut state, &env(vec![]), InboundMessage::SubmitEvent(note.clone()));
    assert_eq!(outcome.command, Command::Store { event: note, retract: vec![] });
}

#[test]
fn broken_store_closes_the_connection() {
    let operator = SignerKeys::generate();
    let client = SignerKeys::generate();
    let mut relay = handler(Groups::new(false), &operator, &settings());
    let mut state = connect(&mut relay);
    let mut broken = env(vec![]);
    broken.storage = StorageReport::Failed;
    let note = signed(&client, 1, vec![], "hello", NOW);
    let outcome = relay.process_inbound(&mut state, &broken, InboundMessage::SubmitEvent(note));
    assert_eq!(outcome.replies, vec![]);
    assert_eq!(outcome.command, Command::Nothing);
    assert_eq!(outcome.disposition, Disposition::Faulted(Fault::Fatal));
    assert!(outcome.close);
    let subscribe = InboundMessage::Subscribe { subscription_id: s("sub"), filters: vec![] };
    let outcome = relay.process_inbound(&mut state, &broken, subscribe);
    assert!(!outcome.close);
}

#[test]
fn fault_is_not_contained_without_the_containing_stage() {
    let client = SignerKeys::generate();
    let factory = NostrConnectionFactory::new(s(RELAY_URL)).unwrap();
    let mut state = factory.create_state(3, NOW);
    let mut groups = Groups::new(false);
    let policy = Policy { auth_url: s(RELAY_URL), relay_pubkey: s("aa") };
    let mut silent = env(vec![]);
    silent.storage = StorageReport::Unavailable;
    let deletion = signed(&client, 5, vec![vec!["e", "x"]], "", NOW);
    let stages = vec![Stage::Logging, Stage::Validation, Stage::Deletion];
    let message = InboundMessage::SubmitEvent(deletion);
    let outcome = run_from(&stages, 0, &policy, &mut state, &mut groups, &silent, message.clone(), vec![]);
    assert_eq!(outcome.disposition, Disposition::Faulted(Fault::Internal));
    assert_eq!(outcome.replies, vec![]);
    assert_eq!(outcome.records.len(), 1);
    let outcome = run_from(&stages, 3, &policy, &mut state, &mut groups, &env(vec![]), message.clone(), vec![]);
    assert_eq!(outcome.disposition, Disposition::Accepted);
    assert_eq!(outcome.records, vec![]);
    let twice = vec![Stage::Logging, Stage::ErrorContainment, Stage::Logging, Stage::Deletion];
    let outcome = run_from(&twice, 0, &policy, &mut state, &mut groups, &silent, message, vec![]);
    assert_eq!(
        outcome.records,
        vec![
            LogRecord {
                connection_id: 3,
                stage: Some(Stage::Deletion),
                disposition: Disposition::Faulted(Fault::Internal),
            },
            LogRecord {
                connection_id: 3,
                stage: Some(Stage::Deletion),
                disposition: Disposition::Rejected(Reason::InternalError),
            },
        ]
    );
}

#[test]
fn text_that_is_no_message_is_dropped() {
    let operator = SignerKeys::generate();
    let mut relay = handler(Groups::new(false), &operator, &settings());
    let mut state = connect(&mut relay);
    let before = state.clone();
    let outcome = relay.process_text(&mut state, &env(vec![]), s("{not a message"));
    assert_eq!(outcome.replies, vec![]);
    assert_eq!(outcome.command, Command::Nothing);
    assert_eq!(outcome.disposition, Disposition::Ignored);
    assert_eq!(outcome.records, vec![]);
    assert!(!outcome.close);
    assert_eq!(state, before);
}

#[test]
fn subscriptions_are_opened_and_closed() {
    let operator = SignerKeys::generate();
    let mut relay = handler(Groups::new(false), &operator, &settings());
    let mut state = connect(&mut relay);
    let outcome = relay.process_text(&mut state, &env(vec![]), s("[\"REQ\",\"sub\",{\"kinds\":[1]}]"));
    assert_eq!(outcome.replies, vec![]);
    assert_eq!(
        outcome.command,
        Command::Query { subscription_id: s("sub"), filters: vec![s("{\"kinds\":[1]}")] }
    );
    assert_eq!(state.subscriptions, vec![s("sub")]);
    let outcome = relay.process_text(&mut state, &env(vec![]), s("[\"CLOSE\",\"sub\"]"));
    assert_eq!(outcome.command, Command::Cancel { subscription_id: s("sub") });
    assert!(state.subscriptions.is_empty());
    let long = "x".repeat(65);
    let outcome = relay.process_text(&mut state, &env(vec![]), format!("[\"REQ\",\"{}\",{{}}]", long));
    assert_eq!(
        outcome.replies,
        vec![OutboundMessage::Closed {
            subscription_id: long,
            message: s("invalid: subscription id must have 1 to 64 characters"),
        }]
    );
    assert_eq!(outcome.command, Command::Nothing);
    assert!(state.subscriptions.is_empty());
    let outcome = relay.process_text(&mut state, &env(vec![]), s("[\"COUNT\",\"sub\",{}]"));
    assert_eq!(outcome.replies, vec![OutboundMessage::Notice(s("invalid: message is not supported"))]);
}

#[test]
fn private_group_events_go_to_members_only() {
    let operator = SignerKeys::generate();
    let admin = SignerKeys::generate();
    let stranger = SignerKeys::generate();
    let mut relay = handler(closed_group_of(&admin), &operator, &settings());
    let mut state = connect(&mut relay);
    let post = signed(&admin, 9, vec![vec!["h", "g"]], "members only", NOW);
    let delivery = OutboundMessage::EventDelivery { subscription_id: s("sub"), event: post };
    let outcome = relay.process_outbound(&state, delivery.clone());
    assert_eq!(outcome.deliver, None);
    assert_eq!(
        outcome.records,
        vec![LogRecord {
            connection_id: 0,
            stage: Some(Stage::GroupAuthorization),
            disposition: Disposition::Rejected(Reason::NotMember),
        }]
    );
    authenticate(&mut relay, &mut state, &stranger);
    assert_eq!(relay.process_outbound(&state, delivery.clone()).deliver, None);
    authenticate(&mut relay, &mut state, &admin);
    let outcome = relay.process_outbound(&state, delivery.clone());
    assert_eq!(outcome.deliver, Some(delivery));
    assert_eq!(
        outcome.records,
        vec![LogRecord { connection_id: 0, stage: None, disposition: Disposition::Accepted }]
    );
    let notice = OutboundMessage::Notice(s("hello"));
    state.auth = AuthStatus::Unauthenticated;
    assert_eq!(relay.process_outbound(&state, notice.clone()).deliver, Some(notice));
}

#[test]
fn challenge_on_connect_needs_room_in_the_queue() {
    let operator = SignerKeys::generate();
    let mut no_room = settings();
    no_room.challenge_on_connect = true;
    no_room.channel_size = 0;
    let mut relay = handler(Groups::new(false), &operator, &no_room);
    let mut connection = relay.accept(NOW, s("nonce")).unwrap();
    assert_eq!(connection.state.auth, AuthStatus::ChallengeIssued { nonce: s("nonce") });
    assert_eq!(connection.outbound.take(), None);
}

#[test]
fn dispositions_have_their_class() {
    assert_eq!(Disposition::Accepted.class(), None);
    assert_eq!(Disposition::Duplicate.class(), None);
    assert_eq!(Disposition::Ignored.class(), Some(ErrorClass::Malformed));
    assert_eq!(Disposition::Rejected(Reason::BadTags).class(), Some(ErrorClass::Validation));
    assert_eq!(Disposition::Rejected(Reason::BadSignature).class(), Some(ErrorClass::Verification));
    assert_eq!(Disposition::Rejected(Reason::NotMember).class(), Some(ErrorClass::Authorization));
    assert_eq!(Disposition::Rejected(Reason::InternalError).class(), Some(ErrorClass::Contained));
    assert_eq!(Disposition::Faulted(Fault::Internal).class(), Some(ErrorClass::Contained));
    assert_eq!(Disposition::Faulted(Fault::Fatal).class(), Some(ErrorClass::Fatal));
}

#[test]
fn chain_without_stages_hands_everything_over() {
    let client = SignerKeys::generate();
    let factory = NostrConnectionFactory::new(s(RELAY_URL)).unwrap();
    let mut state = factory.create_state(1, NOW);
    let mut groups = Groups::new(false);
    let policy = Policy { auth_url: s(RELAY_URL), relay_pubkey: s("aa") };
    let none: Vec<Stage> = Vec::new();
    let answer = signed(&client, 22242, vec![], "", NOW);
    let outcome = run_from(
        &none,
        0,
        &policy,
        &mut state,
        &mut groups,
        &env(vec![]),
        InboundMessage::AuthResponse(answer.clone()),
        vec![],
    );
    assert_eq!(
        outcome.replies,
        vec![ack(&answer, false, "auth-required: authentication is not available")]
    );
    assert_eq!(outcome.disposition, Disposition::Rejected(Reason::AuthUnavailable));
    assert_eq!(outcome.decided_by, None);
    assert_eq!(state.auth, AuthStatus::Unauthenticated);
    let outcome = run_from(
        &none,
        0,
        &policy,
        &mut state,
        &mut groups,
        &env(vec![]),
        InboundMessage::Unsupported,
        vec![],
    );
    assert_eq!(outcome.replies, vec![OutboundMessage::Notice(s("invalid: message is not supported"))]);
    assert_eq!(outcome.disposition, Disposition::Rejected(Reason::UnsupportedMessage));
    let mut forged = signed(&client, 1, vec![], "hello", NOW);
    forged.content = s("changed");
    let outcome = run_from(
        &none,
        0,
        &policy,
        &mut state,
        &mut groups,
        &env(vec![]),
        InboundMessage::SubmitEvent(forged.clone()),
        vec![s("named before")],
    );
    assert_eq!(outcome.command, Command::Store { event: forged, retract: vec![s("named before")] });
}
