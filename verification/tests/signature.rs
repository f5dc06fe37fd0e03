use groups_relay::codec::NostrMessageConverter;
use groups_relay::event::Event;
use groups_relay::message::InboundMessage;
use groups_relay::message::Reason;
use groups_relay::signature::judge_verification;
use groups_relay::signature::verify_event;
use nostr_sdk::prelude::ClientMessage;
use nostr_sdk::prelude::EventBuilder;
use nostr_sdk::prelude::FinalizeEvent;
use nostr_sdk::prelude::Keys;
use nostr_sdk::prelude::Kind;
use nostr_sdk::prelude::Tag;
use nostr_sdk::prelude::Timestamp;

fn signed(keys: &Keys, kind: u16, tags: Vec<Vec<&str>>, content: &str, created_at: u64) -> Event {
    let tags: Vec<Tag> = tags.into_iter().map(|tag| Tag::parse(tag).unwrap()).collect();
    let wire = EventBuilder::new(Kind::from_u16(kind), content)
        .tags(tags)
        .custom_created_at(Timestamp::from_secs(created_at))
        .finalize(keys)
        .unwrap();
    match NostrMessageConverter.inbound_from_string(ClientMessage::event(wire).as_json()) {
        Some(InboundMessage::SubmitEvent(event)) => event,
        other => panic!("unexpected message: {:?}", other),
    }
}

#[test]
fn signed_event_verifies() {
    let keys = Keys::generate();
    let event = signed(&keys, 1, vec![vec!["h", "group"]], "hello", 1_700_000_000);
    assert_eq!(event.pubkey, keys.public_key().to_hex());
    assert_eq!(verify_event(&event), None);
}

#[test]
fn changed_content_breaks_the_identifier() {
    let keys = Keys::generate();
    let mut event = signed(&keys, 1, vec![], "hello", 1_700_000_000);
    event.content = String::from("hello!");
    assert_eq!(verify_event(&event), Some(Reason::IdMismatch));
}

#[test]
fn changed_timestamp_kind_or_tags_break_the_identifier() {
    let keys = Keys::generate();
    let event = signed(&keys, 1, vec![vec!["h", "group"]], "hello", 1_700_000_000);
    let mut later = event.clone();
    later.created_at += 1;
    assert_eq!(verify_event(&later), Some(Reason::IdMismatch));
    let mut other_kind = event.clone();
    other_kind.kind = 9;
    assert_eq!(verify_event(&other_kind), Some(Reason::IdMismatch));
    let mut other_tags = event.clone();
    other_tags.tags[0][1] = String::from("another");
    assert_eq!(verify_event(&other_tags), Some(Reason::IdMismatch));
}

#[test]
fn foreign_signature_is_refused() {
    let keys = Keys::generate();
    let event = signed(&keys, 1, vec![], "hello", 1_700_000_000);
    let other = signed(&keys, 1, vec![], "something else", 1_700_000_000);
    let mut forged = event.clone();
    forged.sig = other.sig.clone();
    assert_eq!(verify_event(&forged), Some(Reason::BadSignature));
}

#[test]
fn foreign_author_breaks_the_identifier() {
    let keys = Keys::generate();
    let intruder = Keys::generate();
    let mut event = signed(&keys, 1, vec![], "hello", 1_700_000_000);
    event.pubkey = intruder.public_key().to_hex();
    assert_eq!(verify_event(&event), Some(Reason::IdMismatch));
}

#[test]
fn malformed_fields_do_not_verify() {
    let keys = Keys::generate();
    let event = signed(&keys, 1, vec![], "hello", 1_700_000_000);
    let mut bad_key = event.clone();
    bad_key.pubkey = String::from("xyz");
    assert_eq!(verify_event(&bad_key), Some(Reason::IdMismatch));
    let mut bad_sig = event.clone();
    bad_sig.sig = String::from("00");
    assert_eq!(verify_event(&bad_sig), Some(Reason::BadSignature));
    let mut empty_tag = event.clone();
    empty_tag.tags.push(Vec::new());
    assert_eq!(verify_event(&empty_tag), Some(Reason::IdMismatch));
}

#[test]
fn verdict_follows_identifier_then_signature() {
    let claimed = String::from("aa");
    assert_eq!(judge_verification(&claimed, Some(String::from("aa")), true), None);
    assert_eq!(
        judge_verification(&claimed, Some(String::from("aa")), false),
        Some(Reason::BadSignature)
    );
    assert_eq!(
        judge_verification(&claimed, Some(String::from("ab")), true),
        Some(Reason::IdMismatch)
    );
    assert_eq!(
        judge_verification(&claimed, Some(String::from("ab")), false),
        Some(Reason::IdMismatch)
    );
    assert_eq!(judge_verification(&claimed, None, true), Some(Reason::IdMismatch));
}
