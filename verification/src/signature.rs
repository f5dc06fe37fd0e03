//! Integrity and authenticity of an event: the identifier is the hash of the
//! other fields, and the signature over it is the author's. Hashing and
//! signature arithmetic are `nostr_sdk`'s.

use vstd::prelude::*;
use nostr_sdk::prelude::Event as WireEvent;
use nostr_sdk::prelude::EventId;
use nostr_sdk::prelude::Kind;
use nostr_sdk::prelude::PublicKey;
use nostr_sdk::prelude::Signature;
use nostr_sdk::prelude::Tags;
use nostr_sdk::prelude::Timestamp;
use crate::event::Event;
use crate::event::EventView;
use crate::message::Reason;

verus! {

/// The identifier that `EventId::compute` gives to an event with these
/// fields, in hexadecimal; nothing where `pubkey` is not the hexadecimal form
/// of a key or a tag is empty.
pub uninterp spec fn canonical_event_id(
    pubkey: Seq<char>,
    created_at: u64,
    kind: u16,
    tags: Seq<Seq<Seq<char>>>,
    content: Seq<char>,
) -> Option<Seq<char>>;

/// Whether `Event::verify_signature` accepts `sig` as the signature of the
/// key `pubkey` over the identifier `id`, all three in hexadecimal. False
/// where one of them is not in that form.
pub uninterp spec fn signature_verifies(id: Seq<char>, pubkey: Seq<char>, sig: Seq<char>) -> bool;

/// Calls `EventId::compute` on the fields, read by `PublicKey::from_hex`,
/// `Timestamp::from_secs`, `Kind::from_u16` and `Tags::parse`, and writes the
/// result with `to_hex`. Nothing where `from_hex` or `parse` reports an error.
#[verifier::external_body]
fn compute_event_id(
    pubkey: &str,
    created_at: u64,
    kind: u16,
    tags: &Vec<Vec<String>>,
    content: &str,
) -> (id: Option<String>)
    ensures
        id.deep_view() == canonical_event_id(pubkey@, created_at, kind, tags.deep_view(), content@),
{
    let author = PublicKey::from_hex(pubkey).ok()?;
    let tags = Tags::parse(tags.clone()).ok()?;
    let created_at = Timestamp::from_secs(created_at);
    Some(EventId::compute(&author, &created_at, &Kind::from_u16(kind), &tags, content).to_hex())
}

/// Calls `Event::verify_signature` on an event that `Event::new` builds with
/// this identifier, key and signature, each read by `from_hex`; the other
/// fields, which the call does not read, are empty. False where `from_hex`
/// reports an error.
#[verifier::external_body]
fn check_signature(id: &str, pubkey: &str, sig: &str) -> (ok: bool)
    ensures
        ok == signature_verifies(id@, pubkey@, sig@),
{
    match (EventId::from_hex(id), PublicKey::from_hex(pubkey), Signature::from_hex(sig)) {
        (Ok(id), Ok(author), Ok(sig)) => {
            let kind = Kind::from_u16(0);
            WireEvent::new(id, author, Timestamp::zero(), kind, Tags::new(), "", sig).verify_signature()
        },
        _ => false,
    }
}

/// What is wrong with an event whose identifier should be `claimed`, given
/// the identifier computed from its fields and the verdict on its signature.
pub open spec fn verification_failure(
    claimed: Seq<char>,
    computed: Option<Seq<char>>,
    signature_ok: bool,
) -> Option<Reason> {
    if computed != Some(claimed) {
        Some(Reason::IdMismatch)
    } else if !signature_ok {
        Some(Reason::BadSignature)
    } else {
        None
    }
}

/// What is wrong with the identifier or the signature of `event`. Both must
/// hold; the identifier is judged first.
pub open spec fn event_failure(event: EventView) -> Option<Reason> {
    verification_failure(
        event.id,
        canonical_event_id(event.pubkey, event.created_at, event.kind, event.tags, event.content),
        signature_verifies(event.id, event.pubkey, event.sig),
    )
}

/// Judges an event by the identifier computed from its fields and the
/// verdict on its signature.
pub fn judge_verification(claimed: &String, computed: Option<String>, signature_ok: bool) -> (failure:
    Option<Reason>)
    ensures
        failure == verification_failure(claimed@, computed.deep_view(), signature_ok),
{
    match computed {
        Some(id) => {
            if id != *claimed {
                Some(Reason::IdMismatch)
            } else if !signature_ok {
                Some(Reason::BadSignature)
            } else {
                None
            }
        },
        None => Some(Reason::IdMismatch),
    }
}

/// Recomputes the identifier of `event`, checks its signature, and says what
/// is wrong, if anything is. The event is left as it is.
pub fn verify_event(event: &Event) -> (failure: Option<Reason>)
    ensures
        failure == event_failure(event@),
{
    let computed = compute_event_id(
        event.pubkey.as_str(),
        event.created_at,
        event.kind,
        &event.tags,
        event.content.as_str(),
    );
    let signature_ok = check_signature(event.id.as_str(), event.pubkey.as_str(), event.sig.as_str());
    judge_verification(&event.id, computed, signature_ok)
}

} // verus!
