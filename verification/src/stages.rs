//! The questions that the content stages ask of a message. Each is a function
//! of the message and of what the connection and the store are known to
//! hold; none changes anything.

use vstd::prelude::*;
use crate::connection::AuthStatus;
use crate::connection::AuthView;
use crate::connection::authenticated_as;
use crate::event::Event;
use crate::event::EventView;
use crate::event::KIND_AUTHENTICATION;
use crate::event::KIND_DELETION;
use crate::event::KIND_GROUP_STATE_FIRST;
use crate::event::KIND_GROUP_STATE_LAST;
use crate::event::KIND_LIMIT;
use crate::event::check_lower_hex;
use crate::event::first_tag_value;
use crate::event::has_marker;
use crate::event::is_lower_hex;
use crate::event::tag_values;
use crate::event::tags_well_shaped;
use crate::groups::group_reference;
use crate::groups::is_admin_kind;
use crate::message::InboundMessage;
use crate::message::InboundView;
use crate::message::Reason;
use crate::signature::event_failure;
use crate::signature::verify_event;
use crate::storage::StoredEntry;
use crate::storage::StoredView;
use crate::storage::author_of;
use crate::storage::find_author;

verus! {

/// How many seconds ahead of the relay's clock an event may be dated.
pub const MAX_FUTURE_SKEW: u64 = 900;

/// How many seconds an authentication event may lie before or after the
/// relay's clock.
pub const AUTH_WINDOW: u64 = 600;

/// The most characters that a subscription identifier may have.
pub const MAX_SUBSCRIPTION_ID_LEN: usize = 64;

/// The structural defect of an event, if it has one: the first of a
/// malformed identifier, key or signature, a tag without a name, a kind that
/// the relay does not take, and a date too far ahead of `now`.
pub open spec fn event_defect(event: EventView, now: u64) -> Option<Reason> {
    if !is_lower_hex(event.id, 64) {
        Some(Reason::BadId)
    } else if !is_lower_hex(event.pubkey, 64) {
        Some(Reason::BadPubkey)
    } else if !is_lower_hex(event.sig, 128) {
        Some(Reason::BadSignatureField)
    } else if !tags_well_shaped(event.tags) {
        Some(Reason::BadTags)
    } else if event.kind >= KIND_LIMIT {
        Some(Reason::UnsupportedKind)
    } else if event.created_at > now + MAX_FUTURE_SKEW {
        Some(Reason::FutureTimestamp)
    } else {
        None
    }
}

/// The structural defect of a message, if it has one.
pub open spec fn message_defect(message: InboundView, now: u64) -> Option<Reason> {
    match message {
        InboundView::SubmitEvent(event) => event_defect(event, now),
        InboundView::AuthResponse(event) => event_defect(event, now),
        InboundView::Subscribe { subscription_id, filters } => if subscription_id.len() == 0
            || subscription_id.len() > MAX_SUBSCRIPTION_ID_LEN {
            Some(Reason::BadSubscriptionId)
        } else {
            None
        },
        InboundView::CloseSubscription(id) => None,
        InboundView::Unsupported => Some(Reason::UnsupportedMessage),
    }
}

/// Finds the structural defect of an event.
pub fn find_event_defect(event: &Event, now: u64) -> (defect: Option<Reason>)
    ensures
        defect == event_defect(event@, now),
{
    if !check_lower_hex(&event.id, 64) {
        Some(Reason::BadId)
    } else if !check_lower_hex(&event.pubkey, 64) {
        Some(Reason::BadPubkey)
    } else if !check_lower_hex(&event.sig, 128) {
        Some(Reason::BadSignatureField)
    } else if !event.tags_well_shaped() {
        Some(Reason::BadTags)
    } else if event.kind >= KIND_LIMIT {
        Some(Reason::UnsupportedKind)
    } else if now <= u64::MAX - MAX_FUTURE_SKEW && event.created_at > now + MAX_FUTURE_SKEW {
        Some(Reason::FutureTimestamp)
    } else {
        None
    }
}

/// Finds the structural defect of a message.
pub fn find_message_defect(message: &InboundMessage, now: u64) -> (defect: Option<Reason>)
    ensures
        defect == message_defect(message@, now),
{
    match message {
        InboundMessage::SubmitEvent(event) => find_event_defect(event, now),
        InboundMessage::AuthResponse(event) => find_event_defect(event, now),
        InboundMessage::Subscribe { subscription_id, filters } => {
            let n = subscription_id.as_str().unicode_len();
            if n == 0 || n > MAX_SUBSCRIPTION_ID_LEN {
                Some(Reason::BadSubscriptionId)
            } else {
                None
            }
        },
        InboundMessage::CloseSubscription(_) => None,
        InboundMessage::Unsupported => Some(Reason::UnsupportedMessage),
    }
}

/// The kinds that describe a group's state: only the relay operator
/// publishes them.
pub open spec fn is_operator_kind(kind: u16) -> bool {
    KIND_GROUP_STATE_FIRST <= kind <= KIND_GROUP_STATE_LAST
}

/// An event is protected when it carries the marker tag `-` or is of an
/// operator's kind.
pub open spec fn is_protected(event: EventView) -> bool {
    has_marker(event.tags, "-"@) || is_operator_kind(event.kind)
}

/// The one identity from whose connection a protected event is taken: the
/// relay operator for an operator's kind, the signer otherwise.
pub open spec fn entitled_identity(event: EventView, relay_pubkey: Seq<char>) -> Seq<char> {
    if is_operator_kind(event.kind) {
        relay_pubkey
    } else {
        event.pubkey
    }
}

/// Why a protected event is not taken from a connection in the state `auth`.
pub open spec fn protection_failure(event: EventView, auth: AuthView, relay_pubkey: Seq<char>) -> Option<
    Reason,
> {
    if !is_protected(event) || authenticated_as(auth, entitled_identity(event, relay_pubkey)) {
        None
    } else if !(auth is Authenticated) {
        Some(Reason::AuthRequired)
    } else if is_operator_kind(event.kind) {
        Some(Reason::OperatorOnly)
    } else {
        Some(Reason::AuthorOnly)
    }
}

/// An event needs an authenticated connection when it is protected or asks
/// for an admin's action in a group.
pub open spec fn needs_identity(event: EventView) -> bool {
    is_protected(event) || (is_admin_kind(event.kind) && group_reference(event) is Some)
}

/// Whether an event is protected.
pub fn check_protected(event: &Event) -> (yes: bool)
    ensures
        yes == is_protected(event@),
{
    (KIND_GROUP_STATE_FIRST <= event.kind && event.kind <= KIND_GROUP_STATE_LAST)
        || event.has_marker(&"-".to_owned())
}

/// Whether an event needs an authenticated connection.
pub fn check_needs_identity(event: &Event) -> (yes: bool)
    ensures
        yes == needs_identity(event@),
{
    if check_protected(event) {
        return true;
    }
    let admin_kind = event.kind == crate::event::KIND_GROUP_PUT_USER || event.kind
        == crate::event::KIND_GROUP_REMOVE_USER || event.kind
        == crate::event::KIND_GROUP_EDIT_SETTINGS;
    admin_kind && event.first_tag_value(&"h".to_owned()).is_some()
}

/// Finds why a protected event is not taken from a connection.
pub fn find_protection_failure(event: &Event, auth: &AuthStatus, relay_pubkey: &String) -> (failure:
    Option<Reason>)
    ensures
        failure == protection_failure(event@, auth@, relay_pubkey@),
{
    if !check_protected(event) {
        return None;
    }
    let operator_kind = KIND_GROUP_STATE_FIRST <= event.kind && event.kind <= KIND_GROUP_STATE_LAST;
    let entitled = if operator_kind {
        auth.is_authenticated_as(relay_pubkey)
    } else {
        auth.is_authenticated_as(&event.pubkey)
    };
    if entitled {
        None
    } else if !auth.is_authenticated() {
        Some(Reason::AuthRequired)
    } else if operator_kind {
        Some(Reason::OperatorOnly)
    } else {
        Some(Reason::AuthorOnly)
    }
}

/// The events that a deletion names: the values of its `e` tags.
pub open spec fn deletion_targets(event: EventView) -> Seq<Seq<char>> {
    tag_values(event.tags, "e"@)
}

/// One of `targets` is stored and is not `signer`'s.
pub open spec fn names_foreign_event(
    known: Seq<StoredView>,
    targets: Seq<Seq<char>>,
    signer: Seq<char>,
) -> bool {
    exists|i: int|
        0 <= i < targets.len() && author_of(known, #[trigger] targets[i]) is Some && author_of(
            known,
            targets[i],
        ) != Some(signer)
}

/// Why a deletion is not taken: it names a stored event of another author,
/// and its signer is not the relay operator.
pub open spec fn deletion_failure(event: EventView, known: Seq<StoredView>, relay_pubkey: Seq<char>) -> Option<
    Reason,
> {
    if event.kind == KIND_DELETION && event.pubkey != relay_pubkey && names_foreign_event(
        known,
        deletion_targets(event),
        event.pubkey,
    ) {
        Some(Reason::NotOwner)
    } else {
        None
    }
}

/// The stored events that an accepted deletion retracts: those of its
/// targets that the store holds, in the order of the tags.
pub open spec fn retracted(event: EventView, known: Seq<StoredView>) -> Seq<Seq<char>> {
    if event.kind == KIND_DELETION {
        deletion_targets(event).filter(|id: Seq<char>| author_of(known, id) is Some)
    } else {
        Seq::empty()
    }
}

/// Finds why a deletion is not taken.
pub fn find_deletion_failure(event: &Event, known: &Vec<StoredEntry>, relay_pubkey: &String) -> (failure:
    Option<Reason>)
    ensures
        failure == deletion_failure(event@, known.deep_view(), relay_pubkey@),
{
    if event.kind != KIND_DELETION || event.pubkey == *relay_pubkey {
        return None;
    }
    let targets = event.tag_values(&"e".to_owned());
    let mut i: usize = 0;
    while i < targets.len()
        invariant
            i <= targets.len(),
            event.kind == KIND_DELETION,
            event@.pubkey != relay_pubkey@,
            targets.deep_view() == deletion_targets(event@),
            forall|j: int|
                0 <= j < i ==> !(author_of(known.deep_view(), #[trigger] targets.deep_view()[j])
                    is Some && author_of(known.deep_view(), targets.deep_view()[j]) != Some(
                    event@.pubkey,
                )),
        decreases targets.len() - i,
    {
        assert(targets.deep_view()[i as int] == targets[i as int]@);
        match find_author(known, &targets[i]) {
            Some(author) => {
                if *author != event.pubkey {
                    proof {
                        let named = deletion_targets(event@);
                        assert(named[i as int] == targets[i as int]@);
                        assert(author_of(known.deep_view(), named[i as int]) == Some(author@));
                        assert(names_foreign_event(known.deep_view(), named, event@.pubkey));
                    }
                    return Some(Reason::NotOwner);
                }
            },
            None => {},
        }
        i += 1;
    }
    None
}

/// Lists the stored events that an accepted deletion retracts.
pub fn list_retracted(event: &Event, known: &Vec<StoredEntry>) -> (ids: Vec<String>)
    ensures
        ids.deep_view() == retracted(event@, known.deep_view()),
{
    let mut ids: Vec<String> = Vec::new();
    if event.kind != KIND_DELETION {
        assert(ids.deep_view() =~= Seq::empty());
        return ids;
    }
    let targets = event.tag_values(&"e".to_owned());
    let ghost all = targets.deep_view();
    let ghost held = |id: Seq<char>| author_of(known.deep_view(), id) is Some;
    let mut i: usize = 0;
    assert(all.take(0) =~= Seq::empty());
    while i < targets.len()
        invariant
            i <= targets.len(),
            all == targets.deep_view(),
            held == (|id: Seq<char>| author_of(known.deep_view(), id) is Some),
            ids.deep_view() == all.take(i as int).filter(held),
        decreases targets.len() - i,
    {
        let ghost before = ids.deep_view();
        proof {
            let head = all.take(i as int);
            let next = all.take(i as int + 1);
            assert(next.drop_last() =~= head);
            assert(next.last() == targets[i as int]@);
            reveal(Seq::filter);
        }
        if find_author(known, &targets[i]).is_some() {
            ids.push(targets[i].clone());
            assert(ids.deep_view() =~= before.push(targets[i as int]@));
        }
        i += 1;
    }
    assert(all.take(all.len() as int) =~= all);
    ids
}

/// An authentication event dated `created_at` lies within the window around
/// `now`.
pub open spec fn within_auth_window(created_at: u64, now: u64) -> bool {
    created_at <= now + AUTH_WINDOW && now <= created_at + AUTH_WINDOW
}

/// What is wrong with what an authentication event claims, before its
/// signature is looked at: the first of a wrong kind, a `challenge` tag that
/// is not the nonce issued to this connection, a `relay` tag that is not the
/// relay's address, and a date outside the window.
pub open spec fn auth_claim_failure(
    event: EventView,
    nonce: Seq<char>,
    auth_url: Seq<char>,
    now: u64,
) -> Option<Reason> {
    if event.kind != KIND_AUTHENTICATION {
        Some(Reason::NotAnAuthEvent)
    } else if first_tag_value(event.tags, "challenge"@) != Some(nonce) {
        Some(Reason::ChallengeMismatch)
    } else if first_tag_value(event.tags, "relay"@) != Some(auth_url) {
        Some(Reason::RelayMismatch)
    } else if !within_auth_window(event.created_at, now) {
        Some(Reason::AuthOutOfWindow)
    } else {
        None
    }
}

/// What is wrong with an answer to the challenge `nonce`, given the verdict
/// on the event's identifier and signature.
pub open spec fn auth_response_failure(claim: Option<Reason>, integrity: Option<Reason>) -> Option<
    Reason,
> {
    match claim {
        Some(reason) => Some(reason),
        None => match integrity {
            Some(Reason::IdMismatch) => Some(Reason::AuthIdMismatch),
            Some(_) => Some(Reason::AuthBadSignature),
            None => None,
        },
    }
}

/// What is wrong with `event` as an answer to the challenge `nonce`.
pub open spec fn auth_failure(event: EventView, nonce: Seq<char>, auth_url: Seq<char>, now: u64) -> Option<
    Reason,
> {
    auth_response_failure(auth_claim_failure(event, nonce, auth_url, now), event_failure(event))
}

/// Finds what is wrong with what an authentication event claims.
pub fn find_auth_claim_failure(event: &Event, nonce: &String, auth_url: &String, now: u64) -> (failure:
    Option<Reason>)
    ensures
        failure == auth_claim_failure(event@, nonce@, auth_url@, now),
{
    if event.kind != KIND_AUTHENTICATION {
        return Some(Reason::NotAnAuthEvent);
    }
    match event.first_tag_value(&"challenge".to_owned()) {
        Some(challenge) => {
            if challenge != *nonce {
                return Some(Reason::ChallengeMismatch);
            }
        },
        None => {
            return Some(Reason::ChallengeMismatch);
        },
    }
    match event.first_tag_value(&"relay".to_owned()) {
        Some(relay) => {
            if relay != *auth_url {
                return Some(Reason::RelayMismatch);
            }
        },
        None => {
            return Some(Reason::RelayMismatch);
        },
    }
    let not_late = now <= AUTH_WINDOW || event.created_at >= now - AUTH_WINDOW;
    let not_early = now > u64::MAX - AUTH_WINDOW || event.created_at <= now + AUTH_WINDOW;
    if not_late && not_early {
        None
    } else {
        Some(Reason::AuthOutOfWindow)
    }
}

/// Judges an answer to a challenge by what is wrong with its claims and with
/// its identifier or signature.
pub fn judge_auth_response(claim: Option<Reason>, integrity: Option<Reason>) -> (failure: Option<
    Reason,
>)
    ensures
        failure == auth_response_failure(claim, integrity),
{
    match claim {
        Some(reason) => Some(reason),
        None => match integrity {
            Some(Reason::IdMismatch) => Some(Reason::AuthIdMismatch),
            Some(_) => Some(Reason::AuthBadSignature),
            None => None,
        },
    }
}

/// Finds what is wrong with `event` as an answer to the challenge `nonce`.
/// The signature is looked at only where the claims hold.
pub fn find_auth_failure(event: &Event, nonce: &String, auth_url: &String, now: u64) -> (failure:
    Option<Reason>)
    ensures
        failure == auth_failure(event@, nonce@, auth_url@, now),
{
    let claim = find_auth_claim_failure(event, nonce, auth_url, now);
    if claim.is_some() {
        claim
    } else {
        judge_auth_response(claim, verify_event(event))
    }
}

} // verus!
