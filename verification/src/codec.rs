//! The wire form of messages: JSON text, read and written by `nostr_sdk`.

use vstd::prelude::*;
use nostr_sdk::prelude::ClientMessage;
use nostr_sdk::prelude::ClientMessage::Auth;
use nostr_sdk::prelude::ClientMessage::Close;
use nostr_sdk::prelude::ClientMessage::Req;
use nostr_sdk::prelude::EventId;
use nostr_sdk::prelude::Kind;
use nostr_sdk::prelude::PublicKey;
use nostr_sdk::prelude::RelayMessage;
use nostr_sdk::prelude::Signature;
use nostr_sdk::prelude::SubscriptionId;
use nostr_sdk::prelude::Tags;
use nostr_sdk::prelude::Timestamp;
use nostr_sdk::prelude::Event as WireEvent;
use crate::event::Event;
use crate::event::EventView;
use crate::message::InboundMessage;
use crate::message::InboundMessage::AuthResponse;
use crate::message::InboundMessage::CloseSubscription;
use crate::message::InboundMessage::SubmitEvent;
use crate::message::InboundMessage::Subscribe;
use crate::message::InboundMessage::Unsupported;
use crate::message::InboundView;
use crate::message::OutboundMessage;
use crate::message::OutboundView;

verus! {

/// A client message as `nostr_sdk` holds it. Nothing is known of what is
/// inside; it is carried from the parser to the conversion as it is.
#[verifier::external_type_specification]
#[verifier::external_body]
pub struct ExClientMessage<'a>(ClientMessage<'a>);

/// What `ClientMessage::from_json` makes of `text`: the message it returns,
/// or nothing where it reports an error.
pub uninterp spec fn parsed_client_message(text: Seq<char>) -> Option<ClientMessage<'static>>;

/// The content of a parsed client message as plain values: identifiers and
/// signatures in hexadecimal, each filter as the JSON text that
/// `Filter::as_json` writes.
pub uninterp spec fn plain_message_of(message: ClientMessage<'static>) -> InboundView;

/// The text that `RelayMessage::try_as_json` writes for the message that
/// `RelayMessage::ok` builds; nothing where `event_id` is not the
/// hexadecimal form of an event identifier, or the call reports an error.
pub uninterp spec fn ack_json(event_id: Seq<char>, accepted: bool, message: Seq<char>) -> Option<
    Seq<char>,
>;

/// The text that `RelayMessage::try_as_json` writes for the message that
/// `RelayMessage::notice` builds; nothing where the call reports an error.
pub uninterp spec fn notice_json(message: Seq<char>) -> Option<Seq<char>>;

/// The text that `RelayMessage::try_as_json` writes for the message that
/// `RelayMessage::closed` builds; nothing where the call reports an error.
pub uninterp spec fn closed_json(subscription_id: Seq<char>, message: Seq<char>) -> Option<
    Seq<char>,
>;

/// The text that `RelayMessage::try_as_json` writes for the message that
/// `RelayMessage::eose` builds; nothing where the call reports an error.
pub uninterp spec fn end_of_stored_events_json(subscription_id: Seq<char>) -> Option<Seq<char>>;

/// The text that `RelayMessage::try_as_json` writes for the message that
/// `RelayMessage::auth` builds; nothing where the call reports an error.
pub uninterp spec fn auth_challenge_json(nonce: Seq<char>) -> Option<Seq<char>>;

/// The text that `RelayMessage::try_as_json` writes for the message that
/// `RelayMessage::event` builds; nothing where a field of the event is not
/// in the form that `nostr_sdk` reads, or the call reports an error.
pub uninterp spec fn event_delivery_json(subscription_id: Seq<char>, event: EventView) -> Option<
    Seq<char>,
>;

/// Calls `ClientMessage::from_json`. The result is the message that the call
/// returns, and nothing where it returns an error.
#[verifier::external_body]
fn parse_client_message(text: &str) -> (parsed: Option<ClientMessage<'static>>)
    ensures
        parsed == parsed_client_message(text@),
{
    ClientMessage::from_json(text).ok()
}

/// Moves the content of a parsed message into plain values, reading each
/// field with the accessor that `nostr_sdk` offers for it (`to_hex`,
/// `as_secs`, `as_u16`, `as_slice`, and `as_json` for a filter, which was
/// read from JSON and is written back as JSON).
#[verifier::external_body]
fn plain_message(message: &ClientMessage<'static>) -> (plain: InboundMessage)
    ensures
        plain@ == plain_message_of(*message),
{
    let plain = |e: &WireEvent| Event {
        id: e.id.to_hex(), pubkey: e.pubkey.to_hex(), created_at: e.created_at.as_secs(),
        kind: e.kind.as_u16(), tags: e.tags.iter().map(|t| t.as_slice().to_vec()).collect(),
        content: e.content.clone(), sig: e.sig.to_hex(),
    };
    match message {
        ClientMessage::Event(e) => SubmitEvent(plain(e)),
        Auth(e) => AuthResponse(plain(e)),
        Req { subscription_id, filters } => Subscribe {
            subscription_id: subscription_id.to_string(),
            filters: filters.iter().map(|f| f.as_json()).collect(),
        },
        Close(id) => CloseSubscription(id.to_string()),
        _ => Unsupported,
    }
}

/// Calls `RelayMessage::ok` and `RelayMessage::try_as_json`, after
/// `EventId::from_hex` has read the identifier. Nothing where either reports
/// an error.
#[verifier::external_body]
fn encode_ack(event_id: &str, accepted: bool, message: &str) -> (text: Option<String>)
    ensures
        text.deep_view() == ack_json(event_id@, accepted, message@),
{
    let id = EventId::from_hex(event_id).ok()?;
    RelayMessage::ok(id, accepted, message).try_as_json().ok()
}

/// Calls `RelayMessage::notice` and `RelayMessage::try_as_json`. Nothing
/// where the latter reports an error.
#[verifier::external_body]
fn encode_notice(message: &str) -> (text: Option<String>)
    ensures
        text.deep_view() == notice_json(message@),
{
    RelayMessage::notice(message).try_as_json().ok()
}

/// Calls `RelayMessage::closed` and `RelayMessage::try_as_json`. Nothing
/// where the latter reports an error.
#[verifier::external_body]
fn encode_closed(subscription_id: &str, message: &str) -> (text: Option<String>)
    ensures
        text.deep_view() == closed_json(subscription_id@, message@),
{
    RelayMessage::closed(SubscriptionId::new(subscription_id), message).try_as_json().ok()
}

/// Calls `RelayMessage::eose` and `RelayMessage::try_as_json`. Nothing where
/// the latter reports an error.
#[verifier::external_body]
fn encode_end_of_stored_events(subscription_id: &str) -> (text: Option<String>)
    ensures
        text.deep_view() == end_of_stored_events_json(subscription_id@),
{
    RelayMessage::eose(SubscriptionId::new(subscription_id)).try_as_json().ok()
}

/// Calls `RelayMessage::auth` and `RelayMessage::try_as_json`. Nothing where
/// the latter reports an error.
#[verifier::external_body]
fn encode_auth_challenge(nonce: &str) -> (text: Option<String>)
    ensures
        text.deep_view() == auth_challenge_json(nonce@),
{
    RelayMessage::auth(nonce).try_as_json().ok()
}

/// Calls `RelayMessage::event` and `RelayMessage::try_as_json` on the event
/// that `Event::new` builds from the fields, each read by `from_hex`,
/// `from_secs`, `from_u16` or `Tags::parse`. Nothing where one of them
/// reports an error.
#[verifier::external_body]
fn encode_event_delivery(subscription_id: &str, event: &Event) -> (text: Option<String>)
    ensures
        text.deep_view() == event_delivery_json(subscription_id@, event@),
{
    let wire = WireEvent::new(
        EventId::from_hex(&event.id).ok()?,
        PublicKey::from_hex(&event.pubkey).ok()?,
        Timestamp::from_secs(event.created_at),
        Kind::from_u16(event.kind),
        Tags::parse(event.tags.clone()).ok()?,
        event.content.clone(),
        Signature::from_hex(&event.sig).ok()?,
    );
    RelayMessage::event(SubscriptionId::new(subscription_id), wire).try_as_json().ok()
}

/// The message that a text stands for, if it stands for one.
pub open spec fn decoded(text: Seq<char>) -> Option<InboundView> {
    match parsed_client_message(text) {
        Some(message) => Some(plain_message_of(message)),
        None => None,
    }
}

/// The text of a message, if it can be put on the wire.
pub open spec fn encoded(message: OutboundView) -> Option<Seq<char>> {
    match message {
        OutboundView::EventDelivery { subscription_id, event } => event_delivery_json(
            subscription_id,
            event,
        ),
        OutboundView::Ack { event_id, accepted, message } => ack_json(event_id, accepted, message),
        OutboundView::EndOfStoredEvents(id) => end_of_stored_events_json(id),
        OutboundView::Closed { subscription_id, message } => closed_json(subscription_id, message),
        OutboundView::Notice(text) => notice_json(text),
        OutboundView::AuthChallenge(nonce) => auth_challenge_json(nonce),
    }
}

/// Turns wire text into messages and messages into wire text.
#[derive(Clone, Copy, Debug)]
pub struct NostrMessageConverter;

impl NostrMessageConverter {
    /// The text of `message`. There is none where an identifier, a key or a
    /// signature in it is not in hexadecimal form, a tag of its event is
    /// empty, or the writing itself fails.
    pub fn outbound_to_string(&self, message: OutboundMessage) -> (text: Option<String>)
        ensures
            text.deep_view() == encoded(message@),
    {
        match message {
            OutboundMessage::EventDelivery { subscription_id, event } => encode_event_delivery(
                subscription_id.as_str(),
                &event,
            ),
            OutboundMessage::Ack { event_id, accepted, message } => encode_ack(
                event_id.as_str(),
                accepted,
                message.as_str(),
            ),
            OutboundMessage::EndOfStoredEvents(id) => encode_end_of_stored_events(id.as_str()),
            OutboundMessage::Closed { subscription_id, message } => encode_closed(
                subscription_id.as_str(),
                message.as_str(),
            ),
            OutboundMessage::Notice(text) => encode_notice(text.as_str()),
            OutboundMessage::AuthChallenge(nonce) => encode_auth_challenge(nonce.as_str()),
        }
    }

    /// The message that `message` stands for. Text that is no message gives
    /// nothing, and is no failure.
    pub fn inbound_from_string(&self, message: String) -> (decoded_message: Option<InboundMessage>)
        ensures
            decoded_message.deep_view() == decoded(message@),
    {
        match parse_client_message(message.as_str()) {
            Some(parsed) => Some(plain_message(&parsed)),
            None => None,
        }
    }
}

} // verus!
