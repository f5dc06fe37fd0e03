//! What a client sends, what the relay answers, and the reasons for which a
//! message is turned away.

use vstd::prelude::*;
use crate::event::Event;
use crate::event::EventView;

verus! {

/// A message from a client.
#[derive(Clone, PartialEq, Eq, Debug)]
pub enum InboundMessage {
    /// An event offered for storage.
    SubmitEvent(Event),
    /// A request for the events that match the filters, each filter being the
    /// text of one JSON object.
    Subscribe { subscription_id: String, filters: Vec<String> },
    /// The end of a subscription.
    CloseSubscription(String),
    /// The answer to an authentication challenge.
    AuthResponse(Event),
    /// A well-formed message of a kind that the relay does not serve.
    Unsupported,
}

pub enum InboundView {
    SubmitEvent(EventView),
    Subscribe { subscription_id: Seq<char>, filters: Seq<Seq<char>> },
    CloseSubscription(Seq<char>),
    AuthResponse(EventView),
    Unsupported,
}

impl View for InboundMessage {
    type V = InboundView;

    open spec fn view(&self) -> InboundView {
        match self {
            InboundMessage::SubmitEvent(e) => InboundView::SubmitEvent(e@),
            InboundMessage::Subscribe { subscription_id, filters } => InboundView::Subscribe {
                subscription_id: subscription_id@,
                filters: filters.deep_view(),
            },
            InboundMessage::CloseSubscription(id) => InboundView::CloseSubscription(id@),
            InboundMessage::AuthResponse(e) => InboundView::AuthResponse(e@),
            InboundMessage::Unsupported => InboundView::Unsupported,
        }
    }
}

impl DeepView for InboundMessage {
    type V = InboundView;

    open spec fn deep_view(&self) -> InboundView {
        self@
    }
}

/// A message from the relay to a client.
#[derive(Clone, PartialEq, Eq, Debug)]
pub enum OutboundMessage {
    /// An event that matches a subscription.
    EventDelivery { subscription_id: String, event: Event },
    /// The verdict on a submitted event.
    Ack { event_id: String, accepted: bool, message: String },
    /// All stored events of a subscription have been delivered.
    EndOfStoredEvents(String),
    /// The relay has ended a subscription.
    Closed { subscription_id: String, message: String },
    /// A remark for the person at the client.
    Notice(String),
    /// The nonce that the client has to sign to authenticate.
    AuthChallenge(String),
}

pub enum OutboundView {
    EventDelivery { subscription_id: Seq<char>, event: EventView },
    Ack { event_id: Seq<char>, accepted: bool, message: Seq<char> },
    EndOfStoredEvents(Seq<char>),
    Closed { subscription_id: Seq<char>, message: Seq<char> },
    Notice(Seq<char>),
    AuthChallenge(Seq<char>),
}

impl View for OutboundMessage {
    type V = OutboundView;

    open spec fn view(&self) -> OutboundView {
        match self {
            OutboundMessage::EventDelivery { subscription_id, event } => OutboundView::EventDelivery {
                subscription_id: subscription_id@,
                event: event@,
            },
            OutboundMessage::Ack { event_id, accepted, message } => OutboundView::Ack {
                event_id: event_id@,
                accepted: *accepted,
                message: message@,
            },
            OutboundMessage::EndOfStoredEvents(id) => OutboundView::EndOfStoredEvents(id@),
            OutboundMessage::Closed { subscription_id, message } => OutboundView::Closed {
                subscription_id: subscription_id@,
                message: message@,
            },
            OutboundMessage::Notice(text) => OutboundView::Notice(text@),
            OutboundMessage::AuthChallenge(nonce) => OutboundView::AuthChallenge(nonce@),
        }
    }
}

impl DeepView for OutboundMessage {
    type V = OutboundView;

    open spec fn deep_view(&self) -> OutboundView {
        self@
    }
}

/// The classes of failure that the relay tells apart.
#[derive(Clone, Copy, PartialEq, Eq, Structural, Debug)]
pub enum ErrorClass {
    /// Text that is no message: dropped without an answer.
    Malformed,
    /// A structural defect of a message.
    Validation,
    /// An identifier or a signature that does not hold.
    Verification,
    /// A missing authentication, role or ownership.
    Authorization,
    /// A fault inside the relay that was contained: the connection stays.
    Contained,
    /// A failure that ends the connection.
    Fatal,
}

/// Why a message was turned away.
#[derive(Clone, Copy, PartialEq, Eq, Structural, Debug)]
pub enum Reason {
    AuthRequired,
    NoChallengePending,
    NotAnAuthEvent,
    ChallengeMismatch,
    RelayMismatch,
    AuthOutOfWindow,
    AuthIdMismatch,
    AuthBadSignature,
    AuthUnavailable,
    BadId,
    BadPubkey,
    BadSignatureField,
    BadTags,
    UnsupportedKind,
    FutureTimestamp,
    BadSubscriptionId,
    UnsupportedMessage,
    MissingTarget,
    IdMismatch,
    BadSignature,
    AuthorOnly,
    OperatorOnly,
    NotOwner,
    NotMember,
    NotAdmin,
    GroupClosed,
    UnknownGroup,
    InternalError,
}

pub open spec fn class_of(reason: Reason) -> ErrorClass {
    match reason {
        Reason::AuthRequired
        | Reason::NoChallengePending
        | Reason::NotAnAuthEvent
        | Reason::ChallengeMismatch
        | Reason::RelayMismatch
        | Reason::AuthOutOfWindow
        | Reason::AuthIdMismatch
        | Reason::AuthBadSignature
        | Reason::AuthUnavailable
        | Reason::AuthorOnly
        | Reason::OperatorOnly
        | Reason::NotOwner
        | Reason::NotMember
        | Reason::NotAdmin
        | Reason::GroupClosed
        | Reason::UnknownGroup => ErrorClass::Authorization,
        Reason::BadId
        | Reason::BadPubkey
        | Reason::BadSignatureField
        | Reason::BadTags
        | Reason::UnsupportedKind
        | Reason::FutureTimestamp
        | Reason::BadSubscriptionId
        | Reason::UnsupportedMessage
        | Reason::MissingTarget => ErrorClass::Validation,
        Reason::IdMismatch | Reason::BadSignature => ErrorClass::Verification,
        Reason::InternalError => ErrorClass::Contained,
    }
}

/// The words in which a reason is told to the client. They begin with the
/// machine-readable prefix of the failure and hold nothing secret.
pub open spec fn reason_text(reason: Reason) -> Seq<char> {
    match reason {
        Reason::AuthRequired => "auth-required: this event needs an authenticated connection"@,
        Reason::NoChallengePending => "auth-required: no challenge is pending"@,
        Reason::NotAnAuthEvent => "auth-required: not an authentication event"@,
        Reason::ChallengeMismatch => "auth-required: challenge does not match"@,
        Reason::RelayMismatch => "auth-required: relay does not match"@,
        Reason::AuthOutOfWindow => "auth-required: created_at is outside the accepted window"@,
        Reason::AuthIdMismatch => "auth-required: id does not match the event"@,
        Reason::AuthBadSignature => "auth-required: signature does not verify"@,
        Reason::AuthUnavailable => "auth-required: authentication is not available"@,
        Reason::BadId => "invalid: id is not 64 hexadecimal digits"@,
        Reason::BadPubkey => "invalid: pubkey is not 64 hexadecimal digits"@,
        Reason::BadSignatureField => "invalid: sig is not 128 hexadecimal digits"@,
        Reason::BadTags => "invalid: a tag has no name"@,
        Reason::UnsupportedKind => "invalid: kind is not supported"@,
        Reason::FutureTimestamp => "invalid: created_at is too far in the future"@,
        Reason::BadSubscriptionId => "invalid: subscription id must have 1 to 64 characters"@,
        Reason::UnsupportedMessage => "invalid: message is not supported"@,
        Reason::MissingTarget => "invalid: no member is named"@,
        Reason::IdMismatch => "invalid: id does not match the event"@,
        Reason::BadSignature => "invalid: signature does not verify"@,
        Reason::AuthorOnly => "restricted: only the author may publish this event"@,
        Reason::OperatorOnly => "restricted: only the relay operator may publish this kind"@,
        Reason::NotOwner => "restricted: only the author may delete an event"@,
        Reason::NotMember => "restricted: not a member"@,
        Reason::NotAdmin => "restricted: not an admin"@,
        Reason::GroupClosed => "restricted: group is closed"@,
        Reason::UnknownGroup => "restricted: unknown group"@,
        Reason::InternalError => "error: internal error"@,
    }
}

impl Reason {
    /// The class of failure that the reason belongs to.
    pub fn class(self) -> (class: ErrorClass)
        ensures
            class == class_of(self),
    {
        match self {
            Reason::AuthRequired
            | Reason::NoChallengePending
            | Reason::NotAnAuthEvent
            | Reason::ChallengeMismatch
            | Reason::RelayMismatch
            | Reason::AuthOutOfWindow
            | Reason::AuthIdMismatch
            | Reason::AuthBadSignature
            | Reason::AuthUnavailable
            | Reason::AuthorOnly
            | Reason::OperatorOnly
            | Reason::NotOwner
            | Reason::NotMember
            | Reason::NotAdmin
            | Reason::GroupClosed
            | Reason::UnknownGroup => ErrorClass::Authorization,
            Reason::BadId
            | Reason::BadPubkey
            | Reason::BadSignatureField
            | Reason::BadTags
            | Reason::UnsupportedKind
            | Reason::FutureTimestamp
            | Reason::BadSubscriptionId
            | Reason::UnsupportedMessage
            | Reason::MissingTarget => ErrorClass::Validation,
            Reason::IdMismatch | Reason::BadSignature => ErrorClass::Verification,
            Reason::InternalError => ErrorClass::Contained,
        }
    }

    /// The words in which the reason is told to the client.
    pub fn text(self) -> (text: String)
        ensures
            text@ == reason_text(self),
    {
        match self {
            Reason::AuthRequired => "auth-required: this event needs an authenticated connection".to_owned(),
            Reason::NoChallengePending => "auth-required: no challenge is pending".to_owned(),
            Reason::NotAnAuthEvent => "auth-required: not an authentication event".to_owned(),
            Reason::ChallengeMismatch => "auth-required: challenge does not match".to_owned(),
            Reason::RelayMismatch => "auth-required: relay does not match".to_owned(),
            Reason::AuthOutOfWindow => "auth-required: created_at is outside the accepted window".to_owned(),
            Reason::AuthIdMismatch => "auth-required: id does not match the event".to_owned(),
            Reason::AuthBadSignature => "auth-required: signature does not verify".to_owned(),
            Reason::AuthUnavailable => "auth-required: authentication is not available".to_owned(),
            Reason::BadId => "invalid: id is not 64 hexadecimal digits".to_owned(),
            Reason::BadPubkey => "invalid: pubkey is not 64 hexadecimal digits".to_owned(),
            Reason::BadSignatureField => "invalid: sig is not 128 hexadecimal digits".to_owned(),
            Reason::BadTags => "invalid: a tag has no name".to_owned(),
            Reason::UnsupportedKind => "invalid: kind is not supported".to_owned(),
            Reason::FutureTimestamp => "invalid: created_at is too far in the future".to_owned(),
            Reason::BadSubscriptionId => "invalid: subscription id must have 1 to 64 characters".to_owned(),
            Reason::UnsupportedMessage => "invalid: message is not supported".to_owned(),
            Reason::MissingTarget => "invalid: no member is named".to_owned(),
            Reason::IdMismatch => "invalid: id does not match the event".to_owned(),
            Reason::BadSignature => "invalid: signature does not verify".to_owned(),
            Reason::AuthorOnly => "restricted: only the author may publish this event".to_owned(),
            Reason::OperatorOnly => "restricted: only the relay operator may publish this kind".to_owned(),
            Reason::NotOwner => "restricted: only the author may delete an event".to_owned(),
            Reason::NotMember => "restricted: not a member".to_owned(),
            Reason::NotAdmin => "restricted: not an admin".to_owned(),
            Reason::GroupClosed => "restricted: group is closed".to_owned(),
            Reason::UnknownGroup => "restricted: unknown group".to_owned(),
            Reason::InternalError => "error: internal error".to_owned(),
        }
    }
}

/// The answer that tells the sender of `message` that it was turned away for
/// `reason`: a verdict for an event, the end of the subscription for a
/// request, a notice for anything else.
pub open spec fn refusal(message: InboundView, reason: Reason) -> OutboundView {
    match message {
        InboundView::SubmitEvent(e) => OutboundView::Ack {
            event_id: e.id,
            accepted: false,
            message: reason_text(reason),
        },
        InboundView::AuthResponse(e) => OutboundView::Ack {
            event_id: e.id,
            accepted: false,
            message: reason_text(reason),
        },
        InboundView::Subscribe { subscription_id, filters } => OutboundView::Closed {
            subscription_id,
            message: reason_text(reason),
        },
        InboundView::CloseSubscription(id) => OutboundView::Notice(reason_text(reason)),
        InboundView::Unsupported => OutboundView::Notice(reason_text(reason)),
    }
}

impl InboundMessage {
    /// The answer that turns the message away for `reason`.
    pub fn refusal(&self, reason: Reason) -> (answer: OutboundMessage)
        ensures
            answer@ == refusal(self@, reason),
    {
        match self {
            InboundMessage::SubmitEvent(e) => OutboundMessage::Ack {
                event_id: e.id.clone(),
                accepted: false,
                message: reason.text(),
            },
            InboundMessage::AuthResponse(e) => OutboundMessage::Ack {
                event_id: e.id.clone(),
                accepted: false,
                message: reason.text(),
            },
            InboundMessage::Subscribe { subscription_id, filters } => OutboundMessage::Closed {
                subscription_id: subscription_id.clone(),
                message: reason.text(),
            },
            InboundMessage::CloseSubscription(_) => OutboundMessage::Notice(reason.text()),
            InboundMessage::Unsupported => OutboundMessage::Notice(reason.text()),
        }
    }
}

} // verus!
