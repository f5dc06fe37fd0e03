//! The relay's handler for its connections: the chain in its fixed order,
//! the settings it was built with, the ledger of live connections and the
//! groups.

use vstd::prelude::*;
use crate::admission::AdmissionLedger;
use crate::admission::LedgerView;
use crate::admission::OutboundQueue;
use crate::admission::OverflowPolicy;
use crate::admission::QueueView;
use crate::admission::admits;
use crate::admission::after_admit;
use crate::admission::after_release;
use crate::admission::check_lifetime;
use crate::admission::lifetime_exceeded;
use crate::admission::offered;
pub use crate::codec::NostrMessageConverter;
use crate::codec::decoded;
use crate::connection::AuthStatus;
use crate::connection::AuthView;
use crate::connection::NostrConnectionFactory;
use crate::connection::NostrConnectionState;
use crate::connection::SetupError;
use crate::connection::StateView;
use crate::connection::relay_url_of;
use crate::executor::run_from;
use crate::executor::single;
use crate::groups::Groups;
use crate::groups::GroupsView;
use crate::groups::may_receive;
use crate::message::InboundMessage;
use crate::message::OutboundMessage;
use crate::message::OutboundView;
use crate::message::Reason;
use crate::pipeline::Disposition;
use crate::pipeline::Environment;
use crate::pipeline::LogRecord;
use crate::pipeline::Outcome;
use crate::pipeline::Policy;
use crate::pipeline::PolicyView;
use crate::pipeline::Stage;
use crate::pipeline::ignored;
use crate::pipeline::inbound;

verus! {

/// The keys of the relay operator, as far as the stages need them.
pub struct Keys {
    public_key: String,
}

impl Keys {
    pub closed spec fn spec_public_key(&self) -> Seq<char> {
        self.public_key@
    }

    /// Keys with the public key `public_key`, in hexadecimal.
    pub fn new(public_key: String) -> (keys: Keys)
        ensures
            keys.spec_public_key() == public_key@,
    {
        Keys { public_key }
    }

    /// The operator's public key.
    pub fn public_key(&self) -> (key: &String)
        ensures
            key@ == self.spec_public_key(),
    {
        &self.public_key
    }
}

/// The limits and choices with which a handler is built.
#[derive(Clone, PartialEq, Eq, Debug)]
pub struct WebSocketSettings {
    /// How many messages may wait for one client.
    pub channel_size: usize,
    /// How many seconds a connection may last; no limit where none is given.
    pub max_connection_time: Option<u64>,
    /// How many connections may be live at once; no limit where none is given.
    pub max_connections: Option<usize>,
    /// What happens to a message for which a client's queue has no room.
    pub overflow: OverflowPolicy,
    /// Whether the relay challenges a client as soon as it connects, rather
    /// than at the first event that needs an identity.
    pub challenge_on_connect: bool,
}

impl WebSocketSettings {
    pub fn channel_size(&self) -> (size: usize)
        ensures
            size == self.channel_size,
    {
        self.channel_size
    }

    pub fn max_connection_time(&self) -> (limit: Option<u64>)
        ensures
            limit == self.max_connection_time,
    {
        self.max_connection_time
    }

    pub fn max_connections(&self) -> (limit: Option<usize>)
        ensures
            limit == self.max_connections,
    {
        self.max_connections
    }
}

/// The order of the stages. Error containment stands first, so that it sees
/// the faults of every other stage; logging next, so that every verdict is
/// recorded; authentication before anything that looks at who wrote an
/// event; validation before verification, so that a malformed event costs no
/// signature arithmetic; verification before the stages that rely on the
/// signer; of those, protection before deletion; and group authorization,
/// the costliest, last.
pub open spec fn standard_order() -> Seq<Stage> {
    seq![
        Stage::ErrorContainment,
        Stage::Logging,
        Stage::Authentication,
        Stage::Validation,
        Stage::Verification,
        Stage::ProtectedEvent,
        Stage::Deletion,
        Stage::GroupAuthorization,
    ]
}

/// The stages in their order.
pub fn standard_stages() -> (stages: Vec<Stage>)
    ensures
        stages@ == standard_order(),
{
    let mut stages: Vec<Stage> = Vec::new();
    stages.push(Stage::ErrorContainment);
    stages.push(Stage::Logging);
    stages.push(Stage::Authentication);
    stages.push(Stage::Validation);
    stages.push(Stage::Verification);
    stages.push(Stage::ProtectedEvent);
    stages.push(Stage::Deletion);
    stages.push(Stage::GroupAuthorization);
    assert(stages@ =~= standard_order());
    stages
}

/// One accepted connection: what the relay remembers of it, and the
/// messages that wait to be written to it.
pub struct Connection {
    pub state: NostrConnectionState,
    pub outbound: OutboundQueue,
}

pub struct ConnectionView {
    pub state: StateView,
    pub outbound: QueueView,
}

impl View for Connection {
    type V = ConnectionView;

    open spec fn view(&self) -> ConnectionView {
        ConnectionView { state: self.state@, outbound: self.outbound@ }
    }
}

/// The relay's handler. Its chain and settings are fixed when it is built;
/// the ledger and the groups change as connections come, act and go.
pub struct WebSocketHandler {
    stages: Vec<Stage>,
    policy: Policy,
    factory: NostrConnectionFactory,
    converter: NostrMessageConverter,
    channel_size: usize,
    overflow: OverflowPolicy,
    challenge_on_connect: bool,
    max_connection_time: Option<u64>,
    ledger: AdmissionLedger,
    groups: Groups,
    accepted: u64,
}

pub struct HandlerView {
    pub stages: Seq<Stage>,
    pub policy: PolicyView,
    pub relay_url: Seq<char>,
    pub channel_size: nat,
    pub overflow: OverflowPolicy,
    pub challenge_on_connect: bool,
    pub max_connection_time: Option<u64>,
    pub ledger: LedgerView,
    pub groups: GroupsView,
    /// The number that the next connection gets.
    pub accepted: u64,
}

impl View for WebSocketHandler {
    type V = HandlerView;

    closed spec fn view(&self) -> HandlerView {
        HandlerView {
            stages: self.stages@,
            policy: self.policy@,
            relay_url: self.factory@,
            channel_size: self.channel_size as nat,
            overflow: self.overflow,
            challenge_on_connect: self.challenge_on_connect,
            max_connection_time: self.max_connection_time,
            ledger: self.ledger@,
            groups: self.groups@,
            accepted: self.accepted,
        }
    }
}

/// The handler as it is built from these settings for the relay at `url`.
pub open spec fn built_handler(
    url: Seq<char>,
    auth_url: Seq<char>,
    groups: GroupsView,
    relay_pubkey: Seq<char>,
    settings: WebSocketSettings,
) -> HandlerView {
    HandlerView {
        stages: standard_order(),
        policy: PolicyView { auth_url, relay_pubkey },
        relay_url: url,
        channel_size: settings.channel_size as nat,
        overflow: settings.overflow,
        challenge_on_connect: settings.challenge_on_connect,
        max_connection_time: settings.max_connection_time,
        ledger: LedgerView {
            live: 0,
            ceiling: match settings.max_connections {
                Some(c) => Some(c as nat),
                None => None,
            },
        },
        groups,
        accepted: 0,
    }
}

/// Builds the handler: the stages in their order, the limits of the
/// settings, no connection live. There is no handler where `relay_url` is no
/// relay address.
pub fn build_websocket_handler(
    relay_url: String,
    auth_url: String,
    groups: Groups,
    relay_keys: &Keys,
    websocket_settings: &WebSocketSettings,
) -> (built: Result<WebSocketHandler, SetupError>)
    requires
        groups.wf(),
    ensures
        match relay_url_of(relay_url@) {
            Some(url) => built is Ok && built.unwrap().wf() && built.unwrap()@ == built_handler(
                url,
                auth_url@,
                groups@,
                relay_keys.spec_public_key(),
                *websocket_settings,
            ),
            None => built is Err && built->Err_0 == SetupError::InvalidRelayUrl,
        },
{
    let factory = match NostrConnectionFactory::new(relay_url) {
        Ok(factory) => factory,
        Err(error) => {
            return Err(error);
        },
    };
    Ok(
        WebSocketHandler {
            stages: standard_stages(),
            policy: Policy { auth_url, relay_pubkey: relay_keys.public_key().clone() },
            factory,
            converter: NostrMessageConverter,
            channel_size: websocket_settings.channel_size(),
            overflow: websocket_settings.overflow,
            challenge_on_connect: websocket_settings.challenge_on_connect,
            max_connection_time: websocket_settings.max_connection_time(),
            ledger: AdmissionLedger::new(websocket_settings.max_connections()),
            groups,
            accepted: 0,
        },
    )
}

/// The number that follows `n` in the numbering of connections.
pub open spec fn next_number(n: u64) -> u64 {
    if n < u64::MAX {
        (n + 1) as u64
    } else {
        0
    }
}

/// The connection that a handler makes of a client accepted at `now`:
/// nothing subscribed, and either not authenticated or, where the relay
/// challenges at once, holding the challenge `nonce`, which then waits in
/// its queue if the queue has room for it.
pub open spec fn fresh_connection(handler: HandlerView, now: u64, nonce: Seq<char>) -> ConnectionView {
    let queue = QueueView {
        capacity: handler.channel_size,
        policy: handler.overflow,
        pending: Seq::empty(),
    };
    ConnectionView {
        state: StateView {
            connection_id: handler.accepted,
            relay_url: handler.relay_url,
            auth: if handler.challenge_on_connect {
                AuthView::ChallengeIssued { nonce }
            } else {
                AuthView::Unauthenticated
            },
            subscriptions: Seq::empty(),
            started_at: now,
        },
        outbound: if handler.challenge_on_connect {
            offered(queue, OutboundView::AuthChallenge(nonce)).0
        } else {
            queue
        },
    }
}

/// What is said to a client whose connection has lasted too long.
pub open spec fn farewell_text() -> Seq<char> {
    "error: maximum connection time exceeded"@
}

/// The messages that end a connection: a notice, then the end of each open
/// subscription in the order in which they were opened.
pub open spec fn farewell(subscriptions: Seq<Seq<char>>) -> Seq<OutboundView> {
    seq![OutboundView::Notice(farewell_text())] + subscriptions.map_values(
        |id: Seq<char>| OutboundView::Closed { subscription_id: id, message: farewell_text() },
    )
}

/// What becomes of a message on its way out.
#[derive(Clone, PartialEq, Eq, Debug)]
pub struct OutboundOutcome {
    /// The message to write; none where a stage held it back.
    pub deliver: Option<OutboundMessage>,
    pub records: Vec<LogRecord>,
}

pub struct OutboundRun {
    pub deliver: Option<OutboundView>,
    pub records: Seq<LogRecord>,
}

impl View for OutboundOutcome {
    type V = OutboundRun;

    open spec fn view(&self) -> OutboundRun {
        OutboundRun { deliver: self.deliver.deep_view(), records: self.records@ }
    }
}

/// Whether the stage of group authorization holds a message back: an event
/// of a private group on its way to a connection outside the group.
pub open spec fn held_back(groups: GroupsView, auth: AuthView, message: OutboundView) -> bool {
    match message {
        OutboundView::EventDelivery { subscription_id, event } => !may_receive(groups, auth, event),
        _ => false,
    }
}

/// The run of a message from the relay through `stages`. Group
/// authorization holds back what the connection may not see, logging
/// records what became of the message behind it, and the other stages let
/// it through as it is.
pub open spec fn outbound(
    stages: Seq<Stage>,
    state: StateView,
    groups: GroupsView,
    message: OutboundView,
) -> OutboundRun
    decreases stages.len(),
{
    if stages.len() == 0 {
        OutboundRun { deliver: Some(message), records: Seq::empty() }
    } else {
        let rest = outbound(stages.skip(1), state, groups, message);
        match stages[0] {
            Stage::GroupAuthorization => if held_back(groups, state.auth, message) {
                OutboundRun { deliver: None, records: Seq::empty() }
            } else {
                rest
            },
            Stage::Logging => OutboundRun {
                records: rest.records.push(
                    LogRecord {
                        connection_id: state.connection_id,
                        stage: if rest.deliver is Some {
                            None
                        } else {
                            Some(Stage::GroupAuthorization)
                        },
                        disposition: if rest.deliver is Some {
                            Disposition::Accepted
                        } else {
                            Disposition::Rejected(Reason::NotMember)
                        },
                    },
                ),
                ..rest
            },
            _ => rest,
        }
    }
}

fn outbound_from(
    stages: &Vec<Stage>,
    at: usize,
    state: &NostrConnectionState,
    groups: &Groups,
    message: OutboundMessage,
) -> (outcome: OutboundOutcome)
    requires
        at <= stages.len(),
        groups.wf(),
    ensures
        outcome@ == outbound(stages@.skip(at as int), state@, groups@, message@),
    decreases stages.len() - at,
{
    if at >= stages.len() {
        return OutboundOutcome { deliver: Some(message), records: Vec::new() };
    }
    proof {
        assert(stages@.skip(at as int)[0] == stages[at as int]);
        assert(stages@.skip(at as int).skip(1) =~= stages@.skip(at as int + 1));
    }
    match stages[at] {
        Stage::GroupAuthorization => {
            let held = match &message {
                OutboundMessage::EventDelivery { subscription_id, event } => !groups.may_receive(
                    &state.auth,
                    event,
                ),
                _ => false,
            };
            if held {
                OutboundOutcome { deliver: None, records: Vec::new() }
            } else {
                outbound_from(stages, at + 1, state, groups, message)
            }
        },
        Stage::Logging => {
            let mut outcome = outbound_from(stages, at + 1, state, groups, message);
            let delivered = outcome.deliver.is_some();
            outcome.records.push(
                LogRecord {
                    connection_id: state.connection_id,
                    stage: if delivered {
                        None
                    } else {
                        Some(Stage::GroupAuthorization)
                    },
                    disposition: if delivered {
                        Disposition::Accepted
                    } else {
                        Disposition::Rejected(Reason::NotMember)
                    },
                },
            );
            outcome
        },
        _ => outbound_from(stages, at + 1, state, groups, message),
    }
}

impl WebSocketHandler {
    /// The chain is the standard one, and ledger and groups are well formed.
    pub closed spec fn wf(&self) -> bool {
        &&& self.stages@ == standard_order()
        &&& self.ledger.wf()
        &&& self.groups.wf()
    }

    /// The stages of the chain, in their order.
    pub fn stages(&self) -> (stages: &Vec<Stage>)
        ensures
            stages@ == self@.stages,
    {
        &self.stages
    }

    /// The groups.
    pub fn groups(&self) -> (groups: &Groups)
        requires
            self.wf(),
        ensures
            groups.wf(),
            groups@ == self@.groups,
    {
        &self.groups
    }

    /// The number of live connections.
    pub fn live_connections(&self) -> (n: usize)
        ensures
            n == self@.ledger.live,
    {
        self.ledger.live()
    }

    /// Takes a client in, if the ledger has room: the new connection, or
    /// nothing where the ceiling is reached. `nonce` must never have been
    /// used; it is the challenge where the relay challenges at once.
    pub fn accept(&mut self, now: u64, nonce: String) -> (connection: Option<Connection>)
        requires
            old(self).wf(),
        ensures
            final(self).wf(),
            final(self)@ == (HandlerView {
                ledger: after_admit(old(self)@.ledger),
                accepted: if admits(old(self)@.ledger) {
                    next_number(old(self)@.accepted)
                } else {
                    old(self)@.accepted
                },
                ..old(self)@
            }),
            connection is Some == admits(old(self)@.ledger),
            connection is Some ==> connection.unwrap().outbound.wf() && connection.unwrap()@
                == fresh_connection(old(self)@, now, nonce@),
    {
        if !self.ledger.try_admit() {
            return None;
        }
        let mut state = self.factory.create_state(self.accepted, now);
        let mut outbound = OutboundQueue::new(self.channel_size, self.overflow);
        if self.challenge_on_connect {
            state.auth = AuthStatus::ChallengeIssued { nonce: nonce.clone() };
            let _ = outbound.offer(OutboundMessage::AuthChallenge(nonce));
        }
        self.accepted = if self.accepted < u64::MAX {
            self.accepted + 1
        } else {
            0
        };
        Some(Connection { state, outbound })
    }

    /// Gives back the place of a connection that has ended, for whatever
    /// cause.
    pub fn disconnect(&mut self, connection: Connection)
        requires
            old(self).wf(),
        ensures
            final(self).wf(),
            final(self)@ == (HandlerView { ledger: after_release(old(self)@.ledger), ..old(self)@ }),
    {
        self.ledger.release();
    }

    /// Runs a message from the client through the chain.
    pub fn process_inbound(
        &mut self,
        state: &mut NostrConnectionState,
        env: &Environment,
        message: InboundMessage,
    ) -> (outcome: Outcome)
        requires
            old(self).wf(),
        ensures
            final(self).wf(),
            ({
                let run = inbound(
                    old(self)@.stages,
                    old(self)@.policy,
                    old(state)@,
                    old(self)@.groups,
                    env@,
                    message@,
                );
                &&& final(state)@ == run.state
                &&& final(self)@ == (HandlerView { groups: run.groups, ..old(self)@ })
                &&& outcome@ == run.outcome
            }),
    {
        assert(self.stages@.skip(0) =~= self.stages@);
        let retract: Vec<String> = Vec::new();
        assert(retract.deep_view() =~= Seq::empty());
        let mut outcome = run_from(
            &self.stages,
            0,
            &self.policy,
            state,
            &mut self.groups,
            env,
            message,
            retract,
        );
        outcome.close = match outcome.disposition {
            Disposition::Faulted(_) => true,
            _ => false,
        };
        outcome
    }

    /// Reads a text from the client and runs the message in it through the
    /// chain. Text that is no message is dropped: nothing is answered and
    /// nothing changes.
    pub fn process_text(
        &mut self,
        state: &mut NostrConnectionState,
        env: &Environment,
        text: String,
    ) -> (outcome: Outcome)
        requires
            old(self).wf(),
        ensures
            final(self).wf(),
            match decoded(text@) {
                Some(message) => {
                    let run = inbound(
                        old(self)@.stages,
                        old(self)@.policy,
                        old(state)@,
                        old(self)@.groups,
                        env@,
                        message,
                    );
                    &&& final(state)@ == run.state
                    &&& final(self)@ == (HandlerView { groups: run.groups, ..old(self)@ })
                    &&& outcome@ == run.outcome
                },
                None => {
                    &&& final(state)@ == old(state)@
                    &&& final(self)@ == old(self)@
                    &&& outcome@ == ignored()
                },
            },
    {
        match self.converter.inbound_from_string(text) {
            Some(message) => self.process_inbound(state, env, message),
            None => Outcome::ignored(),
        }
    }

    /// Runs a message from the relay through the chain, on its way to the
    /// connection in `state`.
    pub fn process_outbound(&self, state: &NostrConnectionState, message: OutboundMessage) -> (outcome:
        OutboundOutcome)
        requires
            self.wf(),
        ensures
            outcome@ == outbound(self@.stages, state@, self@.groups, message@),
    {
        assert(self.stages@.skip(0) =~= self.stages@);
        outbound_from(&self.stages, 0, state, &self.groups, message)
    }

    /// Ends a connection that has lasted longer than the settings allow:
    /// the messages to send before it is closed, whatever the client is
    /// doing. Nothing where the connection may go on.
    pub fn expire(&self, state: &mut NostrConnectionState, now: u64) -> (last_words: Option<
        Vec<OutboundMessage>,
    >)
        ensures
            if lifetime_exceeded(old(state)@.started_at, now, self@.max_connection_time) {
                &&& last_words is Some
                &&& last_words.unwrap().deep_view() == farewell(old(state)@.subscriptions)
                &&& final(state)@ == (StateView { subscriptions: Seq::empty(), ..old(state)@ })
            } else {
                &&& last_words is None
                &&& final(state)@ == old(state)@
            },
    {
        if !check_lifetime(state.started_at, now, self.max_connection_time) {
            return None;
        }
        let mut messages = single(
            OutboundMessage::Notice("error: maximum connection time exceeded".to_owned()),
        );
        let ghost subscriptions = state.subscriptions.deep_view();
        let ghost close = |id: Seq<char>|
            OutboundView::Closed { subscription_id: id, message: farewell_text() };
        let mut i: usize = 0;
        while i < state.subscriptions.len()
            invariant
                i <= state.subscriptions.len(),
                *state == *old(state),
                subscriptions == state.subscriptions.deep_view(),
                close == (|id: Seq<char>|
                    OutboundView::Closed { subscription_id: id, message: farewell_text() }),
                messages.deep_view() == seq![OutboundView::Notice(farewell_text())]
                    + subscriptions.take(i as int).map_values(close),
            decreases state.subscriptions.len() - i,
        {
            let ghost before = messages.deep_view();
            let closed = OutboundMessage::Closed {
                subscription_id: state.subscriptions[i].clone(),
                message: "error: maximum connection time exceeded".to_owned(),
            };
            messages.push(closed);
            proof {
                assert(subscriptions[i as int] == state.subscriptions[i as int]@);
                assert(messages.deep_view() =~= before.push(close(subscriptions[i as int])));
                assert(subscriptions.take(i as int + 1).map_values(close) =~= subscriptions.take(
                    i as int,
                ).map_values(close).push(close(subscriptions[i as int])));
            }
            i += 1;
        }
        assert(subscriptions.take(subscriptions.len() as int) =~= subscriptions);
        state.subscriptions = Vec::new();
        assert(state.subscriptions.deep_view() =~= Seq::empty());
        Some(messages)
    }
}

} // verus!
