//! The chain of stages and the way a message runs through it.
//!
//! A chain is a list of stages. Two of them wrap everything behind them: error
//! containment turns a fault of a later stage into an answer, and logging
//! records what became of the message. The others are gates: each lets the
//! message through or ends the run with an answer. A message that has passed
//! every stage is handed over: an event to be stored, a subscription to be
//! served.

use vstd::prelude::*;
use crate::connection::AuthView;
use crate::connection::StateView;
use crate::connection::with_subscription;
use crate::connection::without_subscription;
use crate::event::Event;
use crate::event::EventView;
use crate::event::KIND_DELETION;
use crate::groups::GroupsView;
use crate::groups::group_reference;
use crate::groups::group_verdict;
use crate::message::ErrorClass;
use crate::message::InboundView;
use crate::message::class_of;
use crate::message::OutboundMessage;
use crate::message::OutboundView;
use crate::message::Reason;
use crate::message::refusal;
use crate::signature::event_failure;
use crate::stages::auth_failure;
use crate::stages::deletion_failure;
use crate::stages::message_defect;
use crate::stages::needs_identity;
use crate::stages::protection_failure;
use crate::stages::retracted;
use crate::storage::StorageReport;
use crate::storage::StorageView;
use crate::storage::author_of;

verus! {

/// The stages that a chain can be made of.
#[derive(Clone, Copy, PartialEq, Eq, Structural, Debug)]
pub enum Stage {
    ErrorContainment,
    Logging,
    Authentication,
    Validation,
    Verification,
    ProtectedEvent,
    Deletion,
    GroupAuthorization,
}

/// A failure inside the relay, as opposed to a defect of a message.
#[derive(Clone, Copy, PartialEq, Eq, Structural, Debug)]
pub enum Fault {
    /// Something did not answer. The connection can go on.
    Internal,
    /// Something is broken. The connection has to end.
    Fatal,
}

/// What became of a message.
#[derive(Clone, Copy, PartialEq, Eq, Structural, Debug)]
pub enum Disposition {
    /// It passed and was handed over.
    Accepted,
    /// It passed, and the store holds the event already.
    Duplicate,
    /// It was turned away.
    Rejected(Reason),
    /// A stage failed while it looked at the message.
    Faulted(Fault),
    /// It was no message at all, and nothing was answered.
    Ignored,
}

/// The class of failure that a disposition stands for; none where the
/// message was accepted.
pub open spec fn disposition_class(disposition: Disposition) -> Option<ErrorClass> {
    match disposition {
        Disposition::Accepted => None,
        Disposition::Duplicate => None,
        Disposition::Rejected(reason) => Some(class_of(reason)),
        Disposition::Faulted(Fault::Internal) => Some(ErrorClass::Contained),
        Disposition::Faulted(Fault::Fatal) => Some(ErrorClass::Fatal),
        Disposition::Ignored => Some(ErrorClass::Malformed),
    }
}

impl Disposition {
    /// The class of failure that the disposition stands for.
    pub fn class(self) -> (class: Option<ErrorClass>)
        ensures
            class == disposition_class(self),
    {
        match self {
            Disposition::Accepted => None,
            Disposition::Duplicate => None,
            Disposition::Rejected(reason) => Some(reason.class()),
            Disposition::Faulted(Fault::Internal) => Some(ErrorClass::Contained),
            Disposition::Faulted(Fault::Fatal) => Some(ErrorClass::Fatal),
            Disposition::Ignored => Some(ErrorClass::Malformed),
        }
    }
}

/// An entry of the log: which connection, which stage decided (none: the
/// message passed every stage), and what became of the message. The words of
/// a rejection are those of its reason; no key or signature is recorded.
#[derive(Clone, Copy, PartialEq, Eq, Debug)]
pub struct LogRecord {
    pub connection_id: u64,
    pub stage: Option<Stage>,
    pub disposition: Disposition,
}

/// What the relay's other parts are asked to do with a message that passed.
#[derive(Clone, PartialEq, Eq, Debug)]
pub enum Command {
    Nothing,
    /// Store `event`, and mark the stored events `retract` as deleted on the
    /// authority of the event's signer.
    Store { event: Event, retract: Vec<String> },
    /// Serve the subscription.
    Query { subscription_id: String, filters: Vec<String> },
    /// Stop serving the subscription.
    Cancel { subscription_id: String },
}

pub enum CommandView {
    Nothing,
    Store { event: EventView, retract: Seq<Seq<char>> },
    Query { subscription_id: Seq<char>, filters: Seq<Seq<char>> },
    Cancel { subscription_id: Seq<char> },
}

impl View for Command {
    type V = CommandView;

    open spec fn view(&self) -> CommandView {
        match self {
            Command::Nothing => CommandView::Nothing,
            Command::Store { event, retract } => CommandView::Store {
                event: event@,
                retract: retract.deep_view(),
            },
            Command::Query { subscription_id, filters } => CommandView::Query {
                subscription_id: subscription_id@,
                filters: filters.deep_view(),
            },
            Command::Cancel { subscription_id } => CommandView::Cancel {
                subscription_id: subscription_id@,
            },
        }
    }
}

/// The result of running one message through the chain.
#[derive(Clone, PartialEq, Eq, Debug)]
pub struct Outcome {
    /// What to send to the client, in this order.
    pub replies: Vec<OutboundMessage>,
    pub command: Command,
    pub disposition: Disposition,
    /// The stage that ended the run; none where the message passed them all.
    pub decided_by: Option<Stage>,
    /// What the logging stage wrote down.
    pub records: Vec<LogRecord>,
    /// Whether the connection has to be closed.
    pub close: bool,
}

pub struct OutcomeView {
    pub replies: Seq<OutboundView>,
    pub command: CommandView,
    pub disposition: Disposition,
    pub decided_by: Option<Stage>,
    pub records: Seq<LogRecord>,
    pub close: bool,
}

impl View for Outcome {
    type V = OutcomeView;

    open spec fn view(&self) -> OutcomeView {
        OutcomeView {
            replies: self.replies.deep_view(),
            command: self.command@,
            disposition: self.disposition,
            decided_by: self.decided_by,
            records: self.records@,
            close: self.close,
        }
    }
}

/// What the world outside the chain says at the time of a message.
#[derive(Clone, PartialEq, Eq, Debug)]
pub struct Environment {
    /// The relay's clock, in seconds.
    pub now: u64,
    /// A nonce that was never used before, for a challenge.
    pub fresh_nonce: String,
    pub storage: StorageReport,
}

pub struct EnvironmentView {
    pub now: u64,
    pub fresh_nonce: Seq<char>,
    pub storage: StorageView,
}

impl View for Environment {
    type V = EnvironmentView;

    open spec fn view(&self) -> EnvironmentView {
        EnvironmentView { now: self.now, fresh_nonce: self.fresh_nonce@, storage: self.storage@ }
    }
}

/// What the stages are told about the relay.
#[derive(Clone, PartialEq, Eq, Debug)]
pub struct Policy {
    /// The address that an authentication event has to name.
    pub auth_url: String,
    /// The relay operator's key.
    pub relay_pubkey: String,
}

pub struct PolicyView {
    pub auth_url: Seq<char>,
    pub relay_pubkey: Seq<char>,
}

impl View for Policy {
    type V = PolicyView;

    open spec fn view(&self) -> PolicyView {
        PolicyView { auth_url: self.auth_url@, relay_pubkey: self.relay_pubkey@ }
    }
}

/// The outcome of a run that `stage` ended by turning the message away.
pub open spec fn halted(stage: Stage, message: InboundView, reason: Reason) -> OutcomeView {
    OutcomeView {
        replies: seq![refusal(message, reason)],
        command: CommandView::Nothing,
        disposition: Disposition::Rejected(reason),
        decided_by: Some(stage),
        records: Seq::empty(),
        close: false,
    }
}

/// The outcome of a run in which something failed.
pub open spec fn faulted(stage: Option<Stage>, fault: Fault) -> OutcomeView {
    OutcomeView {
        replies: Seq::empty(),
        command: CommandView::Nothing,
        disposition: Disposition::Faulted(fault),
        decided_by: stage,
        records: Seq::empty(),
        close: false,
    }
}

/// The outcome for text that is no message.
pub open spec fn ignored() -> OutcomeView {
    OutcomeView {
        replies: Seq::empty(),
        command: CommandView::Nothing,
        disposition: Disposition::Ignored,
        decided_by: None,
        records: Seq::empty(),
        close: false,
    }
}

/// The decision of a gate.
#[derive(Clone, PartialEq, Eq, Debug)]
pub enum Gate {
    /// The message goes on. A deletion stage names the stored events to
    /// retract.
    Pass { retract: Option<Vec<String>> },
    /// The run ends here.
    Halt(Outcome),
}

pub enum DecisionView {
    Pass { retract: Option<Seq<Seq<char>>> },
    Halt(OutcomeView),
}

impl View for Gate {
    type V = DecisionView;

    open spec fn view(&self) -> DecisionView {
        match self {
            Gate::Pass { retract } => DecisionView::Pass { retract: retract.deep_view() },
            Gate::Halt(outcome) => DecisionView::Halt(outcome@),
        }
    }
}

/// The decision to let a message through without more.
pub open spec fn pass() -> DecisionView {
    DecisionView::Pass { retract: None }
}

/// The decision by which `stage` turns a message away.
pub open spec fn refuse(stage: Stage, message: InboundView, reason: Reason) -> DecisionView {
    DecisionView::Halt(halted(stage, message, reason))
}

/// The authentication gate: the state in which it leaves the connection,
/// and its decision.
///
/// An answer to a challenge ends the run here: where a challenge is pending
/// and the answer holds, the connection is authenticated as the signer;
/// otherwise the connection stays as it is and the answer is turned away.
/// An event that needs an identity is turned away from a connection that has
/// not authenticated, and the first such event makes the relay issue its
/// challenge. Everything else goes on.
pub open spec fn authentication_gate(
    policy: PolicyView,
    auth: AuthView,
    env: EnvironmentView,
    message: InboundView,
) -> (AuthView, DecisionView) {
    match message {
        InboundView::AuthResponse(event) => match auth {
            AuthView::ChallengeIssued { nonce } => match auth_failure(
                event,
                nonce,
                policy.auth_url,
                env.now,
            ) {
                None => (
                    AuthView::Authenticated { pubkey: event.pubkey },
                    DecisionView::Halt(
                        OutcomeView {
                            replies: seq![
                                OutboundView::Ack {
                                    event_id: event.id,
                                    accepted: true,
                                    message: Seq::empty(),
                                },
                            ],
                            command: CommandView::Nothing,
                            disposition: Disposition::Accepted,
                            decided_by: Some(Stage::Authentication),
                            records: Seq::empty(),
                            close: false,
                        },
                    ),
                ),
                Some(reason) => (auth, refuse(Stage::Authentication, message, reason)),
            },
            _ => (auth, refuse(Stage::Authentication, message, Reason::NoChallengePending)),
        },
        InboundView::SubmitEvent(event) => if needs_identity(event) && !(auth is Authenticated) {
            if auth is Unauthenticated {
                (
                    AuthView::ChallengeIssued { nonce: env.fresh_nonce },
                    DecisionView::Halt(
                        OutcomeView {
                            replies: seq![
                                OutboundView::AuthChallenge(env.fresh_nonce),
                                refusal(message, Reason::AuthRequired),
                            ],
                            ..halted(Stage::Authentication, message, Reason::AuthRequired)
                        },
                    ),
                )
            } else {
                (auth, refuse(Stage::Authentication, message, Reason::AuthRequired))
            }
        } else {
            (auth, pass())
        },
        _ => (auth, pass()),
    }
}

/// The validation gate: a message with a structural defect is turned away.
pub open spec fn validation_gate(env: EnvironmentView, message: InboundView) -> DecisionView {
    match message_defect(message, env.now) {
        Some(reason) => refuse(Stage::Validation, message, reason),
        None => pass(),
    }
}

/// The verification gate: a submitted event whose identifier or signature
/// does not hold is turned away.
pub open spec fn verification_gate(message: InboundView) -> DecisionView {
    match message {
        InboundView::SubmitEvent(event) => match event_failure(event) {
            Some(reason) => refuse(Stage::Verification, message, reason),
            None => pass(),
        },
        _ => pass(),
    }
}

/// The stage that guards protected events.
pub open spec fn protection_gate(policy: PolicyView, auth: AuthView, message: InboundView) -> DecisionView {
    match message {
        InboundView::SubmitEvent(event) => match protection_failure(
            event,
            auth,
            policy.relay_pubkey,
        ) {
            Some(reason) => refuse(Stage::ProtectedEvent, message, reason),
            None => pass(),
        },
        _ => pass(),
    }
}

/// The deletion gate: a deletion that names a stored event of another author
/// is turned away; one that is let through names the stored events to
/// retract. Without an answer from the store the stage fails.
pub open spec fn deletion_gate(policy: PolicyView, env: EnvironmentView, message: InboundView) -> DecisionView {
    match message {
        InboundView::SubmitEvent(event) => if event.kind == KIND_DELETION {
            match env.storage {
                StorageView::Known(known) => match deletion_failure(
                    event,
                    known,
                    policy.relay_pubkey,
                ) {
                    Some(reason) => refuse(Stage::Deletion, message, reason),
                    None => DecisionView::Pass { retract: Some(retracted(event, known)) },
                },
                StorageView::Unavailable => DecisionView::Halt(
                    faulted(Some(Stage::Deletion), Fault::Internal),
                ),
                StorageView::Failed => DecisionView::Halt(
                    faulted(Some(Stage::Deletion), Fault::Fatal),
                ),
            }
        } else {
            pass()
        },
        _ => pass(),
    }
}

/// Group authorization as a gate: the groups as it leaves them, and its
/// decision. An event with a group reference is judged in its group and,
/// where it is let through, takes its action there. An event that the store
/// holds already is let through without being judged or acting again.
/// Without an answer from the store the stage fails.
pub open spec fn group_gate(
    groups: GroupsView,
    auth: AuthView,
    env: EnvironmentView,
    message: InboundView,
) -> (GroupsView, DecisionView) {
    match message {
        InboundView::SubmitEvent(event) => if group_reference(event) is Some {
            match env.storage {
                StorageView::Known(known) => if author_of(known, event.id) is Some {
                    (groups, pass())
                } else {
                    match group_verdict(groups, auth, event) {
                        Ok(after) => (after, pass()),
                        Err(reason) => (
                            groups,
                            refuse(Stage::GroupAuthorization, message, reason),
                        ),
                    }
                },
                StorageView::Unavailable => (
                    groups,
                    DecisionView::Halt(faulted(Some(Stage::GroupAuthorization), Fault::Internal)),
                ),
                StorageView::Failed => (
                    groups,
                    DecisionView::Halt(faulted(Some(Stage::GroupAuthorization), Fault::Fatal)),
                ),
            }
        } else {
            (groups, pass())
        },
        _ => (groups, pass()),
    }
}

/// What a gate leaves behind: the connection, the groups, and its decision.
pub struct GateView {
    pub state: StateView,
    pub groups: GroupsView,
    pub decision: DecisionView,
}

/// What `stage` leaves behind as a gate. The two wrapping stages are no gates
/// and let everything through.
pub open spec fn gate(
    stage: Stage,
    policy: PolicyView,
    state: StateView,
    groups: GroupsView,
    env: EnvironmentView,
    message: InboundView,
) -> GateView {
    match stage {
        Stage::Authentication => {
            let (auth, decision) = authentication_gate(policy, state.auth, env, message);
            GateView { state: StateView { auth, ..state }, groups, decision }
        },
        Stage::Validation => GateView { state, groups, decision: validation_gate(env, message) },
        Stage::Verification => GateView { state, groups, decision: verification_gate(message) },
        Stage::ProtectedEvent => GateView {
            state,
            groups,
            decision: protection_gate(policy, state.auth, message),
        },
        Stage::Deletion => GateView { state, groups, decision: deletion_gate(policy, env, message) },
        Stage::GroupAuthorization => {
            let (after, decision) = group_gate(groups, state.auth, env, message);
            GateView { state, groups: after, decision }
        },
        Stage::ErrorContainment => GateView { state, groups, decision: pass() },
        Stage::Logging => GateView { state, groups, decision: pass() },
    }
}

/// Where a run has come to: the connection, the groups, and the outcome.
pub struct Run {
    pub state: StateView,
    pub groups: GroupsView,
    pub outcome: OutcomeView,
}

/// The handing over of a message that passed every stage.
///
/// An event is stored, together with the retractions that a deletion stage
/// named, unless the store holds it already; either way the client is told
/// that the event is accepted. A subscription is opened or closed on the
/// connection and passed on to be served. An answer to a challenge that no
/// stage took, and a message that the relay does not serve, are turned away.
pub open spec fn deliver(
    state: StateView,
    groups: GroupsView,
    env: EnvironmentView,
    message: InboundView,
    retract: Seq<Seq<char>>,
) -> Run {
    match message {
        InboundView::SubmitEvent(event) => match env.storage {
            StorageView::Known(known) => Run {
                state,
                groups,
                outcome: if author_of(known, event.id) is Some {
                    OutcomeView {
                        replies: seq![
                            OutboundView::Ack {
                                event_id: event.id,
                                accepted: true,
                                message: "duplicate: already have this event"@,
                            },
                        ],
                        command: CommandView::Nothing,
                        disposition: Disposition::Duplicate,
                        decided_by: None,
                        records: Seq::empty(),
                        close: false,
                    }
                } else {
                    OutcomeView {
                        replies: seq![
                            OutboundView::Ack {
                                event_id: event.id,
                                accepted: true,
                                message: Seq::empty(),
                            },
                        ],
                        command: CommandView::Store { event, retract },
                        disposition: Disposition::Accepted,
                        decided_by: None,
                        records: Seq::empty(),
                        close: false,
                    }
                },
            },
            StorageView::Unavailable => Run {
                state,
                groups,
                outcome: faulted(None, Fault::Internal),
            },
            StorageView::Failed => Run { state, groups, outcome: faulted(None, Fault::Fatal) },
        },
        InboundView::Subscribe { subscription_id, filters } => Run {
            state: StateView {
                subscriptions: with_subscription(state.subscriptions, subscription_id),
                ..state
            },
            groups,
            outcome: OutcomeView {
                replies: Seq::empty(),
                command: CommandView::Query { subscription_id, filters },
                disposition: Disposition::Accepted,
                decided_by: None,
                records: Seq::empty(),
                close: false,
            },
        },
        InboundView::CloseSubscription(subscription_id) => Run {
            state: StateView {
                subscriptions: without_subscription(state.subscriptions, subscription_id),
                ..state
            },
            groups,
            outcome: OutcomeView {
                replies: Seq::empty(),
                command: CommandView::Cancel { subscription_id },
                disposition: Disposition::Accepted,
                decided_by: None,
                records: Seq::empty(),
                close: false,
            },
        },
        InboundView::AuthResponse(event) => Run {
            state,
            groups,
            outcome: OutcomeView {
                decided_by: None,
                ..halted(Stage::Authentication, message, Reason::AuthUnavailable)
            },
        },
        InboundView::Unsupported => Run {
            state,
            groups,
            outcome: OutcomeView {
                decided_by: None,
                ..halted(Stage::Validation, message, Reason::UnsupportedMessage)
            },
        },
    }
}

/// Error containment: a fault of a later stage that does not end the
/// connection becomes an answer to the client, and nothing is handed over.
/// Everything else is left as it is.
pub open spec fn contained(message: InboundView, run: Run) -> Run {
    if run.outcome.disposition == Disposition::Faulted(Fault::Internal) {
        Run {
            outcome: OutcomeView {
                replies: seq![refusal(message, Reason::InternalError)],
                command: CommandView::Nothing,
                disposition: Disposition::Rejected(Reason::InternalError),
                ..run.outcome
            },
            ..run
        }
    } else {
        run
    }
}

/// Logging: one entry for what became of the message behind this stage.
pub open spec fn logged(run: Run) -> Run {
    Run {
        outcome: OutcomeView {
            records: run.outcome.records.push(
                LogRecord {
                    connection_id: run.state.connection_id,
                    stage: run.outcome.decided_by,
                    disposition: run.outcome.disposition,
                },
            ),
            ..run.outcome
        },
        ..run
    }
}

/// The run of a message through `stages`, in their order.
pub open spec fn run(
    stages: Seq<Stage>,
    policy: PolicyView,
    state: StateView,
    groups: GroupsView,
    env: EnvironmentView,
    message: InboundView,
    retract: Seq<Seq<char>>,
) -> Run
    decreases stages.len(),
{
    if stages.len() == 0 {
        deliver(state, groups, env, message, retract)
    } else {
        let rest = stages.skip(1);
        match stages[0] {
            Stage::ErrorContainment => contained(
                message,
                run(rest, policy, state, groups, env, message, retract),
            ),
            Stage::Logging => logged(run(rest, policy, state, groups, env, message, retract)),
            stage => {
                let at_gate = gate(stage, policy, state, groups, env, message);
                match at_gate.decision {
                    DecisionView::Pass { retract: named } => run(
                        rest,
                        policy,
                        at_gate.state,
                        at_gate.groups,
                        env,
                        message,
                        match named {
                            Some(ids) => ids,
                            None => retract,
                        },
                    ),
                    DecisionView::Halt(outcome) => Run {
                        state: at_gate.state,
                        groups: at_gate.groups,
                        outcome,
                    },
                }
            },
        }
    }
}

/// The end of a run: a fault that nothing contained closes the connection.
pub open spec fn finished(run: Run) -> Run {
    Run {
        outcome: OutcomeView { close: run.outcome.disposition is Faulted, ..run.outcome },
        ..run
    }
}

/// What becomes of `message` on a connection in `state`: the run through
/// `stages` from the first, brought to its end.
pub open spec fn inbound(
    stages: Seq<Stage>,
    policy: PolicyView,
    state: StateView,
    groups: GroupsView,
    env: EnvironmentView,
    message: InboundView,
) -> Run {
    finished(run(stages, policy, state, groups, env, message, Seq::empty()))
}

} // verus!
