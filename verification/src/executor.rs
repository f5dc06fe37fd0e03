//! The stages at work: each gate as a function, and the run of a message
//! through a chain of them.

use vstd::prelude::*;
use crate::connection::AuthStatus;
use crate::connection::NostrConnectionState;
use crate::groups::Groups;
use crate::message::InboundMessage;
use crate::message::OutboundMessage;
use crate::message::Reason;
use crate::pipeline::Command;
use crate::pipeline::CommandView;
use crate::pipeline::Disposition;
use crate::pipeline::Environment;
use crate::pipeline::Fault;
use crate::pipeline::Gate;
use crate::pipeline::GateView;
use crate::pipeline::LogRecord;
use crate::pipeline::Outcome;
use crate::pipeline::OutcomeView;
use crate::pipeline::Policy;
use crate::pipeline::Run;
use crate::pipeline::Stage;
use crate::pipeline::authentication_gate;
use crate::pipeline::deletion_gate;
use crate::pipeline::deliver;
use crate::pipeline::faulted;
use crate::pipeline::gate;
use crate::pipeline::group_gate;
use crate::pipeline::ignored;
use crate::pipeline::protection_gate;
use crate::pipeline::run;
use crate::pipeline::validation_gate;
use crate::pipeline::verification_gate;
use crate::signature::verify_event;
use crate::stages::check_needs_identity;
use crate::stages::find_auth_failure;
use crate::stages::find_deletion_failure;
use crate::stages::find_message_defect;
use crate::stages::find_protection_failure;
use crate::stages::list_retracted;
use crate::storage::StorageReport;
use crate::storage::find_author;
use crate::event::KIND_DELETION;

verus! {

/// A list that holds `reply` and nothing else.
pub(crate) fn single(reply: OutboundMessage) -> (replies: Vec<OutboundMessage>)
    ensures
        replies.deep_view() == seq![reply@],
{
    let mut replies: Vec<OutboundMessage> = Vec::new();
    replies.push(reply);
    assert(replies.deep_view() =~= seq![reply@]);
    replies
}

/// A list that holds `first`, then `second`.
fn pair(first: OutboundMessage, second: OutboundMessage) -> (replies: Vec<OutboundMessage>)
    ensures
        replies.deep_view() == seq![first@, second@],
{
    let mut replies: Vec<OutboundMessage> = Vec::new();
    replies.push(first);
    replies.push(second);
    assert(replies.deep_view() =~= seq![first@, second@]);
    replies
}

impl Outcome {
    /// The outcome of a run that `stage` ended by turning the message away
    /// with `reply`.
    pub fn halted(stage: Stage, reply: OutboundMessage, reason: Reason) -> (outcome: Outcome)
        ensures
            outcome@ == (OutcomeView {
                replies: seq![reply@],
                command: CommandView::Nothing,
                disposition: Disposition::Rejected(reason),
                decided_by: Some(stage),
                records: Seq::empty(),
                close: false,
            }),
    {
        Outcome {
            replies: single(reply),
            command: Command::Nothing,
            disposition: Disposition::Rejected(reason),
            decided_by: Some(stage),
            records: Vec::new(),
            close: false,
        }
    }

    /// The outcome of a run in which something failed.
    pub fn faulted(stage: Option<Stage>, fault: Fault) -> (outcome: Outcome)
        ensures
            outcome@ == faulted(stage, fault),
    {
        let outcome = Outcome {
            replies: Vec::new(),
            command: Command::Nothing,
            disposition: Disposition::Faulted(fault),
            decided_by: stage,
            records: Vec::new(),
            close: false,
        };
        assert(outcome.replies.deep_view() =~= Seq::empty());
        outcome
    }

    /// The outcome for text that is no message.
    pub fn ignored() -> (outcome: Outcome)
        ensures
            outcome@ == ignored(),
    {
        let outcome = Outcome {
            replies: Vec::new(),
            command: Command::Nothing,
            disposition: Disposition::Ignored,
            decided_by: None,
            records: Vec::new(),
            close: false,
        };
        assert(outcome.replies.deep_view() =~= Seq::empty());
        outcome
    }
}

fn let_pass() -> (gate: Gate)
    ensures
        gate@ == crate::pipeline::pass(),
{
    Gate::Pass { retract: None }
}

fn turn_away(stage: Stage, message: &InboundMessage, reason: Reason) -> (gate: Gate)
    ensures
        gate@ == crate::pipeline::refuse(stage, message@, reason),
{
    Gate::Halt(Outcome::halted(stage, message.refusal(reason), reason))
}

/// The authentication gate. It alone changes how far the connection has
/// come in proving who it is.
pub fn pass_authentication(
    policy: &Policy,
    auth: &mut AuthStatus,
    env: &Environment,
    message: &InboundMessage,
) -> (gate: Gate)
    ensures
        (final(auth)@, gate@) == authentication_gate(policy@, old(auth)@, env@, message@),
{
    match message {
        InboundMessage::AuthResponse(event) => {
            let failure = match auth {
                AuthStatus::ChallengeIssued { nonce } => find_auth_failure(
                    event,
                    nonce,
                    &policy.auth_url,
                    env.now,
                ),
                _ => Some(Reason::NoChallengePending),
            };
            match failure {
                Some(reason) => turn_away(Stage::Authentication, message, reason),
                None => {
                    *auth = AuthStatus::Authenticated { pubkey: event.pubkey.clone() };
                    let reply = OutboundMessage::Ack {
                        event_id: event.id.clone(),
                        accepted: true,
                        message: String::new(),
                    };
                    Gate::Halt(
                        Outcome {
                            replies: single(reply),
                            command: Command::Nothing,
                            disposition: Disposition::Accepted,
                            decided_by: Some(Stage::Authentication),
                            records: Vec::new(),
                            close: false,
                        },
                    )
                },
            }
        },
        InboundMessage::SubmitEvent(event) => {
            if auth.is_authenticated() || !check_needs_identity(event) {
                return let_pass();
            }
            let refusal = message.refusal(Reason::AuthRequired);
            match auth {
                AuthStatus::Unauthenticated => {
                    *auth = AuthStatus::ChallengeIssued { nonce: env.fresh_nonce.clone() };
                    let challenge = OutboundMessage::AuthChallenge(env.fresh_nonce.clone());
                    Gate::Halt(
                        Outcome {
                            replies: pair(challenge, refusal),
                            command: Command::Nothing,
                            disposition: Disposition::Rejected(Reason::AuthRequired),
                            decided_by: Some(Stage::Authentication),
                            records: Vec::new(),
                            close: false,
                        },
                    )
                },
                _ => Gate::Halt(
                    Outcome::halted(Stage::Authentication, refusal, Reason::AuthRequired),
                ),
            }
        },
        _ => let_pass(),
    }
}

/// The validation gate.
pub fn pass_validation(env: &Environment, message: &InboundMessage) -> (gate: Gate)
    ensures
        gate@ == validation_gate(env@, message@),
{
    match find_message_defect(message, env.now) {
        Some(reason) => turn_away(Stage::Validation, message, reason),
        None => let_pass(),
    }
}

/// The verification gate. It reads the event and changes nothing.
pub fn pass_verification(message: &InboundMessage) -> (gate: Gate)
    ensures
        gate@ == verification_gate(message@),
{
    match message {
        InboundMessage::SubmitEvent(event) => match verify_event(event) {
            Some(reason) => turn_away(Stage::Verification, message, reason),
            None => let_pass(),
        },
        _ => let_pass(),
    }
}

/// The stage that guards protected events.
pub fn pass_protection(policy: &Policy, auth: &AuthStatus, message: &InboundMessage) -> (gate: Gate)
    ensures
        gate@ == protection_gate(policy@, auth@, message@),
{
    match message {
        InboundMessage::SubmitEvent(event) => match find_protection_failure(
            event,
            auth,
            &policy.relay_pubkey,
        ) {
            Some(reason) => turn_away(Stage::ProtectedEvent, message, reason),
            None => let_pass(),
        },
        _ => let_pass(),
    }
}

/// The deletion gate. It names what is to be retracted and retracts nothing
/// itself.
pub fn pass_deletion(policy: &Policy, env: &Environment, message: &InboundMessage) -> (gate: Gate)
    ensures
        gate@ == deletion_gate(policy@, env@, message@),
{
    match message {
        InboundMessage::SubmitEvent(event) => {
            if event.kind != KIND_DELETION {
                return let_pass();
            }
            match &env.storage {
                StorageReport::Known(known) => match find_deletion_failure(
                    event,
                    known,
                    &policy.relay_pubkey,
                ) {
                    Some(reason) => turn_away(Stage::Deletion, message, reason),
                    None => Gate::Pass { retract: Some(list_retracted(event, known)) },
                },
                StorageReport::Unavailable => Gate::Halt(
                    Outcome::faulted(Some(Stage::Deletion), Fault::Internal),
                ),
                StorageReport::Failed => Gate::Halt(
                    Outcome::faulted(Some(Stage::Deletion), Fault::Fatal),
                ),
            }
        },
        _ => let_pass(),
    }
}

/// Group authorization at work. It alone changes the groups.
pub fn pass_group(
    groups: &mut Groups,
    auth: &AuthStatus,
    env: &Environment,
    message: &InboundMessage,
) -> (gate: Gate)
    requires
        old(groups).wf(),
    ensures
        final(groups).wf(),
        (final(groups)@, gate@) == group_gate(old(groups)@, auth@, env@, message@),
{
    match message {
        InboundMessage::SubmitEvent(event) => {
            if event.first_tag_value(&"h".to_owned()).is_none() {
                return let_pass();
            }
            match &env.storage {
                StorageReport::Known(known) => {
                    if find_author(known, &event.id).is_some() {
                        return let_pass();
                    }
                    match groups.authorize(auth, event) {
                        Ok(()) => let_pass(),
                        Err(reason) => turn_away(Stage::GroupAuthorization, message, reason),
                    }
                },
                StorageReport::Unavailable => Gate::Halt(
                    Outcome::faulted(Some(Stage::GroupAuthorization), Fault::Internal),
                ),
                StorageReport::Failed => Gate::Halt(
                    Outcome::faulted(Some(Stage::GroupAuthorization), Fault::Fatal),
                ),
            }
        },
        _ => let_pass(),
    }
}

/// The decision of `stage` on `message`.
pub fn pass_gate(
    stage: Stage,
    policy: &Policy,
    state: &mut NostrConnectionState,
    groups: &mut Groups,
    env: &Environment,
    message: &InboundMessage,
) -> (decision: Gate)
    requires
        old(groups).wf(),
    ensures
        final(groups).wf(),
        (GateView { state: final(state)@, groups: final(groups)@, decision: decision@ }) == gate(
            stage,
            policy@,
            old(state)@,
            old(groups)@,
            env@,
            message@,
        ),
{
    match stage {
        Stage::Authentication => pass_authentication(policy, &mut state.auth, env, message),
        Stage::Validation => pass_validation(env, message),
        Stage::Verification => pass_verification(message),
        Stage::ProtectedEvent => pass_protection(policy, &state.auth, message),
        Stage::Deletion => pass_deletion(policy, env, message),
        Stage::GroupAuthorization => pass_group(groups, &state.auth, env, message),
        Stage::ErrorContainment => let_pass(),
        Stage::Logging => let_pass(),
    }
}

/// Hands over a message that passed every stage.
pub fn hand_over(
    state: &mut NostrConnectionState,
    env: &Environment,
    message: InboundMessage,
    retract: Vec<String>,
) -> (outcome: Outcome)
    ensures
        forall|groups: crate::groups::GroupsView|
            (Run { state: final(state)@, groups, outcome: outcome@ }) == #[trigger] deliver(
                old(state)@,
                groups,
                env@,
                message@,
                retract.deep_view(),
            ),
{
    match message {
        InboundMessage::SubmitEvent(event) => match &env.storage {
            StorageReport::Known(known) => {
                let event_id = event.id.clone();
                if find_author(known, &event.id).is_some() {
                    let reply = OutboundMessage::Ack {
                        event_id,
                        accepted: true,
                        message: "duplicate: already have this event".to_owned(),
                    };
                    Outcome {
                        replies: single(reply),
                        command: Command::Nothing,
                        disposition: Disposition::Duplicate,
                        decided_by: None,
                        records: Vec::new(),
                        close: false,
                    }
                } else {
                    let reply = OutboundMessage::Ack {
                        event_id,
                        accepted: true,
                        message: String::new(),
                    };
                    Outcome {
                        replies: single(reply),
                        command: Command::Store { event, retract },
                        disposition: Disposition::Accepted,
                        decided_by: None,
                        records: Vec::new(),
                        close: false,
                    }
                }
            },
            StorageReport::Unavailable => Outcome::faulted(None, Fault::Internal),
            StorageReport::Failed => Outcome::faulted(None, Fault::Fatal),
        },
        InboundMessage::Subscribe { subscription_id, filters } => {
            state.open_subscription(subscription_id.clone());
            let outcome = Outcome {
                replies: Vec::new(),
                command: Command::Query { subscription_id, filters },
                disposition: Disposition::Accepted,
                decided_by: None,
                records: Vec::new(),
                close: false,
            };
            assert(outcome.replies.deep_view() =~= Seq::empty());
            outcome
        },
        InboundMessage::CloseSubscription(subscription_id) => {
            state.close_subscription(&subscription_id);
            let outcome = Outcome {
                replies: Vec::new(),
                command: Command::Cancel { subscription_id },
                disposition: Disposition::Accepted,
                decided_by: None,
                records: Vec::new(),
                close: false,
            };
            assert(outcome.replies.deep_view() =~= Seq::empty());
            outcome
        },
        InboundMessage::AuthResponse(event) => {
            let message = InboundMessage::AuthResponse(event);
            let reply = message.refusal(Reason::AuthUnavailable);
            let mut outcome = Outcome::halted(Stage::Authentication, reply, Reason::AuthUnavailable);
            outcome.decided_by = None;
            outcome
        },
        InboundMessage::Unsupported => {
            let reply = InboundMessage::Unsupported.refusal(Reason::UnsupportedMessage);
            let mut outcome = Outcome::halted(Stage::Validation, reply, Reason::UnsupportedMessage);
            outcome.decided_by = None;
            outcome
        },
    }
}

/// Runs `message` through the stages from the one at `at` on.
pub fn run_from(
    stages: &Vec<Stage>,
    at: usize,
    policy: &Policy,
    state: &mut NostrConnectionState,
    groups: &mut Groups,
    env: &Environment,
    message: InboundMessage,
    retract: Vec<String>,
) -> (outcome: Outcome)
    requires
        at <= stages.len(),
        old(groups).wf(),
    ensures
        final(groups).wf(),
        (Run { state: final(state)@, groups: final(groups)@, outcome: outcome@ }) == run(
            stages@.skip(at as int),
            policy@,
            old(state)@,
            old(groups)@,
            env@,
            message@,
            retract.deep_view(),
        ),
    decreases stages.len() - at,
{
    if at >= stages.len() {
        return hand_over(state, env, message, retract);
    }
    proof {
        assert(stages@.skip(at as int)[0] == stages[at as int]);
        assert(stages@.skip(at as int).skip(1) =~= stages@.skip(at as int + 1));
    }
    match stages[at] {
        Stage::ErrorContainment => {
            let reply = message.refusal(Reason::InternalError);
            let mut outcome = run_from(stages, at + 1, policy, state, groups, env, message, retract);
            match outcome.disposition {
                Disposition::Faulted(Fault::Internal) => {
                    outcome.replies = single(reply);
                    outcome.command = Command::Nothing;
                    outcome.disposition = Disposition::Rejected(Reason::InternalError);
                },
                _ => {},
            }
            outcome
        },
        Stage::Logging => {
            let mut outcome = run_from(stages, at + 1, policy, state, groups, env, message, retract);
            outcome.records.push(
                LogRecord {
                    connection_id: state.connection_id,
                    stage: outcome.decided_by,
                    disposition: outcome.disposition,
                },
            );
            outcome
        },
        stage => match pass_gate(stage, policy, state, groups, env, &message) {
            Gate::Pass { retract: named } => run_from(
                stages,
                at + 1,
                policy,
                state,
                groups,
                env,
                message,
                match named {
                    Some(ids) => ids,
                    None => retract,
                },
            ),
            Gate::Halt(outcome) => outcome,
        },
    }
}

} // verus!
