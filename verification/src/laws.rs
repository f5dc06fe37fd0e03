//! What holds of the relay whatever the messages are.

use vstd::prelude::*;
use crate::admission::LedgerView;
use crate::admission::OfferView;
use crate::admission::OverflowPolicy;
use crate::admission::QueueView;
use crate::admission::admits;
use crate::admission::after_admit;
use crate::admission::after_admits;
use crate::admission::after_release;
use crate::admission::offered;
use crate::connection::StateView;
use crate::event::EventView;
use crate::groups::GroupsView;
use crate::groups::group_reference;
use crate::groups::group_verdict;
use crate::groups::is_admin_kind;
use crate::groups::may_receive;
use crate::websocket_server::held_back;
use crate::websocket_server::outbound;
use crate::websocket_server::standard_order;
use crate::message::ErrorClass;
use crate::message::InboundView;
use crate::message::OutboundView;
use crate::message::class_of;
use crate::pipeline::CommandView;
use crate::pipeline::DecisionView;
use crate::pipeline::Disposition;
use crate::pipeline::EnvironmentView;
use crate::pipeline::Fault;
use crate::pipeline::PolicyView;
use crate::pipeline::Run;
use crate::pipeline::Stage;
use crate::pipeline::authentication_gate;
use crate::pipeline::contained;
use crate::pipeline::deletion_gate;
use crate::pipeline::deliver;
use crate::pipeline::finished;
use crate::pipeline::group_gate;
use crate::pipeline::inbound;
use crate::pipeline::logged;
use crate::pipeline::protection_gate;
use crate::pipeline::run;
use crate::pipeline::validation_gate;
use crate::pipeline::verification_gate;
use crate::signature::event_failure;
use crate::stages::deletion_failure;
use crate::stages::deletion_targets;
use crate::stages::event_defect;
use crate::stages::is_protected;
use crate::stages::names_foreign_event;
use crate::stages::needs_identity;
use crate::stages::protection_failure;
use crate::storage::StorageView;
use crate::storage::author_of;

verus! {

/// The six gates of the standard chain, one after the other: the first that
/// ends the run decides, and a message that passes them all is handed over
/// with the retractions that the deletion gate named.
pub open spec fn gated(
    policy: PolicyView,
    state: StateView,
    groups: GroupsView,
    env: EnvironmentView,
    message: InboundView,
) -> Run {
    let (auth, first) = authentication_gate(policy, state.auth, env, message);
    let state = StateView { auth, ..state };
    let deletion = deletion_gate(policy, env, message);
    if first is Halt {
        Run { state, groups, outcome: first->Halt_0 }
    } else if validation_gate(env, message) is Halt {
        Run { state, groups, outcome: validation_gate(env, message)->Halt_0 }
    } else if verification_gate(message) is Halt {
        Run { state, groups, outcome: verification_gate(message)->Halt_0 }
    } else if protection_gate(policy, auth, message) is Halt {
        Run { state, groups, outcome: protection_gate(policy, auth, message)->Halt_0 }
    } else if deletion is Halt {
        Run { state, groups, outcome: deletion->Halt_0 }
    } else {
        let (after, last) = group_gate(groups, auth, env, message);
        match last {
            DecisionView::Halt(outcome) => Run { state, groups: after, outcome },
            DecisionView::Pass { .. } => deliver(
                state,
                after,
                env,
                message,
                match deletion {
                    DecisionView::Pass { retract: Some(ids) } => ids,
                    _ => Seq::empty(),
                },
            ),
        }
    }
}

/// The standard chain is the six gates in their order, inside logging,
/// inside error containment.
pub proof fn lemma_standard_chain(
    policy: PolicyView,
    state: StateView,
    groups: GroupsView,
    env: EnvironmentView,
    message: InboundView,
)
    ensures
        inbound(standard_order(), policy, state, groups, env, message) == finished(
            contained(message, logged(gated(policy, state, groups, env, message))),
        ),
{
    let s0 = standard_order();
    let s1 = s0.skip(1);
    let s2 = s1.skip(1);
    let s3 = s2.skip(1);
    let s4 = s3.skip(1);
    let s5 = s4.skip(1);
    let s6 = s5.skip(1);
    let s7 = s6.skip(1);
    let s8 = s7.skip(1);
    assert(s0.len() == 8 && s0[0] == Stage::ErrorContainment);
    assert(s1.len() == 7 && s1[0] == Stage::Logging);
    assert(s2.len() == 6 && s2[0] == Stage::Authentication);
    assert(s3.len() == 5 && s3[0] == Stage::Validation);
    assert(s4.len() == 4 && s4[0] == Stage::Verification);
    assert(s5.len() == 3 && s5[0] == Stage::ProtectedEvent);
    assert(s6.len() == 2 && s6[0] == Stage::Deletion);
    assert(s7.len() == 1 && s7[0] == Stage::GroupAuthorization);
    assert(s8.len() == 0);
    let none: Seq<Seq<char>> = Seq::empty();
    let (auth, first) = authentication_gate(policy, state.auth, env, message);
    let state1 = StateView { auth, ..state };
    let deletion = deletion_gate(policy, env, message);
    let named = match deletion {
        DecisionView::Pass { retract: Some(ids) } => ids,
        _ => none,
    };
    let (after, last) = group_gate(groups, auth, env, message);
    assert(run(s8, policy, state1, after, env, message, named) == deliver(
        state1,
        after,
        env,
        message,
        named,
    ));
    assert(run(s7, policy, state1, groups, env, message, named) == match last {
        DecisionView::Halt(outcome) => Run { state: state1, groups: after, outcome },
        DecisionView::Pass { .. } => deliver(state1, after, env, message, named),
    });
    assert(run(s6, policy, state1, groups, env, message, none) == match deletion {
        DecisionView::Halt(outcome) => Run { state: state1, groups, outcome },
        DecisionView::Pass { .. } => run(s7, policy, state1, groups, env, message, named),
    });
    assert(run(s5, policy, state1, groups, env, message, none) == match protection_gate(
        policy,
        auth,
        message,
    ) {
        DecisionView::Halt(outcome) => Run { state: state1, groups, outcome },
        DecisionView::Pass { .. } => run(s6, policy, state1, groups, env, message, none),
    });
    assert(run(s4, policy, state1, groups, env, message, none) == match verification_gate(message) {
        DecisionView::Halt(outcome) => Run { state: state1, groups, outcome },
        DecisionView::Pass { .. } => run(s5, policy, state1, groups, env, message, none),
    });
    assert(run(s3, policy, state1, groups, env, message, none) == match validation_gate(
        env,
        message,
    ) {
        DecisionView::Halt(outcome) => Run { state: state1, groups, outcome },
        DecisionView::Pass { .. } => run(s4, policy, state1, groups, env, message, none),
    });
    assert(run(s2, policy, state, groups, env, message, none) == match first {
        DecisionView::Halt(outcome) => Run { state: state1, groups, outcome },
        DecisionView::Pass { .. } => run(s3, policy, state1, groups, env, message, none),
    });
    assert(run(s2, policy, state, groups, env, message, none) == gated(
        policy,
        state,
        groups,
        env,
        message,
    ));
    assert(run(s1, policy, state, groups, env, message, none) == logged(
        run(s2, policy, state, groups, env, message, none),
    ));
    assert(run(s0, policy, state, groups, env, message, none) == contained(
        message,
        run(s1, policy, state, groups, env, message, none),
    ));
}

/// Nothing is stored that was not checked, and the checks come in their
/// order.
///
/// Whatever the message, the connection, the groups and the store: an event
/// is handed over for storage only if it is the submitted one, has no
/// structural defect, carries its true identifier and a valid signature,
/// and, where it names a group, was let through by that group, whose change
/// is the one the event asked for; and no group changes unless the event
/// is handed over. An event with a structural defect is turned away by
/// validation whatever its signature is; an event without one whose
/// identifier or signature fails is turned away by verification.
pub proof fn law_nothing_stored_unchecked(
    policy: PolicyView,
    state: StateView,
    groups: GroupsView,
    env: EnvironmentView,
    message: InboundView,
)
    ensures
        ({
            let end = inbound(standard_order(), policy, state, groups, env, message);
            &&& end.outcome.command matches CommandView::Store { event, retract } ==> {
                &&& message == InboundView::SubmitEvent(event)
                &&& end.outcome.disposition == Disposition::Accepted
                &&& event_defect(event, env.now) is None
                &&& event_failure(event) is None
                &&& protection_failure(event, state.auth, policy.relay_pubkey) is None
                &&& env.storage matches StorageView::Known(known) && author_of(known, event.id)
                    is None && deletion_failure(event, known, policy.relay_pubkey) is None
                &&& group_reference(event) is Some ==> group_verdict(groups, state.auth, event)
                    == Ok::<GroupsView, crate::message::Reason>(end.groups)
                &&& group_reference(event) is None ==> end.groups == groups
            }
            &&& !(end.outcome.command is Store) ==> end.groups == groups
            &&& match message {
                InboundView::SubmitEvent(event) => (state.auth is Authenticated || !needs_identity(
                    event,
                )) ==> {
                    &&& event_defect(event, env.now) matches Some(defect)
                        ==> end.outcome.disposition == Disposition::Rejected(defect)
                        && end.outcome.decided_by == Some(Stage::Validation)
                    &&& event_defect(event, env.now) is None ==> (event_failure(event) matches Some(
                        failure,
                    ) ==> end.outcome.disposition == Disposition::Rejected(failure)
                        && end.outcome.decided_by == Some(Stage::Verification))
                },
                _ => true,
            }
        }),
{
    lemma_standard_chain(policy, state, groups, env, message);
}

/// Only a fatal fault closes a connection, and every message leaves one
/// entry in the log.
///
/// Whatever the message and whatever fails: the connection is closed if and
/// only if a stage met a fatal fault. A fault that is not fatal never leaves
/// the chain as a fault: the client gets an answer that names an internal
/// error, and nothing is handed over. A message that is turned away is
/// answered, and what became of the message is recorded exactly once, under
/// the number of its connection.
pub proof fn law_faults_are_contained_and_logged(
    policy: PolicyView,
    state: StateView,
    groups: GroupsView,
    env: EnvironmentView,
    message: InboundView,
)
    ensures
        ({
            let end = inbound(standard_order(), policy, state, groups, env, message);
            &&& end.outcome.close <==> end.outcome.disposition == Disposition::Faulted(Fault::Fatal)
            &&& end.outcome.disposition != Disposition::Faulted(Fault::Internal)
            &&& end.outcome.disposition is Faulted ==> end.outcome.command == CommandView::Nothing
                && end.groups == groups
            &&& end.outcome.disposition is Rejected ==> end.outcome.replies.len() >= 1
                && end.outcome.command == CommandView::Nothing
            &&& end.outcome.records.len() == 1
            &&& end.outcome.records[0].connection_id == state.connection_id
            &&& end.state.connection_id == state.connection_id
        }),
{
    lemma_standard_chain(policy, state, groups, env, message);
}

/// A connection that has not authenticated gets no privileged event
/// through.
///
/// Whatever else holds of it, a protected event or an admin's action in a
/// group that comes from a connection which has not completed the challenge
/// is turned away for want of authorization: nothing is stored, and no
/// group changes.
pub proof fn law_unauthenticated_gets_no_privilege(
    policy: PolicyView,
    state: StateView,
    groups: GroupsView,
    env: EnvironmentView,
    event: EventView,
)
    requires
        !(state.auth is Authenticated),
        is_protected(event) || (is_admin_kind(event.kind) && group_reference(event) is Some),
    ensures
        ({
            let end = inbound(
                standard_order(),
                policy,
                state,
                groups,
                env,
                InboundView::SubmitEvent(event),
            );
            &&& end.outcome.disposition matches Disposition::Rejected(reason) && class_of(reason)
                == ErrorClass::Authorization
            &&& end.outcome.command == CommandView::Nothing
            &&& end.groups == groups
            &&& !(end.state.auth is Authenticated)
            &&& !end.outcome.close
        }),
{
    lemma_standard_chain(policy, state, groups, env, InboundView::SubmitEvent(event));
}

/// Submitting a stored event again is accepted again and changes no group.
///
/// Let an event be accepted and handed over for storage. If the same
/// connection submits it again when the store holds it under its author and
/// knows of nothing that it did not know before, the client is again told
/// that the event is accepted, this time as a duplicate; nothing is handed
/// over, and the groups stay as the first submission left them.
pub proof fn law_resubmission_changes_nothing(
    policy: PolicyView,
    state: StateView,
    groups: GroupsView,
    env: EnvironmentView,
    later: EnvironmentView,
    event: EventView,
)
    requires
        inbound(
            standard_order(),
            policy,
            state,
            groups,
            env,
            InboundView::SubmitEvent(event),
        ).outcome.command is Store,
        env.now <= later.now,
        later.storage matches StorageView::Known(held) && author_of(held, event.id) == Some(
            event.pubkey,
        ) && (env.storage matches StorageView::Known(known) ==> forall|id: Seq<char>|
            id != event.id && #[trigger] author_of(held, id) is Some ==> author_of(known, id)
                == author_of(held, id)),
    ensures
        ({
            let first = inbound(
                standard_order(),
                policy,
                state,
                groups,
                env,
                InboundView::SubmitEvent(event),
            );
            let second = inbound(
                standard_order(),
                policy,
                first.state,
                first.groups,
                later,
                InboundView::SubmitEvent(event),
            );
            &&& first.outcome.replies == seq![
                OutboundView::Ack { event_id: event.id, accepted: true, message: Seq::empty() },
            ]
            &&& second.outcome.disposition == Disposition::Duplicate
            &&& second.outcome.replies == seq![
                OutboundView::Ack {
                    event_id: event.id,
                    accepted: true,
                    message: "duplicate: already have this event"@,
                },
            ]
            &&& second.outcome.command == CommandView::Nothing
            &&& second.groups == first.groups
            &&& second.state == first.state
        }),
{
    let message = InboundView::SubmitEvent(event);
    lemma_standard_chain(policy, state, groups, env, message);
    let first = inbound(standard_order(), policy, state, groups, env, message);
    lemma_standard_chain(policy, first.state, first.groups, later, message);
    let known = env.storage->Known_0;
    let held = later.storage->Known_0;
    assert(first.state == state);
    if names_foreign_event(held, deletion_targets(event), event.pubkey) {
        let i = choose|i: int|
            0 <= i < deletion_targets(event).len() && author_of(
                held,
                #[trigger] deletion_targets(event)[i],
            ) is Some && author_of(held, deletion_targets(event)[i]) != Some(event.pubkey);
        let id = deletion_targets(event)[i];
        assert(id != event.id);
        assert(author_of(known, id) == author_of(held, id));
        assert(names_foreign_event(known, deletion_targets(event), event.pubkey));
    }
}

/// What the relay sends reaches the client as it is, or not at all.
///
/// A message on its way out is written unchanged unless it is an event of
/// a private group on its way to a connection that has not proved to be a
/// member of that group, which is held back; and what became of the
/// message is recorded exactly once.
pub proof fn law_private_events_reach_members_only(
    state: StateView,
    groups: GroupsView,
    message: OutboundView,
)
    ensures
        ({
            let end = outbound(standard_order(), state, groups, message);
            &&& end.deliver == if held_back(groups, state.auth, message) {
                None
            } else {
                Some(message)
            }
            &&& end.records.len() == 1
            &&& message matches OutboundView::EventDelivery { subscription_id, event } ==> (
            end.deliver is Some <==> may_receive(groups, state.auth, event))
        }),
{
    let s0 = standard_order();
    let s1 = s0.skip(1);
    let s2 = s1.skip(1);
    let s3 = s2.skip(1);
    let s4 = s3.skip(1);
    let s5 = s4.skip(1);
    let s6 = s5.skip(1);
    let s7 = s6.skip(1);
    let s8 = s7.skip(1);
    assert(s0.len() == 8 && s0[0] == Stage::ErrorContainment);
    assert(s1.len() == 7 && s1[0] == Stage::Logging);
    assert(s2.len() == 6 && s2[0] == Stage::Authentication);
    assert(s3.len() == 5 && s3[0] == Stage::Validation);
    assert(s4.len() == 4 && s4[0] == Stage::Verification);
    assert(s5.len() == 3 && s5[0] == Stage::ProtectedEvent);
    assert(s6.len() == 2 && s6[0] == Stage::Deletion);
    assert(s7.len() == 1 && s7[0] == Stage::GroupAuthorization);
    assert(s8.len() == 0);
    assert(outbound(s8, state, groups, message).deliver == Some(message));
    assert(outbound(s7, state, groups, message).deliver == if held_back(
        groups,
        state.auth,
        message,
    ) {
        None
    } else {
        Some(message)
    });
    assert(outbound(s6, state, groups, message) == outbound(s7, state, groups, message));
    assert(outbound(s5, state, groups, message) == outbound(s7, state, groups, message));
    assert(outbound(s4, state, groups, message) == outbound(s7, state, groups, message));
    assert(outbound(s3, state, groups, message) == outbound(s7, state, groups, message));
    assert(outbound(s2, state, groups, message) == outbound(s7, state, groups, message));
    assert(outbound(s1, state, groups, message).records.len() == 1);
    assert(outbound(s0, state, groups, message) == outbound(s1, state, groups, message));
}

/// A full queue does not grow.
///
/// However many messages are offered, never more wait than the queue's
/// capacity. A message offered to a full queue comes back to the producer,
/// who has to wait; it is dropped only where that is the policy.
pub proof fn law_backpressure(queue: QueueView, message: OutboundView)
    requires
        queue.pending.len() <= queue.capacity,
    ensures
        offered(queue, message).0.pending.len() <= queue.capacity,
        offered(queue, message).0.capacity == queue.capacity,
        queue.pending.len() == queue.capacity ==> offered(queue, message).0 == queue,
        queue.pending.len() == queue.capacity && queue.policy == OverflowPolicy::Wait ==> offered(
            queue,
            message,
        ).1 == OfferView::Full(message),
        queue.pending.len() == queue.capacity ==> (offered(queue, message).1 is Dropped
            <==> queue.policy == OverflowPolicy::Drop),
{
}

/// The ledger after `k` admissions, starting empty under a ceiling of `n`.
proof fn lemma_admitted(ledger: LedgerView, n: nat, k: nat)
    requires
        ledger.live == 0,
        ledger.ceiling == Some(n),
        k <= n,
    ensures
        after_admits(ledger, k) == (LedgerView { live: k, ..ledger }),
    decreases k,
{
    if k > 0 {
        lemma_admitted(ledger, n, (k - 1) as nat);
    }
}

/// The ceiling on live connections holds, and a place that is given back
/// can be taken again.
///
/// Starting without connections under a ceiling of `n`: each of the first
/// `n` clients is taken in, the next one is refused and changes nothing,
/// and once one of the `n` has gone a client is taken in again.
pub proof fn law_admission_ceiling(ledger: LedgerView, n: nat, k: nat)
    requires
        ledger.live == 0,
        ledger.ceiling == Some(n),
        k < n,
    ensures
        admits(after_admits(ledger, k)),
        after_admits(ledger, n).live == n,
        !admits(after_admits(ledger, n)),
        after_admit(after_admits(ledger, n)) == after_admits(ledger, n),
        admits(after_release(after_admits(ledger, n))),
{
    lemma_admitted(ledger, n, k);
    lemma_admitted(ledger, n, n);
}

} // verus!
