//! Bounds on what connections may take: how many are live at once, how many
//! messages may wait for one client, and how long one connection may last.

use vstd::prelude::*;
use crate::message::OutboundMessage;
use crate::message::OutboundView;

verus! {

/// The count of live connections, held against a ceiling.
pub struct AdmissionLedger {
    live: usize,
    ceiling: Option<usize>,
}

pub struct LedgerView {
    pub live: nat,
    pub ceiling: Option<nat>,
}

impl View for AdmissionLedger {
    type V = LedgerView;

    closed spec fn view(&self) -> LedgerView {
        LedgerView {
            live: self.live as nat,
            ceiling: match self.ceiling {
                Some(c) => Some(c as nat),
                None => None,
            },
        }
    }
}

/// Whether one more connection is taken in: while fewer are live than the
/// ceiling allows, and while the count still fits the machine's word.
pub open spec fn admits(ledger: LedgerView) -> bool {
    match ledger.ceiling {
        Some(c) => ledger.live < c,
        None => ledger.live < usize::MAX,
    }
}

/// The ledger after a connection asked to be taken in.
pub open spec fn after_admit(ledger: LedgerView) -> LedgerView {
    if admits(ledger) {
        LedgerView { live: ledger.live + 1, ..ledger }
    } else {
        ledger
    }
}

/// The ledger after a connection has ended.
pub open spec fn after_release(ledger: LedgerView) -> LedgerView {
    if ledger.live > 0 {
        LedgerView { live: (ledger.live - 1) as nat, ..ledger }
    } else {
        ledger
    }
}

/// The ledger after `n` connections in a row asked to be taken in.
pub open spec fn after_admits(ledger: LedgerView, n: nat) -> LedgerView
    decreases n,
{
    if n == 0 {
        ledger
    } else {
        after_admit(after_admits(ledger, (n - 1) as nat))
    }
}

impl AdmissionLedger {
    /// Never more live connections than the ceiling allows.
    pub closed spec fn wf(&self) -> bool {
        match self.ceiling {
            Some(c) => self.live <= c,
            None => true,
        }
    }

    /// A ledger without live connections.
    pub fn new(ceiling: Option<usize>) -> (ledger: Self)
        ensures
            ledger.wf(),
            ledger@.live == 0,
            ledger@.ceiling == match ceiling {
                Some(c) => Some(c as nat),
                None => None,
            },
    {
        AdmissionLedger { live: 0, ceiling }
    }

    /// The number of live connections.
    pub fn live(&self) -> (n: usize)
        ensures
            n == self@.live,
    {
        self.live
    }

    /// Takes one more connection in, or refuses it.
    pub fn try_admit(&mut self) -> (admitted: bool)
        requires
            old(self).wf(),
        ensures
            final(self).wf(),
            admitted == admits(old(self)@),
            final(self)@ == after_admit(old(self)@),
    {
        let room = match self.ceiling {
            Some(c) => self.live < c,
            None => self.live < usize::MAX,
        };
        if room {
            self.live = self.live + 1;
        }
        room
    }

    /// Gives back the place of a connection that has ended.
    pub fn release(&mut self)
        requires
            old(self).wf(),
        ensures
            final(self).wf(),
            final(self)@ == after_release(old(self)@),
    {
        if self.live > 0 {
            self.live = self.live - 1;
        }
    }
}

/// What happens to a message for which the queue has no room.
#[derive(Clone, Copy, PartialEq, Eq, Structural, Debug)]
pub enum OverflowPolicy {
    /// The producer keeps the message and waits for room.
    Wait,
    /// The message is dropped.
    Drop,
}

/// The messages that wait to be written to one client, oldest first.
pub struct OutboundQueue {
    capacity: usize,
    policy: OverflowPolicy,
    pending: Vec<OutboundMessage>,
}

pub struct QueueView {
    pub capacity: nat,
    pub policy: OverflowPolicy,
    pub pending: Seq<OutboundView>,
}

impl View for OutboundQueue {
    type V = QueueView;

    closed spec fn view(&self) -> QueueView {
        QueueView {
            capacity: self.capacity as nat,
            policy: self.policy,
            pending: self.pending.deep_view(),
        }
    }
}

/// What became of a message that was offered to the queue.
#[derive(Clone, PartialEq, Eq, Debug)]
pub enum Offer {
    /// It waits in the queue.
    Queued,
    /// The queue is full: the message comes back to the producer, who waits.
    Full(OutboundMessage),
    /// The queue is full and the message is gone, as the policy says.
    Dropped,
}

pub enum OfferView {
    Queued,
    Full(OutboundView),
    Dropped,
}

impl View for Offer {
    type V = OfferView;

    open spec fn view(&self) -> OfferView {
        match self {
            Offer::Queued => OfferView::Queued,
            Offer::Full(message) => OfferView::Full(message@),
            Offer::Dropped => OfferView::Dropped,
        }
    }
}

/// The queue after `message` was offered, and what became of the message.
pub open spec fn offered(queue: QueueView, message: OutboundView) -> (QueueView, OfferView) {
    if queue.pending.len() < queue.capacity {
        (QueueView { pending: queue.pending.push(message), ..queue }, OfferView::Queued)
    } else if queue.policy == OverflowPolicy::Wait {
        (queue, OfferView::Full(message))
    } else {
        (queue, OfferView::Dropped)
    }
}

/// The queue after its oldest message was taken, and that message.
pub open spec fn taken(queue: QueueView) -> (QueueView, Option<OutboundView>) {
    if queue.pending.len() > 0 {
        (QueueView { pending: queue.pending.skip(1), ..queue }, Some(queue.pending[0]))
    } else {
        (queue, None)
    }
}

impl OutboundQueue {
    /// Never more messages than the capacity.
    pub closed spec fn wf(&self) -> bool {
        self.pending.len() <= self.capacity
    }

    /// An empty queue for `capacity` messages.
    pub fn new(capacity: usize, policy: OverflowPolicy) -> (queue: Self)
        ensures
            queue.wf(),
            queue@ == (QueueView { capacity: capacity as nat, policy, pending: Seq::empty() }),
    {
        let queue = OutboundQueue { capacity, policy, pending: Vec::new() };
        assert(queue.pending.deep_view() =~= Seq::empty());
        queue
    }

    /// The number of messages that wait.
    pub fn len(&self) -> (n: usize)
        requires
            self.wf(),
        ensures
            n == self@.pending.len(),
            n <= self@.capacity,
    {
        self.pending.len()
    }

    /// Offers a message. It is queued while there is room; without room the
    /// queue stays as it is.
    pub fn offer(&mut self, message: OutboundMessage) -> (outcome: Offer)
        requires
            old(self).wf(),
        ensures
            final(self).wf(),
            (final(self)@, outcome@) == offered(old(self)@, message@),
    {
        if self.pending.len() < self.capacity {
            let ghost before = self.pending.deep_view();
            let ghost m = message@;
            self.pending.push(message);
            assert(self.pending.deep_view() =~= before.push(m));
            Offer::Queued
        } else {
            match self.policy {
                OverflowPolicy::Wait => Offer::Full(message),
                OverflowPolicy::Drop => Offer::Dropped,
            }
        }
    }

    /// Takes the oldest message out, for writing.
    pub fn take(&mut self) -> (message: Option<OutboundMessage>)
        requires
            old(self).wf(),
        ensures
            final(self).wf(),
            (final(self)@, message.deep_view()) == taken(old(self)@),
    {
        if self.pending.len() > 0 {
            let ghost before = self.pending.deep_view();
            let message = self.pending.remove(0);
            assert(self.pending.deep_view() =~= before.skip(1));
            assert(before[0] == message@);
            Some(message)
        } else {
            None
        }
    }
}

/// A connection accepted at `started_at` has outlived `limit` at `now`.
pub open spec fn lifetime_exceeded(started_at: u64, now: u64, limit: Option<u64>) -> bool {
    match limit {
        Some(seconds) => now - started_at > seconds,
        None => false,
    }
}

/// Whether a connection accepted at `started_at` has outlived `limit`.
pub fn check_lifetime(started_at: u64, now: u64, limit: Option<u64>) -> (exceeded: bool)
    ensures
        exceeded == lifetime_exceeded(started_at, now, limit),
{
    match limit {
        Some(seconds) => now > started_at && now - started_at > seconds,
        None => false,
    }
}

} // verus!
