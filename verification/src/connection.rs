//! The record that a connection keeps between messages.

use vstd::prelude::*;
use nostr_sdk::prelude::RelayUrl;

verus! {

/// How far a connection has come in proving who it is.
#[derive(Clone, PartialEq, Eq, Debug)]
pub enum AuthStatus {
    /// No challenge has been issued.
    Unauthenticated,
    /// The relay has sent `nonce` and waits for a signed answer.
    ChallengeIssued { nonce: String },
    /// The holder of `pubkey` has answered the challenge.
    Authenticated { pubkey: String },
}

pub enum AuthView {
    Unauthenticated,
    ChallengeIssued { nonce: Seq<char> },
    Authenticated { pubkey: Seq<char> },
}

impl View for AuthStatus {
    type V = AuthView;

    open spec fn view(&self) -> AuthView {
        match self {
            AuthStatus::Unauthenticated => AuthView::Unauthenticated,
            AuthStatus::ChallengeIssued { nonce } => AuthView::ChallengeIssued { nonce: nonce@ },
            AuthStatus::Authenticated { pubkey } => AuthView::Authenticated { pubkey: pubkey@ },
        }
    }
}

/// The connection has proved to be `pubkey`.
pub open spec fn authenticated_as(auth: AuthView, pubkey: Seq<char>) -> bool {
    auth == (AuthView::Authenticated { pubkey })
}

impl AuthStatus {
    /// Whether the connection has proved to be `pubkey`.
    pub fn is_authenticated_as(&self, pubkey: &String) -> (yes: bool)
        ensures
            yes == authenticated_as(self@, pubkey@),
    {
        match self {
            AuthStatus::Authenticated { pubkey: proven } => *proven == *pubkey,
            _ => false,
        }
    }

    /// Whether the challenge has been answered.
    pub fn is_authenticated(&self) -> (yes: bool)
        ensures
            yes == (self@ is Authenticated),
    {
        match self {
            AuthStatus::Authenticated { .. } => true,
            _ => false,
        }
    }
}

/// What the relay remembers of one connection. It belongs to that connection
/// alone and ends with it.
#[derive(Clone, PartialEq, Eq, Debug)]
pub struct NostrConnectionState {
    /// The number under which the connection appears in the log.
    pub connection_id: u64,
    /// The relay's own address.
    pub relay_url: String,
    pub auth: AuthStatus,
    /// The open subscriptions, in the order in which they were opened.
    pub subscriptions: Vec<String>,
    /// When the connection was accepted, in seconds.
    pub started_at: u64,
}

pub struct StateView {
    pub connection_id: u64,
    pub relay_url: Seq<char>,
    pub auth: AuthView,
    pub subscriptions: Seq<Seq<char>>,
    pub started_at: u64,
}

impl View for NostrConnectionState {
    type V = StateView;

    open spec fn view(&self) -> StateView {
        StateView {
            connection_id: self.connection_id,
            relay_url: self.relay_url@,
            auth: self.auth@,
            subscriptions: self.subscriptions.deep_view(),
            started_at: self.started_at,
        }
    }
}

/// The subscriptions after `id` was opened: it is added at the end unless it
/// is open already.
pub open spec fn with_subscription(open: Seq<Seq<char>>, id: Seq<char>) -> Seq<Seq<char>> {
    if open.contains(id) {
        open
    } else {
        open.push(id)
    }
}

/// The subscriptions after `id` was closed.
pub open spec fn without_subscription(open: Seq<Seq<char>>, id: Seq<char>) -> Seq<Seq<char>> {
    open.filter(|s: Seq<char>| s != id)
}

impl NostrConnectionState {
    /// Records that the subscription `id` is open.
    pub fn open_subscription(&mut self, id: String)
        ensures
            final(self)@ == (StateView {
                subscriptions: with_subscription(old(self)@.subscriptions, id@),
                ..old(self)@
            }),
    {
        let mut i: usize = 0;
        while i < self.subscriptions.len()
            invariant
                i <= self.subscriptions.len(),
                *self == *old(self),
                forall|j: int| 0 <= j < i ==> self.subscriptions[j]@ != id@,
            decreases self.subscriptions.len() - i,
        {
            if self.subscriptions[i] == id {
                assert(self.subscriptions.deep_view()[i as int] == id@);
                return ;
            }
            i += 1;
        }
        let ghost before = self.subscriptions.deep_view();
        assert(!before.contains(id@));
        self.subscriptions.push(id);
        assert(self.subscriptions.deep_view() =~= before.push(id@));
    }

    /// Records that the subscription `id` is closed.
    pub fn close_subscription(&mut self, id: &String)
        ensures
            final(self)@ == (StateView {
                subscriptions: without_subscription(old(self)@.subscriptions, id@),
                ..old(self)@
            }),
    {
        let mut kept: Vec<String> = Vec::new();
        let mut i: usize = 0;
        let ghost all = self.subscriptions.deep_view();
        assert(all.take(0) =~= Seq::empty());
        while i < self.subscriptions.len()
            invariant
                i <= self.subscriptions.len(),
                *self == *old(self),
                all == self.subscriptions.deep_view(),
                kept.deep_view() == without_subscription(all.take(i as int), id@),
            decreases self.subscriptions.len() - i,
        {
            let ghost before = kept.deep_view();
            proof {
                let head = all.take(i as int);
                let next = all.take(i as int + 1);
                assert(next.drop_last() =~= head);
                assert(next.last() == self.subscriptions[i as int]@);
                reveal(Seq::filter);
            }
            if self.subscriptions[i] != *id {
                kept.push(self.subscriptions[i].clone());
                assert(kept.deep_view() =~= before.push(self.subscriptions[i as int]@));
            }
            i += 1;
        }
        assert(all.take(all.len() as int) =~= all);
        self.subscriptions = kept;
    }
}

/// Why the relay could not be set up.
#[derive(Clone, Copy, PartialEq, Eq, Structural, Debug)]
pub enum SetupError {
    /// The relay's address is no relay address.
    InvalidRelayUrl,
}

/// The text in which `RelayUrl::parse` and `RelayUrl::as_str` hand back a
/// relay address, or nothing where `parse` reports an error.
pub uninterp spec fn relay_url_of(text: Seq<char>) -> Option<Seq<char>>;

/// Calls `RelayUrl::parse` and writes the result with `RelayUrl::as_str`.
/// Nothing where `parse` reports an error.
#[verifier::external_body]
fn read_relay_url(text: &str) -> (url: Option<String>)
    ensures
        url.deep_view() == relay_url_of(text@),
{
    Some(RelayUrl::parse(text).ok()?.as_str().to_owned())
}

/// Makes the state of each accepted connection.
pub struct NostrConnectionFactory {
    relay_url: String,
}

impl View for NostrConnectionFactory {
    type V = Seq<char>;

    closed spec fn view(&self) -> Seq<char> {
        self.relay_url@
    }
}

impl NostrConnectionFactory {
    /// A factory for the relay at `relay_url`, which must be a relay address.
    pub fn new(relay_url: String) -> (made: Result<Self, SetupError>)
        ensures
            match relay_url_of(relay_url@) {
                Some(url) => made is Ok && made.unwrap()@ == url,
                None => made == Err::<Self, SetupError>(SetupError::InvalidRelayUrl),
            },
    {
        match read_relay_url(relay_url.as_str()) {
            Some(url) => Ok(NostrConnectionFactory { relay_url: url }),
            None => Err(SetupError::InvalidRelayUrl),
        }
    }

    /// The relay's address, as `nostr_sdk` writes it.
    pub fn relay_url(&self) -> (url: &String)
        ensures
            url@ == self@,
    {
        &self.relay_url
    }

    /// The state of a connection accepted at `now`: not authenticated, no
    /// subscription open.
    pub fn create_state(&self, connection_id: u64, now: u64) -> (state: NostrConnectionState)
        ensures
            state@ == (StateView {
                connection_id,
                relay_url: self@,
                auth: AuthView::Unauthenticated,
                subscriptions: Seq::empty(),
                started_at: now,
            }),
    {
        let state = NostrConnectionState {
            connection_id,
            relay_url: self.relay_url.clone(),
            auth: AuthStatus::Unauthenticated,
            subscriptions: Vec::new(),
            started_at: now,
        };
        assert(state.subscriptions.deep_view() =~= Seq::empty());
        state
    }
}

} // verus!
