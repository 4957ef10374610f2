//! The connection retry protocol: the driver subprocess becomes ready
//! asynchronously with no readiness signal, so the session is opened by
//! polling its local endpoint. The state machine here decides, after each
//! attempt's outcome, whether another attempt may be made; the caller performs
//! the attempts and the pause between them.

use vstd::prelude::*;

verus! {

/// Connection attempts made before the pipeline gives up.
pub const MAX_CONNECT_ATTEMPTS: u64 = 20;

/// Pause in milliseconds between two failed connection attempts.
pub const RETRY_INTERVAL_MS: u64 = 250;

/// The state of the connection retry protocol: how many attempts were made
/// and whether one of them succeeded.
pub struct SessionConnector {
    /// Attempts made so far, successful or not.
    pub attempts: u64,
    /// A session was established.
    pub connected: bool,
}

impl SessionConnector {
    /// The attempt count never passes the budget.
    pub open spec fn wf(self) -> bool {
        self.attempts <= MAX_CONNECT_ATTEMPTS
    }

    /// A fresh protocol state: nothing attempted, nothing established.
    pub fn new() -> (s: Self)
        ensures
            s.attempts == 0,
            !s.connected,
            s.wf(),
    {
        SessionConnector { attempts: 0, connected: false }
    }

    /// Another attempt may be made exactly when no session is established and
    /// the budget is not exhausted.
    pub fn should_attempt(&self) -> (b: bool)
        ensures
            b == (!self.connected && self.attempts < MAX_CONNECT_ATTEMPTS),
    {
        !self.connected && self.attempts < MAX_CONNECT_ATTEMPTS
    }

    /// Record a failed attempt; returns the pause to observe before the next
    /// one.
    pub fn record_failure(&mut self) -> (pause_ms: u64)
        requires
            !old(self).connected,
            old(self).attempts < MAX_CONNECT_ATTEMPTS,
        ensures
            final(self).attempts == old(self).attempts + 1,
            !final(self).connected,
            final(self).wf(),
            pause_ms == RETRY_INTERVAL_MS,
    {
        self.attempts = self.attempts + 1;
        RETRY_INTERVAL_MS
    }

    /// Record a successful attempt: the protocol stops here.
    pub fn record_success(&mut self)
        requires
            !old(self).connected,
            old(self).attempts < MAX_CONNECT_ATTEMPTS,
        ensures
            final(self).attempts == old(self).attempts + 1,
            final(self).connected,
            final(self).wf(),
    {
        self.attempts = self.attempts + 1;
        self.connected = true;
    }

    /// The whole budget was spent without establishing a session; the caller
    /// surfaces the connection-exhausted failure.
    pub fn exhausted(&self) -> (b: bool)
        ensures
            b == (!self.connected && self.attempts == MAX_CONNECT_ATTEMPTS),
    {
        !self.connected && self.attempts == MAX_CONNECT_ATTEMPTS
    }
}

/// The protocol state after driving the retry loop over `outcomes`, where
/// `outcomes[i]` tells whether the `i`-th attempt, were it made, would
/// succeed. Once a session is established or the budget is spent, the
/// remaining outcomes are never tried.
pub open spec fn connector_after(outcomes: Seq<bool>) -> SessionConnector
    decreases outcomes.len(),
{
    if outcomes.len() == 0 {
        SessionConnector { attempts: 0, connected: false }
    } else {
        let prev = connector_after(outcomes.drop_last());
        if prev.connected || prev.attempts >= MAX_CONNECT_ATTEMPTS {
            prev
        } else {
            SessionConnector { attempts: (prev.attempts + 1) as u64, connected: outcomes.last() }
        }
    }
}

/// The retry bound: however the attempts turn out, the protocol makes at most
/// `MAX_CONNECT_ATTEMPTS` of them; it establishes a session exactly when one
/// of the first `MAX_CONNECT_ATTEMPTS` outcomes is a success; it stops at the
/// first success, every attempt before it having failed; and when every tried
/// outcome fails, it spends the budget, or the whole outcome sequence, and no
/// more.
pub proof fn lemma_retry_bound(outcomes: Seq<bool>)
    ensures
        connector_after(outcomes).wf(),
        connector_after(outcomes).attempts <= outcomes.len(),
        connector_after(outcomes).connected <==> exists|i: int|
            0 <= i < outcomes.len() && i < MAX_CONNECT_ATTEMPTS && outcomes[i],
        connector_after(outcomes).connected ==> {
            let a = connector_after(outcomes).attempts;
            &&& 1 <= a
            &&& outcomes[a - 1]
            &&& forall|j: int| 0 <= j < a - 1 ==> !outcomes[j]
        },
        !connector_after(outcomes).connected ==> {
            let a = connector_after(outcomes).attempts;
            (a == outcomes.len() || a == MAX_CONNECT_ATTEMPTS)
                && forall|j: int| 0 <= j < a ==> !outcomes[j]
        },
    decreases outcomes.len(),
{
    if outcomes.len() > 0 {
        lemma_retry_bound(outcomes.drop_last());
        let rest = outcomes.drop_last();
        let prev = connector_after(rest);
        assert(forall|i: int| 0 <= i < rest.len() ==> rest[i] == outcomes[i]);
        if prev.connected || prev.attempts >= MAX_CONNECT_ATTEMPTS {
            if prev.connected {
                let i = choose|i: int|
                    0 <= i < rest.len() && i < MAX_CONNECT_ATTEMPTS && #[trigger] rest[i];
                assert(0 <= i < outcomes.len() && i < MAX_CONNECT_ATTEMPTS && outcomes[i]);
                let a = prev.attempts as int;
                assert(rest[a - 1]);
                assert(outcomes[a - 1] == rest[a - 1]);
                assert(forall|j: int| 0 <= j < a - 1 ==> !rest[j]);
                assert(forall|j: int| 0 <= j < a - 1 ==> rest[j] == outcomes[j]);
            } else {
                assert(prev.attempts == MAX_CONNECT_ATTEMPTS);
                assert(forall|j: int| 0 <= j < MAX_CONNECT_ATTEMPTS ==> !outcomes[j]);
            }
        } else {
            assert(prev.attempts == rest.len());
            assert(forall|j: int| 0 <= j < rest.len() ==> !outcomes[j]);
            if outcomes.last() {
                assert(outcomes[outcomes.len() - 1]);
            }
        }
    }
}

} // verus!
