//! The ephemeral callback listener's start/stop state machine.
//!
//! The listener is bound to the loopback port only while `Up`; its shutdown
//! signal is single-use, and asking it to stop when it is already down is a
//! no-op rather than an error. The embedding application performs the actual
//! bind and teardown and reports them back through these transitions.

use vstd::prelude::*;

verus! {

/// Whether the callback listener is bound and serving. `Up` holds the
/// single-use shutdown signal; `stop` consumes it, and the listener is bound
/// to the network port only while `Up`.
#[derive(Clone, Copy, Debug, PartialEq, Eq, Structural)]
pub enum ListenerState {
    /// Not bound; inbound connections fail.
    Down,
    /// Bound and serving, shutdown signal not yet consumed.
    Up,
}

/// One attempt's callback listener: the configured loopback port and the
/// serving state.
#[derive(Clone, Debug)]
pub struct CallbackListener {
    /// The fixed loopback port the listener binds.
    pub port: String,
    /// Current serving state.
    pub state: ListenerState,
}

/// The `stop` transition: `Up` goes to `Down` and the shutdown signal is
/// sent exactly then; stopping an already-down listener changes nothing and
/// sends nothing.
pub open spec fn stop_transition(pre: ListenerState) -> (ListenerState, bool) {
    match pre {
        ListenerState::Up => (ListenerState::Down, true),
        ListenerState::Down => (ListenerState::Down, false),
    }
}

impl CallbackListener {
    /// A listener for the given port, initially down.
    pub fn init(port: String) -> (r: CallbackListener)
        ensures
            r.port@ == port@,
            r.state is Down,
    {
        CallbackListener { port, state: ListenerState::Down }
    }

    /// Records that the loopback socket was bound: the listener is now
    /// serving. Returns whether it was down before, so a caller can tell a
    /// fresh bind from a listener that was already running.
    pub fn mark_bound(&mut self) -> (was_down: bool)
        ensures
            final(self).state is Up,
            final(self).port == old(self).port,
            was_down == (old(self).state is Down),
    {
        let was_down = matches!(self.state, ListenerState::Down);
        self.state = ListenerState::Up;
        was_down
    }

    /// Requests shutdown. The single-use signal is sent exactly when the
    /// listener was up; a second call finds it down and is a no-op, not an
    /// error.
    pub fn stop(&mut self) -> (signal_sent: bool)
        ensures
            (final(self).state, signal_sent) == stop_transition(old(self).state),
            final(self).port == old(self).port,
    {
        match self.state {
            ListenerState::Up => {
                self.state = ListenerState::Down;
                true
            }
            ListenerState::Down => false,
        }
    }

    /// Whether the listener is currently serving.
    pub fn is_up(&self) -> (r: bool)
        ensures
            r == (self.state is Up),
    {
        matches!(self.state, ListenerState::Up)
    }
}

/// Shutdown is idempotent: however the listener starts out, stopping it
/// twice sends at most one shutdown signal — exactly one when it was up —
/// and the second request is a no-op that leaves it down and reports no
/// signal.
pub proof fn lemma_stop_idempotent(pre: ListenerState)
    ensures
        ({
            let (mid, first_sent) = stop_transition(pre);
            let (post, second_sent) = stop_transition(mid);
            &&& post is Down
            &&& !second_sent
            &&& first_sent == (pre is Up)
        }),
{
}

} // verus!
