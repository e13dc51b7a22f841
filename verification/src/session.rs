//! What the two kinds of session share: the life cycle of a connection, the
//! ways it can fail, and the timing of its heartbeat.
//!
//! Times are milliseconds on a monotonic clock that the caller reads; the
//! sessions never read a clock themselves.

use vstd::prelude::*;

verus! {

/// Where a connection stands in its life.
#[derive(Clone, Copy, Debug, PartialEq, Eq, Structural)]
pub enum SessionState {
    /// Reading and answering.
    Active,
    /// The peer shut the connection down in good order.
    ClosingClean,
    /// The connection failed; the session's failure says how.
    ClosingError,
    /// The socket is closed and the connection no longer counted.
    Terminated,
}

/// Why a session ended other than by the peer's orderly shutdown.
#[derive(Clone, Copy, Debug, PartialEq, Eq, Structural)]
pub enum SessionError {
    /// Reading from or writing to the socket failed.
    Transport,
    /// Nothing arrived from the peer for longer than the heartbeat timeout.
    HeartbeatTimeout,
}

/// The timing of the heartbeat.
#[derive(Clone, Copy, Debug, PartialEq, Eq, Structural)]
pub struct HeartbeatConfig {
    /// Silence after which a probe is due.
    pub interval_ms: u64,
    /// Silence after which the peer is presumed dead. It is also the bound
    /// of every single read.
    pub timeout_ms: u64,
    /// Pause after a probe before the next read, so that a silent peer is not
    /// flooded with probes.
    pub ping_pause_ms: u64,
}

impl Default for HeartbeatConfig {
    /// A probe after 30 s of silence, a timeout after 60 s, a pause of 1 s.
    fn default() -> (config: Self)
        ensures
            config.interval_ms == 30_000,
            config.timeout_ms == 60_000,
            config.ping_pause_ms == 1_000,
    {
        HeartbeatConfig { interval_ms: 30_000, timeout_ms: 60_000, ping_pause_ms: 1_000 }
    }
}

/// Time that has passed from `since` to `now`; none if the clock reads
/// earlier than `since`.
pub open spec fn elapsed_between(since: u64, now: u64) -> u64 {
    if now >= since {
        (now - since) as u64
    } else {
        0
    }
}

/// Time that has passed from `since` to `now`; none if the clock reads
/// earlier than `since`.
pub fn elapsed(since: u64, now: u64) -> (passed: u64)
    ensures
        passed == elapsed_between(since, now),
{
    if now >= since {
        now - since
    } else {
        0
    }
}

/// How a session that left the active state ended: in good order, or with
/// the failure it recorded.
pub open spec fn outcome_of(failure: Option<SessionError>) -> Result<(), SessionError> {
    match failure {
        Some(error) => Err(error),
        None => Ok(()),
    }
}

/// Where a session stands together with how it failed. The two change as
/// one, so that a failure is on record exactly while the state calls for it.
#[derive(Clone, Copy, Debug)]
pub(crate) struct Status {
    state: SessionState,
    failure: Option<SessionError>,
}

/// A failure is on record in a session that failed, and none in one that is
/// active or ended in good order.
pub open spec fn consistent(state: SessionState, failure: Option<SessionError>) -> bool {
    &&& state == SessionState::ClosingError ==> failure is Some
    &&& (state == SessionState::Active || state == SessionState::ClosingClean) ==> failure is None
}

impl Status {
    #[verifier::type_invariant]
    spec fn well_formed(self) -> bool {
        consistent(self.state, self.failure)
    }

    /// Where the session stands.
    pub(crate) closed spec fn state_of(self) -> SessionState {
        self.state
    }

    /// How the session failed, if it did.
    pub(crate) closed spec fn failure_of(self) -> Option<SessionError> {
        self.failure
    }

    /// The status of a running session.
    pub(crate) fn active() -> (status: Self)
        ensures
            status.state_of() == SessionState::Active,
            status.failure_of() is None,
    {
        Status { state: SessionState::Active, failure: None }
    }

    /// The status after the peer's orderly shutdown.
    pub(crate) fn closing_clean() -> (status: Self)
        ensures
            status.state_of() == SessionState::ClosingClean,
            status.failure_of() is None,
    {
        Status { state: SessionState::ClosingClean, failure: None }
    }

    /// The status after a failure.
    pub(crate) fn failed(error: SessionError) -> (status: Self)
        ensures
            status.state_of() == SessionState::ClosingError,
            status.failure_of() == Some(error),
    {
        Status { state: SessionState::ClosingError, failure: Some(error) }
    }

    /// The status once the socket is closed: terminated, with the failure
    /// still on record.
    pub(crate) fn terminated(self) -> (status: Self)
        ensures
            status.state_of() == SessionState::Terminated,
            status.failure_of() == self.failure_of(),
    {
        Status { state: SessionState::Terminated, failure: self.failure }
    }

    /// Where the session stands. What is on record of a failure is
    /// consistent with it.
    pub(crate) fn state(self) -> (state: SessionState)
        ensures
            state == self.state_of(),
            consistent(self.state_of(), self.failure_of()),
    {
        proof {
            use_type_invariant(self);
        }
        self.state
    }

    /// How the session failed, if it did.
    pub(crate) fn failure(self) -> (failure: Option<SessionError>)
        ensures
            failure == self.failure_of(),
    {
        self.failure
    }

    /// How a session with this status ended, once it has left the active
    /// state.
    pub(crate) fn outcome(self) -> (outcome: Result<(), SessionError>)
        ensures
            outcome == outcome_of(self.failure_of()),
    {
        match self.failure {
            Some(error) => Err(error),
            None => Ok(()),
        }
    }
}

} // verus!
