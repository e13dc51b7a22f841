//! The client's way back to the server: dial, and after each failed run of
//! attempts wait twice as long as before, up to a ceiling.
//!
//! The reconnector decides and does no I/O. Its caller dials, waits and runs
//! sessions as the actions say, and reports back what happened.

use vstd::arithmetic::power2::{
    lemma2_to64, lemma_pow2_strictly_increases, lemma_pow2_unfold, pow2,
};
use vstd::prelude::*;

verus! {

/// How long to wait between attempts, and how far the waits may grow.
#[derive(Clone, Copy, Debug, PartialEq, Eq, Structural)]
pub struct RetryPolicy {
    /// The wait that the doubling starts from.
    pub initial_delay_ms: u64,
    /// The largest number of doublings.
    pub max_retries: u32,
}

impl Default for RetryPolicy {
    /// One second to start from, at most five doublings.
    fn default() -> (policy: Self)
        ensures
            policy.initial_delay_ms == 1_000,
            policy.max_retries == 5,
            policy.wf(),
    {
        proof {
            lemma_pow2_values();
        }
        RetryPolicy { initial_delay_ms: 1_000, max_retries: 5 }
    }
}

/// The smaller of two numbers.
pub open spec fn smaller(a: nat, b: nat) -> nat {
    if a <= b {
        a
    } else {
        b
    }
}

/// The wait after `retry_count` failures: the initial wait doubled once for
/// each failure, but never more than `max_retries` times.
pub open spec fn backoff(initial: nat, retry_count: nat, max_retries: nat) -> nat {
    initial * pow2(smaller(retry_count, max_retries))
}

impl RetryPolicy {
    /// The wait this policy gives after `retry_count` failures.
    pub open spec fn delay(self, retry_count: nat) -> nat {
        backoff(self.initial_delay_ms as nat, retry_count, self.max_retries as nat)
    }

    /// The policy's longest wait fits in 64 bits.
    pub open spec fn wf(self) -> bool {
        self.delay(self.max_retries as nat) <= u64::MAX
    }

    /// Whether the policy's longest wait fits in 64 bits.
    pub fn is_valid(&self) -> (valid: bool)
        ensures
            valid == self.wf(),
    {
        backoff_delay(self.initial_delay_ms, self.max_retries, self.max_retries).is_some()
    }
}

/// The first powers of two.
proof fn lemma_pow2_values()
    ensures
        pow2(0) == 1,
        pow2(1) == 2,
        pow2(2) == 4,
        pow2(3) == 8,
        pow2(4) == 16,
        pow2(5) == 32,
{
    lemma2_to64();
}

/// Computes the wait after `retry_count` failures, or nothing when it does
/// not fit in 64 bits.
pub fn backoff_delay(initial_delay_ms: u64, retry_count: u32, max_retries: u32) -> (delay: Option<
    u64,
>)
    ensures
        match delay {
            Some(ms) => ms == backoff(
                initial_delay_ms as nat,
                retry_count as nat,
                max_retries as nat,
            ),
            None => backoff(initial_delay_ms as nat, retry_count as nat, max_retries as nat)
                > u64::MAX,
        },
{
    let doublings: u32 = if retry_count <= max_retries {
        retry_count
    } else {
        max_retries
    };
    let mut delay: u64 = initial_delay_ms;
    let mut done: u32 = 0;
    proof {
        lemma2_to64();
    }
    while done < doublings
        invariant
            done <= doublings,
            delay == initial_delay_ms * pow2(done as nat),
            doublings == smaller(retry_count as nat, max_retries as nat),
        decreases doublings - done,
    {
        proof {
            lemma_pow2_unfold((done + 1) as nat);
            assert(initial_delay_ms * (2 * pow2(done as nat)) == 2 * (initial_delay_ms * pow2(
                done as nat,
            ))) by (nonlinear_arith);
        }
        if delay > u64::MAX / 2 {
            proof {
                lemma_backoff_grows(
                    initial_delay_ms as nat,
                    (done + 1) as nat,
                    doublings as nat,
                    doublings as nat,
                );
            }
            return None;
        }
        delay = delay * 2;
        done = done + 1;
    }
    Some(delay)
}

/// With more failures the wait never gets shorter.
pub proof fn lemma_backoff_grows(initial: nat, fewer: nat, more: nat, max_retries: nat)
    requires
        fewer <= more,
    ensures
        backoff(initial, fewer, max_retries) <= backoff(initial, more, max_retries),
{
    let a = smaller(fewer, max_retries);
    let b = smaller(more, max_retries);
    if a < b {
        lemma_pow2_strictly_increases(a, b);
    }
    assert(initial * pow2(a) <= initial * pow2(b)) by (nonlinear_arith)
        requires
            pow2(a) <= pow2(b),
    ;
}

/// Backoff monotonicity: below the ceiling every further failure makes the
/// wait strictly longer, provided the initial wait is not zero.
pub proof fn lemma_backoff_strictly_increases(
    initial: nat,
    fewer: nat,
    more: nat,
    max_retries: nat,
)
    requires
        initial > 0,
        fewer < more <= max_retries,
    ensures
        backoff(initial, fewer, max_retries) < backoff(initial, more, max_retries),
{
    lemma_pow2_strictly_increases(fewer, more);
    assert(initial * pow2(fewer) < initial * pow2(more)) by (nonlinear_arith)
        requires
            initial > 0,
            pow2(fewer) < pow2(more),
    ;
}

/// Backoff doubling: below the ceiling one more failure doubles the wait.
pub proof fn lemma_backoff_doubles(initial: nat, retry_count: nat, max_retries: nat)
    requires
        retry_count < max_retries,
    ensures
        backoff(initial, retry_count + 1, max_retries) == 2 * backoff(
            initial,
            retry_count,
            max_retries,
        ),
{
    lemma_pow2_unfold(retry_count + 1);
    assert(initial * (2 * pow2(retry_count)) == 2 * (initial * pow2(retry_count)))
        by (nonlinear_arith);
}

/// Backoff cap: from the ceiling on the wait stays what it is at the
/// ceiling.
pub proof fn lemma_backoff_capped(initial: nat, retry_count: nat, max_retries: nat)
    requires
        retry_count >= max_retries,
    ensures
        backoff(initial, retry_count, max_retries) == backoff(initial, max_retries, max_retries),
        backoff(initial, max_retries, max_retries) == initial * pow2(max_retries),
{
}

/// Where the client stands with respect to the server.
#[derive(Clone, Copy, Debug, PartialEq, Eq, Structural)]
pub enum LinkState {
    /// No connection, and no attempt under way.
    Disconnected,
    /// In a run of attempts, of which `attempts_left` remain, the one under
    /// way included.
    Connecting { attempts_left: u64 },
    /// A session is running on a live connection.
    Connected,
}

/// What the caller reports to the reconnector.
#[derive(Clone, Copy, Debug, PartialEq, Eq, Structural)]
pub enum LinkEvent {
    /// It is time to start a run of attempts.
    Start,
    /// The attempt under way gave a connection.
    ConnectSucceeded,
    /// The attempt under way failed.
    ConnectFailed,
    /// The session on the connection ended, for whatever reason.
    SessionEnded,
}

/// What the caller is to do next.
#[derive(Clone, Copy, Debug, PartialEq, Eq, Structural)]
pub enum LinkAction {
    /// Try to connect now.
    Dial,
    /// Wait for `wait_ms`, then try to connect again.
    WaitThenDial { wait_ms: u64 },
    /// The run of attempts is used up. Wait for `wait_ms` as after any
    /// failed attempt, report the failure, wait for `backoff_ms`, then
    /// report `Start`.
    BackOff { wait_ms: u64, backoff_ms: u64 },
    /// Run a session on the new connection, then report `SessionEnded`.
    RunSession,
    /// Report `Start` at once.
    Restart,
    /// The event has no meaning in this state; nothing changed.
    Ignore,
}

/// A reconnector as the contracts see it.
pub struct LinkModel {
    pub policy: RetryPolicy,
    pub state: LinkState,
    /// Runs of attempts that failed since the last connection, counted up to
    /// the policy's ceiling.
    pub retry_count: u32,
}

impl LinkModel {
    /// A reconnector that has not dialled yet.
    pub open spec fn fresh(policy: RetryPolicy) -> LinkModel {
        LinkModel { policy, state: LinkState::Disconnected, retry_count: 0 }
    }

    /// The count stays under the policy's ceiling, a run never has more
    /// attempts left than it started with, and a connection clears the
    /// count.
    pub open spec fn wf(self) -> bool {
        &&& self.policy.wf()
        &&& self.retry_count <= self.policy.max_retries
        &&& match self.state {
            LinkState::Disconnected => true,
            LinkState::Connecting { attempts_left } => 1 <= attempts_left <= self.retry_count + 1,
            LinkState::Connected => self.retry_count == 0,
        }
    }

    /// The count after one more failed run: one more, up to the ceiling.
    pub open spec fn next_retry_count(self) -> u32 {
        if self.retry_count < self.policy.max_retries {
            (self.retry_count + 1) as u32
        } else {
            self.policy.max_retries
        }
    }

    /// What the reconnector does with an event.
    ///
    /// A run has one attempt more than there were failed runs before it.
    /// After every failed attempt comes the wait that the count gives. When
    /// the run is used up the count goes up by one, up to the ceiling, and
    /// the wait of the new count follows. A connection sets the count back
    /// to zero.
    pub open spec fn step(self, event: LinkEvent) -> (LinkModel, LinkAction) {
        match (self.state, event) {
            (LinkState::Disconnected, LinkEvent::Start) => (
                LinkModel {
                    state: LinkState::Connecting { attempts_left: (self.retry_count + 1) as u64 },
                    ..self
                },
                LinkAction::Dial,
            ),
            (LinkState::Connecting { attempts_left }, LinkEvent::ConnectSucceeded) => (
                LinkModel { state: LinkState::Connected, retry_count: 0, ..self },
                LinkAction::RunSession,
            ),
            (LinkState::Connecting { attempts_left }, LinkEvent::ConnectFailed) => {
                if attempts_left > 1 {
                    (
                        LinkModel {
                            state: LinkState::Connecting {
                                attempts_left: (attempts_left - 1) as u64,
                            },
                            ..self
                        },
                        LinkAction::WaitThenDial {
                            wait_ms: self.policy.delay(self.retry_count as nat) as u64,
                        },
                    )
                } else {
                    (
                        LinkModel {
                            state: LinkState::Disconnected,
                            retry_count: self.next_retry_count(),
                            ..self
                        },
                        LinkAction::BackOff {
                            wait_ms: self.policy.delay(self.retry_count as nat) as u64,
                            backoff_ms: self.policy.delay(self.next_retry_count() as nat) as u64,
                        },
                    )
                }
            },
            (LinkState::Connected, LinkEvent::SessionEnded) => (
                LinkModel { state: LinkState::Disconnected, ..self },
                LinkAction::Restart,
            ),
            _ => (self, LinkAction::Ignore),
        }
    }

    /// The reconnector after `failures` failed attempts in a row.
    pub open spec fn after_failures(self, failures: nat) -> LinkModel
        decreases failures,
    {
        if failures == 0 {
            self
        } else {
            self.step(LinkEvent::ConnectFailed).0.after_failures((failures - 1) as nat)
        }
    }
}

/// Every step leaves a well-formed reconnector well formed.
pub proof fn lemma_step_keeps_wf(link: LinkModel, event: LinkEvent)
    requires
        link.wf(),
    ensures
        link.step(event).0.wf(),
        link.step(event).0.policy == link.policy,
{
}

/// A connection clears the count: whatever it was during the run, the next
/// run after the session starts with a single attempt.
pub proof fn lemma_connection_clears_count(link: LinkModel)
    requires
        link.wf(),
        link.state is Connecting,
    ensures
        ({
            let connected = link.step(LinkEvent::ConnectSucceeded).0;
            let ended = connected.step(LinkEvent::SessionEnded).0;
            let redial = ended.step(LinkEvent::Start).0;
            &&& connected.state == LinkState::Connected
            &&& connected.retry_count == 0
            &&& ended.state == LinkState::Disconnected
            &&& ended.retry_count == 0
            &&& redial.state == (LinkState::Connecting { attempts_left: 1 })
        }),
{
}

/// The reconnector never comes to rest: in every state some event moves it
/// on.
pub proof fn lemma_no_terminal_state(link: LinkModel)
    ensures
        exists|event: LinkEvent| #[trigger] link.step(event).1 != LinkAction::Ignore,
{
    match link.state {
        LinkState::Disconnected => {
            assert(link.step(LinkEvent::Start).1 != LinkAction::Ignore);
        },
        LinkState::Connecting { attempts_left } => {
            assert(link.step(LinkEvent::ConnectSucceeded).1 != LinkAction::Ignore);
        },
        LinkState::Connected => {
            assert(link.step(LinkEvent::SessionEnded).1 != LinkAction::Ignore);
        },
    }
}

/// A run of attempts: started after `retry_count` failed runs, it has
/// `retry_count + 1` attempts. While attempts fail the run goes on with the
/// count unchanged; when the last one has failed the reconnector is
/// disconnected again and the count has gone up by one, up to the ceiling.
pub proof fn lemma_run_of_attempts(link: LinkModel, failures: nat)
    requires
        link.wf(),
        link.state == LinkState::Disconnected,
        failures <= link.retry_count + 1,
    ensures
        ({
            let started = link.step(LinkEvent::Start).0;
            let later = started.after_failures(failures);
            &&& started.state == (LinkState::Connecting {
                attempts_left: (link.retry_count + 1) as u64,
            })
            &&& later.policy == link.policy
            &&& failures <= link.retry_count ==> later.retry_count == link.retry_count
                && later.state == (LinkState::Connecting {
                attempts_left: (link.retry_count + 1 - failures) as u64,
            })
            &&& failures == link.retry_count + 1 ==> later.retry_count == link.next_retry_count()
                && later.state == LinkState::Disconnected
        }),
{
    let started = link.step(LinkEvent::Start).0;
    lemma_failures_in_a_run(started, failures);
}

/// What `failures` failed attempts do to a run that has at least that many
/// attempts left.
proof fn lemma_failures_in_a_run(link: LinkModel, failures: nat)
    requires
        link.wf(),
        link.state is Connecting,
        failures <= link.state->attempts_left,
    ensures
        ({
            let later = link.after_failures(failures);
            let left = link.state->attempts_left;
            &&& later.policy == link.policy
            &&& failures < left ==> later.retry_count == link.retry_count && later.state == (
            LinkState::Connecting { attempts_left: (left - failures) as u64 })
            &&& failures == left ==> later.retry_count == link.next_retry_count() && later.state
                == LinkState::Disconnected
        }),
    decreases failures,
{
    if failures > 0 {
        let next = link.step(LinkEvent::ConnectFailed).0;
        if link.state->attempts_left > 1 {
            lemma_failures_in_a_run(next, (failures - 1) as nat);
        } else {
            assert(next.after_failures(0) == next);
        }
    }
}

/// Keeps a client connected: it says when to dial, how long to wait after a
/// failure, and when to run a session.
#[derive(Debug)]
pub struct Reconnector {
    policy: RetryPolicy,
    state: LinkState,
    retry_count: u32,
}

impl View for Reconnector {
    type V = LinkModel;

    closed spec fn view(&self) -> LinkModel {
        LinkModel { policy: self.policy, state: self.state, retry_count: self.retry_count }
    }
}

impl Reconnector {
    #[verifier::type_invariant]
    spec fn well_formed(self) -> bool {
        self@.wf()
    }

    /// A reconnector that has not dialled yet, or nothing when the policy's
    /// longest wait does not fit in 64 bits.
    pub fn new(policy: RetryPolicy) -> (link: Option<Self>)
        ensures
            match link {
                Some(link) => policy.wf() && link@ == LinkModel::fresh(policy),
                None => !policy.wf(),
            },
    {
        if policy.is_valid() {
            Some(Reconnector { policy, state: LinkState::Disconnected, retry_count: 0 })
        } else {
            None
        }
    }

    /// Where the client stands. Every reconnector is well formed.
    pub fn state(&self) -> (state: LinkState)
        ensures
            state == self@.state,
            self@.wf(),
    {
        proof {
            use_type_invariant(self);
        }
        self.state
    }

    /// Runs of attempts that failed since the last connection, counted up to
    /// the policy's ceiling.
    pub fn retry_count(&self) -> (count: u32)
        ensures
            count == self@.retry_count,
            count <= self@.policy.max_retries,
    {
        proof {
            use_type_invariant(self);
        }
        self.retry_count
    }

    /// The policy in force.
    pub fn policy(&self) -> (policy: RetryPolicy)
        ensures
            policy == self@.policy,
            policy.wf(),
    {
        proof {
            use_type_invariant(self);
        }
        self.policy
    }

    /// The wait that the present count gives.
    pub fn current_delay(&self) -> (ms: u64)
        ensures
            ms == self@.policy.delay(self@.retry_count as nat),
    {
        proof {
            use_type_invariant(self);
        }
        delay_within(self.policy, self.retry_count)
    }

    /// Takes in an event and says what to do next.
    pub fn step(&mut self, event: LinkEvent) -> (action: LinkAction)
        ensures
            (final(self)@, action) == old(self)@.step(event),
            final(self)@.wf(),
    {
        proof {
            use_type_invariant(&*self);
        }
        let policy = self.policy;
        let retry_count = self.retry_count;
        match (self.state, event) {
            (LinkState::Disconnected, LinkEvent::Start) => {
                let attempts_left = retry_count as u64 + 1;
                *self = Reconnector {
                    policy,
                    state: LinkState::Connecting { attempts_left },
                    retry_count,
                };
                LinkAction::Dial
            },
            (LinkState::Connecting { attempts_left }, LinkEvent::ConnectSucceeded) => {
                *self = Reconnector { policy, state: LinkState::Connected, retry_count: 0 };
                LinkAction::RunSession
            },
            (LinkState::Connecting { attempts_left }, LinkEvent::ConnectFailed) => {
                let wait_ms = delay_within(policy, retry_count);
                if attempts_left > 1 {
                    *self = Reconnector {
                        policy,
                        state: LinkState::Connecting { attempts_left: attempts_left - 1 },
                        retry_count,
                    };
                    LinkAction::WaitThenDial { wait_ms }
                } else {
                    let next = if retry_count < policy.max_retries {
                        retry_count + 1
                    } else {
                        retry_count
                    };
                    let backoff_ms = delay_within(policy, next);
                    *self = Reconnector {
                        policy,
                        state: LinkState::Disconnected,
                        retry_count: next,
                    };
                    LinkAction::BackOff { wait_ms, backoff_ms }
                }
            },
            (LinkState::Connected, LinkEvent::SessionEnded) => {
                *self = Reconnector { policy, state: LinkState::Disconnected, retry_count };
                LinkAction::Restart
            },
            _ => LinkAction::Ignore,
        }
    }
}

/// The wait that a valid policy gives after `retry_count` failures, for a
/// count up to the policy's ceiling.
fn delay_within(policy: RetryPolicy, retry_count: u32) -> (ms: u64)
    requires
        policy.wf(),
        retry_count <= policy.max_retries,
    ensures
        ms == policy.delay(retry_count as nat),
{
    proof {
        lemma_backoff_grows(
            policy.initial_delay_ms as nat,
            retry_count as nat,
            policy.max_retries as nat,
            policy.max_retries as nat,
        );
    }
    backoff_delay(policy.initial_delay_ms, retry_count, policy.max_retries).unwrap()
}

} // verus!
