//! The listener's side of a connection: it answers probes, echoes whatever
//! else arrives, and gives the peer up when it stays silent too long.
//!
//! The session decides; it does no I/O. Its caller reads from the socket with
//! a bound of `timeout_ms`, tells the session what the read gave, and carries
//! out the action it gets back.

use crate::buffer::{as_slice, contents};
use crate::codec::{
    all_frames, decode_one, drain_frames, encode, frame_of, leftover, lemma_drain_step,
    lemma_frames_bounded, lemma_leftover_incomplete, payloads,
};
use crate::counter::ConnectionCounter;
use crate::payload::{classify, ping_bytes, ping_packet, pong_bytes, pong_packet, PayloadKind};
use crate::session::{
    consistent, elapsed, elapsed_between, outcome_of, HeartbeatConfig, SessionError, SessionState,
    Status,
};
use bytes::BytesMut;
use vstd::prelude::*;

verus! {

/// Room set aside for received bytes when a session starts.
pub const RECEIVE_CAPACITY: usize = 4096;

/// The payload sent back for a received payload: the answer for a probe,
/// and any other payload unchanged.
pub open spec fn reply_to(payload: Seq<u8>) -> Seq<u8> {
    if payload == ping_bytes() {
        pong_bytes()
    } else {
        payload
    }
}

/// The frames sent back for a run of received payloads, one for each, in
/// the same order.
pub open spec fn reply_frames(received: Seq<Seq<u8>>) -> Seq<Seq<u8>> {
    Seq::new(received.len(), |i: int| frame_of(reply_to(received[i])))
}

/// The number of live connections after a termination, given the number
/// before it and whether the termination asked for the connection to be
/// taken off the count.
pub open spec fn live_after(live: int, release: bool) -> int {
    if release {
        live - 1
    } else {
        live
    }
}

/// A server session as the contracts see it.
pub struct ServerModel {
    pub state: SessionState,
    /// Received bytes not yet decoded, front first.
    pub buffered: Seq<u8>,
    /// When bytes last arrived from the peer.
    pub last_activity: u64,
    /// How the session failed, if it did.
    pub failure: Option<SessionError>,
}

/// What the caller is to do next, as the contracts see it.
pub enum ServerStep {
    Reply(Seq<Seq<u8>>),
    Ping { frame: Seq<u8>, pause_ms: u64 },
    Wait,
    Close(Result<(), SessionError>),
}

impl ServerModel {
    /// A session just accepted at time `now`.
    pub open spec fn fresh(now: u64) -> ServerModel {
        ServerModel {
            state: SessionState::Active,
            buffered: Seq::empty(),
            last_activity: now,
            failure: None,
        }
    }

    /// A read returned `chunk` at time `now`.
    ///
    /// No bytes mean that the peer shut down in good order. Otherwise the
    /// bytes join the buffer, the peer counts as active now, every whole
    /// frame is taken out and answered in order, and an incomplete frame
    /// stays buffered. A session that is no longer active only repeats how
    /// it ended.
    pub open spec fn on_bytes(self, chunk: Seq<u8>, now: u64) -> (ServerModel, ServerStep) {
        if self.state != SessionState::Active {
            (self, ServerStep::Close(outcome_of(self.failure)))
        } else if chunk.len() == 0 {
            (ServerModel { state: SessionState::ClosingClean, ..self }, ServerStep::Close(Ok(())))
        } else {
            (
                ServerModel {
                    buffered: leftover(self.buffered + chunk),
                    last_activity: now,
                    ..self
                },
                ServerStep::Reply(reply_frames(all_frames(self.buffered + chunk))),
            )
        }
    }

    /// A read ran into its time bound at time `now` without any bytes.
    ///
    /// Silence beyond the timeout ends the session with a heartbeat failure.
    /// Silence beyond the interval calls for a probe and a pause. Shorter
    /// silence calls for nothing.
    pub open spec fn on_read_timeout(self, config: HeartbeatConfig, now: u64) -> (
        ServerModel,
        ServerStep,
    ) {
        let silence = elapsed_between(self.last_activity, now);
        if self.state != SessionState::Active {
            (self, ServerStep::Close(outcome_of(self.failure)))
        } else if silence > config.timeout_ms {
            (
                ServerModel {
                    state: SessionState::ClosingError,
                    failure: Some(SessionError::HeartbeatTimeout),
                    ..self
                },
                ServerStep::Close(Err(SessionError::HeartbeatTimeout)),
            )
        } else if silence > config.interval_ms {
            (self, ServerStep::Ping { frame: frame_of(ping_bytes()), pause_ms: config.ping_pause_ms })
        } else {
            (self, ServerStep::Wait)
        }
    }

    /// A read or a write on the socket failed.
    pub open spec fn on_transport_error(self) -> (ServerModel, ServerStep) {
        if self.state != SessionState::Active {
            (self, ServerStep::Close(outcome_of(self.failure)))
        } else {
            (
                ServerModel {
                    state: SessionState::ClosingError,
                    failure: Some(SessionError::Transport),
                    ..self
                },
                ServerStep::Close(Err(SessionError::Transport)),
            )
        }
    }

    /// The socket is closed. The connection is to be taken off the count of
    /// live connections exactly when this is the call that terminates it.
    pub open spec fn terminate(self) -> (ServerModel, bool) {
        (
            ServerModel { state: SessionState::Terminated, ..self },
            self.state != SessionState::Terminated,
        )
    }

    /// A failure is on record in a session that failed, and none in one
    /// that is active or ended in good order.
    pub open spec fn wf(self) -> bool {
        consistent(self.state, self.failure)
    }
}

/// What the caller is to do next.
#[derive(Debug)]
pub enum ServerAction {
    /// Write these frames in this order, then read again.
    Reply(Vec<BytesMut>),
    /// Write the probe frame, pause for `pause_ms`, then read again.
    Ping { frame: BytesMut, pause_ms: u64 },
    /// Read again.
    Wait,
    /// Stop: close the socket and terminate the session. `Err` carries the
    /// failure to report; `Ok` means an orderly end.
    Close(Result<(), SessionError>),
}

impl View for ServerAction {
    type V = ServerStep;

    open spec fn view(&self) -> ServerStep {
        match *self {
            ServerAction::Reply(frames) => ServerStep::Reply(payloads(frames@)),
            ServerAction::Ping { frame, pause_ms } => ServerStep::Ping {
                frame: contents(frame),
                pause_ms,
            },
            ServerAction::Wait => ServerStep::Wait,
            ServerAction::Close(outcome) => ServerStep::Close(outcome),
        }
    }
}

/// One accepted connection.
#[derive(Debug)]
pub struct ServerSession {
    status: Status,
    buffer: BytesMut,
    last_activity: u64,
    config: HeartbeatConfig,
}

impl View for ServerSession {
    type V = ServerModel;

    closed spec fn view(&self) -> ServerModel {
        ServerModel {
            state: self.status.state_of(),
            buffered: contents(self.buffer),
            last_activity: self.last_activity,
            failure: self.status.failure_of(),
        }
    }
}

/// Builds the frame to send back for one received payload: the answer for a
/// probe, the payload itself for anything else.
pub fn process_packet(payload: &[u8]) -> (frame: BytesMut)
    requires
        payload@.len() <= u32::MAX,
        payload@.len() + 4 <= isize::MAX,
    ensures
        contents(frame) == frame_of(reply_to(payload@)),
{
    match classify(payload) {
        PayloadKind::Ping => {
            let pong = pong_packet();
            encode(as_slice(&pong))
        },
        _ => encode(payload),
    }
}

/// Builds the probe frame.
pub fn send_heartbeat() -> (frame: BytesMut)
    ensures
        contents(frame) == frame_of(ping_bytes()),
{
    let ping = ping_packet();
    encode(as_slice(&ping))
}

impl ServerSession {
    /// The heartbeat timing this session was started with.
    pub closed spec fn timing(&self) -> HeartbeatConfig {
        self.config
    }

    /// A session for a connection accepted at time `now`.
    pub fn new(config: HeartbeatConfig, now: u64) -> (session: Self)
        ensures
            session@ == ServerModel::fresh(now),
            session@.wf(),
            session.timing() == config,
    {
        ServerSession {
            status: Status::active(),
            buffer: BytesMut::with_capacity(RECEIVE_CAPACITY),
            last_activity: now,
            config,
        }
    }

    /// Counts a connection accepted at time `now` on `counter` and starts
    /// its session.
    pub fn accept(counter: &ConnectionCounter, config: HeartbeatConfig, now: u64) -> (session:
        Self)
        ensures
            session@ == ServerModel::fresh(now),
            session@.wf(),
            session.timing() == config,
    {
        counter.connection_opened();
        ServerSession::new(config, now)
    }

    /// Where the session stands. Every session is well formed.
    pub fn state(&self) -> (state: SessionState)
        ensures
            state == self@.state,
            self@.wf(),
    {
        self.status.state()
    }

    /// How the session failed, if it did.
    pub fn failure(&self) -> (failure: Option<SessionError>)
        ensures
            failure == self@.failure,
    {
        self.status.failure()
    }

    /// When bytes last arrived from the peer.
    pub fn last_activity(&self) -> (at: u64)
        ensures
            at == self@.last_activity,
    {
        self.last_activity
    }

    /// How many received bytes wait for the rest of their frame.
    pub fn buffered_len(&self) -> (n: usize)
        ensures
            n == self@.buffered.len(),
    {
        self.buffer.len()
    }

    /// The heartbeat timing this session was started with.
    pub fn config(&self) -> (config: HeartbeatConfig)
        ensures
            config == self.timing(),
    {
        self.config
    }

    fn outcome(&self) -> (outcome: Result<(), SessionError>)
        ensures
            outcome == outcome_of(self@.failure),
    {
        self.status.outcome()
    }

    /// Takes in what a read returned at time `now` and says what to send
    /// back. An empty `chunk` stands for a read of zero bytes.
    pub fn on_bytes(&mut self, chunk: &[u8], now: u64) -> (action: ServerAction)
        requires
            old(self)@.buffered.len() + chunk@.len() <= isize::MAX,
        ensures
            (final(self)@, action@) == old(self)@.on_bytes(chunk@, now),
            final(self)@.wf(),
            final(self).timing() == old(self).timing(),
    {
        if self.status.state() != SessionState::Active {
            return ServerAction::Close(self.outcome());
        }
        if chunk.len() == 0 {
            self.status = Status::closing_clean();
            return ServerAction::Close(Ok(()));
        }
        self.buffer.extend_from_slice(chunk);
        self.last_activity = now;
        let ghost all = contents(self.buffer);
        let frames = drain_frames(&mut self.buffer);
        let mut replies: Vec<BytesMut> = Vec::new();
        let mut i: usize = 0;
        while i < frames.len()
            invariant
                i <= frames.len(),
                replies.len() == i,
                payloads(frames@) == all_frames(all),
                all.len() <= isize::MAX,
                forall|j: int|
                    0 <= j < i ==> contents(#[trigger] replies@[j]) == frame_of(
                        reply_to(contents(frames@[j])),
                    ),
            decreases frames.len() - i,
        {
            proof {
                lemma_frames_bounded(all, i as int);
                assert(payloads(frames@)[i as int] == contents(frames@[i as int]));
            }
            let reply = process_packet(as_slice(&frames[i]));
            replies.push(reply);
            i += 1;
        }
        proof {
            assert forall|j: int| 0 <= j < frames.len() implies payloads(replies@)[j]
                == reply_frames(all_frames(all))[j] by {
                assert(payloads(frames@)[j] == contents(frames@[j]));
            }
            assert(payloads(replies@) =~= reply_frames(all_frames(all)));
        }
        ServerAction::Reply(replies)
    }

    /// Takes in that a read ran into its time bound at time `now`.
    pub fn on_read_timeout(&mut self, now: u64) -> (action: ServerAction)
        ensures
            (final(self)@, action@) == old(self)@.on_read_timeout(old(self).timing(), now),
            final(self)@.wf(),
            final(self).timing() == old(self).timing(),
    {
        if self.status.state() != SessionState::Active {
            return ServerAction::Close(self.outcome());
        }
        let silence = elapsed(self.last_activity, now);
        if silence > self.config.timeout_ms {
            self.status = Status::failed(SessionError::HeartbeatTimeout);
            ServerAction::Close(Err(SessionError::HeartbeatTimeout))
        } else if silence > self.config.interval_ms {
            ServerAction::Ping { frame: send_heartbeat(), pause_ms: self.config.ping_pause_ms }
        } else {
            ServerAction::Wait
        }
    }

    /// Takes in that a read or a write on the socket failed.
    pub fn on_transport_error(&mut self) -> (action: ServerAction)
        ensures
            (final(self)@, action@) == old(self)@.on_transport_error(),
            final(self)@.wf(),
            final(self).timing() == old(self).timing(),
    {
        if self.status.state() != SessionState::Active {
            return ServerAction::Close(self.outcome());
        }
        self.status = Status::failed(SessionError::Transport);
        ServerAction::Close(Err(SessionError::Transport))
    }

    /// Marks the session terminated once its socket is closed. The result is
    /// true exactly when this call is the one that terminated it: then, and
    /// only then, the caller takes the connection off the live count.
    pub fn terminate(&mut self) -> (release: bool)
        ensures
            (final(self)@, release) == old(self)@.terminate(),
            final(self)@.wf(),
            final(self).timing() == old(self).timing(),
    {
        let release = self.status.state() != SessionState::Terminated;
        self.status = self.status.terminated();
        release
    }

    /// Terminates the session and, if this call is the one that terminated
    /// it, takes the connection off `counter`. However often it is called,
    /// the counter goes down once.
    pub fn close(&mut self, counter: &ConnectionCounter) -> (release: bool)
        ensures
            (final(self)@, release) == old(self)@.terminate(),
            final(self)@.wf(),
            final(self).timing() == old(self).timing(),
    {
        let release = self.terminate();
        if release {
            counter.connection_closed();
        }
        release
    }
}

/// Ping and echo: an active session with nothing buffered that receives one
/// whole frame answers with exactly one frame and buffers nothing. The
/// answer to the probe is the heartbeat answer; the answer to any other
/// payload is that payload.
pub proof fn lemma_one_frame_one_reply(session: ServerModel, payload: Seq<u8>, now: u64)
    requires
        session.state == SessionState::Active,
        session.buffered.len() == 0,
        payload.len() <= u32::MAX,
    ensures
        session.on_bytes(frame_of(payload), now) == (
            ServerModel { buffered: Seq::empty(), last_activity: now, ..session },
            ServerStep::Reply(seq![frame_of(reply_to(payload))]),
        ),
        reply_to(ping_bytes()) == pong_bytes(),
        payload != ping_bytes() ==> reply_to(payload) == payload,
{
    let frame = frame_of(payload);
    assert(session.buffered + frame =~= frame + Seq::<u8>::empty());
    lemma_drain_step(payload, Seq::empty());
    assert(all_frames(Seq::<u8>::empty()) =~= Seq::<Seq<u8>>::empty());
    assert(all_frames(frame + Seq::<u8>::empty()) =~= seq![payload]);
    assert(reply_frames(seq![payload]) =~= seq![frame_of(reply_to(payload))]);
    assert(session.buffered =~= Seq::<u8>::empty());
}

/// Replies keep the order of arrival: the answer to the first frame of a
/// read goes out before the answers to what follows it.
pub proof fn lemma_replies_in_order(payload: Seq<u8>, tail: Seq<u8>)
    requires
        payload.len() <= u32::MAX,
    ensures
        reply_frames(all_frames(frame_of(payload) + tail)) == seq![frame_of(reply_to(payload))]
            + reply_frames(all_frames(tail)),
{
    lemma_drain_step(payload, tail);
    assert(reply_frames(seq![payload] + all_frames(tail)) =~= seq![frame_of(reply_to(payload))]
        + reply_frames(all_frames(tail)));
}

/// After a read is taken in, no whole frame waits in the buffer: what is
/// left is at most the front part of one frame.
pub proof fn lemma_no_frame_left_behind(session: ServerModel, chunk: Seq<u8>, now: u64)
    requires
        session.state == SessionState::Active,
        chunk.len() > 0,
    ensures
        decode_one(session.on_bytes(chunk, now).0.buffered) is None,
        session.on_bytes(chunk, now).0.buffered.len() <= session.buffered.len() + chunk.len(),
{
    lemma_leftover_incomplete(session.buffered + chunk);
}

/// Heartbeat timeout: an active session whose peer has been silent for
/// longer than the timeout fails with a heartbeat timeout when its read runs
/// out. Terminating it then asks for the connection to be taken off the
/// count, and no later termination asks again.
pub proof fn lemma_heartbeat_timeout_closes(
    session: ServerModel,
    config: HeartbeatConfig,
    now: u64,
    live: int,
)
    requires
        session.state == SessionState::Active,
        elapsed_between(session.last_activity, now) > config.timeout_ms,
    ensures
        ({
            let (failed, step) = session.on_read_timeout(config, now);
            let (ended, release) = failed.terminate();
            let (again, release_again) = ended.terminate();
            &&& failed.state == SessionState::ClosingError
            &&& failed.failure == Some(SessionError::HeartbeatTimeout)
            &&& step == ServerStep::Close(Err(SessionError::HeartbeatTimeout))
            &&& ended.state == SessionState::Terminated
            &&& release
            &&& again == ended
            &&& !release_again
            &&& live_after(live_after(live, release), release_again) == live - 1
        }),
{
}

/// Exactly one termination counts: whatever state a session is in, the
/// first termination asks for the connection to be taken off the count
/// unless the session was terminated before, and a second one never asks.
pub proof fn lemma_terminate_once(session: ServerModel, live: int)
    ensures
        ({
            let (ended, release) = session.terminate();
            let (again, release_again) = ended.terminate();
            &&& release == (session.state != SessionState::Terminated)
            &&& ended.state == SessionState::Terminated
            &&& ended.failure == session.failure
            &&& again == ended
            &&& !release_again
            &&& session.state != SessionState::Terminated ==> live_after(
                live_after(live, release),
                release_again,
            ) == live - 1
        }),
{
}

/// Clean close: an active session whose read returns no bytes ends in good
/// order, whatever it has buffered, and reports no failure.
pub proof fn lemma_clean_close(session: ServerModel, now: u64)
    requires
        session.wf(),
        session.state == SessionState::Active,
    ensures
        ({
            let (closing, step) = session.on_bytes(Seq::empty(), now);
            &&& closing.state == SessionState::ClosingClean
            &&& closing.failure is None
            &&& closing.buffered == session.buffered
            &&& step == ServerStep::Close(Ok(()))
        }),
{
}

/// A session that has left the active state never returns to it: every
/// later event leaves it as it is and only repeats how it ended.
pub proof fn lemma_closed_stays_closed(
    session: ServerModel,
    config: HeartbeatConfig,
    chunk: Seq<u8>,
    now: u64,
)
    requires
        session.state != SessionState::Active,
    ensures
        session.on_bytes(chunk, now) == (session, ServerStep::Close(outcome_of(session.failure))),
        session.on_read_timeout(config, now) == (
            session,
            ServerStep::Close(outcome_of(session.failure)),
        ),
        session.on_transport_error() == (session, ServerStep::Close(outcome_of(session.failure))),
        session.terminate().0.state == SessionState::Terminated,
{
}

} // verus!
