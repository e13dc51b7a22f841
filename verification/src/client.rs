//! The dialling side of a connection: it originates the probes and the
//! periodic application message, and takes in what the server sends back.
//!
//! Like the server session it decides and does no I/O. Each round the caller
//! asks what to send, writes it, reads with a bound of `timeout_ms`, and
//! tells the session what the read gave.

use crate::buffer::{as_slice, contents};
use crate::codec::{
    all_frames, decode_one, drain_frames, encode, frame_of, leftover, lemma_leftover_incomplete,
    payloads, Packet,
};
use crate::payload::{
    classify, data_bytes, data_packet, ping_bytes, ping_packet, pong_bytes, PayloadKind,
};
use crate::session::{
    consistent, elapsed, elapsed_between, outcome_of, HeartbeatConfig, SessionError, SessionState,
    Status,
};
use bytes::BytesMut;
use vstd::prelude::*;

verus! {

/// Room set aside for received bytes when a session starts.
pub const RECEIVE_CAPACITY: usize = 4096;

/// What a received payload is to the client, as the contracts see it.
pub enum Received {
    HeartbeatAck,
    Data(Seq<u8>),
}

/// What a received payload is to the client: the answer to a probe, or
/// application data.
pub open spec fn received_as(payload: Seq<u8>) -> Received {
    if payload == pong_bytes() {
        Received::HeartbeatAck
    } else {
        Received::Data(payload)
    }
}

/// What a run of received payloads is to the client, one for one.
pub open spec fn received_all(run: Seq<Seq<u8>>) -> Seq<Received> {
    Seq::new(run.len(), |i: int| received_as(run[i]))
}

/// What a received payload is to the client.
#[derive(Debug)]
pub enum Inbound {
    /// The server answered a probe.
    HeartbeatAck,
    /// Application data, as received.
    Data(Packet),
}

impl View for Inbound {
    type V = Received;

    open spec fn view(&self) -> Received {
        match *self {
            Inbound::HeartbeatAck => Received::HeartbeatAck,
            Inbound::Data(payload) => Received::Data(contents(payload)),
        }
    }
}

/// The views of a list of received items, in order.
pub open spec fn inbound_views(items: Seq<Inbound>) -> Seq<Received> {
    Seq::new(items.len(), |i: int| items[i]@)
}

/// A client session as the contracts see it.
pub struct ClientModel {
    pub state: SessionState,
    /// Received bytes not yet decoded, front first.
    pub buffered: Seq<u8>,
    /// When the last probe was sent, or when the session started.
    pub last_heartbeat: u64,
    /// How the session failed, if it did.
    pub failure: Option<SessionError>,
}

/// What the caller is to do after a read, as the contracts see it.
pub enum ClientStep {
    Deliver(Seq<Received>),
    Retry,
    Close(Result<(), SessionError>),
}

impl ClientModel {
    /// A session for a connection made at time `now`.
    pub open spec fn fresh(now: u64) -> ClientModel {
        ClientModel {
            state: SessionState::Active,
            buffered: Seq::empty(),
            last_heartbeat: now,
            failure: None,
        }
    }

    /// The start of a round at time `now`: the frames to write, in order.
    ///
    /// A probe goes first when the interval has passed since the last one,
    /// and the probe timer starts anew. The application message goes out
    /// every round. A session that is no longer active sends nothing.
    pub open spec fn begin_round(self, config: HeartbeatConfig, now: u64) -> (
        ClientModel,
        Seq<Seq<u8>>,
    ) {
        if self.state != SessionState::Active {
            (self, Seq::empty())
        } else if elapsed_between(self.last_heartbeat, now) > config.interval_ms {
            (
                ClientModel { last_heartbeat: now, ..self },
                seq![frame_of(ping_bytes()), frame_of(data_bytes())],
            )
        } else {
            (self, seq![frame_of(data_bytes())])
        }
    }

    /// A read returned `chunk`.
    ///
    /// No bytes mean that the server closed the connection. Otherwise the
    /// bytes join the buffer and every whole frame is taken out and handed
    /// over in order; an incomplete frame stays buffered.
    pub open spec fn on_bytes(self, chunk: Seq<u8>) -> (ClientModel, ClientStep) {
        if self.state != SessionState::Active {
            (self, ClientStep::Close(outcome_of(self.failure)))
        } else if chunk.len() == 0 {
            (ClientModel { state: SessionState::ClosingClean, ..self }, ClientStep::Close(Ok(())))
        } else {
            (
                ClientModel { buffered: leftover(self.buffered + chunk), ..self },
                ClientStep::Deliver(received_all(all_frames(self.buffered + chunk))),
            )
        }
    }

    /// A read ran into its time bound. The client puts up with silence: the
    /// session stays as it is and the next round begins.
    pub open spec fn on_read_timeout(self) -> (ClientModel, ClientStep) {
        if self.state != SessionState::Active {
            (self, ClientStep::Close(outcome_of(self.failure)))
        } else {
            (self, ClientStep::Retry)
        }
    }

    /// A read or a write on the socket failed.
    pub open spec fn on_transport_error(self) -> (ClientModel, ClientStep) {
        if self.state != SessionState::Active {
            (self, ClientStep::Close(outcome_of(self.failure)))
        } else {
            (
                ClientModel {
                    state: SessionState::ClosingError,
                    failure: Some(SessionError::Transport),
                    ..self
                },
                ClientStep::Close(Err(SessionError::Transport)),
            )
        }
    }

    /// The socket is closed. The result is true exactly when this is the
    /// call that terminates the session.
    pub open spec fn terminate(self) -> (ClientModel, bool) {
        (
            ClientModel { state: SessionState::Terminated, ..self },
            self.state != SessionState::Terminated,
        )
    }

    /// A failure is on record in a session that failed, and none in one
    /// that is active or ended in good order.
    pub open spec fn wf(self) -> bool {
        consistent(self.state, self.failure)
    }
}

/// What the caller is to do after a read.
#[derive(Debug)]
pub enum ClientAction {
    /// Hand these items to the application in this order, then begin the
    /// next round.
    Deliver(Vec<Inbound>),
    /// Begin the next round.
    Retry,
    /// Stop: close the socket and terminate the session. `Err` carries the
    /// failure to report; `Ok` means that the server closed the connection.
    Close(Result<(), SessionError>),
}

impl View for ClientAction {
    type V = ClientStep;

    open spec fn view(&self) -> ClientStep {
        match *self {
            ClientAction::Deliver(items) => ClientStep::Deliver(inbound_views(items@)),
            ClientAction::Retry => ClientStep::Retry,
            ClientAction::Close(outcome) => ClientStep::Close(outcome),
        }
    }
}

/// One connection to the server.
#[derive(Debug)]
pub struct ClientSession {
    status: Status,
    buffer: BytesMut,
    last_heartbeat: u64,
    config: HeartbeatConfig,
}

impl View for ClientSession {
    type V = ClientModel;

    closed spec fn view(&self) -> ClientModel {
        ClientModel {
            state: self.status.state_of(),
            buffered: contents(self.buffer),
            last_heartbeat: self.last_heartbeat,
            failure: self.status.failure_of(),
        }
    }
}

/// Says what one received payload is to the client.
pub fn process_packet(packet: Packet) -> (item: Inbound)
    ensures
        item@ == received_as(contents(packet)),
{
    match classify(as_slice(&packet)) {
        PayloadKind::Pong => Inbound::HeartbeatAck,
        _ => Inbound::Data(packet),
    }
}

impl ClientSession {
    /// The heartbeat timing this session was started with.
    pub closed spec fn timing(&self) -> HeartbeatConfig {
        self.config
    }

    /// A session for a connection made at time `now`.
    pub fn new(config: HeartbeatConfig, now: u64) -> (session: Self)
        ensures
            session@ == ClientModel::fresh(now),
            session@.wf(),
            session.timing() == config,
    {
        ClientSession {
            status: Status::active(),
            buffer: BytesMut::with_capacity(RECEIVE_CAPACITY),
            last_heartbeat: now,
            config,
        }
    }

    /// Where the session stands. Every session is well formed.
    pub fn state(&self) -> (state: SessionState)
        ensures
            state == self@.state,
            self@.wf(),
    {
        self.status.state()
    }

    /// How the session failed, if it did.
    pub fn failure(&self) -> (failure: Option<SessionError>)
        ensures
            failure == self@.failure,
    {
        self.status.failure()
    }

    /// When the last probe was sent, or when the session started.
    pub fn last_heartbeat(&self) -> (at: u64)
        ensures
            at == self@.last_heartbeat,
    {
        self.last_heartbeat
    }

    /// How many received bytes wait for the rest of their frame.
    pub fn buffered_len(&self) -> (n: usize)
        ensures
            n == self@.buffered.len(),
    {
        self.buffer.len()
    }

    /// The heartbeat timing this session was started with.
    pub fn config(&self) -> (config: HeartbeatConfig)
        ensures
            config == self.timing(),
    {
        self.config
    }

    fn outcome(&self) -> (outcome: Result<(), SessionError>)
        ensures
            outcome == outcome_of(self@.failure),
    {
        self.status.outcome()
    }

    /// Says which frames to write at the start of a round at time `now`.
    pub fn begin_round(&mut self, now: u64) -> (frames: Vec<BytesMut>)
        ensures
            (final(self)@, payloads(frames@)) == old(self)@.begin_round(old(self).timing(), now),
            final(self)@.wf(),
            final(self).timing() == old(self).timing(),
    {
        let mut frames: Vec<BytesMut> = Vec::new();
        if self.status.state() != SessionState::Active {
            assert(payloads(frames@) =~= Seq::<Seq<u8>>::empty());
            return frames;
        }
        if elapsed(self.last_heartbeat, now) > self.config.interval_ms {
            let ping = ping_packet();
            frames.push(encode(as_slice(&ping)));
            self.last_heartbeat = now;
            let data = data_packet();
            frames.push(encode(as_slice(&data)));
            assert(payloads(frames@) =~= seq![frame_of(ping_bytes()), frame_of(data_bytes())]);
        } else {
            let data = data_packet();
            frames.push(encode(as_slice(&data)));
            assert(payloads(frames@) =~= seq![frame_of(data_bytes())]);
        }
        frames
    }

    /// Takes in what a read returned and hands over what arrived. An empty
    /// `chunk` stands for a read of zero bytes.
    pub fn on_bytes(&mut self, chunk: &[u8]) -> (action: ClientAction)
        requires
            old(self)@.buffered.len() + chunk@.len() <= isize::MAX,
        ensures
            (final(self)@, action@) == old(self)@.on_bytes(chunk@),
            final(self)@.wf(),
            final(self).timing() == old(self).timing(),
    {
        if self.status.state() != SessionState::Active {
            return ClientAction::Close(self.outcome());
        }
        if chunk.len() == 0 {
            self.status = Status::closing_clean();
            return ClientAction::Close(Ok(()));
        }
        self.buffer.extend_from_slice(chunk);
        let ghost all = contents(self.buffer);
        let frames = drain_frames(&mut self.buffer);
        let ghost taken = frames@;
        let mut items: Vec<Inbound> = Vec::new();
        for frame in it: frames
            invariant
                it.seq() == taken,
                items.len() == it.index(),
                forall|j: int|
                    0 <= j < it.index() ==> (#[trigger] items@[j])@ == received_as(
                        contents(taken[j]),
                    ),
        {
            items.push(process_packet(frame));
        }
        proof {
            assert forall|j: int| 0 <= j < taken.len() implies inbound_views(items@)[j]
                == received_all(all_frames(all))[j] by {
                assert(payloads(taken)[j] == contents(taken[j]));
            }
            assert(inbound_views(items@) =~= received_all(all_frames(all)));
        }
        ClientAction::Deliver(items)
    }

    /// Takes in that a read ran into its time bound.
    pub fn on_read_timeout(&mut self) -> (action: ClientAction)
        ensures
            (final(self)@, action@) == old(self)@.on_read_timeout(),
            final(self)@.wf(),
            final(self).timing() == old(self).timing(),
    {
        if self.status.state() != SessionState::Active {
            return ClientAction::Close(self.outcome());
        }
        ClientAction::Retry
    }

    /// Takes in that a read or a write on the socket failed.
    pub fn on_transport_error(&mut self) -> (action: ClientAction)
        ensures
            (final(self)@, action@) == old(self)@.on_transport_error(),
            final(self)@.wf(),
            final(self).timing() == old(self).timing(),
    {
        if self.status.state() != SessionState::Active {
            return ClientAction::Close(self.outcome());
        }
        self.status = Status::failed(SessionError::Transport);
        ClientAction::Close(Err(SessionError::Transport))
    }

    /// Marks the session terminated once its socket is closed. The result is
    /// true exactly when this call is the one that terminated it.
    pub fn terminate(&mut self) -> (first: bool)
        ensures
            (final(self)@, first) == old(self)@.terminate(),
            final(self)@.wf(),
            final(self).timing() == old(self).timing(),
    {
        let first = self.status.state() != SessionState::Terminated;
        self.status = self.status.terminated();
        first
    }
}

/// Clean close: an active session whose read returns no bytes ends in good
/// order, whatever it has buffered, and reports no failure.
pub proof fn lemma_clean_close(session: ClientModel)
    requires
        session.wf(),
        session.state == SessionState::Active,
    ensures
        ({
            let (closing, step) = session.on_bytes(Seq::empty());
            &&& closing.state == SessionState::ClosingClean
            &&& closing.failure is None
            &&& closing.buffered == session.buffered
            &&& step == ClientStep::Close(Ok(()))
        }),
{
}

/// After a read is taken in, no whole frame waits in the buffer: what is
/// left is at most the front part of one frame.
pub proof fn lemma_no_frame_left_behind(session: ClientModel, chunk: Seq<u8>)
    requires
        session.state == SessionState::Active,
        chunk.len() > 0,
    ensures
        decode_one(session.on_bytes(chunk).0.buffered) is None,
        session.on_bytes(chunk).0.buffered.len() <= session.buffered.len() + chunk.len(),
{
    lemma_leftover_incomplete(session.buffered + chunk);
}

/// Every round of an active session carries the application message last,
/// and nothing but a probe before it.
pub proof fn lemma_round_sends_data(session: ClientModel, config: HeartbeatConfig, now: u64)
    requires
        session.state == SessionState::Active,
    ensures
        ({
            let (next, frames) = session.begin_round(config, now);
            &&& next.state == SessionState::Active
            &&& frames.len() >= 1
            &&& frames.last() == frame_of(data_bytes())
            &&& frames.len() == 2 ==> frames[0] == frame_of(ping_bytes()) && next.last_heartbeat
                == now
            &&& frames.len() <= 2
        }),
{
}

} // verus!
