//! The tunnel forwarding session: the two-leg handshake and the two
//! byte-copy loops.
//!
//! The session's network work (TCP connects, the secure stream, reads and
//! writes) happens outside the library; the session logic here decides,
//! for every event the outside work can report, which state the session
//! moves to and which action to perform next.  The handshake order is a
//! deliberate contract: the local target port is connected first, and only
//! once it is connected is the remote endpoint attempted, because the
//! remote side accepts a single live connection per tunnel identity and a
//! poisoned identity would block every retry until it times out remotely.

use vstd::prelude::*;

use crate::tunnel::ConnectionError;
use crate::tunnel::LOCAL_PORT_CONNECTION_TIMEOUT_SECS;
use crate::tunnel::REMOTE_CONNECTION_TIMEOUT_SECS;

verus! {

/// How one connection leg ended, as reported by the outside network work.
#[derive(Debug)]
pub enum LegOutcome {
    Connected,
    TimedOut,
    /// The leg failed outright; the payload is the cause's text.
    Failed(String),
}

/// Where the handshake stands.
#[derive(Debug)]
pub enum HandshakeState {
    /// Nothing attempted yet.
    Start,
    /// Waiting for the local target-port leg.
    ConnectingLocal,
    /// Local leg up; waiting for the remote endpoint leg.
    ConnectingRemote,
    /// Both legs up; forwarding may begin.
    Established,
    /// The handshake failed and its failure was reported; terminal.
    Ended,
}

/// What the session asks its surroundings to do next.
#[derive(Debug)]
pub enum HandshakeAction {
    /// Connect to the local target port, within the given timeout.
    ConnectLocal { timeout_secs: u64 },
    /// Connect to the remote secure endpoint, within the given timeout.
    ConnectRemote { timeout_secs: u64 },
    /// Reply to the waiting connect call: the tunnel is up.
    ReportSuccess,
    /// Reply to the waiting connect call with this error and stop.
    ReportFailure(ConnectionError),
    /// Nothing: the event did not belong to this state.
    Idle,
}

/// An event driving the handshake.
#[derive(Debug)]
pub enum HandshakeEvent {
    /// The session was started.
    Begin,
    /// The local target-port leg ended.
    LocalLeg(LegOutcome),
    /// The remote endpoint leg ended.
    RemoteLeg(LegOutcome),
}

/// One step of the handshake: from the current state and an event to the
/// next state and the action to perform.
///
/// Law: a forwarding session whose local target-port leg refuses the
/// connection never attempts the remote endpoint leg — the only step that
/// asks for the remote leg is a successful local leg (stated as the first
/// `ensures` clause, which inverts the action) — and the reported error is
/// `TargetPortConnectionFailed`.
pub fn handshake_step(state: HandshakeState, event: HandshakeEvent) -> (r: (
    HandshakeState,
    HandshakeAction,
))
    ensures
        r.1 is ConnectRemote ==> state is ConnectingLocal && event matches HandshakeEvent::LocalLeg(
            LegOutcome::Connected,
        ),
        match (state, event) {
            (HandshakeState::Start, HandshakeEvent::Begin) => r.0 is ConnectingLocal && (
            r.1 matches HandshakeAction::ConnectLocal { timeout_secs } && timeout_secs
                == LOCAL_PORT_CONNECTION_TIMEOUT_SECS),
            (
                HandshakeState::ConnectingLocal,
                HandshakeEvent::LocalLeg(LegOutcome::Connected),
            ) => r.0 is ConnectingRemote && (
            r.1 matches HandshakeAction::ConnectRemote { timeout_secs } && timeout_secs
                == REMOTE_CONNECTION_TIMEOUT_SECS),
            (HandshakeState::ConnectingLocal, HandshakeEvent::LocalLeg(LegOutcome::TimedOut)) => r.0
                is Ended && (r.1 matches HandshakeAction::ReportFailure(
                ConnectionError::TargetPortConnectionFailed(c),
            ) && c@ == "Connection to target port timed out."@),
            (HandshakeState::ConnectingLocal, HandshakeEvent::LocalLeg(LegOutcome::Failed(e))) => r.0
                is Ended && (r.1 matches HandshakeAction::ReportFailure(
                ConnectionError::TargetPortConnectionFailed(c),
            ) && c == e),
            (
                HandshakeState::ConnectingRemote,
                HandshakeEvent::RemoteLeg(LegOutcome::Connected),
            ) => r.0 is Established && r.1 is ReportSuccess,
            (HandshakeState::ConnectingRemote, HandshakeEvent::RemoteLeg(LegOutcome::TimedOut)) => r.0
                is Ended && (r.1 matches HandshakeAction::ReportFailure(
                ConnectionError::ServerConnectionFailed(c),
            ) && c@ == "Connection to WebSocket timed out."@),
            (HandshakeState::ConnectingRemote, HandshakeEvent::RemoteLeg(LegOutcome::Failed(e))) => r.0
                is Ended && (r.1 matches HandshakeAction::ReportFailure(
                ConnectionError::ServerConnectionFailed(c),
            ) && c == e),
            (s, _) => r.0 == s && r.1 is Idle,
        },
{
    match (state, event) {
        (HandshakeState::Start, HandshakeEvent::Begin) => (
            HandshakeState::ConnectingLocal,
            HandshakeAction::ConnectLocal { timeout_secs: LOCAL_PORT_CONNECTION_TIMEOUT_SECS },
        ),
        (HandshakeState::ConnectingLocal, HandshakeEvent::LocalLeg(LegOutcome::Connected)) => (
            HandshakeState::ConnectingRemote,
            HandshakeAction::ConnectRemote { timeout_secs: REMOTE_CONNECTION_TIMEOUT_SECS },
        ),
        (HandshakeState::ConnectingLocal, HandshakeEvent::LocalLeg(LegOutcome::TimedOut)) => (
            HandshakeState::Ended,
            HandshakeAction::ReportFailure(
                ConnectionError::TargetPortConnectionFailed(
                    String::from_str("Connection to target port timed out."),
                ),
            ),
        ),
        (HandshakeState::ConnectingLocal, HandshakeEvent::LocalLeg(LegOutcome::Failed(e))) => (
            HandshakeState::Ended,
            HandshakeAction::ReportFailure(ConnectionError::TargetPortConnectionFailed(e)),
        ),
        (HandshakeState::ConnectingRemote, HandshakeEvent::RemoteLeg(LegOutcome::Connected)) => (
            HandshakeState::Established,
            HandshakeAction::ReportSuccess,
        ),
        (HandshakeState::ConnectingRemote, HandshakeEvent::RemoteLeg(LegOutcome::TimedOut)) => (
            HandshakeState::Ended,
            HandshakeAction::ReportFailure(
                ConnectionError::ServerConnectionFailed(
                    String::from_str("Connection to WebSocket timed out."),
                ),
            ),
        ),
        (HandshakeState::ConnectingRemote, HandshakeEvent::RemoteLeg(LegOutcome::Failed(e))) => (
            HandshakeState::Ended,
            HandshakeAction::ReportFailure(ConnectionError::ServerConnectionFailed(e)),
        ),
        (s, _) => (s, HandshakeAction::Idle),
    }
}

/// One frame of the remote streaming leg, as the forwarding loops see it:
/// data frames carry bytes, a close frame ends the stream, and control
/// frames are handled by the transport and carry nothing here.
#[derive(Debug)]
pub enum Frame {
    Binary(Vec<u8>),
    Text(Vec<u8>),
    Close,
    Control,
}

/// What the remote-to-local loop does with one received frame.
#[derive(Debug)]
pub enum RemoteToLocalStep {
    /// Write these bytes to the local socket.
    Forward(Vec<u8>),
    /// An explicit close frame: stop this loop cleanly.
    Stop,
    /// A control frame: nothing to forward.
    Ignore,
}

/// The remote-to-local decision: binary and text payloads are forwarded as
/// raw bytes, a close frame stops the loop, control frames are skipped.
pub fn remote_to_local_step(frame: Frame) -> (r: RemoteToLocalStep)
    ensures
        match frame {
            Frame::Binary(d) => r == RemoteToLocalStep::Forward(d),
            Frame::Text(d) => r == RemoteToLocalStep::Forward(d),
            Frame::Close => r is Stop,
            Frame::Control => r is Ignore,
        },
{
    match frame {
        Frame::Binary(d) => RemoteToLocalStep::Forward(d),
        Frame::Text(d) => RemoteToLocalStep::Forward(d),
        Frame::Close => RemoteToLocalStep::Stop,
        Frame::Control => RemoteToLocalStep::Ignore,
    }
}

/// What the local-to-remote loop does with one read from the local socket.
#[derive(Debug)]
pub enum LocalToRemoteStep {
    /// Send this binary frame to the remote leg.
    Send(Frame),
    /// A zero-length read: local end of file.  Send an explicit close
    /// frame and stop.
    SendCloseAndStop,
}

/// The local-to-remote decision: bytes read from the local socket are
/// wrapped as one binary frame; a zero-length read signals local end of
/// file, upon which a close frame is sent and the loop stops.
pub fn local_to_remote_step(chunk: Vec<u8>) -> (r: LocalToRemoteStep)
    ensures
        chunk@.len() == 0 ==> r is SendCloseAndStop,
        chunk@.len() > 0 ==> r == LocalToRemoteStep::Send(Frame::Binary(chunk)),
{
    if chunk.len() == 0 {
        LocalToRemoteStep::SendCloseAndStop
    } else {
        LocalToRemoteStep::Send(Frame::Binary(chunk))
    }
}

/// The bytes a frame contributes to the local socket.
pub open spec fn frame_data(f: Frame) -> Seq<u8> {
    match f {
        Frame::Binary(d) => d@,
        Frame::Text(d) => d@,
        Frame::Close => Seq::empty(),
        Frame::Control => Seq::empty(),
    }
}

/// The bytes the remote-to-local loop writes to the local socket when it
/// receives `frames` in order: every data payload up to the first close
/// frame, concatenated.
pub open spec fn remote_to_local_output(frames: Seq<Frame>) -> Seq<u8>
    decreases frames.len(),
{
    if frames.len() == 0 {
        Seq::empty()
    } else if frames[0] is Close {
        Seq::empty()
    } else {
        frame_data(frames[0]) + remote_to_local_output(frames.skip(1))
    }
}

/// The concatenated data payloads of a frame sequence.
pub open spec fn frames_data(frames: Seq<Frame>) -> Seq<u8>
    decreases frames.len(),
{
    if frames.len() == 0 {
        Seq::empty()
    } else {
        frame_data(frames[0]) + frames_data(frames.skip(1))
    }
}

/// Law (remote-to-local leg): every data byte received before the first
/// close frame reaches the local socket exactly once and in order — the
/// loop's output over `frames + [Close] + rest` is precisely the
/// concatenated payloads of `frames`, whatever follows the close.
pub proof fn lemma_remote_to_local_exact(frames: Seq<Frame>, rest: Seq<Frame>)
    requires
        forall|i: int| 0 <= i < frames.len() ==> !((#[trigger] frames[i]) is Close),
    ensures
        remote_to_local_output(frames + seq![Frame::Close] + rest) == frames_data(frames),
    decreases frames.len(),
{
    let whole = frames + seq![Frame::Close] + rest;
    if frames.len() == 0 {
        assert(whole[0] is Close);
    } else {
        lemma_remote_to_local_exact(frames.skip(1), rest);
        assert(whole[0] == frames[0]);
        assert(whole.skip(1) =~= frames.skip(1) + seq![Frame::Close] + rest);
    }
}

/// The binary payloads the local-to-remote loop sends for the chunks read
/// from the local socket, and whether it ended with an explicit close
/// frame (which it does exactly upon a zero-length read).
pub open spec fn local_to_remote_sent(chunks: Seq<Seq<u8>>) -> (Seq<Seq<u8>>, bool)
    decreases chunks.len(),
{
    if chunks.len() == 0 {
        (Seq::empty(), false)
    } else if chunks[0].len() == 0 {
        (Seq::empty(), true)
    } else {
        let rec = local_to_remote_sent(chunks.skip(1));
        (seq![chunks[0]] + rec.0, rec.1)
    }
}

/// Law (local-to-remote leg): a session that reads the non-empty chunks
/// `chunks` from the local socket and then the zero-length end-of-file
/// read sends exactly one binary frame per chunk, in order, followed by
/// one close frame — no loss and no duplication.
pub proof fn lemma_local_to_remote_exact(chunks: Seq<Seq<u8>>)
    requires
        forall|i: int| 0 <= i < chunks.len() ==> (#[trigger] chunks[i]).len() > 0,
    ensures
        local_to_remote_sent(chunks.push(Seq::empty())) == (chunks, true),
    decreases chunks.len(),
{
    let whole = chunks.push(Seq::<u8>::empty());
    if chunks.len() == 0 {
        assert(whole[0].len() == 0);
        assert(local_to_remote_sent(whole).0 =~= chunks);
    } else {
        lemma_local_to_remote_exact(chunks.skip(1));
        assert(whole[0] == chunks[0]);
        assert(whole.skip(1) =~= chunks.skip(1).push(Seq::<u8>::empty()));
        assert(seq![chunks[0]] + chunks.skip(1) =~= chunks);
    }
}

} // verus!
