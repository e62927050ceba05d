//! One inbound connection, as a function from the bytes that arrive to
//! what to do next. The caller owns the socket: it reads the number of
//! bytes that the connection wants, hands them over, and carries out the
//! action that comes back.

use vstd::prelude::*;
use crate::channel::ChannelError;
use crate::channel::ChannelModel;
use crate::channel::FrameStage;
use crate::channel::FramedCipherChannel;
use crate::dispatch::dispatch;
use crate::dispatch::report_for;
use crate::dispatch::Report;
use crate::dispatch::ReportModel;
use crate::handshake::act_one_outcome;
use crate::handshake::act_three_outcome;
use crate::handshake::started;
use crate::handshake::FailureReason;
use crate::handshake::HandshakeError;
use crate::handshake::HandshakeSession;
use crate::handshake::Phase;
use crate::handshake::SessionModel;
use crate::keys::EphemeralKeyPair;
use crate::keys::StaticKeyPair;

verus! {

/// How long a read may take during the handshake, in milliseconds. Reads
/// after the handshake wait without limit.
pub const HANDSHAKE_READ_TIMEOUT_MS: u64 = 10000;

/// Why a connection was dropped.
#[derive(Clone, Copy, Debug, PartialEq, Eq, Structural)]
pub enum ConnectionError {
    Handshake(HandshakeError),
    Channel(ChannelError),
}

/// What the caller does after handing bytes over, as a mathematical
/// value.
pub enum ActionModel {
    Send { bytes: Seq<u8> },
    Established { peer: Seq<u8> },
    Continue,
    Deliver { report: ReportModel },
    Drop { error: ConnectionError },
}

/// What the caller does after handing bytes over.
pub enum Action {
    /// Write these bytes to the peer, then read on.
    Send { bytes: Vec<u8> },
    /// The handshake is complete. The peer's node id is authenticated.
    Established { peer: [u8; 33] },
    /// Nothing to do but read on: a frame header was accepted.
    Continue,
    /// A message arrived: log its report and read on.
    Deliver { report: Report },
    /// The connection is lost: log the error and close the socket.
    Drop { error: ConnectionError },
}

impl View for Action {
    type V = ActionModel;

    open spec fn view(&self) -> ActionModel {
        match self {
            Action::Send { bytes } => ActionModel::Send { bytes: bytes@ },
            Action::Established { peer } => ActionModel::Established { peer: peer@ },
            Action::Continue => ActionModel::Continue,
            Action::Deliver { report } => ActionModel::Deliver { report: report@ },
            Action::Drop { error } => ActionModel::Drop { error: *error },
        }
    }
}

/// The mathematical state of a connection.
pub struct ConnectionModel {
    pub session: SessionModel,
    pub channel: ChannelModel,
}

impl ConnectionModel {
    /// The state that every accepted connection begins in. It depends on
    /// the node's public key and the fresh ephemeral key pair alone.
    pub open spec fn accepted(
        local_public: Seq<u8>,
        ephemeral: Seq<u8>,
        ephemeral_public: Seq<u8>,
    ) -> ConnectionModel {
        ConnectionModel {
            session: started(local_public, ephemeral, ephemeral_public),
            channel: ChannelModel::closed(),
        }
    }

    /// The number of bytes to read next: an act during the handshake, a
    /// header or a sealed message after it, nothing once the connection
    /// is lost.
    pub open spec fn wanted(self) -> nat {
        match self.session {
            SessionModel::AwaitingAct1 { .. } => 50,
            SessionModel::AwaitingAct3 { .. } => 66,
            SessionModel::Established { .. } => match self.channel.stage {
                FrameStage::AwaitingHeader => 18,
                FrameStage::AwaitingBody { length } => (length + 16) as nat,
                FrameStage::Closed => 0,
            },
            _ => 0,
        }
    }

    /// The state after a failed handshake step.
    pub open spec fn failed(self, error: HandshakeError) -> (ConnectionModel, ActionModel) {
        (
            ConnectionModel { session: SessionModel::Failed { error }, channel: self.channel },
            ActionModel::Drop { error: ConnectionError::Handshake(error) },
        )
    }

    /// The state after a channel step, and the action that a successful
    /// step asks for.
    pub open spec fn framed<T>(
        self,
        step: (ChannelModel, Result<T, ChannelError>),
        action: spec_fn(T) -> ActionModel,
    ) -> (ConnectionModel, ActionModel) {
        (
            ConnectionModel { session: self.session, channel: step.0 },
            match step.1 {
                Ok(value) => action(value),
                Err(error) => ActionModel::Drop { error: ConnectionError::Channel(error) },
            },
        )
    }

    /// The next state and the action for bytes that arrived.
    pub open spec fn on_bytes(self, local_secret: Seq<u8>, bytes: Seq<u8>) -> (
        ConnectionModel,
        ActionModel,
    ) {
        match self.session {
            SessionModel::AwaitingAct1 { h, ck, ephemeral, ephemeral_public } => match act_one_outcome(
                h,
                ck,
                local_secret,
                ephemeral,
                ephemeral_public,
                bytes,
            ) {
                Ok((next, reply)) => (
                    ConnectionModel { session: next, channel: self.channel },
                    ActionModel::Send { bytes: reply },
                ),
                Err(error) => self.failed(error),
            },
            SessionModel::AwaitingAct3 { h, ck, ephemeral, temp_k2, .. } => match act_three_outcome(
                h,
                ck,
                ephemeral,
                temp_k2,
                bytes,
            ) {
                Ok((keys, peer)) => (
                    ConnectionModel {
                        session: SessionModel::Established { remote_static: peer },
                        channel: ChannelModel {
                            receive: keys.receive,
                            send: keys.send,
                            stage: FrameStage::AwaitingHeader,
                        },
                    },
                    ActionModel::Established { peer },
                ),
                Err(error) => self.failed(error),
            },
            SessionModel::Established { .. } => match self.channel.stage {
                FrameStage::AwaitingHeader => self.framed(
                    self.channel.decrypt_length(bytes),
                    |length: u16| ActionModel::Continue,
                ),
                _ => self.framed(
                    self.channel.decrypt_payload(bytes),
                    |message: Seq<u8>| ActionModel::Deliver { report: report_for(message) },
                ),
            },
            _ => (
                ConnectionModel { session: self.session.out_of_order(1), channel: self.channel },
                ActionModel::Drop {
                    error: ConnectionError::Handshake(
                        HandshakeError { act: 1, reason: FailureReason::OutOfOrder },
                    ),
                },
            ),
        }
    }

    /// Whether the bytes are an act or a frame part that was altered after
    /// it was written: an act one whose tag is not the sealed one, an act
    /// three or a header or a sealed message in which a byte of a tag was
    /// changed.
    pub open spec fn is_altered(self, local_secret: Seq<u8>, bytes: Seq<u8>) -> bool {
        match self.session {
            SessionModel::AwaitingAct1 { .. } => !self.session.act_one_tag_is_sealed(
                local_secret,
                bytes,
            ),
            SessionModel::AwaitingAct3 { .. } => self.session.act_three_is_altered(bytes),
            SessionModel::Established { .. } => self.channel.receive.is_altered(bytes),
            _ => false,
        }
    }

    /// The state after the connection was torn down for `reason`.
    pub open spec fn torn_down(self, reason: FailureReason) -> ConnectionModel {
        ConnectionModel { session: self.session.aborted(reason), channel: ChannelModel::closed() }
    }
}

/// One inbound connection: its handshake session and its frame channel.
pub struct Connection {
    session: HandshakeSession,
    channel: FramedCipherChannel,
}

impl View for Connection {
    type V = ConnectionModel;

    closed spec fn view(&self) -> ConnectionModel {
        ConnectionModel { session: self.session@, channel: self.channel@ }
    }
}

impl Connection {
    /// The state of a connection that was just accepted: the handshake
    /// has started with a fresh ephemeral key pair and awaits act one.
    /// Nothing of an earlier connection enters it.
    pub fn accept(local: &StaticKeyPair, ephemeral: EphemeralKeyPair) -> (connection: Connection)
        ensures
            connection@ == ConnectionModel::accepted(
                local.public(),
                ephemeral.secret(),
                ephemeral.public(),
            ),
    {
        let mut session = HandshakeSession::new();
        let _ = session.start(local, ephemeral);
        Connection { session, channel: FramedCipherChannel::closed() }
    }

    /// The phase of the handshake.
    pub fn phase(&self) -> (phase: Phase)
        ensures
            phase == self@.session.phase(),
    {
        self.session.phase()
    }

    /// The node id of the peer, once the handshake is complete.
    pub fn peer(&self) -> (peer: Option<[u8; 33]>)
        ensures
            match peer {
                Some(id) => self@.session == (SessionModel::Established { remote_static: id@ }),
                None => self@.session.phase() != Phase::Established,
            },
    {
        self.session.remote_static()
    }

    /// Where the receive side of the frame channel stands.
    pub fn stage(&self) -> (stage: FrameStage)
        ensures
            stage == self@.channel.stage,
    {
        self.channel.stage()
    }

    /// The number of bytes to read next. Zero means that the connection
    /// is lost and nothing more is to be read.
    pub fn wanted(&self) -> (count: usize)
        ensures
            count == self@.wanted(),
    {
        match self.session.phase() {
            Phase::AwaitingAct1 => 50,
            Phase::AwaitingAct3 => 66,
            Phase::Established => match self.channel.stage() {
                FrameStage::AwaitingHeader => 18,
                FrameStage::AwaitingBody { length } => length as usize + 16,
                FrameStage::Closed => 0,
            },
            _ => 0,
        }
    }

    /// The limit on the next read in milliseconds: a fixed limit while the
    /// handshake is under way, none after it.
    pub fn read_timeout_ms(&self) -> (limit: Option<u64>)
        ensures
            limit == if self@.session.in_progress() {
                Some(HANDSHAKE_READ_TIMEOUT_MS)
            } else {
                None
            },
    {
        match self.session.phase() {
            Phase::Start | Phase::AwaitingAct1 | Phase::AwaitingAct3 => Some(
                HANDSHAKE_READ_TIMEOUT_MS,
            ),
            _ => None,
        }
    }

    /// Takes the bytes that arrived and says what to do next. During the
    /// handshake the bytes are an act; after it they are a frame header or
    /// a sealed message, in turn. Bytes that were altered after they were
    /// written drop the connection, and nothing more is read on it; an
    /// altered act three fails the handshake in act three.
    pub fn on_bytes(&mut self, local: &StaticKeyPair, bytes: &[u8]) -> (action: Action)
        ensures
            (final(self)@, action@) == old(self)@.on_bytes(local.secret(), bytes@),
            old(self)@.is_altered(local.secret(), bytes@) ==> action@ is Drop
                && final(self)@.wanted() == 0,
            old(self)@.session is AwaitingAct1 && !old(self)@.session.act_one_tag_is_sealed(
                local.secret(),
                bytes@,
            ) ==> final(self)@.session is Failed,
            old(self)@.session.act_three_is_altered(bytes@) ==> (action@ matches ActionModel::Drop {
                error: ConnectionError::Handshake(error),
            } && error.act == 3 && final(self)@.session == (SessionModel::Failed { error })),
    {
        match self.session.phase() {
            Phase::AwaitingAct3 => match self.session.receive_act_three(bytes) {
                Ok((keys, peer)) => {
                    self.channel = FramedCipherChannel::new(keys.receive, keys.send);
                    Action::Established { peer }
                },
                Err(error) => Action::Drop { error: ConnectionError::Handshake(error) },
            },
            Phase::Established => match self.channel.stage() {
                FrameStage::AwaitingHeader => match self.channel.decrypt_length(bytes) {
                    Ok(_) => Action::Continue,
                    Err(error) => Action::Drop { error: ConnectionError::Channel(error) },
                },
                _ => match self.channel.decrypt_payload(bytes) {
                    Ok(message) => Action::Deliver { report: dispatch(message.as_slice()) },
                    Err(error) => Action::Drop { error: ConnectionError::Channel(error) },
                },
            },
            _ => match self.session.receive_act_one(local, bytes) {
                Ok(reply) => Action::Send { bytes: reply },
                Err(error) => Action::Drop { error: ConnectionError::Handshake(error) },
            },
        }
    }

    /// Tears the connection down, whatever it was doing: the frame
    /// channel is closed and erased, and a handshake in progress fails for
    /// `reason` and drops its keys. No secret and no partial frame is left.
    pub fn teardown(&mut self, reason: FailureReason)
        ensures
            final(self)@ == old(self)@.torn_down(reason),
            final(self)@.session.holds_no_secret(),
            final(self)@.channel == ChannelModel::closed(),
            final(self)@.wanted() == 0,
    {
        self.session.abort(reason);
        self.channel.close();
    }
}

} // verus!
