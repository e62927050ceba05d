//! The encrypted frame channel that follows the handshake. Each direction
//! has its own key, chaining key and nonce counter. A frame is an 18-byte
//! sealed length header followed by the sealed message.

use vstd::prelude::*;
use crate::buf::UtlBuf;
use crate::primitives::aead_open;
use crate::primitives::aead_seal;
use crate::primitives::open;
use crate::primitives::same_body;
use crate::primitives::seal;
use crate::symmetric::derive_keys;
use crate::symmetric::derive_pair;
use crate::symmetric::encode_nonce;
use crate::symmetric::nonce_bytes;

verus! {

/// Number of AEAD operations under one key before it is replaced.
pub const ROTATION_INTERVAL: u64 = 1000;

/// Largest message a frame can carry.
pub const MAX_MESSAGE_LEN: usize = 65535;

/// Length of a sealed length header: two bytes and a tag.
pub const HEADER_LEN: usize = 18;

/// The mathematical state of one direction.
pub struct CipherModel {
    pub key: Seq<u8>,
    pub chaining_key: Seq<u8>,
    pub nonce: nat,
}

impl CipherModel {
    /// The state after one successful AEAD operation: the counter goes up
    /// by one, and when it reaches the rotation interval the key and the
    /// chaining key are replaced by what HKDF derives from them and the
    /// counter starts again at zero.
    pub open spec fn advance(self) -> CipherModel {
        if self.nonce + 1 == ROTATION_INTERVAL {
            let next = derive_pair(self.chaining_key, self.key);
            CipherModel { key: next.1, chaining_key: next.0, nonce: 0 }
        } else {
            CipherModel { key: self.key, chaining_key: self.chaining_key, nonce: self.nonce + 1 }
        }
    }

    /// The state after `count` successful AEAD operations.
    pub open spec fn advance_by(self, count: nat) -> CipherModel
        decreases count,
    {
        if count == 0 {
            self
        } else {
            self.advance_by((count - 1) as nat).advance()
        }
    }

    /// What sealing `plaintext` in this state gives.
    pub open spec fn seal(self, plaintext: Seq<u8>) -> Seq<u8> {
        aead_seal(self.key, nonce_bytes(self.nonce as u64), Seq::empty(), plaintext)
    }

    /// What opening `ciphertext` in this state gives.
    pub open spec fn open(self, ciphertext: Seq<u8>) -> Option<Seq<u8>> {
        aead_open(self.key, nonce_bytes(self.nonce as u64), Seq::empty(), ciphertext)
    }

    /// Whether `sealed` was altered after it was sealed in this state: its
    /// ciphertext bytes are those that sealing some text gives, yet it is
    /// not the sealing of that text. That is so when a byte of its tag was
    /// changed.
    pub open spec fn is_altered(self, sealed: Seq<u8>) -> bool {
        exists|text: Seq<u8>| #[trigger]
            same_body(self.key, nonce_bytes(self.nonce as u64), Seq::empty(), sealed, text)
                && sealed != self.seal(text)
    }

    /// The state that holds no key material.
    pub open spec fn erased() -> CipherModel {
        CipherModel {
            key: Seq::new(32, |i: int| 0u8),
            chaining_key: Seq::new(32, |i: int| 0u8),
            nonce: 0,
        }
    }
}

/// A message length as the two bytes of a header, most significant first.
pub open spec fn length_bytes(len: u16) -> Seq<u8> {
    seq![(len / 256) as u8, (len % 256) as u8]
}

/// The message length that a header announces: `None` when the header
/// does not open.
pub open spec fn header_length(state: CipherModel, header: Seq<u8>) -> Option<u16> {
    match state.open(header) {
        Some(plain) => if plain.len() == 2 {
            Some((plain[0] * 256 + plain[1]) as u16)
        } else {
            None
        },
        None => None,
    }
}

/// The frame that carries `message` when sealed in `state`.
pub open spec fn frame_bytes(state: CipherModel, message: Seq<u8>) -> Seq<u8> {
    state.seal(length_bytes(message.len() as u16)) + state.advance().seal(message)
}

/// What a receiver in `state` recovers from a whole frame: the message and
/// the receiver's next state. `None` when the frame is malformed or does
/// not authenticate.
pub open spec fn open_frame(state: CipherModel, frame: Seq<u8>) -> Option<(Seq<u8>, CipherModel)> {
    if frame.len() < HEADER_LEN {
        None
    } else {
        match header_length(state, frame.subrange(0, HEADER_LEN as int)) {
            None => None,
            Some(len) => if frame.len() != HEADER_LEN + len + 16 {
                None
            } else {
                match state.advance().open(frame.subrange(HEADER_LEN as int, frame.len() as int)) {
                    None => None,
                    Some(message) => Some((message, state.advance().advance())),
                }
            },
        }
    }
}

/// One direction of a session: a key, the chaining key it is rotated
/// with, and the nonce counter.
pub struct CipherState {
    key: [u8; 32],
    chaining_key: [u8; 32],
    nonce: u64,
}

impl View for CipherState {
    type V = CipherModel;

    closed spec fn view(&self) -> CipherModel {
        CipherModel { key: self.key@, chaining_key: self.chaining_key@, nonce: self.nonce as nat }
    }
}

impl CipherState {
    #[verifier::type_invariant]
    spec fn well_formed(&self) -> bool {
        self.nonce < ROTATION_INTERVAL
    }

    /// A fresh direction: the counter starts at zero.
    pub fn new(key: [u8; 32], chaining_key: [u8; 32]) -> (state: CipherState)
        ensures
            state@ == (CipherModel { key: key@, chaining_key: chaining_key@, nonce: 0 }),
    {
        CipherState { key, chaining_key, nonce: 0 }
    }

    /// A direction that holds no key material.
    pub fn erased() -> (state: CipherState)
        ensures
            state@ == CipherModel::erased(),
    {
        let state = CipherState { key: [0u8; 32], chaining_key: [0u8; 32], nonce: 0 };
        assert(state.key@ =~= Seq::new(32, |i: int| 0u8));
        assert(state.chaining_key@ =~= Seq::new(32, |i: int| 0u8));
        state
    }

    /// The current key.
    pub fn key(&self) -> (key: [u8; 32])
        ensures
            key@ == self@.key,
    {
        self.key
    }

    /// The chaining key that the next rotation starts from.
    pub fn chaining_key(&self) -> (chaining_key: [u8; 32])
        ensures
            chaining_key@ == self@.chaining_key,
    {
        self.chaining_key
    }

    /// The nonce counter, always below the rotation interval.
    pub fn nonce(&self) -> (nonce: u64)
        ensures
            nonce == self@.nonce,
            nonce < ROTATION_INTERVAL,
    {
        proof {
            use_type_invariant(self);
        }
        self.nonce
    }

    /// Counts one successful AEAD operation, rotating the key when the
    /// counter reaches the rotation interval.
    pub fn advance(&mut self)
        ensures
            final(self)@ == old(self)@.advance(),
    {
        proof {
            use_type_invariant(&*self);
        }
        if self.nonce + 1 == ROTATION_INTERVAL {
            let next = derive_keys(&self.chaining_key, self.key.as_slice());
            *self = CipherState { key: next.1, chaining_key: next.0, nonce: 0 };
        } else {
            *self = CipherState {
                key: self.key,
                chaining_key: self.chaining_key,
                nonce: self.nonce + 1,
            };
        }
    }

    /// Seals `plaintext` under the current key and counter, then counts
    /// the operation.
    pub fn seal_next(&mut self, plaintext: &[u8]) -> (ciphertext: Vec<u8>)
        requires
            plaintext@.len() <= MAX_MESSAGE_LEN,
        ensures
            ciphertext@ == old(self)@.seal(plaintext@),
            ciphertext@.len() == plaintext@.len() + 16,
            old(self)@.open(ciphertext@) == Some(plaintext@),
            final(self)@ == old(self)@.advance(),
    {
        let nonce = encode_nonce(self.nonce);
        let ad: [u8; 0] = [];
        assert(ad@ =~= Seq::<u8>::empty());
        let ciphertext = seal(&self.key, &nonce, ad.as_slice(), plaintext);
        self.advance();
        ciphertext
    }

    /// Opens `ciphertext` under the current key and counter. On success
    /// the operation is counted; on failure the state is unchanged. What
    /// opens is exactly the sealing of its plaintext, so a ciphertext that
    /// was altered does not open.
    pub fn open_next(&mut self, ciphertext: &[u8]) -> (plaintext: Option<Vec<u8>>)
        ensures
            match plaintext {
                Some(p) => old(self)@.open(ciphertext@) == Some(p@) && p@.len() + 16
                    == ciphertext@.len() && ciphertext@ == old(self)@.seal(p@) && final(self)@
                    == old(self)@.advance(),
                None => old(self)@.open(ciphertext@) is None && final(self)@ == old(self)@,
            },
            old(self)@.is_altered(ciphertext@) ==> plaintext is None,
    {
        let nonce = encode_nonce(self.nonce);
        let ad: [u8; 0] = [];
        assert(ad@ =~= Seq::<u8>::empty());
        let plaintext = open(&self.key, &nonce, ad.as_slice(), ciphertext);
        if plaintext.is_some() {
            self.advance();
        }
        plaintext
    }
}

/// Where the receive side of a channel stands between two reads.
#[derive(Clone, Copy, Debug, PartialEq, Eq, Structural)]
pub enum FrameStage {
    /// The next bytes are an 18-byte length header.
    AwaitingHeader,
    /// The next bytes are a sealed message of this length, and its tag.
    AwaitingBody { length: u16 },
    /// The channel is closed and holds no key material.
    Closed,
}

/// Why a channel operation failed. All but `TooLong` close the channel.
#[derive(Clone, Copy, Debug, PartialEq, Eq, Structural)]
pub enum ChannelError {
    /// The bytes do not have the length that the frame format fixes.
    BadLength,
    /// An authentication tag does not verify.
    AuthenticationFailed,
    /// A header was given where a body was due, or a body where a header.
    OutOfOrder,
    /// The channel was closed before the call.
    Closed,
    /// The message is longer than a frame can carry.
    TooLong,
}

/// The words for a channel failure in a log line.
pub open spec fn channel_error_text(error: ChannelError) -> Seq<char> {
    match error {
        ChannelError::BadLength => "frame of unexpected length"@,
        ChannelError::AuthenticationFailed => "frame authentication tag mismatch"@,
        ChannelError::OutOfOrder => "frame part out of order"@,
        ChannelError::Closed => "channel closed"@,
        ChannelError::TooLong => "message too long for a frame"@,
    }
}

impl ChannelError {
    /// The words for the failure in a log line.
    pub fn describe(&self) -> (text: &'static str)
        ensures
            text@ == channel_error_text(*self),
    {
        match self {
            ChannelError::BadLength => "frame of unexpected length",
            ChannelError::AuthenticationFailed => "frame authentication tag mismatch",
            ChannelError::OutOfOrder => "frame part out of order",
            ChannelError::Closed => "channel closed",
            ChannelError::TooLong => "message too long for a frame",
        }
    }
}

/// The mathematical state of a channel.
pub struct ChannelModel {
    pub receive: CipherModel,
    pub send: CipherModel,
    pub stage: FrameStage,
}

impl ChannelModel {
    /// The closed channel: no key material, no frame in progress.
    pub open spec fn closed() -> ChannelModel {
        ChannelModel {
            receive: CipherModel::erased(),
            send: CipherModel::erased(),
            stage: FrameStage::Closed,
        }
    }

    /// The channel after a header was given, and the length it announced
    /// or the failure.
    pub open spec fn decrypt_length(self, header: Seq<u8>) -> (ChannelModel, Result<
        u16,
        ChannelError,
    >) {
        match self.stage {
            FrameStage::Closed => (self, Err(ChannelError::Closed)),
            FrameStage::AwaitingBody { .. } => (Self::closed(), Err(ChannelError::OutOfOrder)),
            FrameStage::AwaitingHeader => if header.len() != HEADER_LEN {
                (Self::closed(), Err(ChannelError::BadLength))
            } else {
                match header_length(self.receive, header) {
                    None => (Self::closed(), Err(ChannelError::AuthenticationFailed)),
                    Some(length) => (
                        ChannelModel {
                            receive: self.receive.advance(),
                            send: self.send,
                            stage: FrameStage::AwaitingBody { length },
                        },
                        Ok(length),
                    ),
                }
            },
        }
    }

    /// The channel after a sealed message was given, and the message or
    /// the failure.
    pub open spec fn decrypt_payload(self, ciphertext: Seq<u8>) -> (ChannelModel, Result<
        Seq<u8>,
        ChannelError,
    >) {
        match self.stage {
            FrameStage::Closed => (self, Err(ChannelError::Closed)),
            FrameStage::AwaitingHeader => (Self::closed(), Err(ChannelError::OutOfOrder)),
            FrameStage::AwaitingBody { length } => if ciphertext.len() != length + 16 {
                (Self::closed(), Err(ChannelError::BadLength))
            } else {
                match self.receive.open(ciphertext) {
                    None => (Self::closed(), Err(ChannelError::AuthenticationFailed)),
                    Some(message) => (
                        ChannelModel {
                            receive: self.receive.advance(),
                            send: self.send,
                            stage: FrameStage::AwaitingHeader,
                        },
                        Ok(message),
                    ),
                }
            },
        }
    }

    /// The channel after a message was sealed for sending, and the frame
    /// or the failure.
    pub open spec fn encrypt_message(self, message: Seq<u8>) -> (ChannelModel, Result<
        Seq<u8>,
        ChannelError,
    >) {
        if self.stage == FrameStage::Closed {
            (self, Err(ChannelError::Closed))
        } else if message.len() > MAX_MESSAGE_LEN {
            (self, Err(ChannelError::TooLong))
        } else {
            (
                ChannelModel {
                    receive: self.receive,
                    send: self.send.advance().advance(),
                    stage: self.stage,
                },
                Ok(frame_bytes(self.send, message)),
            )
        }
    }
}

/// The outcome of an operation that yields bytes, as a mathematical value.
pub open spec fn bytes_outcome(outcome: Result<UtlBuf, ChannelError>) -> Result<
    Seq<u8>,
    ChannelError,
> {
    match outcome {
        Ok(buf) => Ok(buf@),
        Err(error) => Err(error),
    }
}

/// The outcome of an operation that yields a frame, as a mathematical
/// value.
pub open spec fn frame_outcome(outcome: Result<Vec<u8>, ChannelError>) -> Result<
    Seq<u8>,
    ChannelError,
> {
    match outcome {
        Ok(frame) => Ok(frame@),
        Err(error) => Err(error),
    }
}

/// The two directions of an established session and the place of the
/// receive side within a frame.
pub struct FramedCipherChannel {
    receive: CipherState,
    send: CipherState,
    stage: FrameStage,
}

impl View for FramedCipherChannel {
    type V = ChannelModel;

    closed spec fn view(&self) -> ChannelModel {
        ChannelModel { receive: self.receive@, send: self.send@, stage: self.stage }
    }
}

impl FramedCipherChannel {
    /// A channel over the two directions that a handshake yielded. It
    /// awaits a header.
    pub fn new(receive: CipherState, send: CipherState) -> (channel: FramedCipherChannel)
        ensures
            channel@ == (ChannelModel {
                receive: receive@,
                send: send@,
                stage: FrameStage::AwaitingHeader,
            }),
    {
        FramedCipherChannel { receive, send, stage: FrameStage::AwaitingHeader }
    }

    /// A channel that is closed from the outset.
    pub fn closed() -> (channel: FramedCipherChannel)
        ensures
            channel@ == ChannelModel::closed(),
    {
        FramedCipherChannel {
            receive: CipherState::erased(),
            send: CipherState::erased(),
            stage: FrameStage::Closed,
        }
    }

    /// Where the receive side stands.
    pub fn stage(&self) -> (stage: FrameStage)
        ensures
            stage == self@.stage,
    {
        self.stage
    }

    /// The nonce counter of the receive direction.
    pub fn receive_nonce(&self) -> (nonce: u64)
        ensures
            nonce == self@.receive.nonce,
    {
        self.receive.nonce()
    }

    /// The nonce counter of the send direction.
    pub fn send_nonce(&self) -> (nonce: u64)
        ensures
            nonce == self@.send.nonce,
    {
        self.send.nonce()
    }

    /// The current key of the receive direction.
    pub fn receive_key(&self) -> (key: [u8; 32])
        ensures
            key@ == self@.receive.key,
    {
        self.receive.key()
    }

    /// The current key of the send direction.
    pub fn send_key(&self) -> (key: [u8; 32])
        ensures
            key@ == self@.send.key,
    {
        self.send.key()
    }

    /// Closes the channel: both directions lose their key material and no
    /// frame stays in progress.
    pub fn close(&mut self)
        ensures
            final(self)@ == ChannelModel::closed(),
    {
        self.receive = CipherState::erased();
        self.send = CipherState::erased();
        self.stage = FrameStage::Closed;
    }

    /// Opens an 18-byte length header and returns the length of the
    /// message that follows. One nonce of the receive direction is used.
    /// Any failure closes the channel. An accepted header is exactly the
    /// sealing of the length it announces: a header that was altered is
    /// refused.
    pub fn decrypt_length(&mut self, header: &[u8]) -> (outcome: Result<u16, ChannelError>)
        ensures
            (final(self)@, outcome) == old(self)@.decrypt_length(header@),
            outcome matches Ok(length) ==> header@ == old(self)@.receive.seal(length_bytes(length)),
            old(self)@.receive.is_altered(header@) ==> outcome is Err && final(self)@.stage
                is Closed,
    {
        match self.stage {
            FrameStage::Closed => {
                return Err(ChannelError::Closed);
            },
            FrameStage::AwaitingBody { .. } => {
                self.close();
                return Err(ChannelError::OutOfOrder);
            },
            FrameStage::AwaitingHeader => {},
        }
        if header.len() != HEADER_LEN {
            self.close();
            return Err(ChannelError::BadLength);
        }
        match self.receive.open_next(header) {
            None => {
                self.close();
                Err(ChannelError::AuthenticationFailed)
            },
            Some(plain) => {
                let high: u16 = plain[0] as u16;
                let low: u16 = plain[1] as u16;
                let length: u16 = high * 256 + low;
                assert(plain@ =~= length_bytes(length));
                self.stage = FrameStage::AwaitingBody { length };
                Ok(length)
            },
        }
    }

    /// Opens the sealed message that a header announced. One nonce of the
    /// receive direction is used. Any failure closes the channel. An
    /// accepted ciphertext is exactly the sealing of the message: one that
    /// was altered is refused.
    pub fn decrypt_payload(&mut self, ciphertext: &[u8]) -> (outcome: Result<UtlBuf, ChannelError>)
        ensures
            (final(self)@, bytes_outcome(outcome)) == old(self)@.decrypt_payload(ciphertext@),
            outcome matches Ok(message) ==> ciphertext@ == old(self)@.receive.seal(message@),
            old(self)@.receive.is_altered(ciphertext@) ==> outcome is Err && final(self)@.stage
                is Closed,
    {
        let length = match self.stage {
            FrameStage::Closed => {
                return Err(ChannelError::Closed);
            },
            FrameStage::AwaitingHeader => {
                self.close();
                return Err(ChannelError::OutOfOrder);
            },
            FrameStage::AwaitingBody { length } => length,
        };
        if ciphertext.len() != length as usize + 16 {
            self.close();
            return Err(ChannelError::BadLength);
        }
        match self.receive.open_next(ciphertext) {
            None => {
                self.close();
                Err(ChannelError::AuthenticationFailed)
            },
            Some(plain) => {
                self.stage = FrameStage::AwaitingHeader;
                Ok(UtlBuf::from(plain))
            },
        }
    }

    /// Seals `message` into a frame for sending. Two nonces of the send
    /// direction are used. A receiver whose receive direction equals this
    /// send direction recovers exactly `message` from the frame, and ends
    /// in the state that this send direction ends in.
    pub fn encrypt_message(&mut self, message: &[u8]) -> (outcome: Result<Vec<u8>, ChannelError>)
        ensures
            (final(self)@, frame_outcome(outcome)) == old(self)@.encrypt_message(message@),
            outcome matches Ok(frame) ==> frame@.len() == HEADER_LEN + message@.len() + 16
                && open_frame(old(self)@.send, frame@) == Some((message@, final(self)@.send)),
    {
        if self.stage == FrameStage::Closed {
            return Err(ChannelError::Closed);
        }
        if message.len() > MAX_MESSAGE_LEN {
            return Err(ChannelError::TooLong);
        }
        let length: u16 = message.len() as u16;
        let prefix: [u8; 2] = [(length / 256) as u8, (length % 256) as u8];
        assert(prefix@ =~= length_bytes(length));
        let ghost before = self.send@;
        let mut frame = self.send.seal_next(prefix.as_slice());
        let ghost header = frame@;
        let body = self.send.seal_next(message);
        frame.extend_from_slice(body.as_slice());
        proof {
            assert(frame@ =~= frame_bytes(before, message@));
            assert(frame@.subrange(0, HEADER_LEN as int) =~= header);
            assert(frame@.subrange(HEADER_LEN as int, frame@.len() as int) =~= body@);
            let plain = length_bytes(length);
            assert((plain[0] * 256 + plain[1]) as u16 == length);
        }
        Ok(frame)
    }
}

/// Opening a header and then the sealed message recovers exactly what a
/// receiver recovers from the whole frame: where the frame opens, the two
/// steps succeed, yield its message and leave the receive direction in
/// the state that follows the frame, awaiting the next header; where it
/// does not, one of the two steps fails and the channel is closed.
pub proof fn lemma_two_steps_open_a_frame(channel: ChannelModel, frame: Seq<u8>)
    requires
        channel.stage is AwaitingHeader,
        frame.len() >= HEADER_LEN,
    ensures
        ({
            let first = channel.decrypt_length(frame.subrange(0, HEADER_LEN as int));
            let second = first.0.decrypt_payload(
                frame.subrange(HEADER_LEN as int, frame.len() as int),
            );
            match open_frame(channel.receive, frame) {
                Some((message, next)) => first.1 is Ok && second.1 == Ok::<Seq<u8>, ChannelError>(
                    message,
                ) && second.0 == (ChannelModel {
                    receive: next,
                    send: channel.send,
                    stage: FrameStage::AwaitingHeader,
                }),
                None => (first.1 is Err || second.1 is Err) && second.0 == ChannelModel::closed(),
            }
        }),
{
}

/// Under one key the nonce counter takes each value below the rotation
/// interval once: from a fresh direction, `count` successful operations
/// leave the key in place with the counter at `count`, and the operation
/// that brings the count to the rotation interval replaces the key and
/// the chaining key and sets the counter back to zero.
pub proof fn lemma_rotation_boundary(fresh: CipherModel, count: nat)
    requires
        fresh.nonce == 0,
        count <= ROTATION_INTERVAL,
    ensures
        count < ROTATION_INTERVAL ==> fresh.advance_by(count) == (CipherModel {
            key: fresh.key,
            chaining_key: fresh.chaining_key,
            nonce: count,
        }),
        count == ROTATION_INTERVAL ==> fresh.advance_by(count) == (CipherModel {
            key: derive_pair(fresh.chaining_key, fresh.key).1,
            chaining_key: derive_pair(fresh.chaining_key, fresh.key).0,
            nonce: 0,
        }),
    decreases count,
{
    if count > 0 {
        lemma_rotation_boundary(fresh, (count - 1) as nat);
    }
}

} // verus!
