//! The responder side of the three-act Noise XK handshake.
//!
//! The session walks `Start -> AwaitingAct1 -> AwaitingAct3 -> Established`.
//! Act two is written in the same step that accepts act one. Any failure
//! ends the session for good: it moves to `Failed` and keeps no key
//! material.

use vstd::prelude::*;
use vstd::string::StringExecFns;
use vstd::string::StringSliceAdditionalSpecFns;
use crate::channel::CipherModel;
use crate::channel::CipherState;
use crate::keys::EphemeralKeyPair;
use crate::keys::StaticKeyPair;
use crate::primitives::aead_open;
use crate::primitives::aead_seal;
use crate::primitives::ecdh;
use crate::primitives::open;
use crate::primitives::public_key_of;
use crate::primitives::same_body;
use crate::primitives::seal;
use crate::primitives::sha256;
use crate::primitives::sha256_digest;
use crate::primitives::shared_secret;
use crate::symmetric::absorb;
use crate::symmetric::array_33;
use crate::symmetric::derive_keys;
use crate::symmetric::derive_pair;
use crate::symmetric::encode_nonce;
use crate::symmetric::mix_hash;
use crate::symmetric::nonce_bytes;
use crate::text::decimal;
use crate::text::decimal_string;

verus! {

/// Length of act one and of act two.
pub const ACT_ONE_LEN: usize = 50;

/// Length of act three.
pub const ACT_THREE_LEN: usize = 66;

/// Why a handshake ended.
#[derive(Clone, Copy, Debug, PartialEq, Eq, Structural)]
pub enum FailureReason {
    /// The act does not have the length the protocol fixes for it.
    BadLength,
    /// The version byte is not zero.
    UnsupportedVersion,
    /// A public key is not a point on the curve.
    InvalidKey,
    /// An authentication tag does not verify.
    AuthenticationFailed,
    /// The session is not in the state that this step starts from.
    OutOfOrder,
    /// The peer closed the connection before the handshake was done.
    ConnectionClosed,
    /// The peer sent nothing within the time allowed for a handshake read.
    Timeout,
}

/// A fatal handshake failure: the act it happened in and the reason.
#[derive(Clone, Copy, Debug, PartialEq, Eq, Structural)]
pub struct HandshakeError {
    pub act: u8,
    pub reason: FailureReason,
}

/// The words for a failure reason in a log line.
pub open spec fn reason_text(reason: FailureReason) -> Seq<char> {
    match reason {
        FailureReason::BadLength => "unexpected length"@,
        FailureReason::UnsupportedVersion => "unsupported version"@,
        FailureReason::InvalidKey => "invalid public key"@,
        FailureReason::AuthenticationFailed => "authentication tag mismatch"@,
        FailureReason::OutOfOrder => "step out of order"@,
        FailureReason::ConnectionClosed => "connection closed"@,
        FailureReason::Timeout => "read timed out"@,
    }
}

/// The log line for a handshake failure: the role, the act and the reason.
pub open spec fn error_text(error: HandshakeError) -> Seq<char> {
    "responder handshake failed in act "@ + decimal(error.act as nat) + ": "@ + reason_text(
        error.reason,
    )
}

impl FailureReason {
    /// The words for the reason in a log line.
    pub fn describe(&self) -> (text: &'static str)
        ensures
            text@ == reason_text(*self),
    {
        match self {
            FailureReason::BadLength => "unexpected length",
            FailureReason::UnsupportedVersion => "unsupported version",
            FailureReason::InvalidKey => "invalid public key",
            FailureReason::AuthenticationFailed => "authentication tag mismatch",
            FailureReason::OutOfOrder => "step out of order",
            FailureReason::ConnectionClosed => "connection closed",
            FailureReason::Timeout => "read timed out",
        }
    }
}

impl HandshakeError {
    /// The log line for the failure.
    pub fn describe(&self) -> (text: String)
        ensures
            text@ == error_text(*self),
    {
        let mut text = String::from_str("responder handshake failed in act ");
        text.append(decimal_string(self.act as u16).as_str());
        text.append(": ");
        text.append(self.reason.describe());
        text
    }
}

/// Where a session stands.
#[derive(Clone, Copy, Debug, PartialEq, Eq, Structural)]
pub enum Phase {
    Start,
    AwaitingAct1,
    AwaitingAct3,
    Established,
    Failed,
}

/// The mathematical state of a session.
pub enum SessionModel {
    Start,
    AwaitingAct1 { h: Seq<u8>, ck: Seq<u8>, ephemeral: Seq<u8>, ephemeral_public: Seq<u8> },
    AwaitingAct3 {
        h: Seq<u8>,
        ck: Seq<u8>,
        ephemeral: Seq<u8>,
        temp_k2: Seq<u8>,
        remote_ephemeral: Seq<u8>,
    },
    Established { remote_static: Seq<u8> },
    Failed { error: HandshakeError },
}

/// The mathematical value of the two directions that a handshake yields.
pub struct SessionKeysModel {
    pub receive: CipherModel,
    pub send: CipherModel,
}

/// The session keys: one cipher state for each direction.
pub struct SessionKeys {
    pub receive: CipherState,
    pub send: CipherState,
}

impl SessionKeysModel {
    /// The same two directions as the other side holds them: what one
    /// side sends under, the other receives under.
    pub open spec fn mirrored(self) -> SessionKeysModel {
        SessionKeysModel { receive: self.send, send: self.receive }
    }
}

impl View for SessionKeys {
    type V = SessionKeysModel;

    open spec fn view(&self) -> SessionKeysModel {
        SessionKeysModel { receive: self.receive@, send: self.send@ }
    }
}

/// The protocol name that the chaining key starts from.
pub open spec fn protocol_name() -> Seq<u8> {
    "Noise_XK_secp256k1_ChaChaPoly_SHA256".spec_bytes()
}

/// The prologue that the transcript hash absorbs first.
pub open spec fn prologue() -> Seq<u8> {
    "lightning".spec_bytes()
}

/// The chaining key that every handshake starts from: the hash of the
/// protocol name.
pub open spec fn first_chaining_key() -> Seq<u8> {
    sha256(protocol_name())
}

/// The transcript hash that every handshake starts from: it has absorbed
/// the prologue and the responder's static public key.
pub open spec fn first_hash(responder_public: Seq<u8>) -> Seq<u8> {
    mix_hash(mix_hash(first_chaining_key(), prologue()), responder_public)
}

/// The session after `start`: the chaining key is the hash of the
/// protocol name, the transcript hash has absorbed the prologue and the
/// responder's static public key, and the session holds the ephemeral key
/// pair of this attempt.
pub open spec fn started(
    local_public: Seq<u8>,
    ephemeral: Seq<u8>,
    ephemeral_public: Seq<u8>,
) -> SessionModel {
    SessionModel::AwaitingAct1 {
        h: first_hash(local_public),
        ck: first_chaining_key(),
        ephemeral,
        ephemeral_public,
    }
}

/// The transcript hash and key with which the tag of act one is checked,
/// and the chaining key that follows. `None` when the initiator's
/// ephemeral key is not a point.
pub open spec fn act_one_keys(h: Seq<u8>, ck: Seq<u8>, local_secret: Seq<u8>, act: Seq<u8>) -> Option<
    (Seq<u8>, Seq<u8>, Seq<u8>),
> {
    let remote_ephemeral = act.subrange(1, 34);
    match ecdh(remote_ephemeral, local_secret) {
        None => None,
        Some(es) => {
            let derived = derive_pair(ck, es);
            Some((mix_hash(h, remote_ephemeral), derived.0, derived.1))
        },
    }
}

/// What accepting act one and writing act two comes to: the next state
/// and the 50 bytes of act two, or the failure.
pub open spec fn act_one_outcome(
    h: Seq<u8>,
    ck: Seq<u8>,
    local_secret: Seq<u8>,
    ephemeral_secret: Seq<u8>,
    ephemeral_public: Seq<u8>,
    act: Seq<u8>,
) -> Result<(SessionModel, Seq<u8>), HandshakeError> {
    if act.len() != ACT_ONE_LEN {
        Err(HandshakeError { act: 1, reason: FailureReason::BadLength })
    } else if act[0] != 0 {
        Err(HandshakeError { act: 1, reason: FailureReason::UnsupportedVersion })
    } else {
        match act_one_keys(h, ck, local_secret, act) {
            None => Err(HandshakeError { act: 1, reason: FailureReason::InvalidKey }),
            Some((h1, ck1, temp_k1)) => {
                let tag = act.subrange(34, 50);
                if aead_open(temp_k1, nonce_bytes(0), h1, tag) is None {
                    Err(HandshakeError { act: 1, reason: FailureReason::AuthenticationFailed })
                } else {
                    act_two_outcome(
                        mix_hash(h1, tag),
                        ck1,
                        ephemeral_secret,
                        ephemeral_public,
                        act.subrange(1, 34),
                    )
                }
            },
        }
    }
}

/// What writing act two comes to, from the transcript after act one.
pub open spec fn act_two_outcome(
    h: Seq<u8>,
    ck: Seq<u8>,
    ephemeral_secret: Seq<u8>,
    ephemeral_public: Seq<u8>,
    remote_ephemeral: Seq<u8>,
) -> Result<(SessionModel, Seq<u8>), HandshakeError> {
    match ecdh(remote_ephemeral, ephemeral_secret) {
        None => Err(HandshakeError { act: 2, reason: FailureReason::InvalidKey }),
        Some(ee) => {
            let h1 = mix_hash(h, ephemeral_public);
            let derived = derive_pair(ck, ee);
            let tag = aead_seal(derived.1, nonce_bytes(0), h1, Seq::empty());
            Ok(
                (
                    SessionModel::AwaitingAct3 {
                        h: mix_hash(h1, tag),
                        ck: derived.0,
                        ephemeral: ephemeral_secret,
                        temp_k2: derived.1,
                        remote_ephemeral,
                    },
                    seq![0u8] + ephemeral_public + tag,
                ),
            )
        },
    }
}

/// What accepting act three comes to: the session keys and the
/// initiator's static public key, or the failure.
pub open spec fn act_three_outcome(
    h: Seq<u8>,
    ck: Seq<u8>,
    ephemeral_secret: Seq<u8>,
    temp_k2: Seq<u8>,
    act: Seq<u8>,
) -> Result<(SessionKeysModel, Seq<u8>), HandshakeError> {
    if act.len() != ACT_THREE_LEN {
        Err(HandshakeError { act: 3, reason: FailureReason::BadLength })
    } else if act[0] != 0 {
        Err(HandshakeError { act: 3, reason: FailureReason::UnsupportedVersion })
    } else {
        let sealed_key = act.subrange(1, 50);
        let tag = act.subrange(50, 66);
        match aead_open(temp_k2, nonce_bytes(1), h, sealed_key) {
            None => Err(HandshakeError { act: 3, reason: FailureReason::AuthenticationFailed }),
            Some(remote_static) => match ecdh(remote_static, ephemeral_secret) {
                None => Err(HandshakeError { act: 3, reason: FailureReason::InvalidKey }),
                Some(se) => {
                    let derived = derive_pair(ck, se);
                    if aead_open(derived.1, nonce_bytes(0), mix_hash(h, sealed_key), tag) is None {
                        Err(
                            HandshakeError {
                                act: 3,
                                reason: FailureReason::AuthenticationFailed,
                            },
                        )
                    } else {
                        Ok((split(derived.0), remote_static))
                    }
                },
            },
        }
    }
}

/// Act one carries exactly the tag that sealing the empty payload gives
/// under the key and transcript hash of act one.
pub open spec fn act_one_tag_is_sealed(
    h: Seq<u8>,
    ck: Seq<u8>,
    local_secret: Seq<u8>,
    act: Seq<u8>,
) -> bool {
    match act_one_keys(h, ck, local_secret, act) {
        Some(keys) => act.subrange(34, 50) == aead_seal(
            keys.2,
            nonce_bytes(0),
            keys.0,
            Seq::empty(),
        ),
        None => false,
    }
}

/// Act three carries exactly the ciphertext that sealing `remote_static`
/// gives, and exactly the tag that sealing the empty payload gives under
/// the last handshake key.
pub open spec fn act_three_is_sealed(
    h: Seq<u8>,
    ck: Seq<u8>,
    ephemeral_secret: Seq<u8>,
    temp_k2: Seq<u8>,
    remote_static: Seq<u8>,
    act: Seq<u8>,
) -> bool {
    &&& act.subrange(1, 50) == aead_seal(temp_k2, nonce_bytes(1), h, remote_static)
    &&& match ecdh(remote_static, ephemeral_secret) {
        Some(se) => act.subrange(50, 66) == aead_seal(
            derive_pair(ck, se).1,
            nonce_bytes(0),
            mix_hash(h, act.subrange(1, 50)),
            Seq::empty(),
        ),
        None => false,
    }
}

/// Whether act three was altered after it was written: the ciphertext
/// bytes of its sealed key are those that sealing some key gives, yet the
/// act is not the one that seals that key. That is so when a byte of
/// either tag was changed.
pub open spec fn act_three_is_altered(
    h: Seq<u8>,
    ck: Seq<u8>,
    ephemeral_secret: Seq<u8>,
    temp_k2: Seq<u8>,
    act: Seq<u8>,
) -> bool {
    exists|key: Seq<u8>| #[trigger]
        same_body(temp_k2, nonce_bytes(1), h, act.subrange(1, 50), key) && !act_three_is_sealed(
            h,
            ck,
            ephemeral_secret,
            temp_k2,
            key,
            act,
        )
}

/// The two directions that the final chaining key splits into: the
/// responder receives under the first derived key and sends under the
/// second. Both rotate from the final chaining key.
pub open spec fn split(ck: Seq<u8>) -> SessionKeysModel {
    let derived = derive_pair(ck, Seq::empty());
    SessionKeysModel {
        receive: CipherModel { key: derived.0, chaining_key: ck, nonce: 0 },
        send: CipherModel { key: derived.1, chaining_key: ck, nonce: 0 },
    }
}

enum Stage {
    Start,
    AwaitingAct1 { h: [u8; 32], ck: [u8; 32], ephemeral: [u8; 32], ephemeral_public: [u8; 33] },
    AwaitingAct3 {
        h: [u8; 32],
        ck: [u8; 32],
        ephemeral: [u8; 32],
        temp_k2: [u8; 32],
        remote_ephemeral: [u8; 33],
    },
    Established { remote_static: [u8; 33] },
    Failed { error: HandshakeError },
}

/// One handshake attempt.
pub struct HandshakeSession {
    stage: Stage,
}

impl View for HandshakeSession {
    type V = SessionModel;

    closed spec fn view(&self) -> SessionModel {
        match self.stage {
            Stage::Start => SessionModel::Start,
            Stage::AwaitingAct1 { h, ck, ephemeral, ephemeral_public } => SessionModel::AwaitingAct1 {
                h: h@,
                ck: ck@,
                ephemeral: ephemeral@,
                ephemeral_public: ephemeral_public@,
            },
            Stage::AwaitingAct3 {
                h,
                ck,
                ephemeral,
                temp_k2,
                remote_ephemeral,
            } => SessionModel::AwaitingAct3 {
                h: h@,
                ck: ck@,
                ephemeral: ephemeral@,
                temp_k2: temp_k2@,
                remote_ephemeral: remote_ephemeral@,
            },
            Stage::Established { remote_static } => SessionModel::Established {
                remote_static: remote_static@,
            },
            Stage::Failed { error } => SessionModel::Failed { error },
        }
    }
}

impl SessionModel {
    /// The act that a session in progress is waiting for: zero before the
    /// start.
    pub open spec fn awaited_act(self) -> u8 {
        match self {
            SessionModel::AwaitingAct1 { .. } => 1,
            SessionModel::AwaitingAct3 { .. } => 3,
            _ => 0,
        }
    }

    /// Whether the handshake is still under way.
    pub open spec fn in_progress(self) -> bool {
        self is Start || self is AwaitingAct1 || self is AwaitingAct3
    }

    /// The session after the connection was lost for `reason`: a session
    /// in progress fails in the act it was waiting for, a concluded one
    /// stays as it is.
    pub open spec fn aborted(self, reason: FailureReason) -> SessionModel {
        if self.in_progress() {
            SessionModel::Failed { error: HandshakeError { act: self.awaited_act(), reason } }
        } else {
            self
        }
    }

    /// Whether the session awaits act one and `act` carries exactly the
    /// tag that sealing the empty payload gives.
    pub open spec fn act_one_tag_is_sealed(self, local_secret: Seq<u8>, act: Seq<u8>) -> bool {
        match self {
            SessionModel::AwaitingAct1 { h, ck, .. } => act_one_tag_is_sealed(
                h,
                ck,
                local_secret,
                act,
            ),
            _ => false,
        }
    }

    /// Whether the session awaits act three and `act` was altered after
    /// it was written.
    pub open spec fn act_three_is_altered(self, act: Seq<u8>) -> bool {
        match self {
            SessionModel::AwaitingAct3 { h, ck, ephemeral, temp_k2, .. } => act_three_is_altered(
                h,
                ck,
                ephemeral,
                temp_k2,
                act,
            ),
            _ => false,
        }
    }

    /// The session after a step that its state does not allow: a session
    /// that has failed keeps its failure, any other fails as out of order
    /// in the act of the step.
    pub open spec fn out_of_order(self, act: u8) -> SessionModel {
        if self is Failed {
            self
        } else {
            SessionModel::Failed {
                error: HandshakeError { act, reason: FailureReason::OutOfOrder },
            }
        }
    }

    /// Whether the state holds no secret: it is concluded, or not begun.
    pub open spec fn holds_no_secret(self) -> bool {
        self is Start || self is Established || self is Failed
    }

    /// The phase that a state belongs to.
    pub open spec fn phase(self) -> Phase {
        match self {
            SessionModel::Start => Phase::Start,
            SessionModel::AwaitingAct1 { .. } => Phase::AwaitingAct1,
            SessionModel::AwaitingAct3 { .. } => Phase::AwaitingAct3,
            SessionModel::Established { .. } => Phase::Established,
            SessionModel::Failed { .. } => Phase::Failed,
        }
    }
}

/// Computes the transcript hash and the chaining key that a handshake
/// with the given responder starts from.
pub fn first_transcript(responder_public: &[u8; 33]) -> (transcript: ([u8; 32], [u8; 32]))
    ensures
        transcript.0@ == first_hash(responder_public@),
        transcript.1@ == first_chaining_key(),
{
    let name = "Noise_XK_secp256k1_ChaChaPoly_SHA256";
    let ck = sha256_digest(name.as_bytes());
    let h = absorb(&ck, "lightning".as_bytes());
    let h = absorb(&h, responder_public.as_slice());
    (h, ck)
}

fn empty_tag_input() -> (empty: [u8; 0])
    ensures
        empty@ == Seq::<u8>::empty(),
{
    let empty: [u8; 0] = [];
    assert(empty@ =~= Seq::<u8>::empty());
    empty
}

impl HandshakeSession {
    #[verifier::type_invariant]
    spec fn well_formed(&self) -> bool {
        match self.stage {
            Stage::AwaitingAct1 { ephemeral, ephemeral_public, .. } => public_key_of(ephemeral@)
                == Some(ephemeral_public@),
            _ => true,
        }
    }

    /// A session that has not started. It depends on nothing, so every
    /// connection begins from the same state.
    pub fn new() -> (session: HandshakeSession)
        ensures
            session@ == SessionModel::Start,
    {
        HandshakeSession { stage: Stage::Start }
    }

    /// The phase the session is in.
    pub fn phase(&self) -> (phase: Phase)
        ensures
            phase == self@.phase(),
    {
        match self.stage {
            Stage::Start => Phase::Start,
            Stage::AwaitingAct1 { .. } => Phase::AwaitingAct1,
            Stage::AwaitingAct3 { .. } => Phase::AwaitingAct3,
            Stage::Established { .. } => Phase::Established,
            Stage::Failed { .. } => Phase::Failed,
        }
    }

    /// The failure that ended the session, if one did.
    pub fn failure(&self) -> (error: Option<HandshakeError>)
        ensures
            error == match self@ {
                SessionModel::Failed { error } => Some(error),
                _ => None,
            },
    {
        match self.stage {
            Stage::Failed { error } => Some(error),
            _ => None,
        }
    }

    /// The authenticated static public key of the initiator, once the
    /// session is established.
    pub fn remote_static(&self) -> (key: Option<[u8; 33]>)
        ensures
            match key {
                Some(k) => self@ == (SessionModel::Established { remote_static: k@ }),
                None => self@.phase() != Phase::Established,
            },
    {
        match self.stage {
            Stage::Established { remote_static } => Some(remote_static),
            _ => None,
        }
    }

    /// Ends a session in progress because the connection was lost. The
    /// session fails in the act it was waiting for and drops its keys. A
    /// concluded session is left as it is.
    pub fn abort(&mut self, reason: FailureReason)
        ensures
            final(self)@ == old(self)@.aborted(reason),
            final(self)@.holds_no_secret(),
    {
        match self.stage {
            Stage::Start => {
                self.fail(0, reason);
            },
            Stage::AwaitingAct1 { .. } => {
                self.fail(1, reason);
            },
            Stage::AwaitingAct3 { .. } => {
                self.fail(3, reason);
            },
            _ => {},
        }
    }

    fn refuse(&mut self, act: u8) -> (error: HandshakeError)
        ensures
            error == (HandshakeError { act, reason: FailureReason::OutOfOrder }),
            final(self)@ == old(self)@.out_of_order(act),
    {
        let error = HandshakeError { act, reason: FailureReason::OutOfOrder };
        match self.stage {
            Stage::Failed { .. } => {},
            _ => {
                self.stage = Stage::Failed { error };
            },
        }
        error
    }

    fn fail(&mut self, act: u8, reason: FailureReason) -> (error: HandshakeError)
        ensures
            error == (HandshakeError { act, reason }),
            final(self)@ == (SessionModel::Failed { error }),
    {
        let error = HandshakeError { act, reason };
        self.stage = Stage::Failed { error };
        error
    }

    /// Starts the handshake as responder and takes over the ephemeral key
    /// pair of this attempt. From `Start` the session moves to
    /// `AwaitingAct1`; from any other state the call is out of order and
    /// the session fails, unless it has failed before: then it keeps the
    /// failure that ended it.
    pub fn start(&mut self, local: &StaticKeyPair, ephemeral: EphemeralKeyPair) -> (outcome: Result<
        (),
        HandshakeError,
    >)
        ensures
            old(self)@ is Start ==> outcome is Ok && final(self)@ == started(
                local.public(),
                ephemeral.secret(),
                ephemeral.public(),
            ),
            !(old(self)@ is Start) ==> outcome == Err::<(), HandshakeError>(
                HandshakeError { act: 0, reason: FailureReason::OutOfOrder },
            ) && final(self)@ == old(self)@.out_of_order(0),
    {
        match self.stage {
            Stage::Start => {
                let (h, ck) = first_transcript(&local.node_id());
                self.stage = Stage::AwaitingAct1 {
                    h,
                    ck,
                    ephemeral: ephemeral.secret_bytes(),
                    ephemeral_public: ephemeral.public_bytes(),
                };
                Ok(())
            },
            _ => Err(self.refuse(0)),
        }
    }

    /// Accepts act one and writes act two with the ephemeral key pair of
    /// the session. On success the session awaits act three and the 50 bytes of
    /// act two are returned. An accepted act one carries exactly the tag
    /// that sealing the empty payload gives: an act with any other tag
    /// fails, whichever byte of the tag differs. Every failure lies in
    /// act one: once act one is accepted, writing act two cannot fail.
    pub fn receive_act_one(&mut self, local: &StaticKeyPair, act: &[u8]) -> (outcome: Result<
        Vec<u8>,
        HandshakeError,
    >)
        ensures
            match old(self)@ {
                SessionModel::AwaitingAct1 {
                    h,
                    ck,
                    ephemeral,
                    ephemeral_public,
                } => match act_one_outcome(h, ck, local.secret(), ephemeral, ephemeral_public, act@) {
                    Ok((next, reply)) => {
                        &&& final(self)@ == next
                        &&& act_one_tag_is_sealed(h, ck, local.secret(), act@)
                        &&& outcome matches Ok(bytes) && bytes@ == reply && bytes@.len()
                            == ACT_ONE_LEN
                    },
                    Err(error) => outcome == Err::<Vec<u8>, HandshakeError>(error) && final(self)@
                        == (SessionModel::Failed { error }),
                },
                _ => outcome == Err::<Vec<u8>, HandshakeError>(
                    HandshakeError { act: 1, reason: FailureReason::OutOfOrder },
                ) && final(self)@ == old(self)@.out_of_order(1),
            },
            !old(self)@.act_one_tag_is_sealed(local.secret(), act@) ==> outcome is Err
                && final(self)@ is Failed,
            outcome matches Err(error) ==> error.act == 1,
    {
        proof {
            use_type_invariant(&*self);
        }
        let (h, ck, ephemeral_secret, ephemeral_public) = match self.stage {
            Stage::AwaitingAct1 { h, ck, ephemeral, ephemeral_public } => (
                h,
                ck,
                ephemeral,
                ephemeral_public,
            ),
            _ => {
                return Err(self.refuse(1));
            },
        };
        if act.len() != ACT_ONE_LEN {
            return Err(self.fail(1, FailureReason::BadLength));
        }
        if act[0] != 0 {
            return Err(self.fail(1, FailureReason::UnsupportedVersion));
        }
        let remote_ephemeral = array_33(act, 1);
        let tag = vstd::slice::slice_subrange(act, 34, 50);
        let h1 = absorb(&h, remote_ephemeral.as_slice());
        let local_secret = local.secret_bytes();
        let es = match shared_secret(&remote_ephemeral, &local_secret) {
            Some(es) => es,
            None => {
                return Err(self.fail(1, FailureReason::InvalidKey));
            },
        };
        let (ck1, temp_k1) = derive_keys(&ck, es.as_slice());
        let nonce = encode_nonce(0);
        match open(&temp_k1, &nonce, h1.as_slice(), tag) {
            Some(plain) => {
                assert(plain@ =~= Seq::<u8>::empty());
            },
            None => {
                return Err(self.fail(1, FailureReason::AuthenticationFailed));
            },
        }
        let h2 = absorb(&h1, tag);

        let ee = match shared_secret(&remote_ephemeral, &ephemeral_secret) {
            Some(ee) => ee,
            None => {
                return Err(self.fail(2, FailureReason::InvalidKey));
            },
        };
        let h3 = absorb(&h2, ephemeral_public.as_slice());
        let (ck2, temp_k2) = derive_keys(&ck1, ee.as_slice());
        let reply_tag = seal(&temp_k2, &nonce, h3.as_slice(), empty_tag_input().as_slice());
        let h4 = absorb(&h3, reply_tag.as_slice());
        let mut reply: Vec<u8> = Vec::new();
        reply.push(0);
        reply.extend_from_slice(ephemeral_public.as_slice());
        reply.extend_from_slice(reply_tag.as_slice());
        assert(reply@ =~= seq![0u8] + ephemeral_public@ + reply_tag@);
        self.stage = Stage::AwaitingAct3 {
            h: h4,
            ck: ck2,
            ephemeral: ephemeral_secret,
            temp_k2,
            remote_ephemeral,
        };
        Ok(reply)
    }

    /// Accepts act three. On success the session is established and
    /// yields the session keys and the initiator's static public key. An
    /// accepted act three carries exactly the ciphertext that sealing the
    /// initiator's key gives and exactly the tag that sealing the empty
    /// payload gives: an act in which a byte of either tag was changed
    /// fails in act three, and the failed session takes no later act.
    pub fn receive_act_three(&mut self, act: &[u8]) -> (outcome: Result<
        (SessionKeys, [u8; 33]),
        HandshakeError,
    >)
        ensures
            match old(self)@ {
                SessionModel::AwaitingAct3 {
                    h,
                    ck,
                    ephemeral,
                    temp_k2,
                    remote_ephemeral,
                } => match act_three_outcome(h, ck, ephemeral, temp_k2, act@) {
                    Ok((keys, remote_static)) => {
                        &&& final(self)@ == (SessionModel::Established { remote_static })
                        &&& act_three_is_sealed(h, ck, ephemeral, temp_k2, remote_static, act@)
                        &&& outcome matches Ok(pair) && pair.0@ == keys && pair.1@
                            == remote_static
                    },
                    Err(error) => outcome == Err::<(SessionKeys, [u8; 33]), HandshakeError>(error)
                        && final(self)@ == (SessionModel::Failed { error }),
                },
                _ => outcome == Err::<(SessionKeys, [u8; 33]), HandshakeError>(
                    HandshakeError { act: 3, reason: FailureReason::OutOfOrder },
                ) && final(self)@ == old(self)@.out_of_order(3),
            },
            old(self)@.act_three_is_altered(act@) ==> (outcome matches Err(error) && error.act == 3
                && final(self)@ == (SessionModel::Failed { error })),
    {
        let (h, ck, ephemeral, temp_k2) = match self.stage {
            Stage::AwaitingAct3 { h, ck, ephemeral, temp_k2, .. } => (h, ck, ephemeral, temp_k2),
            _ => {
                return Err(self.refuse(3));
            },
        };
        if act.len() != ACT_THREE_LEN {
            return Err(self.fail(3, FailureReason::BadLength));
        }
        if act[0] != 0 {
            return Err(self.fail(3, FailureReason::UnsupportedVersion));
        }
        let sealed_key = vstd::slice::slice_subrange(act, 1, 50);
        let tag = vstd::slice::slice_subrange(act, 50, 66);
        let remote_static = match open(&temp_k2, &encode_nonce(1), h.as_slice(), sealed_key) {
            Some(plain) => {
                assert(plain@.subrange(0, 33) =~= plain@);
                array_33(plain.as_slice(), 0)
            },
            None => {
                return Err(self.fail(3, FailureReason::AuthenticationFailed));
            },
        };
        let h1 = absorb(&h, sealed_key);
        let se = match shared_secret(&remote_static, &ephemeral) {
            Some(se) => se,
            None => {
                return Err(self.fail(3, FailureReason::InvalidKey));
            },
        };
        let (ck1, temp_k3) = derive_keys(&ck, se.as_slice());
        match open(&temp_k3, &encode_nonce(0), h1.as_slice(), tag) {
            Some(plain) => {
                assert(plain@ =~= Seq::<u8>::empty());
            },
            None => {
                return Err(self.fail(3, FailureReason::AuthenticationFailed));
            },
        }
        let (receive_key, send_key) = derive_keys(&ck1, empty_tag_input().as_slice());
        let keys = SessionKeys {
            receive: CipherState::new(receive_key, ck1),
            send: CipherState::new(send_key, ck1),
        };
        self.stage = Stage::Established { remote_static };
        Ok((keys, remote_static))
    }
}

} // verus!
