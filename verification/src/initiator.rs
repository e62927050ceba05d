//! The initiating side of the handshake: the peer that a responder
//! faces. It writes act one, reads act two and writes act three.
//!
//! Its contracts say what a responder makes of each act: a responder that
//! holds the static key that was addressed accepts act one, and the
//! responder that wrote act two accepts act three and derives the same
//! two keys, each for the other direction.

use vstd::prelude::*;
use crate::channel::CipherModel;
use crate::channel::CipherState;
use crate::handshake::act_one_outcome;
use crate::handshake::act_three_outcome;
use crate::handshake::act_two_outcome;
use crate::handshake::first_chaining_key;
use crate::handshake::first_hash;
use crate::handshake::first_transcript;
use crate::handshake::FailureReason;
use crate::handshake::HandshakeError;
use crate::handshake::SessionKeys;
use crate::handshake::SessionKeysModel;
use crate::handshake::SessionModel;
use crate::handshake::ACT_ONE_LEN;
use crate::keys::EphemeralKeyPair;
use crate::keys::StaticKeyPair;
use crate::primitives::aead_open;
use crate::primitives::aead_seal;
use crate::primitives::ecdh;
use crate::primitives::open;
use crate::primitives::public_key_of;
use crate::primitives::seal;
use crate::primitives::shared_secret;
use crate::symmetric::absorb;
use crate::symmetric::array_33;
use crate::symmetric::derive_keys;
use crate::symmetric::derive_pair;
use crate::symmetric::encode_nonce;
use crate::symmetric::mix_hash;
use crate::symmetric::nonce_bytes;

verus! {

/// The mathematical state of an initiator that has written act one.
pub struct InitiatorModel {
    pub h: Seq<u8>,
    pub ck: Seq<u8>,
    pub ephemeral: Seq<u8>,
    pub ephemeral_public: Seq<u8>,
}

/// What writing act one comes to: the initiator's state and the 50 bytes
/// of the act. `None` when the responder's static key is not a point.
pub open spec fn act_one_written(
    ephemeral: Seq<u8>,
    ephemeral_public: Seq<u8>,
    responder_public: Seq<u8>,
) -> Option<(InitiatorModel, Seq<u8>)> {
    match ecdh(responder_public, ephemeral) {
        None => None,
        Some(es) => {
            let h = mix_hash(first_hash(responder_public), ephemeral_public);
            let derived = derive_pair(first_chaining_key(), es);
            let tag = aead_seal(derived.1, nonce_bytes(0), h, Seq::empty());
            Some(
                (
                    InitiatorModel {
                        h: mix_hash(h, tag),
                        ck: derived.0,
                        ephemeral,
                        ephemeral_public,
                    },
                    seq![0u8] + ephemeral_public + tag,
                ),
            )
        },
    }
}

/// What reading act two and writing act three comes to: the 66 bytes of
/// act three and the session keys, or the failure.
pub open spec fn act_two_read(
    state: InitiatorModel,
    local_secret: Seq<u8>,
    local_public: Seq<u8>,
    act: Seq<u8>,
) -> Result<(Seq<u8>, SessionKeysModel), HandshakeError> {
    if act.len() != ACT_ONE_LEN {
        Err(HandshakeError { act: 2, reason: FailureReason::BadLength })
    } else if act[0] != 0 {
        Err(HandshakeError { act: 2, reason: FailureReason::UnsupportedVersion })
    } else {
        let responder_ephemeral = act.subrange(1, 34);
        let tag = act.subrange(34, 50);
        let h1 = mix_hash(state.h, responder_ephemeral);
        match ecdh(responder_ephemeral, state.ephemeral) {
            None => Err(HandshakeError { act: 2, reason: FailureReason::InvalidKey }),
            Some(ee) => {
                let derived = derive_pair(state.ck, ee);
                if aead_open(derived.1, nonce_bytes(0), h1, tag) is None {
                    Err(HandshakeError { act: 2, reason: FailureReason::AuthenticationFailed })
                } else {
                    act_three_written(
                        mix_hash(h1, tag),
                        derived.0,
                        derived.1,
                        local_secret,
                        local_public,
                        responder_ephemeral,
                    )
                }
            },
        }
    }
}

/// What writing act three comes to, from the transcript after act two.
pub open spec fn act_three_written(
    h: Seq<u8>,
    ck: Seq<u8>,
    temp_k2: Seq<u8>,
    local_secret: Seq<u8>,
    local_public: Seq<u8>,
    responder_ephemeral: Seq<u8>,
) -> Result<(Seq<u8>, SessionKeysModel), HandshakeError> {
    match ecdh(responder_ephemeral, local_secret) {
        None => Err(HandshakeError { act: 3, reason: FailureReason::InvalidKey }),
        Some(se) => {
            let sealed_key = aead_seal(temp_k2, nonce_bytes(1), h, local_public);
            let derived = derive_pair(ck, se);
            let tag = aead_seal(derived.1, nonce_bytes(0), mix_hash(h, sealed_key), Seq::empty());
            let keys = derive_pair(derived.0, Seq::empty());
            Ok(
                (
                    seq![0u8] + sealed_key + tag,
                    SessionKeysModel {
                        receive: CipherModel { key: keys.1, chaining_key: derived.0, nonce: 0 },
                        send: CipherModel { key: keys.0, chaining_key: derived.0, nonce: 0 },
                    },
                ),
            )
        },
    }
}

/// Whether every responder that holds the private scalar of
/// `responder_public` accepts `act` as act one and goes on to write act
/// two from the initiator's own transcript, whatever ephemeral key pair
/// it uses.
pub open spec fn responder_continues(
    responder_public: Seq<u8>,
    state: InitiatorModel,
    act: Seq<u8>,
) -> bool {
    forall|responder_secret: Seq<u8>, ephemeral: Seq<u8>, ephemeral_public: Seq<u8>|
        public_key_of(responder_secret) == Some(responder_public) ==> #[trigger] act_one_outcome(
            first_hash(responder_public),
            first_chaining_key(),
            responder_secret,
            ephemeral,
            ephemeral_public,
            act,
        ) == act_two_outcome(state.h, state.ck, ephemeral, ephemeral_public, state.ephemeral_public)
}

/// Whether a responder that wrote act two with the private scalar
/// `ephemeral`, from the initiator's transcript, wrote exactly
/// `act_two`, accepts `act_three`, yields the initiator's static public
/// key and holds the keys `keys` in mirrored directions, every counter at
/// zero.
pub open spec fn responder_agrees(
    state: InitiatorModel,
    local_public: Seq<u8>,
    ephemeral: Seq<u8>,
    act_two: Seq<u8>,
    act_three: Seq<u8>,
    keys: SessionKeysModel,
) -> bool {
    match act_two_outcome(
        state.h,
        state.ck,
        ephemeral,
        act_two.subrange(1, 34),
        state.ephemeral_public,
    ) {
        Ok((SessionModel::AwaitingAct3 { h, ck, temp_k2, .. }, reply)) => reply == act_two
            && act_three_outcome(h, ck, ephemeral, temp_k2, act_three) == Ok::<
            (SessionKeysModel, Seq<u8>),
            HandshakeError,
        >((keys.mirrored(), local_public)) && keys.receive.nonce == 0 && keys.send.nonce == 0,
        _ => false,
    }
}

/// Whether every responder that holds the private scalar of the
/// ephemeral key in `act_two` completes the handshake in agreement with
/// the initiator.
pub open spec fn responder_completes(
    state: InitiatorModel,
    local_public: Seq<u8>,
    act_two: Seq<u8>,
    act_three: Seq<u8>,
    keys: SessionKeysModel,
) -> bool {
    forall|ephemeral: Seq<u8>| #[trigger]
        public_key_of(ephemeral) == Some(act_two.subrange(1, 34)) ==> responder_agrees(
            state,
            local_public,
            ephemeral,
            act_two,
            act_three,
            keys,
        )
}

/// An initiator that has written act one and awaits act two.
pub struct InitiatorSession {
    h: [u8; 32],
    ck: [u8; 32],
    ephemeral: EphemeralKeyPair,
}

impl View for InitiatorSession {
    type V = InitiatorModel;

    closed spec fn view(&self) -> InitiatorModel {
        InitiatorModel {
            h: self.h@,
            ck: self.ck@,
            ephemeral: self.ephemeral.secret(),
            ephemeral_public: self.ephemeral.public(),
        }
    }
}

impl InitiatorSession {
    /// Begins a handshake with the responder whose static public key is
    /// given and writes act one. It fails only when that key is not a
    /// point. Every responder that holds the key's private scalar accepts
    /// the act.
    pub fn write_act_one(ephemeral: EphemeralKeyPair, responder_public: &[u8; 33]) -> (outcome:
        Result<(InitiatorSession, Vec<u8>), HandshakeError>)
        ensures
            match act_one_written(ephemeral.secret(), ephemeral.public(), responder_public@) {
                Some((state, act)) => {
                    &&& responder_continues(responder_public@, state, act)
                    &&& outcome matches Ok(pair) && pair.0@ == state && pair.1@ == act
                        && act.len() == ACT_ONE_LEN
                },
                None => outcome matches Err(error) && error == (HandshakeError {
                    act: 1,
                    reason: FailureReason::InvalidKey,
                }),
            },
    {
        let (h0, ck0) = first_transcript(responder_public);
        let secret = ephemeral.secret_bytes();
        let public = ephemeral.public_bytes();
        let es = match shared_secret(responder_public, &secret) {
            Some(es) => es,
            None => {
                return Err(HandshakeError { act: 1, reason: FailureReason::InvalidKey });
            },
        };
        let h1 = absorb(&h0, public.as_slice());
        let (ck1, temp_k1) = derive_keys(&ck0, es.as_slice());
        let empty: [u8; 0] = [];
        assert(empty@ =~= Seq::<u8>::empty());
        let tag = seal(&temp_k1, &encode_nonce(0), h1.as_slice(), empty.as_slice());
        let h2 = absorb(&h1, tag.as_slice());
        let mut act: Vec<u8> = Vec::new();
        act.push(0);
        act.extend_from_slice(public.as_slice());
        act.extend_from_slice(tag.as_slice());
        proof {
            assert(act@ =~= seq![0u8] + public@ + tag@);
            assert(act@.subrange(1, 34) =~= public@);
            assert(act@.subrange(34, 50) =~= tag@);
        }
        Ok((InitiatorSession { h: h2, ck: ck1, ephemeral }, act))
    }

    /// Reads act two and writes act three with the initiator's static key
    /// pair. On success the handshake is complete on this side, and the
    /// responder that wrote act two completes it in agreement: it yields
    /// this side's static public key and the same two keys, each for the
    /// other direction, with every counter at zero.
    pub fn read_act_two(self, local: &StaticKeyPair, act: &[u8]) -> (outcome: Result<
        (Vec<u8>, SessionKeys),
        HandshakeError,
    >)
        ensures
            match act_two_read(self@, local.secret(), local.public(), act@) {
                Ok((reply, keys)) => {
                    &&& responder_completes(self@, local.public(), act@, reply, keys)
                    &&& outcome matches Ok(pair) && pair.0@ == reply && pair.1@ == keys
                },
                Err(error) => outcome matches Err(found) && found == error,
            },
    {
        if act.len() != ACT_ONE_LEN {
            return Err(HandshakeError { act: 2, reason: FailureReason::BadLength });
        }
        if act[0] != 0 {
            return Err(HandshakeError { act: 2, reason: FailureReason::UnsupportedVersion });
        }
        let responder_ephemeral = array_33(act, 1);
        let tag = vstd::slice::slice_subrange(act, 34, 50);
        let h1 = absorb(&self.h, responder_ephemeral.as_slice());
        let secret = self.ephemeral.secret_bytes();
        let public = self.ephemeral.public_bytes();
        let ee = match shared_secret(&responder_ephemeral, &secret) {
            Some(ee) => ee,
            None => {
                return Err(HandshakeError { act: 2, reason: FailureReason::InvalidKey });
            },
        };
        let (ck1, temp_k2) = derive_keys(&self.ck, ee.as_slice());
        match open(&temp_k2, &encode_nonce(0), h1.as_slice(), tag) {
            Some(plain) => {
                assert(plain@ =~= Seq::<u8>::empty());
            },
            None => {
                return Err(HandshakeError { act: 2, reason: FailureReason::AuthenticationFailed });
            },
        }
        let h2 = absorb(&h1, tag);

        let local_public = local.node_id();
        let local_secret = local.secret_bytes();
        let se = match shared_secret(&responder_ephemeral, &local_secret) {
            Some(se) => se,
            None => {
                return Err(HandshakeError { act: 3, reason: FailureReason::InvalidKey });
            },
        };
        let sealed_key = seal(&temp_k2, &encode_nonce(1), h2.as_slice(), local_public.as_slice());
        let h3 = absorb(&h2, sealed_key.as_slice());
        let (ck2, temp_k3) = derive_keys(&ck1, se.as_slice());
        let empty: [u8; 0] = [];
        assert(empty@ =~= Seq::<u8>::empty());
        let final_tag = seal(&temp_k3, &encode_nonce(0), h3.as_slice(), empty.as_slice());
        let (send_key, receive_key) = derive_keys(&ck2, empty.as_slice());
        let mut reply: Vec<u8> = Vec::new();
        reply.push(0);
        reply.extend_from_slice(sealed_key.as_slice());
        reply.extend_from_slice(final_tag.as_slice());
        let keys = SessionKeys {
            receive: CipherState::new(receive_key, ck2),
            send: CipherState::new(send_key, ck2),
        };
        proof {
            assert(reply@ =~= seq![0u8] + sealed_key@ + final_tag@);
            assert(reply@.subrange(1, 50) =~= sealed_key@);
            assert(reply@.subrange(50, 66) =~= final_tag@);
            assert(act@ =~= seq![0u8] + responder_ephemeral@ + tag@);
        }
        Ok((reply, keys))
    }
}

/// Two conforming sides agree. Let an initiator write act one to a
/// responder, and let the responder hold the private scalar of the static
/// key that was addressed and answer with its own ephemeral key pair. If
/// the responder accepts act one as every such responder does, and the
/// initiator's act three is accepted as by every holder of the ephemeral
/// key in act two, then the responder's first step yields the act two
/// that the initiator read, and its second step establishes the session:
/// it yields the initiator's static public key and the initiator's keys
/// in mirrored directions.
pub proof fn lemma_both_sides_agree(
    responder_secret: Seq<u8>,
    responder_public: Seq<u8>,
    ephemeral: Seq<u8>,
    state: InitiatorModel,
    local_public: Seq<u8>,
    act_one: Seq<u8>,
    act_two: Seq<u8>,
    act_three: Seq<u8>,
    keys: SessionKeysModel,
)
    requires
        public_key_of(responder_secret) == Some(responder_public),
        public_key_of(ephemeral) == Some(act_two.subrange(1, 34)),
        responder_continues(responder_public, state, act_one),
        responder_completes(state, local_public, act_two, act_three, keys),
    ensures
        ({
            let first = act_one_outcome(
                first_hash(responder_public),
                first_chaining_key(),
                responder_secret,
                ephemeral,
                act_two.subrange(1, 34),
                act_one,
            );
            match first {
                Ok((SessionModel::AwaitingAct3 { h, ck, temp_k2, .. }, reply)) => reply == act_two
                    && act_three_outcome(h, ck, ephemeral, temp_k2, act_three) == Ok::<
                    (SessionKeysModel, Seq<u8>),
                    HandshakeError,
                >((keys.mirrored(), local_public)) && keys.receive.nonce == 0 && keys.send.nonce
                    == 0,
                _ => false,
            }
        }),
{
    assert(responder_agrees(state, local_public, ephemeral, act_two, act_three, keys));
}

} // verus!
