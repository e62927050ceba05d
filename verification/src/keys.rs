//! Key material: the long-term identity key pair of the node and the
//! ephemeral key pair of one handshake.

use vstd::prelude::*;
use crate::primitives::derive_public_key;
use crate::primitives::public_key_of;
use crate::text::hex_text;
use crate::text::hex_string;

verus! {

/// The identity of the node: a private scalar and its compressed public
/// point. The public point is the node id.
pub struct StaticKeyPair {
    secret: [u8; 32],
    public: [u8; 33],
}

/// The key pair of one handshake attempt, generated fresh each time.
pub struct EphemeralKeyPair {
    secret: [u8; 32],
    public: [u8; 33],
}

impl StaticKeyPair {
    /// The private scalar.
    pub closed spec fn secret(&self) -> Seq<u8> {
        self.secret@
    }

    /// The compressed public point.
    pub closed spec fn public(&self) -> Seq<u8> {
        self.public@
    }

    #[verifier::type_invariant]
    spec fn well_formed(&self) -> bool {
        public_key_of(self.secret@) == Some(self.public@)
    }

    /// Makes the identity key pair from 32 bytes of entropy. `None` exactly
    /// when the bytes are not a valid private scalar; the caller then draws
    /// fresh entropy.
    pub fn generate(entropy: [u8; 32]) -> (pair: Option<StaticKeyPair>)
        ensures
            match pair {
                Some(p) => p.secret() == entropy@ && public_key_of(entropy@) == Some(p.public()),
                None => public_key_of(entropy@) is None,
            },
    {
        match derive_public_key(&entropy) {
            Some(public) => Some(StaticKeyPair { secret: entropy, public }),
            None => None,
        }
    }

    /// The node id: the compressed public point, which belongs to the
    /// private scalar.
    pub fn node_id(&self) -> (id: [u8; 33])
        ensures
            id@ == self.public(),
            public_key_of(self.secret()) == Some(self.public()),
    {
        proof {
            use_type_invariant(self);
        }
        self.public
    }

    /// The private scalar, for key agreement.
    pub(crate) fn secret_bytes(&self) -> (secret: [u8; 32])
        ensures
            secret@ == self.secret(),
    {
        self.secret
    }

    /// The node id in lowercase hexadecimal, as shown to the operator.
    pub fn node_id_hex(&self) -> (text: String)
        ensures
            text@ == hex_string(self.public()),
    {
        hex_text(self.public.as_slice())
    }
}

impl EphemeralKeyPair {
    /// The private scalar.
    pub closed spec fn secret(&self) -> Seq<u8> {
        self.secret@
    }

    /// The compressed public point.
    pub closed spec fn public(&self) -> Seq<u8> {
        self.public@
    }

    #[verifier::type_invariant]
    spec fn well_formed(&self) -> bool {
        public_key_of(self.secret@) == Some(self.public@)
    }

    /// Makes an ephemeral key pair from 32 bytes of entropy. `None` exactly
    /// when the bytes are not a valid private scalar.
    pub fn generate(entropy: [u8; 32]) -> (pair: Option<EphemeralKeyPair>)
        ensures
            match pair {
                Some(p) => p.secret() == entropy@ && public_key_of(entropy@) == Some(p.public()),
                None => public_key_of(entropy@) is None,
            },
    {
        match derive_public_key(&entropy) {
            Some(public) => Some(EphemeralKeyPair { secret: entropy, public }),
            None => None,
        }
    }

    /// The compressed public point, as sent to the peer. It belongs to the
    /// private scalar.
    pub fn public_bytes(&self) -> (public: [u8; 33])
        ensures
            public@ == self.public(),
            public_key_of(self.secret()) == Some(self.public()),
    {
        proof {
            use_type_invariant(self);
        }
        self.public
    }

    /// The private scalar, for key agreement.
    pub(crate) fn secret_bytes(&self) -> (secret: [u8; 32])
        ensures
            secret@ == self.secret(),
    {
        self.secret
    }
}

} // verus!
