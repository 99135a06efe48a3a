//! The keys of a node, and the name that follows from them.

use libp2p::identity::ed25519::{Keypair, PublicKey};
use libp2p::PeerId;
use vstd::prelude::*;

verus! {

#[verifier::external_type_specification]
#[verifier::external_body]
pub struct ExKeypair(Keypair);

#[verifier::external_type_specification]
#[verifier::external_body]
pub struct ExPublicKey(PublicKey);

#[verifier::external_type_specification]
#[verifier::external_body]
pub struct ExPeerId(PeerId);

/// The compressed point of an Ed25519 public key, as `PublicKey::encode` gives it.
pub uninterp spec fn public_key_bytes(key: PublicKey) -> Seq<u8>;

/// The secret scalar and the compressed public point of a key pair, 32 bytes each,
/// as `Keypair::encode` gives them.
pub uninterp spec fn key_pair_bytes(key_pair: Keypair) -> Seq<u8>;

/// The bytes of a peer's id, as `PeerId::to_bytes` gives them.
pub uninterp spec fn peer_id_bytes(id: PeerId) -> Seq<u8>;

/// The id of the peer with an Ed25519 key: the key in its protobuf encoding,
/// unhashed. The six bytes before the key say so: an identity multihash of 36
/// bytes that holds a key of type 1 and 32 bytes of data.
pub open spec fn peer_id_of_key(key: Seq<u8>) -> Seq<u8> {
    seq![0x00u8, 0x24u8, 0x08u8, 0x01u8, 0x12u8, 0x20u8] + key
}

/// `Keypair::generate`: any key pair.
pub assume_specification[ Keypair::generate ]() -> (key_pair: Keypair)
    ensures
        key_pair_bytes(key_pair).len() == 64,
;

/// `Keypair::public`: the public half of a key pair.
pub assume_specification[ Keypair::public ](key_pair: &Keypair) -> (key: PublicKey)
    ensures
        public_key_bytes(key) == key_pair_bytes(*key_pair).skip(32),
;

/// `PeerId::from` an Ed25519 public key.
#[verifier::external_body]
pub(crate) fn peer_id_from_key(key: &PublicKey) -> (id: PeerId)
    ensures
        peer_id_bytes(id) == peer_id_of_key(public_key_bytes(*key)),
{
    PeerId::from(libp2p::identity::PublicKey::Ed25519(key.clone()))
}

/// Two keys with the same peer id are the same key.
pub proof fn law_peer_id_tells_key(a: Seq<u8>, b: Seq<u8>)
    requires
        peer_id_of_key(a) == peer_id_of_key(b),
    ensures
        a == b,
{
    assert(a == peer_id_of_key(a).skip(6));
    assert(b == peer_id_of_key(b).skip(6));
}

} // verus!
