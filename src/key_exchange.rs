use vstd::prelude::*;
use x25519_dalek::{PublicKey, StaticSecret};
use crate::error::ProtocolError;
use crate::platform::random_bytes;

verus! {

/// Byte length of an X25519 private key, public key and shared secret.
pub const EXCHANGE_KEY_LEN: usize = 32;

/// The X25519 public key of a 32-byte private key.
pub uninterp spec fn x25519_public_of(secret: Seq<u8>) -> Seq<u8>;

/// The X25519 shared secret of our private key and their public key.
pub uninterp spec fn x25519_shared_of(secret: Seq<u8>, their_public: Seq<u8>) -> Seq<u8>;

/// Whoever holds `private` and publishes `public` agrees with every other
/// private key on the shared secret: theirs with our public key equals ours
/// with their public key.
pub open spec fn exchange_keys_agree(private: Seq<u8>, public: Seq<u8>) -> bool {
    forall|other: Seq<u8>|
        other.len() == EXCHANGE_KEY_LEN ==> #[trigger] x25519_shared_of(other, public)
            == x25519_shared_of(private, x25519_public_of(other))
}

/// Relies on `x25519_dalek::PublicKey::from(&StaticSecret)`: the 32-byte
/// public key of a 32-byte private key, for which Diffie-Hellman agreement
/// holds (`StaticSecret::diffie_hellman` of either side with the other's
/// public key gives the same secret, as the crate's documentation shows).
#[verifier::external_body]
fn x25519_public_key(secret: &Vec<u8>) -> (r: Vec<u8>)
    requires
        secret@.len() == 32,
    ensures
        r@ == x25519_public_of(secret@),
        r@.len() == 32,
        forall|other: Seq<u8>|
            other.len() == 32 ==> #[trigger] x25519_shared_of(other, r@) == x25519_shared_of(
                secret@,
                x25519_public_of(other),
            ),
{
    let bytes: [u8; 32] = secret.as_slice().try_into().unwrap();
    PublicKey::from(&StaticSecret::from(bytes)).to_bytes().to_vec()
}

/// Relies on `x25519_dalek::StaticSecret::diffie_hellman`: the 32-byte
/// shared secret; it never fails, whatever the public key's bytes.
#[verifier::external_body]
fn x25519_agree(secret: &Vec<u8>, their_public: &Vec<u8>) -> (r: Vec<u8>)
    requires
        secret@.len() == 32,
        their_public@.len() == 32,
    ensures
        r@ == x25519_shared_of(secret@, their_public@),
        r@.len() == 32,
{
    let ours: [u8; 32] = secret.as_slice().try_into().unwrap();
    let theirs: [u8; 32] = their_public.as_slice().try_into().unwrap();
    StaticSecret::from(ours).diffie_hellman(&PublicKey::from(theirs)).to_bytes().to_vec()
}

/// A fresh static exchange keypair, as `(public, private)`.
pub fn generate_static_keypair() -> (r: (Vec<u8>, Vec<u8>))
    ensures
        r.1@.len() == EXCHANGE_KEY_LEN,
        r.0@ == x25519_public_of(r.1@),
        r.0@.len() == EXCHANGE_KEY_LEN,
        exchange_keys_agree(r.1@, r.0@),
{
    let private = random_bytes(EXCHANGE_KEY_LEN);
    let public = x25519_public_key(&private);
    (public, private)
}

/// The public key that belongs to a 32-byte private exchange key.
pub fn derive_public_key(private_key: &Vec<u8>) -> (r: Result<Vec<u8>, ProtocolError>)
    ensures
        match r {
            Ok(public) => private_key@.len() == EXCHANGE_KEY_LEN && public@ == x25519_public_of(
                private_key@,
            ) && public@.len() == EXCHANGE_KEY_LEN && exchange_keys_agree(private_key@, public@),
            Err(e) => private_key@.len() != EXCHANGE_KEY_LEN && e == ProtocolError::InvalidKeyLength,
        },
{
    if private_key.len() != EXCHANGE_KEY_LEN {
        return Err(ProtocolError::InvalidKeyLength);
    }
    Ok(x25519_public_key(private_key))
}

/// The 32-byte secret shared between our private key and their public key.
pub fn derive_shared_secret(our_private: &Vec<u8>, their_public: &Vec<u8>) -> (r: Result<
    Vec<u8>,
    ProtocolError,
>)
    ensures
        match r {
            Ok(secret) => our_private@.len() == EXCHANGE_KEY_LEN && their_public@.len()
                == EXCHANGE_KEY_LEN && secret@ == x25519_shared_of(our_private@, their_public@)
                && secret@.len() == EXCHANGE_KEY_LEN,
            Err(e) => (our_private@.len() != EXCHANGE_KEY_LEN || their_public@.len()
                != EXCHANGE_KEY_LEN) && e == ProtocolError::InvalidKeyLength,
        },
{
    if our_private.len() != EXCHANGE_KEY_LEN || their_public.len() != EXCHANGE_KEY_LEN {
        return Err(ProtocolError::InvalidKeyLength);
    }
    Ok(x25519_agree(our_private, their_public))
}

/// Both parties derive the same secret: our private key with their public
/// key gives what their private key gives with our public key, for keypairs
/// made by `generate_static_keypair` or `derive_public_key`.
pub proof fn lemma_shared_secret_agreement(
    ours: Seq<u8>,
    our_public: Seq<u8>,
    theirs: Seq<u8>,
    their_public: Seq<u8>,
)
    requires
        ours.len() == EXCHANGE_KEY_LEN,
        theirs.len() == EXCHANGE_KEY_LEN,
        our_public == x25519_public_of(ours),
        their_public == x25519_public_of(theirs),
        exchange_keys_agree(ours, our_public),
        exchange_keys_agree(theirs, their_public),
    ensures
        x25519_shared_of(ours, their_public) == x25519_shared_of(theirs, our_public),
{
    assert(x25519_shared_of(ours, their_public) == x25519_shared_of(theirs, x25519_public_of(ours)));
}

} // verus!
