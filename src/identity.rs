use vstd::prelude::*;
use ed25519_dalek::{Signature, Signer, SigningKey, Verifier, VerifyingKey};
use crate::error::ProtocolError;
use crate::platform::random_bytes;

verus! {

/// Byte length of an Ed25519 secret key.
pub const SIGNING_SECRET_LEN: usize = 32;

/// Byte length of an Ed25519 public key.
pub const SIGNING_PUBLIC_LEN: usize = 32;

/// Byte length of an Ed25519 signature.
pub const SIGNATURE_LEN: usize = 64;

/// The Ed25519 public key that belongs to a 32-byte secret key.
pub uninterp spec fn ed25519_public_of(secret: Seq<u8>) -> Seq<u8>;

/// The (deterministic) Ed25519 signature of `message` under `secret`.
pub uninterp spec fn ed25519_signature_of(secret: Seq<u8>, message: Seq<u8>) -> Seq<u8>;

/// Whether `signature` is a valid Ed25519 signature of `message` under the
/// encoded public key `public` (false where `public` is not a curve point).
pub uninterp spec fn ed25519_accepts(public: Seq<u8>, message: Seq<u8>, signature: Seq<u8>) -> bool;

/// Relies on `ed25519_dalek::SigningKey::from_bytes` and `verifying_key`:
/// the 32-byte public key derived from a 32-byte secret key.
#[verifier::external_body]
fn ed25519_public_key(secret: &Vec<u8>) -> (r: Vec<u8>)
    requires
        secret@.len() == 32,
    ensures
        r@ == ed25519_public_of(secret@),
        r@.len() == 32,
{
    let bytes: [u8; 32] = secret.as_slice().try_into().unwrap();
    SigningKey::from_bytes(&bytes).verifying_key().to_bytes().to_vec()
}

/// Relies on `ed25519_dalek::SigningKey::sign`: RFC 8032 signing is
/// deterministic, yields 64 bytes, and the signer's own public key accepts it.
#[verifier::external_body]
fn ed25519_sign(secret: &Vec<u8>, message: &Vec<u8>) -> (r: Vec<u8>)
    requires
        secret@.len() == 32,
    ensures
        r@ == ed25519_signature_of(secret@, message@),
        r@.len() == 64,
        ed25519_accepts(ed25519_public_of(secret@), message@, r@),
{
    let bytes: [u8; 32] = secret.as_slice().try_into().unwrap();
    SigningKey::from_bytes(&bytes).sign(message.as_slice()).to_bytes().to_vec()
}

/// Relies on `ed25519_dalek::VerifyingKey::from_bytes` and `Verifier::verify`:
/// a key that does not decode to a curve point accepts nothing.
#[verifier::external_body]
fn ed25519_verify(public: &Vec<u8>, message: &Vec<u8>, signature: &Vec<u8>) -> (r: bool)
    requires
        public@.len() == 32,
        signature@.len() == 64,
    ensures
        r == ed25519_accepts(public@, message@, signature@),
{
    let key: [u8; 32] = public.as_slice().try_into().unwrap();
    let sig: [u8; 64] = signature.as_slice().try_into().unwrap();
    match VerifyingKey::from_bytes(&key) {
        Ok(vk) => vk.verify(message.as_slice(), &Signature::from_bytes(&sig)).is_ok(),
        Err(_) => false,
    }
}

/// An Ed25519 signing identity: a secret key and the public key derived from it.
pub struct SigningKeypair {
    pub secret: Vec<u8>,
    pub public: Vec<u8>,
}

impl SigningKeypair {
    /// The public half is the one derived from the secret half.
    pub open spec fn wf(&self) -> bool {
        &&& self.secret@.len() == SIGNING_SECRET_LEN
        &&& self.public@ == ed25519_public_of(self.secret@)
        &&& self.public@.len() == SIGNING_PUBLIC_LEN
    }

    /// Rebuilds a keypair from the raw 32-byte secret that key storage holds.
    pub fn from_secret(secret: &Vec<u8>) -> (r: Result<SigningKeypair, ProtocolError>)
        ensures
            match r {
                Ok(kp) => secret@.len() == SIGNING_SECRET_LEN && kp.wf() && kp.secret@ == secret@,
                Err(e) => secret@.len() != SIGNING_SECRET_LEN && e == ProtocolError::InvalidKeyLength,
            },
    {
        if secret.len() != SIGNING_SECRET_LEN {
            return Err(ProtocolError::InvalidKeyLength);
        }
        let public = ed25519_public_key(secret);
        Ok(SigningKeypair { secret: secret.clone(), public })
    }

    /// A keypair with a fresh random secret.
    pub fn generate() -> (r: SigningKeypair)
        ensures
            r.wf(),
    {
        let secret = random_bytes(SIGNING_SECRET_LEN);
        let public = ed25519_public_key(&secret);
        SigningKeypair { secret, public }
    }

    /// Signs `message` with this keypair's secret.
    pub fn sign_message(&self, message: &Vec<u8>) -> (r: Vec<u8>)
        requires
            self.wf(),
        ensures
            r@ == ed25519_signature_of(self.secret@, message@),
            r@.len() == SIGNATURE_LEN,
            ed25519_accepts(self.public@, message@, r@),
    {
        ed25519_sign(&self.secret, message)
    }
}

/// Signs `data` with a raw 32-byte Ed25519 secret key.
pub fn sign(data: &Vec<u8>, private_key: &Vec<u8>) -> (r: Result<Vec<u8>, ProtocolError>)
    ensures
        match r {
            Ok(sig) => private_key@.len() == SIGNING_SECRET_LEN && sig@ == ed25519_signature_of(
                private_key@,
                data@,
            ) && sig@.len() == SIGNATURE_LEN && ed25519_accepts(
                ed25519_public_of(private_key@),
                data@,
                sig@,
            ),
            Err(e) => private_key@.len() != SIGNING_SECRET_LEN && e == ProtocolError::InvalidKeyLength,
        },
{
    if private_key.len() != SIGNING_SECRET_LEN {
        return Err(ProtocolError::InvalidKeyLength);
    }
    Ok(ed25519_sign(private_key, data))
}

/// Checks an Ed25519 signature; a signature that does not verify is the
/// normal result `Ok(false)`, only wrong byte lengths are an error.
pub fn verify(data: &Vec<u8>, signature: &Vec<u8>, public_key: &Vec<u8>) -> (r: Result<
    bool,
    ProtocolError,
>)
    ensures
        match r {
            Ok(valid) => public_key@.len() == SIGNING_PUBLIC_LEN && signature@.len() == SIGNATURE_LEN
                && valid == ed25519_accepts(public_key@, data@, signature@),
            Err(e) => (public_key@.len() != SIGNING_PUBLIC_LEN || signature@.len() != SIGNATURE_LEN)
                && e == ProtocolError::InvalidKeyLength,
        },
{
    if public_key.len() != SIGNING_PUBLIC_LEN || signature.len() != SIGNATURE_LEN {
        return Err(ProtocolError::InvalidKeyLength);
    }
    Ok(ed25519_verify(public_key, data, signature))
}

} // verus!
