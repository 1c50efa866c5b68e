use vstd::prelude::*;
use chacha20poly1305::aead::{Aead, KeyInit};
use chacha20poly1305::{Key, XChaCha20Poly1305, XNonce};
use crate::bytes::{copy_range, push_all};
use crate::error::ProtocolError;
use crate::platform::random_bytes;

verus! {

/// Byte length of the symmetric key.
pub const ENVELOPE_KEY_LEN: usize = 32;

/// Byte length of the random nonce that opens every envelope.
pub const ENVELOPE_NONCE_LEN: usize = 24;

/// Byte length of the authentication tag that closes every envelope.
pub const ENVELOPE_TAG_LEN: usize = 16;

/// Longest plaintext the cipher can process: its keystream starts at block 1
/// of a 32-bit block counter, which leaves 2^32 - 2 blocks of 64 bytes.
pub const ENVELOPE_MAX_PLAINTEXT: u64 = 274_877_906_816;

/// XChaCha20-Poly1305 ciphertext-and-tag of `plaintext` under `key` and `nonce`.
pub uninterp spec fn xchacha_seal_of(key: Seq<u8>, nonce: Seq<u8>, plaintext: Seq<u8>) -> Seq<u8>;

/// XChaCha20-Poly1305 opening of `sealed`: the plaintext, or `None` where the
/// tag does not authenticate.
pub uninterp spec fn xchacha_open_of(key: Seq<u8>, nonce: Seq<u8>, sealed: Seq<u8>) -> Option<
    Seq<u8>,
>;

/// Relies on `chacha20poly1305`'s `Aead::encrypt` for `XChaCha20Poly1305`:
/// ciphertext followed by a 16-byte tag, which `Aead::decrypt` opens again.
/// It fails or panics only on plaintexts over the keystream's length.
#[verifier::external_body]
fn aead_seal(key: &Vec<u8>, nonce: &Vec<u8>, plaintext: &Vec<u8>) -> (r: Vec<u8>)
    requires
        key@.len() == 32,
        nonce@.len() == 24,
        plaintext@.len() <= ENVELOPE_MAX_PLAINTEXT,
    ensures
        r@ == xchacha_seal_of(key@, nonce@, plaintext@),
        r@.len() == plaintext@.len() + 16,
        xchacha_open_of(key@, nonce@, r@) == Some(plaintext@),
{
    let cipher = XChaCha20Poly1305::new(Key::from_slice(key.as_slice()));
    cipher.encrypt(XNonce::from_slice(nonce.as_slice()), plaintext.as_slice()).unwrap()
}

/// Relies on `chacha20poly1305`'s `Aead::decrypt` for `XChaCha20Poly1305`:
/// the plaintext, or an error where the tag does not authenticate. Input
/// whose message part exceeds the keystream's length is left out.
#[verifier::external_body]
fn aead_open(key: &Vec<u8>, nonce: &Vec<u8>, sealed: &Vec<u8>) -> (r: Option<Vec<u8>>)
    requires
        key@.len() == 32,
        nonce@.len() == 24,
        sealed@.len() <= ENVELOPE_MAX_PLAINTEXT + 16,
    ensures
        match r {
            Some(p) => xchacha_open_of(key@, nonce@, sealed@) == Some(p@),
            None => xchacha_open_of(key@, nonce@, sealed@) is None,
        },
{
    let cipher = XChaCha20Poly1305::new(Key::from_slice(key.as_slice()));
    cipher.decrypt(XNonce::from_slice(nonce.as_slice()), sealed.as_slice()).ok()
}

/// The wire form of an envelope: its nonce, then the sealed plaintext.
pub open spec fn envelope_of(key: Seq<u8>, nonce: Seq<u8>, plaintext: Seq<u8>) -> Seq<u8> {
    nonce + xchacha_seal_of(key, nonce, plaintext)
}

/// What opening `envelope` under `key` yields; input too short to hold a
/// nonce and a tag, or longer than any envelope can be, opens to nothing.
pub open spec fn envelope_opened(key: Seq<u8>, envelope: Seq<u8>) -> Option<Seq<u8>> {
    if envelope.len() < ENVELOPE_NONCE_LEN + ENVELOPE_TAG_LEN || envelope.len()
        > ENVELOPE_NONCE_LEN + ENVELOPE_MAX_PLAINTEXT + ENVELOPE_TAG_LEN {
        None
    } else {
        xchacha_open_of(
            key,
            envelope.subrange(0, ENVELOPE_NONCE_LEN as int),
            envelope.subrange(ENVELOPE_NONCE_LEN as int, envelope.len() as int),
        )
    }
}

/// Seals `plaintext` under `key` with the given envelope nonce.
pub fn seal_with_nonce(plaintext: &Vec<u8>, key: &Vec<u8>, nonce: &Vec<u8>) -> (r: Result<
    Vec<u8>,
    ProtocolError,
>)
    requires
        plaintext@.len() <= ENVELOPE_MAX_PLAINTEXT,
    ensures
        match r {
            Ok(c) => key@.len() == ENVELOPE_KEY_LEN && nonce@.len() == ENVELOPE_NONCE_LEN && c@
                == envelope_of(key@, nonce@, plaintext@) && c@.len() == ENVELOPE_NONCE_LEN
                + plaintext@.len() + ENVELOPE_TAG_LEN && envelope_opened(key@, c@) == Some(
                plaintext@,
            ),
            Err(e) => (key@.len() != ENVELOPE_KEY_LEN || nonce@.len() != ENVELOPE_NONCE_LEN) && e
                == ProtocolError::InvalidKeyLength,
        },
{
    if key.len() != ENVELOPE_KEY_LEN || nonce.len() != ENVELOPE_NONCE_LEN {
        return Err(ProtocolError::InvalidKeyLength);
    }
    let sealed = aead_seal(key, nonce, plaintext);
    let mut out: Vec<u8> = Vec::new();
    push_all(&mut out, nonce);
    push_all(&mut out, &sealed);
    proof {
        let c = out@;
        assert(c =~= nonce@ + sealed@);
        assert(c.subrange(0, ENVELOPE_NONCE_LEN as int) =~= nonce@);
        assert(c.subrange(ENVELOPE_NONCE_LEN as int, c.len() as int) =~= sealed@);
    }
    Ok(out)
}

/// Encrypts `plaintext` under `key` into a self-contained envelope that
/// carries its own fresh random nonce and its authentication tag.
pub fn encrypt_message(plaintext: &Vec<u8>, key: &Vec<u8>) -> (r: Result<Vec<u8>, ProtocolError>)
    requires
        plaintext@.len() <= ENVELOPE_MAX_PLAINTEXT,
    ensures
        match r {
            Ok(c) => key@.len() == ENVELOPE_KEY_LEN && c@.len() == ENVELOPE_NONCE_LEN
                + plaintext@.len() + ENVELOPE_TAG_LEN && c@ == envelope_of(
                key@,
                c@.subrange(0, ENVELOPE_NONCE_LEN as int),
                plaintext@,
            ) && envelope_opened(key@, c@) == Some(plaintext@),
            Err(e) => key@.len() != ENVELOPE_KEY_LEN && e == ProtocolError::InvalidKeyLength,
        },
{
    let nonce = random_bytes(ENVELOPE_NONCE_LEN);
    let r = seal_with_nonce(plaintext, key, &nonce);
    proof {
        if r is Ok {
            assert(r->Ok_0@.subrange(0, ENVELOPE_NONCE_LEN as int) =~= nonce@);
        }
    }
    r
}

/// Opens an envelope made by `encrypt_message`. Every failure to open, be it
/// a wrong key, a tampered byte, a truncated or an oversized input, is the one
/// `DecryptionFailed`.
pub fn decrypt_message(ciphertext: &Vec<u8>, key: &Vec<u8>) -> (r: Result<Vec<u8>, ProtocolError>)
    ensures
        key@.len() != ENVELOPE_KEY_LEN ==> r == Err::<Vec<u8>, ProtocolError>(
            ProtocolError::InvalidKeyLength,
        ),
        key@.len() == ENVELOPE_KEY_LEN ==> match r {
            Ok(p) => envelope_opened(key@, ciphertext@) == Some(p@),
            Err(e) => envelope_opened(key@, ciphertext@) is None && e
                == ProtocolError::DecryptionFailed,
        },
{
    if key.len() != ENVELOPE_KEY_LEN {
        return Err(ProtocolError::InvalidKeyLength);
    }
    if ciphertext.len() < ENVELOPE_NONCE_LEN + ENVELOPE_TAG_LEN {
        return Err(ProtocolError::DecryptionFailed);
    }
    if ciphertext.len() as u64 - (ENVELOPE_NONCE_LEN + ENVELOPE_TAG_LEN) as u64
        > ENVELOPE_MAX_PLAINTEXT {
        return Err(ProtocolError::DecryptionFailed);
    }
    let nonce = copy_range(ciphertext, 0, ENVELOPE_NONCE_LEN);
    let sealed = copy_range(ciphertext, ENVELOPE_NONCE_LEN, ciphertext.len());
    match aead_open(key, &nonce, &sealed) {
        Some(p) => Ok(p),
        None => Err(ProtocolError::DecryptionFailed),
    }
}

} // verus!
