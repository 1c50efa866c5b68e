use vstd::prelude::*;
use vstd::string::StringExecFns;
use sha3::{Digest, Sha3_256};
use crate::bytes::{copy_range, push_all};
use crate::error::ProtocolError;
use crate::identity::SIGNING_PUBLIC_LEN;

verus! {

/// Version byte of a v3 onion address.
pub const ONION_VERSION: u8 = 3;

/// The SHA3-256 digest of `data`.
pub uninterp spec fn sha3_256_of(data: Seq<u8>) -> Seq<u8>;

/// RFC 4648 base32 of `data`, lowercase alphabet, no padding.
pub uninterp spec fn base32_lower_of(data: Seq<u8>) -> Seq<char>;

/// Relies on `sha3::Sha3_256::digest`: a 32-byte digest.
#[verifier::external_body]
fn sha3_256(data: &Vec<u8>) -> (r: Vec<u8>)
    ensures
        r@ == sha3_256_of(data@),
        r@.len() == 32,
{
    Sha3_256::digest(data.as_slice()).to_vec()
}

/// Relies on `base32::encode` with `Alphabet::Rfc4648Lower { padding: false }`:
/// every five input bytes become eight characters.
#[verifier::external_body]
fn base32_lower(data: &Vec<u8>) -> (r: String)
    ensures
        r@ == base32_lower_of(data@),
        data@.len() % 5 == 0 ==> r@.len() == data@.len() / 5 * 8,
{
    base32::encode(base32::Alphabet::Rfc4648Lower { padding: false }, data.as_slice())
}

/// The bytes of the text ".onion checksum".
pub open spec fn checksum_label() -> Seq<u8> {
    seq![46u8, 111, 110, 105, 111, 110, 32, 99, 104, 101, 99, 107, 115, 117, 109]
}

/// What the checksum of an address hashes: label, public key, version.
pub open spec fn checksum_input(pubkey: Seq<u8>) -> Seq<u8> {
    checksum_label() + pubkey + seq![ONION_VERSION]
}

/// The 35 bytes an address encodes: public key, the first two bytes of the
/// checksum digest, version.
pub open spec fn address_bytes(pubkey: Seq<u8>) -> Seq<u8> {
    pubkey + sha3_256_of(checksum_input(pubkey)).subrange(0, 2) + seq![ONION_VERSION]
}

/// The v3 onion address of an Ed25519 public key: base32 of its address
/// bytes, then ".onion".
pub open spec fn onion_address_of(pubkey: Seq<u8>) -> Seq<char> {
    base32_lower_of(address_bytes(pubkey)) + seq!['.', 'o', 'n', 'i', 'o', 'n']
}

/// The v3 onion address (56 characters before ".onion") under which a
/// hidden service with this Ed25519 public key is reached.
pub fn onion_address(pubkey: &Vec<u8>) -> (r: Result<String, ProtocolError>)
    ensures
        match r {
            Ok(addr) => pubkey@.len() == SIGNING_PUBLIC_LEN && addr@ == onion_address_of(pubkey@)
                && addr@.len() == 62,
            Err(e) => pubkey@.len() != SIGNING_PUBLIC_LEN && e == ProtocolError::InvalidKeyLength,
        },
{
    if pubkey.len() != SIGNING_PUBLIC_LEN {
        return Err(ProtocolError::InvalidKeyLength);
    }
    let mut input: Vec<u8> = vec![46u8, 111, 110, 105, 111, 110, 32, 99, 104, 101, 99, 107, 115, 117, 109];
    assert(input@ =~= checksum_label());
    push_all(&mut input, pubkey);
    input.push(ONION_VERSION);
    assert(input@ =~= checksum_input(pubkey@));
    let digest = sha3_256(&input);
    let check = copy_range(&digest, 0, 2);
    let mut bytes: Vec<u8> = Vec::new();
    push_all(&mut bytes, pubkey);
    push_all(&mut bytes, &check);
    bytes.push(ONION_VERSION);
    assert(bytes@ =~= address_bytes(pubkey@));
    let encoded = base32_lower(&bytes);
    proof {
        reveal_strlit(".onion");
    }
    let addr = encoded.concat(".onion");
    assert(addr@ =~= onion_address_of(pubkey@));
    Ok(addr)
}

} // verus!
