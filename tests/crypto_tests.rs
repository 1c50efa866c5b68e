use secure_legion_core::envelope::{decrypt_message, encrypt_message, seal_with_nonce};
use secure_legion_core::error::ProtocolError;
use secure_legion_core::identity::{sign, verify, SigningKeypair};
use secure_legion_core::key_exchange::{
    derive_public_key, derive_shared_secret, generate_static_keypair,
};
use secure_legion_core::onion::onion_address;
use secure_legion_core::token::{PingToken, PongToken};

fn unhex(s: &str) -> Vec<u8> {
    (0..s.len()).step_by(2).map(|i| u8::from_str_radix(&s[i..i + 2], 16).unwrap()).collect()
}

#[test]
fn ed25519_known_answer() {
    let secret = unhex("9d61b19deffd5a60ba844af492ec2cc44449c5697b326919703bac031cae7f60");
    let kp = SigningKeypair::from_secret(&secret).unwrap();
    assert_eq!(
        hex::encode(&kp.public),
        "d75a980182b10ab7d54bfed3c964073a0ee172f3daa62325af021a68f707511a"
    );
    let sig = sign(&Vec::new(), &secret).unwrap();
    assert_eq!(
        hex::encode(&sig),
        "e5564300c360ac729086e2cc806e828a84877f1eb8e5d974d873e065224901555fb8821590a33bacc61e39701cf9b46bd25bf5f0595bbe24655141438e7a100b"
    );
    assert_eq!(verify(&Vec::new(), &sig, &kp.public), Ok(true));
}

#[test]
fn verify_false_is_not_an_error() {
    let kp = SigningKeypair::generate();
    let data = b"liveness".to_vec();
    let sig = sign(&data, &kp.secret).unwrap();
    assert_eq!(sig.len(), 64);
    assert_eq!(verify(&data, &sig, &kp.public), Ok(true));
    assert_eq!(verify(&b"livenesS".to_vec(), &sig, &kp.public), Ok(false));
    let other = SigningKeypair::generate();
    assert_eq!(verify(&data, &sig, &other.public), Ok(false));
}

#[test]
fn signing_rejects_wrong_key_lengths() {
    assert_eq!(sign(&vec![1, 2], &vec![0; 31]), Err(ProtocolError::InvalidKeyLength));
    assert!(matches!(SigningKeypair::from_secret(&vec![0; 33]), Err(ProtocolError::InvalidKeyLength)));
    let kp = SigningKeypair::generate();
    let sig = sign(&vec![1], &kp.secret).unwrap();
    assert_eq!(verify(&vec![1], &sig[..63].to_vec(), &kp.public), Err(ProtocolError::InvalidKeyLength));
    assert_eq!(verify(&vec![1], &sig, &kp.public[..31].to_vec()), Err(ProtocolError::InvalidKeyLength));
}

#[test]
fn x25519_known_answer() {
    let alice = unhex("77076d0a7318a57d3c16c17251b26645df4c2f87ebc0992ab177fba51db92c2a");
    let bob = unhex("5dab087e624a8a4b79e17f8b83800ee66f3bb1292618b6fd1c2f8b27ff88e0eb");
    let alice_pub = derive_public_key(&alice).unwrap();
    let bob_pub = derive_public_key(&bob).unwrap();
    assert_eq!(hex::encode(&alice_pub), "8520f0098930a754748b7ddcb43ef75a0dbf3a0d26381af4eba4a98eaa9b4e6a");
    assert_eq!(hex::encode(&bob_pub), "de9edb7d7b7dc1b4d35b61c2ece435373f8343c85b78674dadfc7e146f882b4f");
    let shared = "4a5d9d5ba4ce2de1728e3bf480350f25e07e21c947d19e3376f09b3c1e161742";
    assert_eq!(hex::encode(&derive_shared_secret(&alice, &bob_pub).unwrap()), shared);
    assert_eq!(hex::encode(&derive_shared_secret(&bob, &alice_pub).unwrap()), shared);
}

#[test]
fn generated_exchange_keys_agree() {
    let (a_pub, a_priv) = generate_static_keypair();
    let (b_pub, b_priv) = generate_static_keypair();
    assert_eq!(a_pub.len(), 32);
    assert_eq!(a_priv.len(), 32);
    assert_eq!(derive_public_key(&a_priv).unwrap(), a_pub);
    assert_eq!(
        derive_shared_secret(&a_priv, &b_pub).unwrap(),
        derive_shared_secret(&b_priv, &a_pub).unwrap()
    );
}

#[test]
fn key_exchange_rejects_wrong_lengths() {
    assert_eq!(derive_public_key(&vec![7; 16]), Err(ProtocolError::InvalidKeyLength));
    assert_eq!(derive_shared_secret(&vec![7; 32], &vec![1; 31]), Err(ProtocolError::InvalidKeyLength));
    assert_eq!(derive_shared_secret(&vec![7; 33], &vec![1; 32]), Err(ProtocolError::InvalidKeyLength));
}

#[test]
fn envelope_round_trip() {
    let key = vec![9u8; 32];
    let plain = b"ping token bytes".to_vec();
    let c = encrypt_message(&plain, &key).unwrap();
    assert_eq!(c.len(), 24 + plain.len() + 16);
    assert_ne!(&c[24..24 + plain.len()], &plain[..]);
    assert_eq!(decrypt_message(&c, &key).unwrap(), plain);
    let empty = encrypt_message(&Vec::new(), &key).unwrap();
    assert_eq!(empty.len(), 40);
    assert_eq!(decrypt_message(&empty, &key).unwrap(), Vec::<u8>::new());
}

#[test]
fn envelope_nonce_is_fresh() {
    let key = vec![3u8; 32];
    let plain = vec![1u8, 2, 3];
    let a = encrypt_message(&plain, &key).unwrap();
    let b = encrypt_message(&plain, &key).unwrap();
    assert_ne!(a, b);
}

#[test]
fn envelope_with_given_nonce_is_deterministic() {
    let key = vec![5u8; 32];
    let nonce = vec![6u8; 24];
    let a = seal_with_nonce(&vec![1, 2, 3], &key, &nonce).unwrap();
    let b = seal_with_nonce(&vec![1, 2, 3], &key, &nonce).unwrap();
    assert_eq!(a, b);
    assert_eq!(&a[..24], &nonce[..]);
    assert_eq!(seal_with_nonce(&vec![1], &key, &vec![0; 12]), Err(ProtocolError::InvalidKeyLength));
}

#[test]
fn envelope_failures_are_indistinguishable() {
    let key = vec![9u8; 32];
    let c = encrypt_message(&b"secret".to_vec(), &key).unwrap();
    assert_eq!(decrypt_message(&c, &vec![8u8; 32]), Err(ProtocolError::DecryptionFailed));
    let mut tampered = c.clone();
    tampered[30] ^= 1;
    assert_eq!(decrypt_message(&tampered, &key), Err(ProtocolError::DecryptionFailed));
    assert_eq!(decrypt_message(&c[..39].to_vec(), &key), Err(ProtocolError::DecryptionFailed));
    assert_eq!(decrypt_message(&c[..c.len() - 1].to_vec(), &key), Err(ProtocolError::DecryptionFailed));
}

#[test]
fn envelope_rejects_wrong_key_length() {
    assert_eq!(encrypt_message(&vec![1], &vec![0; 31]), Err(ProtocolError::InvalidKeyLength));
    assert_eq!(decrypt_message(&vec![0; 64], &vec![0; 16]), Err(ProtocolError::InvalidKeyLength));
}

#[test]
fn ping_id_is_lowercase_hex_of_nonce() {
    let mut nonce = vec![0u8; 16];
    nonce[..4].copy_from_slice(&[0x00, 0xab, 0x10, 0xff]);
    let ping = PingToken {
        nonce: nonce.clone(),
        sender_pubkey: vec![1; 32],
        timestamp: 0,
        recipient_pubkey: vec![2; 32],
        signature: vec![3; 64],
    };
    assert_eq!(ping.ping_id(), "00ab10ff000000000000000000000000");
    let pong = PongToken { ping_nonce: nonce, authenticated: true, timestamp: 0, signature: vec![3; 64] };
    assert_eq!(pong.ping_id(), ping.ping_id());
}

#[test]
fn onion_address_shape() {
    let kp = SigningKeypair::generate();
    let addr = onion_address(&kp.public).unwrap();
    assert_eq!(addr.len(), 62);
    assert!(addr.ends_with("d.onion"));
    assert!(addr[..56].chars().all(|c| c.is_ascii_lowercase() || ('2'..='7').contains(&c)));
    assert_eq!(onion_address(&kp.public).unwrap(), addr);
    let other = SigningKeypair::generate();
    assert_ne!(onion_address(&other.public).unwrap(), addr);
    assert_eq!(onion_address(&vec![0; 31]), Err(ProtocolError::InvalidKeyLength));
}
