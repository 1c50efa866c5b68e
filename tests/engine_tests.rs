use secure_legion_core::engine::{
    accept_ping, accept_pong, create_ping, create_ping_with, create_pong, poll_pong, LocalKeys,
    PollOutcome,
};
use secure_legion_core::envelope::encrypt_message;
use secure_legion_core::error::ProtocolError;
use secure_legion_core::identity::SigningKeypair;
use secure_legion_core::key_exchange::{derive_shared_secret, generate_static_keypair};
use secure_legion_core::session::SessionStore;
use secure_legion_core::token::{PingToken, PongToken};

struct Party {
    signing: SigningKeypair,
    exchange_pub: Vec<u8>,
    keys: LocalKeys,
    store: SessionStore,
}

fn party() -> Party {
    let signing = SigningKeypair::generate();
    let (exchange_pub, exchange_priv) = generate_static_keypair();
    let keys = LocalKeys { signing_secret: signing.secret.clone(), exchange_secret: exchange_priv };
    Party { signing, exchange_pub, keys, store: SessionStore::new() }
}

#[test]
fn end_to_end_ping_pong() {
    let mut a = party();
    let mut b = party();
    assert!(matches!(poll_pong(&mut a.store, "none", 0, 1000), PollOutcome::Wait(100)));
    let (ciphertext1, ping_id) =
        create_ping(&mut a.store, &a.keys, &b.signing.public, &b.exchange_pub).unwrap();
    assert_eq!(ping_id.len(), 32);
    assert!(a.store.is_awaiting(&ping_id));
    assert!(matches!(poll_pong(&mut a.store, &ping_id, 0, 1000), PollOutcome::Wait(100)));

    let info = accept_ping(&mut b.store, &ciphertext1, &a.exchange_pub, &b.keys).unwrap();
    assert_eq!(info.ping_id, ping_id);
    assert_eq!(info.sender_pubkey, a.signing.public);
    assert!(b.store.get_ping(&ping_id).is_some());

    let ciphertext2 = create_pong(&mut b.store, &ping_id, &a.exchange_pub, &b.keys, true).unwrap();
    assert!(b.store.get_ping(&ping_id).is_none());

    let pong = accept_pong(&mut a.store, &ciphertext2, &b.exchange_pub, &b.signing.public, &a.keys)
        .unwrap();
    assert!(pong.authenticated);
    assert_eq!(pong.ping_id, ping_id);
    assert_eq!(pong.responder_pubkey, b.signing.public);
    assert!(!a.store.is_awaiting(&ping_id));

    match poll_pong(&mut a.store, &ping_id, 300, 1000) {
        PollOutcome::Received(s) => {
            assert!(s.pong_token.authenticated);
            assert_eq!(hex::encode(&s.pong_token.ping_nonce), ping_id);
        }
        other => panic!("expected the pong, got {:?}", other),
    }
    assert!(a.store.get_pong(&ping_id).is_none());
}

#[test]
fn pong_can_carry_a_negative_outcome() {
    let mut a = party();
    let mut b = party();
    let (c1, id) = create_ping(&mut a.store, &a.keys, &b.signing.public, &b.exchange_pub).unwrap();
    accept_ping(&mut b.store, &c1, &a.exchange_pub, &b.keys).unwrap();
    let c2 = create_pong(&mut b.store, &id, &a.exchange_pub, &b.keys, false).unwrap();
    let pong = accept_pong(&mut a.store, &c2, &b.exchange_pub, &b.signing.public, &a.keys).unwrap();
    assert!(!pong.authenticated);
}

#[test]
fn a_ping_yields_at_most_one_pong() {
    let mut a = party();
    let mut b = party();
    let (c1, id) = create_ping(&mut a.store, &a.keys, &b.signing.public, &b.exchange_pub).unwrap();
    accept_ping(&mut b.store, &c1, &a.exchange_pub, &b.keys).unwrap();
    assert!(create_pong(&mut b.store, &id, &a.exchange_pub, &b.keys, true).is_ok());
    assert_eq!(
        create_pong(&mut b.store, &id, &a.exchange_pub, &b.keys, true),
        Err(ProtocolError::SessionNotFound)
    );
}

#[test]
fn pong_for_unknown_ping_is_session_not_found() {
    let mut b = party();
    assert_eq!(
        create_pong(&mut b.store, "00112233445566778899aabbccddeeff", &vec![1; 32], &b.keys, true),
        Err(ProtocolError::SessionNotFound)
    );
}

#[test]
fn accept_pong_requires_a_ping_we_sent() {
    let mut a = party();
    let mut b = party();
    let mut c = party();
    // C pings B; B answers; the answer is handed to A, which never pinged.
    let (c1, id) = create_ping(&mut c.store, &c.keys, &b.signing.public, &b.exchange_pub).unwrap();
    accept_ping(&mut b.store, &c1, &c.exchange_pub, &b.keys).unwrap();
    let (_, b_to_a_id) = {
        let (x, y) = create_ping(&mut b.store, &b.keys, &a.signing.public, &a.exchange_pub).unwrap();
        (x, y)
    };
    assert_ne!(b_to_a_id, id);
    let pong_for_c = create_pong(&mut b.store, &id, &c.exchange_pub, &b.keys, true).unwrap();
    assert!(accept_pong(&mut c.store, &pong_for_c, &b.exchange_pub, &b.signing.public, &c.keys).is_ok());
    // A pong for A's keys but for a ping A never made.
    let mut b2 = party();
    b2.store = SessionStore::new();
    let (c3, id3) = create_ping(&mut c.store, &c.keys, &b.signing.public, &b.exchange_pub).unwrap();
    accept_ping(&mut b.store, &c3, &c.exchange_pub, &b.keys).unwrap();
    let pong_for_a = create_pong(&mut b.store, &id3, &a.exchange_pub, &b.keys, true).unwrap();
    assert!(matches!(
        accept_pong(&mut a.store, &pong_for_a, &b.exchange_pub, &b.signing.public, &a.keys),
        Err(ProtocolError::SessionNotFound)
    ));
    assert!(a.store.get_pong(&id3).is_none());
}

#[test]
fn accept_pong_checks_the_expected_signer() {
    let mut a = party();
    let mut b = party();
    let stranger = SigningKeypair::generate();
    let (c1, id) = create_ping(&mut a.store, &a.keys, &b.signing.public, &b.exchange_pub).unwrap();
    accept_ping(&mut b.store, &c1, &a.exchange_pub, &b.keys).unwrap();
    let c2 = create_pong(&mut b.store, &id, &a.exchange_pub, &b.keys, true).unwrap();
    assert!(matches!(
        accept_pong(&mut a.store, &c2, &b.exchange_pub, &stranger.public, &a.keys),
        Err(ProtocolError::InvalidSignature)
    ));
    assert!(a.store.is_awaiting(&id));
    assert!(accept_pong(&mut a.store, &c2, &b.exchange_pub, &b.signing.public, &a.keys).is_ok());
}

#[test]
fn ciphertext_under_other_secret_fails_to_decrypt() {
    let mut a = party();
    let mut b = party();
    let mut eve = party();
    let (c1, id) = create_ping(&mut a.store, &a.keys, &b.signing.public, &b.exchange_pub).unwrap();
    assert!(matches!(
        accept_ping(&mut eve.store, &c1, &a.exchange_pub, &eve.keys),
        Err(ProtocolError::DecryptionFailed)
    ));
    assert!(matches!(
        accept_ping(&mut b.store, &c1, &eve.exchange_pub, &b.keys),
        Err(ProtocolError::DecryptionFailed)
    ));
    accept_ping(&mut b.store, &c1, &a.exchange_pub, &b.keys).unwrap();
    let c2 = create_pong(&mut b.store, &id, &a.exchange_pub, &b.keys, true).unwrap();
    assert!(matches!(
        accept_pong(&mut eve.store, &c2, &b.exchange_pub, &b.signing.public, &eve.keys),
        Err(ProtocolError::DecryptionFailed)
    ));
}

#[test]
fn accept_ping_reports_bad_signature_apart() {
    let a = party();
    let mut b = party();
    let forged = PingToken {
        nonce: vec![1; 16],
        sender_pubkey: a.signing.public.clone(),
        timestamp: 42,
        recipient_pubkey: b.signing.public.clone(),
        signature: vec![0; 64],
    };
    let key = derive_shared_secret(&a.keys.exchange_secret, &b.exchange_pub).unwrap();
    let c = encrypt_message(&forged.to_bytes(), &key).unwrap();
    assert!(matches!(
        accept_ping(&mut b.store, &c, &a.exchange_pub, &b.keys),
        Err(ProtocolError::InvalidSignature)
    ));
    assert!(b.store.get_ping(&hex::encode(&forged.nonce)).is_none());
}

#[test]
fn accept_ping_reports_malformed_token() {
    let a = party();
    let mut b = party();
    let key = derive_shared_secret(&a.keys.exchange_secret, &b.exchange_pub).unwrap();
    let c = encrypt_message(&vec![1, 2, 3], &key).unwrap();
    assert!(matches!(
        accept_ping(&mut b.store, &c, &a.exchange_pub, &b.keys),
        Err(ProtocolError::MalformedToken)
    ));
}

#[test]
fn engine_rejects_wrong_key_lengths() {
    let mut a = party();
    let b = party();
    assert!(matches!(
        create_ping(&mut a.store, &a.keys, &b.signing.public[..31].to_vec(), &b.exchange_pub),
        Err(ProtocolError::InvalidKeyLength)
    ));
    assert!(matches!(
        accept_ping(&mut a.store, &vec![0; 200], &vec![0; 5], &a.keys),
        Err(ProtocolError::InvalidKeyLength)
    ));
    let bad = LocalKeys { signing_secret: vec![0; 10], exchange_secret: vec![0; 32] };
    assert!(matches!(
        create_pong(&mut a.store, "ab", &b.exchange_pub, &bad, true),
        Err(ProtocolError::SessionNotFound)
    ));
}

#[test]
fn create_pong_looks_up_the_session_before_the_keys() {
    let mut a = party();
    let mut b = party();
    assert_eq!(
        create_pong(&mut b.store, "00112233445566778899aabbccddeeff", &Vec::new(), &b.keys, true),
        Err(ProtocolError::SessionNotFound)
    );
    let (c1, id) = create_ping(&mut a.store, &a.keys, &b.signing.public, &b.exchange_pub).unwrap();
    accept_ping(&mut b.store, &c1, &a.exchange_pub, &b.keys).unwrap();
    assert_eq!(
        create_pong(&mut b.store, &id, &vec![0; 31], &b.keys, true),
        Err(ProtocolError::InvalidKeyLength)
    );
    assert!(b.store.get_ping(&id).is_some());
    assert!(create_pong(&mut b.store, &id, &a.exchange_pub, &b.keys, true).is_ok());
}

#[test]
fn accept_pong_decodes_before_checking_the_signer_key() {
    let mut a = party();
    let mut b = party();
    let key = derive_shared_secret(&b.keys.exchange_secret, &a.exchange_pub).unwrap();
    let junk = encrypt_message(&vec![1, 2, 3], &key).unwrap();
    assert!(matches!(
        accept_pong(&mut a.store, &junk, &b.exchange_pub, &vec![0; 5], &a.keys),
        Err(ProtocolError::MalformedToken)
    ));
    let (c1, id) = create_ping(&mut a.store, &a.keys, &b.signing.public, &b.exchange_pub).unwrap();
    accept_ping(&mut b.store, &c1, &a.exchange_pub, &b.keys).unwrap();
    let c2 = create_pong(&mut b.store, &id, &a.exchange_pub, &b.keys, true).unwrap();
    assert!(matches!(
        accept_pong(&mut a.store, &c2, &b.exchange_pub, &vec![0; 5], &a.keys),
        Err(ProtocolError::InvalidKeyLength)
    ));
    assert!(a.store.is_awaiting(&id));
}

#[test]
fn create_ping_with_fixed_inputs_is_deterministic() {
    let mut a = party();
    let b = party();
    let nonce: Vec<u8> = (0u8..16).collect();
    let env_nonce = vec![7u8; 24];
    let (c1, id1) =
        create_ping_with(&mut a.store, &a.keys, &b.signing.public, &b.exchange_pub, &nonce, 5, &env_nonce)
            .unwrap();
    let (c2, id2) =
        create_ping_with(&mut a.store, &a.keys, &b.signing.public, &b.exchange_pub, &nonce, 5, &env_nonce)
            .unwrap();
    assert_eq!(c1, c2);
    assert_eq!(id1, "000102030405060708090a0b0c0d0e0f");
    assert_eq!(id1, id2);
    assert_eq!(c1.len(), 24 + 152 + 16);
}

#[test]
fn wait_for_pong_times_out() {
    let mut store = SessionStore::new();
    let id = "0f0e0d0c0b0a09080706050403020100";
    assert!(matches!(poll_pong(&mut store, id, 0, 200), PollOutcome::Wait(100)));
    assert!(matches!(poll_pong(&mut store, id, 100, 200), PollOutcome::Wait(100)));
    assert!(matches!(poll_pong(&mut store, id, 150, 200), PollOutcome::Wait(50)));
    assert!(matches!(poll_pong(&mut store, id, 200, 200), PollOutcome::TimedOut));
    assert!(matches!(poll_pong(&mut store, id, 250, 200), PollOutcome::TimedOut));
    assert!(matches!(poll_pong(&mut store, id, 0, 0), PollOutcome::TimedOut));
}

#[test]
fn ping_verify_detects_any_mutated_field() {
    let sender = SigningKeypair::generate();
    let recipient = SigningKeypair::generate();
    let t = PingToken::new(&sender, &recipient.public).unwrap();
    assert!(t.verify());
    let mut m = t.clone();
    m.nonce[0] ^= 1;
    assert!(!m.verify());
    let mut m = t.clone();
    m.sender_pubkey[5] ^= 1;
    assert!(!m.verify());
    let mut m = t.clone();
    m.timestamp ^= 1;
    assert!(!m.verify());
    let mut m = t.clone();
    m.recipient_pubkey[31] ^= 1;
    assert!(!m.verify());
    let mut m = t.clone();
    m.signature[10] ^= 1;
    assert!(!m.verify());
}

#[test]
fn pong_verifies_only_against_its_signer() {
    let sender = SigningKeypair::generate();
    let responder = SigningKeypair::generate();
    let ping = PingToken::new(&sender, &responder.public).unwrap();
    let pong = PongToken::new(&ping, &responder, true);
    assert_eq!(pong.ping_nonce, ping.nonce);
    assert_eq!(pong.verify(&responder.public), Ok(true));
    assert_eq!(pong.verify(&sender.public), Ok(false));
    assert_eq!(pong.verify(&vec![0; 3]), Err(ProtocolError::InvalidKeyLength));
    let mut flipped = pong.clone();
    flipped.authenticated = false;
    assert_eq!(flipped.verify(&responder.public), Ok(false));
}

#[test]
fn ping_token_fields_and_id() {
    let sender = SigningKeypair::generate();
    let recipient = SigningKeypair::generate();
    let t = PingToken::create(&sender, &recipient.public, &vec![0xab; 16], 1234).unwrap();
    assert_eq!(t.sender_pubkey, sender.public);
    assert_eq!(t.recipient_pubkey, recipient.public);
    assert_eq!(t.timestamp, 1234);
    assert_eq!(t.ping_id(), "abababababababababababababababab");
    assert!(t.verify());
    assert!(matches!(
        PingToken::create(&sender, &recipient.public, &vec![0; 15], 1),
        Err(ProtocolError::InvalidKeyLength)
    ));
    let fresh1 = PingToken::new(&sender, &recipient.public).unwrap();
    let fresh2 = PingToken::new(&sender, &recipient.public).unwrap();
    assert_ne!(fresh1.nonce, fresh2.nonce);
}

#[test]
fn session_store_namespaces_are_independent() {
    let sender = SigningKeypair::generate();
    let recipient = SigningKeypair::generate();
    let ping = PingToken::new(&sender, &recipient.public).unwrap();
    let id = ping.ping_id();
    let pong = PongToken::new(&ping, &recipient, true);
    let mut store = SessionStore::new();
    store.store_ping(ping.clone(), 10);
    assert!(store.get_pong(&id).is_none());
    store.store_pong(pong, 11);
    assert_eq!(store.get_ping(&id).unwrap().stored_at, 10);
    assert_eq!(store.get_pong(&id).unwrap().stored_at, 11);
    assert_eq!(store.take_ping(&id).unwrap().ping_token.nonce, ping.nonce);
    assert!(store.take_ping(&id).is_none());
    assert!(store.get_pong(&id).is_some());
    store.remove_pong(&id);
    assert!(store.get_pong(&id).is_none());
    store.store_ping(ping, 12);
    store.remove_ping(&id);
    assert!(store.get_ping(&id).is_none());
}
