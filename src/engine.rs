use vstd::prelude::*;
use crate::bytes::copy_bytes;
use crate::codec::{decode_ping, decode_pong, encode_ping, encode_pong};
use crate::envelope::{
    decrypt_message, envelope_of, envelope_opened, seal_with_nonce, ENVELOPE_NONCE_LEN,
};
use crate::error::ProtocolError;
use crate::hex_id::{hex_lower, lemma_hex_injective};
use crate::identity::{
    ed25519_public_of, ed25519_signature_of, SigningKeypair, SIGNING_PUBLIC_LEN,
    SIGNING_SECRET_LEN,
};
use crate::codec::{lemma_ping_round_trip, lemma_pong_round_trip};
use crate::key_exchange::{
    derive_shared_secret, exchange_keys_agree, x25519_public_of, x25519_shared_of, EXCHANGE_KEY_LEN,
};
use crate::platform::{random_bytes, unix_seconds};
use crate::session::{PingSession, PongSession, SessionStore};
use crate::token::{
    ping_signed_message, pong_signed_message, PingToken, PingTokenView, PongToken,
    PongTokenView, TOKEN_NONCE_LEN,
};

verus! {

/// Interval between two looks for a pong while waiting, in milliseconds.
pub const POLL_INTERVAL_MS: u64 = 100;

/// This side's raw private keys, as key storage hands them out.
pub struct LocalKeys {
    pub signing_secret: Vec<u8>,
    pub exchange_secret: Vec<u8>,
}

/// What an accepted ping tells its recipient.
#[derive(Clone, Debug)]
pub struct PingInfo {
    pub sender_pubkey: Vec<u8>,
    pub ping_id: String,
    pub timestamp: u64,
}

/// What an accepted pong tells the ping's sender.
#[derive(Clone, Debug)]
pub struct PongInfo {
    pub responder_pubkey: Vec<u8>,
    pub ping_id: String,
    pub timestamp: u64,
    pub authenticated: bool,
}

/// One step of waiting for a pong.
#[derive(Debug)]
pub enum PollOutcome {
    /// The pong has arrived; its session has been consumed.
    Received(PongSession),
    /// Nothing yet: look again after this many milliseconds.
    Wait(u64),
    /// Nothing arrived before the deadline; a normal end, not an error.
    TimedOut,
}

/// The ping that a signing secret builds for a recipient from a nonce and a
/// timestamp.
pub open spec fn built_ping(
    signing_secret: Seq<u8>,
    recipient_pubkey: Seq<u8>,
    nonce: Seq<u8>,
    timestamp: u64,
) -> PingTokenView {
    let sender = ed25519_public_of(signing_secret);
    PingTokenView {
        nonce,
        sender_pubkey: sender,
        timestamp,
        recipient_pubkey,
        signature: ed25519_signature_of(
            signing_secret,
            ping_signed_message(nonce, sender, timestamp, recipient_pubkey),
        ),
    }
}

/// The pong that a signing secret builds in answer to the ping with
/// `ping_nonce`.
pub open spec fn built_pong(
    signing_secret: Seq<u8>,
    ping_nonce: Seq<u8>,
    authenticated: bool,
    timestamp: u64,
) -> PongTokenView {
    PongTokenView {
        ping_nonce,
        authenticated,
        timestamp,
        signature: ed25519_signature_of(
            signing_secret,
            pong_signed_message(ping_nonce, authenticated, timestamp),
        ),
    }
}

/// `ciphertext` is the envelope of `plain` under `key` with `envelope_nonce`,
/// and opening it under `key` gives `plain` back.
pub open spec fn seals(key: Seq<u8>, envelope_nonce: Seq<u8>, plain: Seq<u8>, ciphertext: Seq<u8>) -> bool {
    &&& ciphertext == envelope_of(key, envelope_nonce, plain)
    &&& envelope_opened(key, ciphertext) == Some(plain)
}

/// Both private keys have their fixed lengths.
pub open spec fn local_keys_ok(local: &LocalKeys) -> bool {
    local.signing_secret@.len() == SIGNING_SECRET_LEN && local.exchange_secret@.len()
        == EXCHANGE_KEY_LEN
}

/// What accepting a ping envelope yields: decrypt with the shared secret,
/// decode, then check the ping's signature under its own embedded key.
pub open spec fn ping_acceptance(
    ciphertext: Seq<u8>,
    sender_exchange_pub: Seq<u8>,
    exchange_secret: Seq<u8>,
) -> Result<PingTokenView, ProtocolError> {
    if exchange_secret.len() != EXCHANGE_KEY_LEN || sender_exchange_pub.len() != EXCHANGE_KEY_LEN {
        Err(ProtocolError::InvalidKeyLength)
    } else {
        match envelope_opened(x25519_shared_of(exchange_secret, sender_exchange_pub), ciphertext) {
            None => Err(ProtocolError::DecryptionFailed),
            Some(plain) => match decode_ping(plain) {
                None => Err(ProtocolError::MalformedToken),
                Some(t) => if t.self_consistent() {
                    Ok(t)
                } else {
                    Err(ProtocolError::InvalidSignature)
                },
            },
        }
    }
}

/// What accepting a pong envelope yields: decrypt, decode, check the
/// signature under the expected responder key (whose length is checked
/// there), then require that the pong
/// answers a ping this side sent and still awaits.
pub open spec fn pong_acceptance(
    ciphertext: Seq<u8>,
    peer_exchange_pub: Seq<u8>,
    expected_signer_pub: Seq<u8>,
    exchange_secret: Seq<u8>,
    awaiting: Map<Seq<char>, u64>,
) -> Result<PongTokenView, ProtocolError> {
    if exchange_secret.len() != EXCHANGE_KEY_LEN || peer_exchange_pub.len() != EXCHANGE_KEY_LEN {
        Err(ProtocolError::InvalidKeyLength)
    } else {
        match envelope_opened(x25519_shared_of(exchange_secret, peer_exchange_pub), ciphertext) {
            None => Err(ProtocolError::DecryptionFailed),
            Some(plain) => match decode_pong(plain) {
                None => Err(ProtocolError::MalformedToken),
                Some(t) => if expected_signer_pub.len() != SIGNING_PUBLIC_LEN {
                    Err(ProtocolError::InvalidKeyLength)
                } else if !t.signed_by(expected_signer_pub) {
                    Err(ProtocolError::InvalidSignature)
                } else if !awaiting.contains_key(hex_lower(t.ping_nonce)) {
                    Err(ProtocolError::SessionNotFound)
                } else {
                    Ok(t)
                },
            },
        }
    }
}

/// Builds a ping to the recipient from a chosen token nonce, timestamp and
/// envelope nonce, encrypts it under the shared secret of our exchange key
/// and the recipient's, and records the ping as awaiting its pong.
pub fn create_ping_with(
    store: &mut SessionStore,
    local: &LocalKeys,
    recipient_signing_pub: &Vec<u8>,
    recipient_exchange_pub: &Vec<u8>,
    nonce: &Vec<u8>,
    timestamp: u64,
    envelope_nonce: &Vec<u8>,
) -> (r: Result<(Vec<u8>, String), ProtocolError>)
    requires
        old(store).wf(),
    ensures
        final(store).wf(),
        final(store).pings() == old(store).pings(),
        final(store).pongs() == old(store).pongs(),
        match r {
            Ok((ciphertext, ping_id)) => {
                &&& local_keys_ok(local)
                &&& recipient_signing_pub@.len() == SIGNING_PUBLIC_LEN
                &&& recipient_exchange_pub@.len() == EXCHANGE_KEY_LEN
                &&& nonce@.len() == TOKEN_NONCE_LEN
                &&& envelope_nonce@.len() == ENVELOPE_NONCE_LEN
                &&& built_ping(local.signing_secret@, recipient_signing_pub@, nonce@, timestamp).wf()
                &&& built_ping(
                    local.signing_secret@,
                    recipient_signing_pub@,
                    nonce@,
                    timestamp,
                ).self_consistent()
                &&& seals(
                    x25519_shared_of(local.exchange_secret@, recipient_exchange_pub@),
                    envelope_nonce@,
                    encode_ping(
                        built_ping(local.signing_secret@, recipient_signing_pub@, nonce@, timestamp),
                    ),
                    ciphertext@,
                )
                &&& ping_id@ == hex_lower(nonce@)
                &&& final(store).awaiting() == old(store).awaiting().insert(ping_id@, timestamp)
            },
            Err(e) => {
                &&& !(local_keys_ok(local) && recipient_signing_pub@.len() == SIGNING_PUBLIC_LEN
                    && recipient_exchange_pub@.len() == EXCHANGE_KEY_LEN && nonce@.len()
                    == TOKEN_NONCE_LEN && envelope_nonce@.len() == ENVELOPE_NONCE_LEN)
                &&& e == ProtocolError::InvalidKeyLength
                &&& final(store).awaiting() == old(store).awaiting()
            },
        },
{
    if local.signing_secret.len() != SIGNING_SECRET_LEN || local.exchange_secret.len()
        != EXCHANGE_KEY_LEN || recipient_signing_pub.len() != SIGNING_PUBLIC_LEN
        || recipient_exchange_pub.len() != EXCHANGE_KEY_LEN || nonce.len() != TOKEN_NONCE_LEN
        || envelope_nonce.len() != ENVELOPE_NONCE_LEN {
        return Err(ProtocolError::InvalidKeyLength);
    }
    let keypair = match SigningKeypair::from_secret(&local.signing_secret) {
        Ok(kp) => kp,
        Err(e) => return Err(e),
    };
    let token = match PingToken::create(&keypair, recipient_signing_pub, nonce, timestamp) {
        Ok(t) => t,
        Err(e) => return Err(e),
    };
    let key = match derive_shared_secret(&local.exchange_secret, recipient_exchange_pub) {
        Ok(k) => k,
        Err(e) => return Err(e),
    };
    let plain = token.to_bytes();
    let ciphertext = match seal_with_nonce(&plain, &key, envelope_nonce) {
        Ok(c) => c,
        Err(e) => return Err(e),
    };
    let ping_id = token.ping_id();
    store.mark_awaiting(ping_id.clone(), timestamp);
    Ok((ciphertext, ping_id))
}

/// createPing: a fresh ping to the recipient (random nonce, current time),
/// encrypted for the recipient's exchange key, with its ping_id; the ping is
/// recorded as awaiting its pong.
pub fn create_ping(
    store: &mut SessionStore,
    local: &LocalKeys,
    recipient_signing_pub: &Vec<u8>,
    recipient_exchange_pub: &Vec<u8>,
) -> (r: Result<(Vec<u8>, String), ProtocolError>)
    requires
        old(store).wf(),
    ensures
        final(store).wf(),
        final(store).pings() == old(store).pings(),
        final(store).pongs() == old(store).pongs(),
        match r {
            Ok((ciphertext, ping_id)) => {
                &&& local_keys_ok(local)
                &&& recipient_signing_pub@.len() == SIGNING_PUBLIC_LEN
                &&& recipient_exchange_pub@.len() == EXCHANGE_KEY_LEN
                &&& exists|nonce: Seq<u8>, timestamp: u64, envelope_nonce: Seq<u8>|
                    {
                        &&& nonce.len() == TOKEN_NONCE_LEN
                        &&& envelope_nonce.len() == ENVELOPE_NONCE_LEN
                        &&& built_ping(
                            local.signing_secret@,
                            recipient_signing_pub@,
                            nonce,
                            timestamp,
                        ).wf()
                        &&& built_ping(
                            local.signing_secret@,
                            recipient_signing_pub@,
                            nonce,
                            timestamp,
                        ).self_consistent()
                        &&& #[trigger] seals(
                            x25519_shared_of(local.exchange_secret@, recipient_exchange_pub@),
                            envelope_nonce,
                            encode_ping(
                                built_ping(
                                    local.signing_secret@,
                                    recipient_signing_pub@,
                                    nonce,
                                    timestamp,
                                ),
                            ),
                            ciphertext@,
                        )
                        &&& ping_id@ == hex_lower(nonce)
                        &&& final(store).awaiting() == old(store).awaiting().insert(
                            ping_id@,
                            timestamp,
                        )
                    }
            },
            Err(e) => {
                &&& !(local_keys_ok(local) && recipient_signing_pub@.len() == SIGNING_PUBLIC_LEN
                    && recipient_exchange_pub@.len() == EXCHANGE_KEY_LEN)
                &&& e == ProtocolError::InvalidKeyLength
                &&& final(store).awaiting() == old(store).awaiting()
            },
        },
{
    let nonce = random_bytes(TOKEN_NONCE_LEN);
    let envelope_nonce = random_bytes(ENVELOPE_NONCE_LEN);
    let timestamp = unix_seconds();
    create_ping_with(
        store,
        local,
        recipient_signing_pub,
        recipient_exchange_pub,
        &nonce,
        timestamp,
        &envelope_nonce,
    )
}

/// acceptPing: decrypts a ping envelope from the sender, decodes it and
/// checks its signature; on success stores it as a pending ping session
/// under its ping_id. A bad signature is reported apart from a failure to
/// decrypt or to parse.
pub fn accept_ping(
    store: &mut SessionStore,
    ciphertext: &Vec<u8>,
    sender_exchange_pub: &Vec<u8>,
    local: &LocalKeys,
) -> (r: Result<PingInfo, ProtocolError>)
    requires
        old(store).wf(),
    ensures
        final(store).wf(),
        final(store).pongs() == old(store).pongs(),
        final(store).awaiting() == old(store).awaiting(),
        match r {
            Ok(info) => {
                let outcome = ping_acceptance(
                    ciphertext@,
                    sender_exchange_pub@,
                    local.exchange_secret@,
                );
                let t = outcome->Ok_0;
                &&& outcome is Ok
                &&& info.sender_pubkey@ == t.sender_pubkey
                &&& info.ping_id@ == hex_lower(t.nonce)
                &&& info.timestamp == t.timestamp
                &&& final(store).pings().contains_key(info.ping_id@)
                &&& final(store).pings()[info.ping_id@].ping_token@ == t
                &&& final(store).pings().remove(info.ping_id@) == old(store).pings().remove(
                    info.ping_id@,
                )
            },
            Err(e) => {
                &&& ping_acceptance(ciphertext@, sender_exchange_pub@, local.exchange_secret@)
                    == Err::<PingTokenView, ProtocolError>(e)
                &&& final(store).pings() == old(store).pings()
            },
        },
{
    let key = match derive_shared_secret(&local.exchange_secret, sender_exchange_pub) {
        Ok(k) => k,
        Err(e) => return Err(e),
    };
    let plain = match decrypt_message(ciphertext, &key) {
        Ok(p) => p,
        Err(e) => return Err(e),
    };
    let token = match PingToken::from_bytes(&plain) {
        Ok(t) => t,
        Err(e) => return Err(e),
    };
    if !token.verify() {
        return Err(ProtocolError::InvalidSignature);
    }
    let info = PingInfo {
        sender_pubkey: copy_bytes(&token.sender_pubkey),
        ping_id: token.ping_id(),
        timestamp: token.timestamp,
    };
    store.store_ping(token, unix_seconds());
    assert(store.pings().remove(info.ping_id@) =~= old(store).pings().remove(info.ping_id@));
    Ok(info)
}

/// Builds the pong to the pending ping `ping_id` with a chosen timestamp
/// and envelope nonce, consuming the ping session in the same step, and
/// encrypts the pong for the ping's sender.
pub fn create_pong_with(
    store: &mut SessionStore,
    ping_id: &str,
    sender_exchange_pub: &Vec<u8>,
    local: &LocalKeys,
    authenticated: bool,
    timestamp: u64,
    envelope_nonce: &Vec<u8>,
) -> (r: Result<Vec<u8>, ProtocolError>)
    requires
        old(store).wf(),
    ensures
        final(store).wf(),
        final(store).pongs() == old(store).pongs(),
        final(store).awaiting() == old(store).awaiting(),
        match r {
            Ok(ciphertext) => {
                &&& local_keys_ok(local)
                &&& sender_exchange_pub@.len() == EXCHANGE_KEY_LEN
                &&& envelope_nonce@.len() == ENVELOPE_NONCE_LEN
                &&& old(store).pings().contains_key(ping_id@)
                &&& built_pong(
                    local.signing_secret@,
                    old(store).pings()[ping_id@].ping_token@.nonce,
                    authenticated,
                    timestamp,
                ).wf()
                &&& built_pong(
                    local.signing_secret@,
                    old(store).pings()[ping_id@].ping_token@.nonce,
                    authenticated,
                    timestamp,
                ).signed_by(ed25519_public_of(local.signing_secret@))
                &&& seals(
                    x25519_shared_of(local.exchange_secret@, sender_exchange_pub@),
                    envelope_nonce@,
                    encode_pong(
                        built_pong(
                            local.signing_secret@,
                            old(store).pings()[ping_id@].ping_token@.nonce,
                            authenticated,
                            timestamp,
                        ),
                    ),
                    ciphertext@,
                )
                &&& final(store).pings() == old(store).pings().remove(ping_id@)
            },
            Err(e) => {
                let keys_ok = local_keys_ok(local) && sender_exchange_pub@.len() == EXCHANGE_KEY_LEN
                    && envelope_nonce@.len() == ENVELOPE_NONCE_LEN;
                &&& !old(store).pings().contains_key(ping_id@) ==> e
                    == ProtocolError::SessionNotFound
                &&& old(store).pings().contains_key(ping_id@) ==> !keys_ok && e
                    == ProtocolError::InvalidKeyLength
                &&& final(store).pings() == old(store).pings()
            },
        },
{
    if !store.has_ping(ping_id) {
        return Err(ProtocolError::SessionNotFound);
    }
    if local.signing_secret.len() != SIGNING_SECRET_LEN || local.exchange_secret.len()
        != EXCHANGE_KEY_LEN || sender_exchange_pub.len() != EXCHANGE_KEY_LEN
        || envelope_nonce.len() != ENVELOPE_NONCE_LEN {
        return Err(ProtocolError::InvalidKeyLength);
    }
    let keypair = match SigningKeypair::from_secret(&local.signing_secret) {
        Ok(kp) => kp,
        Err(e) => return Err(e),
    };
    let key = match derive_shared_secret(&local.exchange_secret, sender_exchange_pub) {
        Ok(k) => k,
        Err(e) => return Err(e),
    };
    let session = match store.take_ping(ping_id) {
        Some(s) => s,
        None => return Err(ProtocolError::SessionNotFound),
    };
    let pong = PongToken::create(&session.ping_token, &keypair, authenticated, timestamp);
    let plain = pong.to_bytes();
    match seal_with_nonce(&plain, &key, envelope_nonce) {
        Ok(c) => Ok(c),
        Err(e) => Err(e),
    }
}

/// createPong: answers the pending ping `ping_id` (current time, random
/// envelope nonce). Finding and consuming the ping session is one step, so a
/// ping yields at most one pong; a missing session, whether it never came,
/// was already answered or was dropped, is `SessionNotFound`.
pub fn create_pong(
    store: &mut SessionStore,
    ping_id: &str,
    sender_exchange_pub: &Vec<u8>,
    local: &LocalKeys,
    authenticated: bool,
) -> (r: Result<Vec<u8>, ProtocolError>)
    requires
        old(store).wf(),
    ensures
        final(store).wf(),
        final(store).pongs() == old(store).pongs(),
        final(store).awaiting() == old(store).awaiting(),
        match r {
            Ok(ciphertext) => {
                &&& local_keys_ok(local)
                &&& sender_exchange_pub@.len() == EXCHANGE_KEY_LEN
                &&& old(store).pings().contains_key(ping_id@)
                &&& exists|timestamp: u64, envelope_nonce: Seq<u8>|
                    {
                        &&& envelope_nonce.len() == ENVELOPE_NONCE_LEN
                        &&& built_pong(
                            local.signing_secret@,
                            old(store).pings()[ping_id@].ping_token@.nonce,
                            authenticated,
                            timestamp,
                        ).wf()
                        &&& built_pong(
                            local.signing_secret@,
                            old(store).pings()[ping_id@].ping_token@.nonce,
                            authenticated,
                            timestamp,
                        ).signed_by(ed25519_public_of(local.signing_secret@))
                        &&& #[trigger] seals(
                            x25519_shared_of(local.exchange_secret@, sender_exchange_pub@),
                            envelope_nonce,
                            encode_pong(
                                built_pong(
                                    local.signing_secret@,
                                    old(store).pings()[ping_id@].ping_token@.nonce,
                                    authenticated,
                                    timestamp,
                                ),
                            ),
                            ciphertext@,
                        )
                    }
                &&& final(store).pings() == old(store).pings().remove(ping_id@)
            },
            Err(e) => {
                let keys_ok = local_keys_ok(local) && sender_exchange_pub@.len()
                    == EXCHANGE_KEY_LEN;
                &&& !old(store).pings().contains_key(ping_id@) ==> e
                    == ProtocolError::SessionNotFound
                &&& old(store).pings().contains_key(ping_id@) ==> !keys_ok && e
                    == ProtocolError::InvalidKeyLength
                &&& final(store).pings() == old(store).pings()
            },
        },
{
    let envelope_nonce = random_bytes(ENVELOPE_NONCE_LEN);
    let timestamp = unix_seconds();
    create_pong_with(
        store,
        ping_id,
        sender_exchange_pub,
        local,
        authenticated,
        timestamp,
        &envelope_nonce,
    )
}

/// acceptPong: decrypts a pong envelope from the peer, decodes it, checks
/// its signature against the responder key the caller expects, and requires
/// that it answers a ping this side sent and still awaits. On success the
/// ping is no longer awaited and the pong waits to be collected.
pub fn accept_pong(
    store: &mut SessionStore,
    ciphertext: &Vec<u8>,
    peer_exchange_pub: &Vec<u8>,
    expected_signer_pub: &Vec<u8>,
    local: &LocalKeys,
) -> (r: Result<PongInfo, ProtocolError>)
    requires
        old(store).wf(),
    ensures
        final(store).wf(),
        final(store).pings() == old(store).pings(),
        match r {
            Ok(info) => {
                let outcome = pong_acceptance(
                    ciphertext@,
                    peer_exchange_pub@,
                    expected_signer_pub@,
                    local.exchange_secret@,
                    old(store).awaiting(),
                );
                let t = outcome->Ok_0;
                &&& outcome is Ok
                &&& info.responder_pubkey@ == expected_signer_pub@
                &&& info.ping_id@ == hex_lower(t.ping_nonce)
                &&& info.timestamp == t.timestamp
                &&& info.authenticated == t.authenticated
                &&& final(store).awaiting() == old(store).awaiting().remove(info.ping_id@)
                &&& final(store).pongs().contains_key(info.ping_id@)
                &&& final(store).pongs()[info.ping_id@].pong_token@ == t
                &&& final(store).pongs().remove(info.ping_id@) == old(store).pongs().remove(
                    info.ping_id@,
                )
            },
            Err(e) => {
                &&& pong_acceptance(
                    ciphertext@,
                    peer_exchange_pub@,
                    expected_signer_pub@,
                    local.exchange_secret@,
                    old(store).awaiting(),
                ) == Err::<PongTokenView, ProtocolError>(e)
                &&& final(store).pongs() == old(store).pongs()
                &&& final(store).awaiting() == old(store).awaiting()
            },
        },
{
    let key = match derive_shared_secret(&local.exchange_secret, peer_exchange_pub) {
        Ok(k) => k,
        Err(e) => return Err(e),
    };
    let plain = match decrypt_message(ciphertext, &key) {
        Ok(p) => p,
        Err(e) => return Err(e),
    };
    let token = match PongToken::from_bytes(&plain) {
        Ok(t) => t,
        Err(e) => return Err(e),
    };
    match token.verify(expected_signer_pub) {
        Ok(true) => {},
        Ok(false) => return Err(ProtocolError::InvalidSignature),
        Err(e) => return Err(e),
    }
    let ping_id = token.ping_id();
    if !store.is_awaiting(ping_id.as_str()) {
        return Err(ProtocolError::SessionNotFound);
    }
    let info = PongInfo {
        responder_pubkey: copy_bytes(expected_signer_pub),
        ping_id,
        timestamp: token.timestamp,
        authenticated: token.authenticated,
    };
    store.settle(token, unix_seconds());
    assert(store.pongs().remove(info.ping_id@) =~= old(store).pongs().remove(info.ping_id@));
    Ok(info)
}

/// One look for the pong to `ping_id`, `elapsed_ms` into a wait of
/// `timeout_ms`: a pong that has arrived is consumed and returned; otherwise
/// the wait ends once the deadline is reached, or goes on after at most one
/// poll interval, never past the deadline.
pub fn poll_pong(store: &mut SessionStore, ping_id: &str, elapsed_ms: u64, timeout_ms: u64) -> (r:
    PollOutcome)
    requires
        old(store).wf(),
    ensures
        final(store).wf(),
        final(store).pings() == old(store).pings(),
        final(store).awaiting() == old(store).awaiting(),
        old(store).pongs().contains_key(ping_id@) ==> {
            &&& r matches PollOutcome::Received(s) && s@ == old(store).pongs()[ping_id@]@
            &&& final(store).pongs() == old(store).pongs().remove(ping_id@)
        },
        !old(store).pongs().contains_key(ping_id@) ==> {
            &&& final(store).pongs() == old(store).pongs()
            &&& elapsed_ms >= timeout_ms ==> r is TimedOut
            &&& elapsed_ms < timeout_ms ==> r == PollOutcome::Wait(
                if timeout_ms - elapsed_ms < POLL_INTERVAL_MS {
                    (timeout_ms - elapsed_ms) as u64
                } else {
                    POLL_INTERVAL_MS
                },
            )
        },
{
    match store.take_pong(ping_id) {
        Some(s) => PollOutcome::Received(s),
        None => {
            if elapsed_ms >= timeout_ms {
                PollOutcome::TimedOut
            } else if timeout_ms - elapsed_ms < POLL_INTERVAL_MS {
                PollOutcome::Wait(timeout_ms - elapsed_ms)
            } else {
                PollOutcome::Wait(POLL_INTERVAL_MS)
            }
        },
    }
}

/// Correlation: a pong is accepted only when the ping_id it answers is
/// that of a ping this side created (`create_ping` alone records pings as
/// awaited) and whose answer it still awaits; and a ping_id names exactly
/// one nonce, so the pong carries that very ping's nonce.
pub proof fn lemma_pong_only_for_own_ping(
    ciphertext: Seq<u8>,
    peer_exchange_pub: Seq<u8>,
    expected_signer_pub: Seq<u8>,
    exchange_secret: Seq<u8>,
    awaiting: Map<Seq<char>, u64>,
    sent_nonce: Seq<u8>,
)
    requires
        sent_nonce.len() == TOKEN_NONCE_LEN,
    ensures
        ({
            let outcome = pong_acceptance(
                ciphertext,
                peer_exchange_pub,
                expected_signer_pub,
                exchange_secret,
                awaiting,
            );
            outcome is Ok ==> {
                &&& awaiting.contains_key(hex_lower(outcome->Ok_0.ping_nonce))
                &&& hex_lower(outcome->Ok_0.ping_nonce) == hex_lower(sent_nonce)
                    ==> outcome->Ok_0.ping_nonce == sent_nonce
            }
        }),
{
    let outcome = pong_acceptance(
        ciphertext,
        peer_exchange_pub,
        expected_signer_pub,
        exchange_secret,
        awaiting,
    );
    if outcome is Ok {
        let t = outcome->Ok_0;
        assert(t.ping_nonce.len() == TOKEN_NONCE_LEN);
        if hex_lower(t.ping_nonce) == hex_lower(sent_nonce) {
            lemma_hex_injective(t.ping_nonce, sent_nonce);
        }
    }
}

/// Single use: a successful `create_pong` for `ping_id` leaves the pending
/// pings as they were minus `ping_id`, where nothing is found under it, so
/// every later `create_pong` for the same ping_id fails with
/// `SessionNotFound`.
pub proof fn lemma_pong_single_use(pings_before: Map<Seq<char>, PingSession>, ping_id: Seq<char>)
    ensures
        !pings_before.remove(ping_id).contains_key(ping_id),
{
}

/// End to end, first half: what `create_ping` states of the envelope A
/// sends to B's keys is accepted by B from A's exchange key, and yields the
/// very ping A built, so both sides see the same ping_id.
pub proof fn lemma_ping_reaches_recipient(
    a_signing_secret: Seq<u8>,
    a_exchange_secret: Seq<u8>,
    a_exchange_pub: Seq<u8>,
    b_signing_pub: Seq<u8>,
    b_exchange_secret: Seq<u8>,
    b_exchange_pub: Seq<u8>,
    nonce: Seq<u8>,
    timestamp: u64,
    envelope_nonce: Seq<u8>,
    ciphertext: Seq<u8>,
)
    requires
        a_exchange_secret.len() == EXCHANGE_KEY_LEN,
        b_exchange_secret.len() == EXCHANGE_KEY_LEN,
        a_exchange_pub == x25519_public_of(a_exchange_secret),
        a_exchange_pub.len() == EXCHANGE_KEY_LEN,
        exchange_keys_agree(b_exchange_secret, b_exchange_pub),
        built_ping(a_signing_secret, b_signing_pub, nonce, timestamp).wf(),
        built_ping(a_signing_secret, b_signing_pub, nonce, timestamp).self_consistent(),
        seals(
            x25519_shared_of(a_exchange_secret, b_exchange_pub),
            envelope_nonce,
            encode_ping(built_ping(a_signing_secret, b_signing_pub, nonce, timestamp)),
            ciphertext,
        ),
    ensures
        ping_acceptance(ciphertext, a_exchange_pub, b_exchange_secret) == Ok::<
            PingTokenView,
            ProtocolError,
        >(built_ping(a_signing_secret, b_signing_pub, nonce, timestamp)),
{
    let t = built_ping(a_signing_secret, b_signing_pub, nonce, timestamp);
    assert(x25519_shared_of(a_exchange_secret, b_exchange_pub) == x25519_shared_of(
        b_exchange_secret,
        a_exchange_pub,
    ));
    lemma_ping_round_trip(t);
}

/// End to end, second half: what `create_pong` states of the envelope B
/// sends back to A's exchange key is accepted by A from B's exchange key
/// under B's signing key, as long as A still awaits that ping, and yields
/// the very pong B built.
pub proof fn lemma_pong_reaches_initiator(
    b_signing_secret: Seq<u8>,
    b_signing_pub: Seq<u8>,
    b_exchange_secret: Seq<u8>,
    b_exchange_pub: Seq<u8>,
    a_exchange_secret: Seq<u8>,
    a_exchange_pub: Seq<u8>,
    ping_nonce: Seq<u8>,
    authenticated: bool,
    timestamp: u64,
    envelope_nonce: Seq<u8>,
    ciphertext: Seq<u8>,
    awaiting: Map<Seq<char>, u64>,
)
    requires
        a_exchange_secret.len() == EXCHANGE_KEY_LEN,
        b_exchange_secret.len() == EXCHANGE_KEY_LEN,
        b_exchange_pub == x25519_public_of(b_exchange_secret),
        b_exchange_pub.len() == EXCHANGE_KEY_LEN,
        exchange_keys_agree(a_exchange_secret, a_exchange_pub),
        b_signing_pub == ed25519_public_of(b_signing_secret),
        b_signing_pub.len() == SIGNING_PUBLIC_LEN,
        built_pong(b_signing_secret, ping_nonce, authenticated, timestamp).wf(),
        built_pong(b_signing_secret, ping_nonce, authenticated, timestamp).signed_by(
            b_signing_pub,
        ),
        seals(
            x25519_shared_of(b_exchange_secret, a_exchange_pub),
            envelope_nonce,
            encode_pong(built_pong(b_signing_secret, ping_nonce, authenticated, timestamp)),
            ciphertext,
        ),
        awaiting.contains_key(hex_lower(ping_nonce)),
    ensures
        pong_acceptance(ciphertext, b_exchange_pub, b_signing_pub, a_exchange_secret, awaiting)
            == Ok::<PongTokenView, ProtocolError>(
            built_pong(b_signing_secret, ping_nonce, authenticated, timestamp),
        ),
{
    let t = built_pong(b_signing_secret, ping_nonce, authenticated, timestamp);
    assert(x25519_shared_of(b_exchange_secret, a_exchange_pub) == x25519_shared_of(
        a_exchange_secret,
        b_exchange_pub,
    ));
    lemma_pong_round_trip(t);
}

} // verus!
