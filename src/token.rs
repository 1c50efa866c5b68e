use vstd::prelude::*;
use crate::bytes::{be64, copy_bytes, push_all, push_be64};
use crate::error::ProtocolError;
use crate::hex_id::{hex_lower, to_hex};
use crate::identity::{
    ed25519_accepts, ed25519_signature_of, verify, SigningKeypair, SIGNATURE_LEN,
    SIGNING_PUBLIC_LEN,
};
use crate::platform::{random_bytes, unix_seconds};

verus! {

/// Byte length of a token nonce.
pub const TOKEN_NONCE_LEN: usize = 16;

/// The bytes a ping's signature covers: nonce, sender key, timestamp
/// (big-endian) and recipient key, in that order.
pub open spec fn ping_signed_message(
    nonce: Seq<u8>,
    sender_pubkey: Seq<u8>,
    timestamp: u64,
    recipient_pubkey: Seq<u8>,
) -> Seq<u8> {
    nonce + sender_pubkey + be64(timestamp) + recipient_pubkey
}

/// The bytes a pong's signature covers: the ping's nonce, the outcome flag as
/// one byte, and the timestamp (big-endian).
pub open spec fn pong_signed_message(ping_nonce: Seq<u8>, authenticated: bool, timestamp: u64) -> Seq<
    u8,
> {
    ping_nonce + seq![if authenticated { 1u8 } else { 0u8 }] + be64(timestamp)
}

/// A liveness challenge, signed by its sender for one recipient.
#[derive(Clone, Debug)]
pub struct PingToken {
    pub nonce: Vec<u8>,
    pub sender_pubkey: Vec<u8>,
    pub timestamp: u64,
    pub recipient_pubkey: Vec<u8>,
    pub signature: Vec<u8>,
}

/// The mathematical content of a `PingToken`.
pub struct PingTokenView {
    pub nonce: Seq<u8>,
    pub sender_pubkey: Seq<u8>,
    pub timestamp: u64,
    pub recipient_pubkey: Seq<u8>,
    pub signature: Seq<u8>,
}

impl PingTokenView {
    /// Every field has its fixed length.
    pub open spec fn wf(self) -> bool {
        &&& self.nonce.len() == TOKEN_NONCE_LEN
        &&& self.sender_pubkey.len() == SIGNING_PUBLIC_LEN
        &&& self.recipient_pubkey.len() == SIGNING_PUBLIC_LEN
        &&& self.signature.len() == SIGNATURE_LEN
    }

    pub open spec fn signed_message(self) -> Seq<u8> {
        ping_signed_message(self.nonce, self.sender_pubkey, self.timestamp, self.recipient_pubkey)
    }

    /// The signature verifies over the token's own fields under its own
    /// embedded sender key. This says nothing of who the sender is.
    pub open spec fn self_consistent(self) -> bool {
        ed25519_accepts(self.sender_pubkey, self.signed_message(), self.signature)
    }
}

impl View for PingToken {
    type V = PingTokenView;

    open spec fn view(&self) -> PingTokenView {
        PingTokenView {
            nonce: self.nonce@,
            sender_pubkey: self.sender_pubkey@,
            timestamp: self.timestamp,
            recipient_pubkey: self.recipient_pubkey@,
            signature: self.signature@,
        }
    }
}

/// A liveness response to one ping, signed by the ping's recipient.
#[derive(Clone, Debug)]
pub struct PongToken {
    pub ping_nonce: Vec<u8>,
    pub authenticated: bool,
    pub timestamp: u64,
    pub signature: Vec<u8>,
}

/// The mathematical content of a `PongToken`.
pub struct PongTokenView {
    pub ping_nonce: Seq<u8>,
    pub authenticated: bool,
    pub timestamp: u64,
    pub signature: Seq<u8>,
}

impl PongTokenView {
    /// Every field has its fixed length.
    pub open spec fn wf(self) -> bool {
        &&& self.ping_nonce.len() == TOKEN_NONCE_LEN
        &&& self.signature.len() == SIGNATURE_LEN
    }

    pub open spec fn signed_message(self) -> Seq<u8> {
        pong_signed_message(self.ping_nonce, self.authenticated, self.timestamp)
    }

    /// The signature verifies over the token's fields under `signer`.
    pub open spec fn signed_by(self, signer: Seq<u8>) -> bool {
        ed25519_accepts(signer, self.signed_message(), self.signature)
    }
}

impl View for PongToken {
    type V = PongTokenView;

    open spec fn view(&self) -> PongTokenView {
        PongTokenView {
            ping_nonce: self.ping_nonce@,
            authenticated: self.authenticated,
            timestamp: self.timestamp,
            signature: self.signature@,
        }
    }
}

/// The bytes of `ping_signed_message`.
fn ping_message_bytes(
    nonce: &Vec<u8>,
    sender_pubkey: &Vec<u8>,
    timestamp: u64,
    recipient_pubkey: &Vec<u8>,
) -> (r: Vec<u8>)
    ensures
        r@ == ping_signed_message(nonce@, sender_pubkey@, timestamp, recipient_pubkey@),
{
    let mut out: Vec<u8> = Vec::new();
    push_all(&mut out, nonce);
    push_all(&mut out, sender_pubkey);
    push_be64(&mut out, timestamp);
    push_all(&mut out, recipient_pubkey);
    assert(out@ =~= ping_signed_message(nonce@, sender_pubkey@, timestamp, recipient_pubkey@));
    out
}

/// The bytes of `pong_signed_message`.
fn pong_message_bytes(ping_nonce: &Vec<u8>, authenticated: bool, timestamp: u64) -> (r: Vec<u8>)
    ensures
        r@ == pong_signed_message(ping_nonce@, authenticated, timestamp),
{
    let mut out: Vec<u8> = Vec::new();
    push_all(&mut out, ping_nonce);
    out.push(if authenticated { 1u8 } else { 0u8 });
    push_be64(&mut out, timestamp);
    assert(out@ =~= pong_signed_message(ping_nonce@, authenticated, timestamp));
    out
}

impl PingToken {
    /// Builds and signs a ping from a chosen nonce and timestamp.
    pub fn create(
        sender: &SigningKeypair,
        recipient_pubkey: &Vec<u8>,
        nonce: &Vec<u8>,
        timestamp: u64,
    ) -> (r: Result<PingToken, ProtocolError>)
        requires
            sender.wf(),
        ensures
            match r {
                Ok(t) => {
                    &&& recipient_pubkey@.len() == SIGNING_PUBLIC_LEN
                    &&& nonce@.len() == TOKEN_NONCE_LEN
                    &&& t@ == PingTokenView {
                        nonce: nonce@,
                        sender_pubkey: sender.public@,
                        timestamp,
                        recipient_pubkey: recipient_pubkey@,
                        signature: ed25519_signature_of(
                            sender.secret@,
                            ping_signed_message(
                                nonce@,
                                sender.public@,
                                timestamp,
                                recipient_pubkey@,
                            ),
                        ),
                    }
                    &&& t@.wf()
                    &&& t@.self_consistent()
                },
                Err(e) => (recipient_pubkey@.len() != SIGNING_PUBLIC_LEN || nonce@.len()
                    != TOKEN_NONCE_LEN) && e == ProtocolError::InvalidKeyLength,
            },
    {
        if recipient_pubkey.len() != SIGNING_PUBLIC_LEN || nonce.len() != TOKEN_NONCE_LEN {
            return Err(ProtocolError::InvalidKeyLength);
        }
        let message = ping_message_bytes(nonce, &sender.public, timestamp, recipient_pubkey);
        let signature = sender.sign_message(&message);
        Ok(
            PingToken {
                nonce: copy_bytes(nonce),
                sender_pubkey: copy_bytes(&sender.public),
                timestamp,
                recipient_pubkey: copy_bytes(recipient_pubkey),
                signature,
            },
        )
    }

    /// A fresh ping to `recipient_pubkey`: random nonce, the current time,
    /// signed by `sender`.
    pub fn new(sender: &SigningKeypair, recipient_pubkey: &Vec<u8>) -> (r: Result<
        PingToken,
        ProtocolError,
    >)
        requires
            sender.wf(),
        ensures
            match r {
                Ok(t) => {
                    &&& recipient_pubkey@.len() == SIGNING_PUBLIC_LEN
                    &&& t@.sender_pubkey == sender.public@
                    &&& t@.recipient_pubkey == recipient_pubkey@
                    &&& t@.signature == ed25519_signature_of(sender.secret@, t@.signed_message())
                    &&& t@.wf()
                    &&& t@.self_consistent()
                },
                Err(e) => recipient_pubkey@.len() != SIGNING_PUBLIC_LEN && e
                    == ProtocolError::InvalidKeyLength,
            },
    {
        let nonce = random_bytes(TOKEN_NONCE_LEN);
        let timestamp = unix_seconds();
        PingToken::create(sender, recipient_pubkey, &nonce, timestamp)
    }

    /// Checks the signature over the token's own fields against the sender
    /// key embedded in the token. This proves self-consistency only, never
    /// who sent the token.
    pub fn verify(&self) -> (r: bool)
        requires
            self@.wf(),
        ensures
            r == self@.self_consistent(),
    {
        let message = ping_message_bytes(
            &self.nonce,
            &self.sender_pubkey,
            self.timestamp,
            &self.recipient_pubkey,
        );
        match verify(&message, &self.signature, &self.sender_pubkey) {
            Ok(valid) => valid,
            Err(_) => false,
        }
    }

    /// The external handle of this ping: lowercase hex of its nonce.
    pub fn ping_id(&self) -> (r: String)
        ensures
            r@ == hex_lower(self.nonce@),
    {
        to_hex(&self.nonce)
    }

    /// A copy with the same content.
    pub fn duplicate(&self) -> (r: PingToken)
        ensures
            r@ == self@,
    {
        PingToken {
            nonce: copy_bytes(&self.nonce),
            sender_pubkey: copy_bytes(&self.sender_pubkey),
            timestamp: self.timestamp,
            recipient_pubkey: copy_bytes(&self.recipient_pubkey),
            signature: copy_bytes(&self.signature),
        }
    }
}

impl PongToken {
    /// Builds and signs the response to `ping` with a chosen timestamp.
    pub fn create(
        ping: &PingToken,
        responder: &SigningKeypair,
        authenticated: bool,
        timestamp: u64,
    ) -> (r: PongToken)
        requires
            ping@.wf(),
            responder.wf(),
        ensures
            r@ == (PongTokenView {
                ping_nonce: ping.nonce@,
                authenticated,
                timestamp,
                signature: ed25519_signature_of(
                    responder.secret@,
                    pong_signed_message(ping.nonce@, authenticated, timestamp),
                ),
            }),
            r@.wf(),
            r@.signed_by(responder.public@),
    {
        let message = pong_message_bytes(&ping.nonce, authenticated, timestamp);
        let signature = responder.sign_message(&message);
        PongToken { ping_nonce: copy_bytes(&ping.nonce), authenticated, timestamp, signature }
    }

    /// The response to `ping`, stamped with the current time and signed by
    /// `responder`.
    pub fn new(ping: &PingToken, responder: &SigningKeypair, authenticated: bool) -> (r: PongToken)
        requires
            ping@.wf(),
            responder.wf(),
        ensures
            r@.ping_nonce == ping.nonce@,
            r@.authenticated == authenticated,
            r@.signature == ed25519_signature_of(responder.secret@, r@.signed_message()),
            r@.wf(),
            r@.signed_by(responder.public@),
    {
        let timestamp = unix_seconds();
        PongToken::create(ping, responder, authenticated, timestamp)
    }

    /// Checks the signature against the key the caller expects to have
    /// answered, not against anything the token carries.
    pub fn verify(&self, expected_signer: &Vec<u8>) -> (r: Result<bool, ProtocolError>)
        requires
            self@.wf(),
        ensures
            match r {
                Ok(valid) => expected_signer@.len() == SIGNING_PUBLIC_LEN && valid
                    == self@.signed_by(expected_signer@),
                Err(e) => expected_signer@.len() != SIGNING_PUBLIC_LEN && e
                    == ProtocolError::InvalidKeyLength,
            },
    {
        let message = pong_message_bytes(&self.ping_nonce, self.authenticated, self.timestamp);
        verify(&message, &self.signature, expected_signer)
    }

    /// The handle of the ping this pong answers: lowercase hex of its nonce.
    pub fn ping_id(&self) -> (r: String)
        ensures
            r@ == hex_lower(self.ping_nonce@),
    {
        to_hex(&self.ping_nonce)
    }

    /// A copy with the same content.
    pub fn duplicate(&self) -> (r: PongToken)
        ensures
            r@ == self@,
    {
        PongToken {
            ping_nonce: copy_bytes(&self.ping_nonce),
            authenticated: self.authenticated,
            timestamp: self.timestamp,
            signature: copy_bytes(&self.signature),
        }
    }
}

/// Two pings whose signed messages agree agree on every signed field: a
/// ping's signature covers exactly its nonce, sender key, timestamp and
/// recipient key, so changing any byte of them changes what must verify.
pub proof fn lemma_ping_signature_covers_fields(a: PingTokenView, b: PingTokenView)
    requires
        a.wf(),
        b.wf(),
        a.signed_message() == b.signed_message(),
    ensures
        a.nonce == b.nonce,
        a.sender_pubkey == b.sender_pubkey,
        a.timestamp == b.timestamp,
        a.recipient_pubkey == b.recipient_pubkey,
{
    let m = a.signed_message();
    crate::bytes::lemma_be64_round_trip(a.timestamp);
    crate::bytes::lemma_be64_round_trip(b.timestamp);
    assert(m.subrange(0, 16) =~= a.nonce);
    assert(b.signed_message().subrange(0, 16) =~= b.nonce);
    assert(m.subrange(16, 48) =~= a.sender_pubkey);
    assert(b.signed_message().subrange(16, 48) =~= b.sender_pubkey);
    assert(m.subrange(48, 56) =~= be64(a.timestamp));
    assert(b.signed_message().subrange(48, 56) =~= be64(b.timestamp));
    assert(m.subrange(56, 88) =~= a.recipient_pubkey);
    assert(b.signed_message().subrange(56, 88) =~= b.recipient_pubkey);
}

/// Two pongs whose signed messages agree agree on every signed field.
pub proof fn lemma_pong_signature_covers_fields(a: PongTokenView, b: PongTokenView)
    requires
        a.wf(),
        b.wf(),
        a.signed_message() == b.signed_message(),
    ensures
        a.ping_nonce == b.ping_nonce,
        a.authenticated == b.authenticated,
        a.timestamp == b.timestamp,
{
    let m = a.signed_message();
    crate::bytes::lemma_be64_round_trip(a.timestamp);
    crate::bytes::lemma_be64_round_trip(b.timestamp);
    assert(m.subrange(0, 16) =~= a.ping_nonce);
    assert(b.signed_message().subrange(0, 16) =~= b.ping_nonce);
    assert(m[16] == b.signed_message()[16]);
    assert(m.subrange(17, 25) =~= be64(a.timestamp));
    assert(b.signed_message().subrange(17, 25) =~= be64(b.timestamp));
}

} // verus!
