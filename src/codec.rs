use vstd::prelude::*;
use crate::bytes::{
    be64, copy_range, from_be64, lemma_be64_from_bytes, lemma_be64_round_trip, push_all, push_be64,
    read_be64,
};
use crate::error::ProtocolError;
use crate::token::{PingToken, PingTokenView, PongToken, PongTokenView};

verus! {

/// Byte length of an encoded ping: nonce 16, sender key 32, timestamp 8,
/// recipient key 32, signature 64.
pub const PING_ENCODED_LEN: usize = 152;

/// Byte length of an encoded pong: ping nonce 16, flag 1, timestamp 8,
/// signature 64.
pub const PONG_ENCODED_LEN: usize = 89;

/// The wire encoding of a ping; integers are big-endian.
pub open spec fn encode_ping(t: PingTokenView) -> Seq<u8> {
    t.nonce + t.sender_pubkey + be64(t.timestamp) + t.recipient_pubkey + t.signature
}

/// The ping a byte string encodes, if it has exactly the encoded length.
pub open spec fn decode_ping(s: Seq<u8>) -> Option<PingTokenView> {
    if s.len() != PING_ENCODED_LEN {
        None
    } else {
        Some(
            PingTokenView {
                nonce: s.subrange(0, 16),
                sender_pubkey: s.subrange(16, 48),
                timestamp: from_be64(s.subrange(48, 56)),
                recipient_pubkey: s.subrange(56, 88),
                signature: s.subrange(88, 152),
            },
        )
    }
}

/// The wire encoding of a pong; the flag is one byte, 1 or 0.
pub open spec fn encode_pong(t: PongTokenView) -> Seq<u8> {
    t.ping_nonce + seq![if t.authenticated { 1u8 } else { 0u8 }] + be64(t.timestamp)
        + t.signature
}

/// The pong a byte string encodes, if it has exactly the encoded length and
/// its flag byte is 0 or 1.
pub open spec fn decode_pong(s: Seq<u8>) -> Option<PongTokenView> {
    if s.len() != PONG_ENCODED_LEN || s[16] > 1 {
        None
    } else {
        Some(
            PongTokenView {
                ping_nonce: s.subrange(0, 16),
                authenticated: s[16] == 1,
                timestamp: from_be64(s.subrange(17, 25)),
                signature: s.subrange(25, 89),
            },
        )
    }
}

/// Decoding the encoding of a well-formed ping gives the ping back.
pub proof fn lemma_ping_round_trip(t: PingTokenView)
    requires
        t.wf(),
    ensures
        decode_ping(encode_ping(t)) == Some(t),
{
    let s = encode_ping(t);
    lemma_be64_round_trip(t.timestamp);
    assert(s.subrange(0, 16) =~= t.nonce);
    assert(s.subrange(16, 48) =~= t.sender_pubkey);
    assert(s.subrange(48, 56) =~= be64(t.timestamp));
    assert(s.subrange(56, 88) =~= t.recipient_pubkey);
    assert(s.subrange(88, 152) =~= t.signature);
}

/// A byte string that decodes to a ping is that ping's encoding, and the
/// ping is well formed.
pub proof fn lemma_ping_decode_encode(s: Seq<u8>)
    requires
        decode_ping(s) is Some,
    ensures
        decode_ping(s)->Some_0.wf(),
        encode_ping(decode_ping(s)->Some_0) == s,
{
    lemma_be64_from_bytes(s.subrange(48, 56));
    assert(encode_ping(decode_ping(s)->Some_0) =~= s);
}

/// Decoding the encoding of a well-formed pong gives the pong back.
pub proof fn lemma_pong_round_trip(t: PongTokenView)
    requires
        t.wf(),
    ensures
        decode_pong(encode_pong(t)) == Some(t),
{
    let s = encode_pong(t);
    lemma_be64_round_trip(t.timestamp);
    assert(s.subrange(0, 16) =~= t.ping_nonce);
    assert(s[16] == if t.authenticated { 1u8 } else { 0u8 });
    assert(s.subrange(17, 25) =~= be64(t.timestamp));
    assert(s.subrange(25, 89) =~= t.signature);
}

/// A byte string that decodes to a pong is that pong's encoding, and the
/// pong is well formed.
pub proof fn lemma_pong_decode_encode(s: Seq<u8>)
    requires
        decode_pong(s) is Some,
    ensures
        decode_pong(s)->Some_0.wf(),
        encode_pong(decode_pong(s)->Some_0) == s,
{
    lemma_be64_from_bytes(s.subrange(17, 25));
    assert(encode_pong(decode_pong(s)->Some_0) =~= s);
}

impl PingToken {
    /// The fixed-layout encoding of this ping.
    pub fn to_bytes(&self) -> (r: Vec<u8>)
        requires
            self@.wf(),
        ensures
            r@ == encode_ping(self@),
            r@.len() == PING_ENCODED_LEN,
    {
        let mut out: Vec<u8> = Vec::new();
        push_all(&mut out, &self.nonce);
        push_all(&mut out, &self.sender_pubkey);
        push_be64(&mut out, self.timestamp);
        push_all(&mut out, &self.recipient_pubkey);
        push_all(&mut out, &self.signature);
        assert(out@ =~= encode_ping(self@));
        out
    }

    /// Parses the fixed-layout encoding of a ping.
    pub fn from_bytes(bytes: &Vec<u8>) -> (r: Result<PingToken, ProtocolError>)
        ensures
            match r {
                Ok(t) => decode_ping(bytes@) == Some(t@) && t@.wf(),
                Err(e) => decode_ping(bytes@) is None && e == ProtocolError::MalformedToken,
            },
    {
        if bytes.len() != PING_ENCODED_LEN {
            return Err(ProtocolError::MalformedToken);
        }
        let t = PingToken {
            nonce: copy_range(bytes, 0, 16),
            sender_pubkey: copy_range(bytes, 16, 48),
            timestamp: read_be64(bytes, 48),
            recipient_pubkey: copy_range(bytes, 56, 88),
            signature: copy_range(bytes, 88, 152),
        };
        proof {
            lemma_ping_decode_encode(bytes@);
        }
        Ok(t)
    }
}

impl PongToken {
    /// The fixed-layout encoding of this pong.
    pub fn to_bytes(&self) -> (r: Vec<u8>)
        requires
            self@.wf(),
        ensures
            r@ == encode_pong(self@),
            r@.len() == PONG_ENCODED_LEN,
    {
        let mut out: Vec<u8> = Vec::new();
        push_all(&mut out, &self.ping_nonce);
        out.push(if self.authenticated { 1u8 } else { 0u8 });
        push_be64(&mut out, self.timestamp);
        push_all(&mut out, &self.signature);
        assert(out@ =~= encode_pong(self@));
        out
    }

    /// Parses the fixed-layout encoding of a pong.
    pub fn from_bytes(bytes: &Vec<u8>) -> (r: Result<PongToken, ProtocolError>)
        ensures
            match r {
                Ok(t) => decode_pong(bytes@) == Some(t@) && t@.wf(),
                Err(e) => decode_pong(bytes@) is None && e == ProtocolError::MalformedToken,
            },
    {
        if bytes.len() != PONG_ENCODED_LEN || bytes[16] > 1 {
            return Err(ProtocolError::MalformedToken);
        }
        let t = PongToken {
            ping_nonce: copy_range(bytes, 0, 16),
            authenticated: bytes[16] == 1,
            timestamp: read_be64(bytes, 17),
            signature: copy_range(bytes, 25, 89),
        };
        proof {
            lemma_pong_decode_encode(bytes@);
        }
        Ok(t)
    }
}

} // verus!
