//! The wire messages of the peer sub-protocols and their binary codec.
//!
//! Four request/response protocols run over the peer session: Quote,
//! TransferProof and EncryptedSignature carry the messages below;
//! ExecutionSetup exchanges opaque cryptographic rounds and is not framed
//! here. Every message round-trips through `encode` and `decode` without
//! loss.

use vstd::prelude::*;

verus! {

/// Proof that a Monero lock transaction pays the agreed keys: the lock
/// transaction's hash and the transaction key that opens it for the taker.
#[derive(Debug, Clone, Copy, PartialEq, Eq, Structural)]
pub struct TransferProof {
    pub tx_hash: u64,
    pub tx_key: u64,
}

/// The taker's adaptor-encrypted signature over the maker's redeem
/// transaction, keyed by the swap it belongs to.
#[derive(Debug, Clone, Copy, PartialEq, Eq, Structural)]
pub struct EncryptedSignature {
    pub swap_id: u64,
    pub tx_redeem_encsig: u64,
}

/// A message of one of the peer sub-protocols.
#[derive(Debug, Clone, Copy, PartialEq, Eq, Structural)]
pub enum WireMessage {
    /// Taker asks for a quote over this many satoshi.
    QuoteRequest { btc: u64 },
    /// Maker answers with the piconero bought at the current spot rate.
    QuoteResponse { xmr: u64 },
    /// Maker announces the Monero lock transfer.
    TransferProof(TransferProof),
    /// Taker acknowledges the transfer proof.
    TransferProofAck,
    /// Taker hands over the encrypted redeem signature.
    EncryptedSignature(EncryptedSignature),
    /// Maker acknowledges the encrypted signature.
    EncryptedSignatureAck,
}

/// The little-endian bytes of a 64-bit value.
pub open spec fn u64_le(x: u64) -> Seq<u8> {
    seq![
        (x & 0xff) as u8,
        ((x >> 8) & 0xff) as u8,
        ((x >> 16) & 0xff) as u8,
        ((x >> 24) & 0xff) as u8,
        ((x >> 32) & 0xff) as u8,
        ((x >> 40) & 0xff) as u8,
        ((x >> 48) & 0xff) as u8,
        ((x >> 56) & 0xff) as u8,
    ]
}

/// The 64-bit value read back from eight little-endian bytes.
pub open spec fn u64_from_le(s: Seq<u8>) -> u64
    recommends
        s.len() == 8,
{
    ((s[0] as u64) | ((s[1] as u64) << 8) | ((s[2] as u64) << 16) | ((s[3] as u64) << 24) | ((
    s[4] as u64) << 32) | ((s[5] as u64) << 40) | ((s[6] as u64) << 48) | ((s[7] as u64) << 56))
}

proof fn lemma_u64_le_round_trip(x: u64)
    ensures
        u64_from_le(u64_le(x)) == x,
{
    assert((((x & 0xff) as u8 as u64) | ((((x >> 8) & 0xff) as u8 as u64) << 8) | ((((x >> 16)
        & 0xff) as u8 as u64) << 16) | ((((x >> 24) & 0xff) as u8 as u64) << 24) | ((((x >> 32)
        & 0xff) as u8 as u64) << 32) | ((((x >> 40) & 0xff) as u8 as u64) << 40) | ((((x >> 48)
        & 0xff) as u8 as u64) << 48) | ((((x >> 56) & 0xff) as u8 as u64) << 56)) == x)
        by (bit_vector);
}

/// The encoding of a message: a tag byte, then each field in little-endian.
pub open spec fn spec_encode(msg: WireMessage) -> Seq<u8> {
    match msg {
        WireMessage::QuoteRequest { btc } => seq![1u8] + u64_le(btc),
        WireMessage::QuoteResponse { xmr } => seq![2u8] + u64_le(xmr),
        WireMessage::TransferProof(p) => seq![3u8] + u64_le(p.tx_hash) + u64_le(p.tx_key),
        WireMessage::TransferProofAck => seq![4u8],
        WireMessage::EncryptedSignature(e) => seq![5u8] + u64_le(e.swap_id) + u64_le(
            e.tx_redeem_encsig,
        ),
        WireMessage::EncryptedSignatureAck => seq![6u8],
    }
}

/// What `decode` yields on any byte string: the message it encodes, or
/// nothing when tag or length do not fit any message.
pub open spec fn spec_decode(s: Seq<u8>) -> Option<WireMessage> {
    if s.len() == 0 {
        None
    } else if s[0] == 1 && s.len() == 9 {
        Some(WireMessage::QuoteRequest { btc: u64_from_le(s.subrange(1, 9)) })
    } else if s[0] == 2 && s.len() == 9 {
        Some(WireMessage::QuoteResponse { xmr: u64_from_le(s.subrange(1, 9)) })
    } else if s[0] == 3 && s.len() == 17 {
        Some(
            WireMessage::TransferProof(
                TransferProof {
                    tx_hash: u64_from_le(s.subrange(1, 9)),
                    tx_key: u64_from_le(s.subrange(9, 17)),
                },
            ),
        )
    } else if s[0] == 4 && s.len() == 1 {
        Some(WireMessage::TransferProofAck)
    } else if s[0] == 5 && s.len() == 17 {
        Some(
            WireMessage::EncryptedSignature(
                EncryptedSignature {
                    swap_id: u64_from_le(s.subrange(1, 9)),
                    tx_redeem_encsig: u64_from_le(s.subrange(9, 17)),
                },
            ),
        )
    } else if s[0] == 6 && s.len() == 1 {
        Some(WireMessage::EncryptedSignatureAck)
    } else {
        None
    }
}

fn push_u64(out: &mut Vec<u8>, x: u64)
    ensures
        final(out)@ == old(out)@ + u64_le(x),
{
    proof {
        assert((x & 0xff) < 256 && ((x >> 8) & 0xff) < 256 && ((x >> 16) & 0xff) < 256 && ((x
            >> 24) & 0xff) < 256 && ((x >> 32) & 0xff) < 256 && ((x >> 40) & 0xff) < 256 && ((x
            >> 48) & 0xff) < 256 && ((x >> 56) & 0xff) < 256) by (bit_vector);
    }
    out.push((x & 0xff) as u8);
    out.push(((x >> 8) & 0xff) as u8);
    out.push(((x >> 16) & 0xff) as u8);
    out.push(((x >> 24) & 0xff) as u8);
    out.push(((x >> 32) & 0xff) as u8);
    out.push(((x >> 40) & 0xff) as u8);
    out.push(((x >> 48) & 0xff) as u8);
    out.push(((x >> 56) & 0xff) as u8);
    proof {
        assert(out@ =~= old(out)@ + u64_le(x));
    }
}

fn read_u64(bytes: &Vec<u8>, offset: usize) -> (r: u64)
    requires
        offset + 8 <= bytes@.len(),
    ensures
        r == u64_from_le(bytes@.subrange(offset as int, offset + 8)),
{
    let n: usize = bytes.len();
    assert(offset + 8 <= n);
    let b0 = bytes[offset];
    let b1 = bytes[offset + 1];
    let b2 = bytes[offset + 2];
    let b3 = bytes[offset + 3];
    let b4 = bytes[offset + 4];
    let b5 = bytes[offset + 5];
    let b6 = bytes[offset + 6];
    let b7 = bytes[offset + 7];
    (b0 as u64) | ((b1 as u64) << 8) | ((b2 as u64) << 16) | ((b3 as u64) << 24) | ((b4 as u64)
        << 32) | ((b5 as u64) << 40) | ((b6 as u64) << 48) | ((b7 as u64) << 56)
}

/// Encode a message for the wire.
pub fn encode(msg: &WireMessage) -> (r: Vec<u8>)
    ensures
        r@ == spec_encode(*msg),
{
    let mut out: Vec<u8> = Vec::new();
    match msg {
        WireMessage::QuoteRequest { btc } => {
            out.push(1u8);
            push_u64(&mut out, *btc);
        },
        WireMessage::QuoteResponse { xmr } => {
            out.push(2u8);
            push_u64(&mut out, *xmr);
        },
        WireMessage::TransferProof(p) => {
            out.push(3u8);
            push_u64(&mut out, p.tx_hash);
            push_u64(&mut out, p.tx_key);
        },
        WireMessage::TransferProofAck => {
            out.push(4u8);
        },
        WireMessage::EncryptedSignature(e) => {
            out.push(5u8);
            push_u64(&mut out, e.swap_id);
            push_u64(&mut out, e.tx_redeem_encsig);
        },
        WireMessage::EncryptedSignatureAck => {
            out.push(6u8);
        },
    }
    proof {
        assert(out@ =~= spec_encode(*msg));
    }
    out
}

/// Decode a message from the wire; `None` when the bytes encode no message.
pub fn decode(bytes: &Vec<u8>) -> (r: Option<WireMessage>)
    ensures
        r == spec_decode(bytes@),
{
    if bytes.len() == 0 {
        return None;
    }
    let tag = bytes[0];
    if tag == 1 && bytes.len() == 9 {
        Some(WireMessage::QuoteRequest { btc: read_u64(bytes, 1) })
    } else if tag == 2 && bytes.len() == 9 {
        Some(WireMessage::QuoteResponse { xmr: read_u64(bytes, 1) })
    } else if tag == 3 && bytes.len() == 17 {
        Some(
            WireMessage::TransferProof(
                TransferProof { tx_hash: read_u64(bytes, 1), tx_key: read_u64(bytes, 9) },
            ),
        )
    } else if tag == 4 && bytes.len() == 1 {
        Some(WireMessage::TransferProofAck)
    } else if tag == 5 && bytes.len() == 17 {
        Some(
            WireMessage::EncryptedSignature(
                EncryptedSignature { swap_id: read_u64(bytes, 1), tx_redeem_encsig: read_u64(
                    bytes,
                    9,
                ) },
            ),
        )
    } else if tag == 6 && bytes.len() == 1 {
        Some(WireMessage::EncryptedSignatureAck)
    } else {
        None
    }
}

/// Every wire message round-trips through encode and decode without loss.
pub proof fn lemma_codec_round_trip(msg: WireMessage)
    ensures
        spec_decode(spec_encode(msg)) == Some(msg),
{
    let s = spec_encode(msg);
    match msg {
        WireMessage::QuoteRequest { btc } => {
            assert(s.subrange(1, 9) =~= u64_le(btc));
            lemma_u64_le_round_trip(btc);
        },
        WireMessage::QuoteResponse { xmr } => {
            assert(s.subrange(1, 9) =~= u64_le(xmr));
            lemma_u64_le_round_trip(xmr);
        },
        WireMessage::TransferProof(p) => {
            assert(s.subrange(1, 9) =~= u64_le(p.tx_hash));
            assert(s.subrange(9, 17) =~= u64_le(p.tx_key));
            lemma_u64_le_round_trip(p.tx_hash);
            lemma_u64_le_round_trip(p.tx_key);
        },
        WireMessage::TransferProofAck => {
        },
        WireMessage::EncryptedSignature(e) => {
            assert(s.subrange(1, 9) =~= u64_le(e.swap_id));
            assert(s.subrange(9, 17) =~= u64_le(e.tx_redeem_encsig));
            lemma_u64_le_round_trip(e.swap_id);
            lemma_u64_le_round_trip(e.tx_redeem_encsig);
        },
        WireMessage::EncryptedSignatureAck => {
        },
    }
}

} // verus!
