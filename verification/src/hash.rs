use vstd::prelude::*;

use crate::account::AccountId;

verus! {

/// A 32-byte hash, held as four 64-bit little-endian words.
#[derive(Debug, Clone, Copy, PartialEq, Eq, Structural)]
pub struct TxHash {
    pub w0: u64,
    pub w1: u64,
    pub w2: u64,
    pub w3: u64,
}

/// The eight little-endian bytes of a 64-bit word.
pub open spec fn u64_le_bytes(x: u64) -> Seq<u8> {
    seq![
        (x & 0xff) as u8,
        ((x >> 8) & 0xff) as u8,
        ((x >> 16) & 0xff) as u8,
        ((x >> 24) & 0xff) as u8,
        ((x >> 32) & 0xff) as u8,
        ((x >> 40) & 0xff) as u8,
        ((x >> 48) & 0xff) as u8,
        ((x >> 56) & 0xff) as u8,
    ]
}

/// The 32 bytes a hash stands for.
pub open spec fn tx_hash_bytes(h: TxHash) -> Seq<u8> {
    u64_le_bytes(h.w0) + u64_le_bytes(h.w1) + u64_le_bytes(h.w2) + u64_le_bytes(h.w3)
}

/// Relies on parity_scale_codec::Encode for tuples of `u64`: each fixed-width
/// integer encodes as its little-endian bytes, and a tuple encodes as the
/// concatenation of its fields' encodings.
#[verifier::external_body]
fn scale_encode_bridge_words(
    a: u64,
    b: u64,
    c: u64,
    d: u64,
    e: u64,
    f: u64,
    g: u64,
) -> (r: Vec<u8>)
    ensures
        r@ == u64_le_bytes(a) + u64_le_bytes(b) + u64_le_bytes(c) + u64_le_bytes(d)
            + u64_le_bytes(e) + u64_le_bytes(f) + u64_le_bytes(g),
{
    parity_scale_codec::Encode::encode(&(a, b, c, d, e, f, g))
}

/// Reads one 64-bit word from eight little-endian bytes.
fn word_from_le(enc: &Vec<u8>, off: usize) -> (x: u64)
    requires
        enc@.len() == 56,
        off + 8 <= 56,
    ensures
        u64_le_bytes(x) == enc@.subrange(off as int, off as int + 8),
{
    let b0 = enc[off];
    let b1 = enc[off + 1];
    let b2 = enc[off + 2];
    let b3 = enc[off + 3];
    let b4 = enc[off + 4];
    let b5 = enc[off + 5];
    let b6 = enc[off + 6];
    let b7 = enc[off + 7];
    let x: u64 = (b0 as u64) | ((b1 as u64) << 8) | ((b2 as u64) << 16) | ((b3 as u64) << 24)
        | ((b4 as u64) << 32) | ((b5 as u64) << 40) | ((b6 as u64) << 48) | ((b7 as u64) << 56);
    proof {
        assert({
            let y: u64 = (b0 as u64) | ((b1 as u64) << 8) | ((b2 as u64) << 16) | ((b3 as u64)
                << 24) | ((b4 as u64) << 32) | ((b5 as u64) << 40) | ((b6 as u64) << 48) | ((b7
                as u64) << 56);
            (y & 0xff) as u8 == b0 && ((y >> 8) & 0xff) as u8 == b1 && ((y >> 16) & 0xff) as u8
                == b2 && ((y >> 24) & 0xff) as u8 == b3 && ((y >> 32) & 0xff) as u8 == b4 && ((y
                >> 40) & 0xff) as u8 == b5 && ((y >> 48) & 0xff) as u8 == b6 && ((y >> 56)
                & 0xff) as u8 == b7
        }) by (bit_vector);
        assert(u64_le_bytes(x) =~= enc@.subrange(off as int, off as int + 8));
    }
    x
}

/// The hash recorded for a bridge execution: the first 32 bytes of the SCALE
/// encoding of the request's words. Those are exactly the little-endian bytes
/// of the request id, token id, source chain and destination chain; the
/// sender, recipient and timestamp words lie beyond the 32-byte cut.
pub open spec fn spec_bridge_hash(
    request_id: u64,
    token_id: u64,
    source_chain: u64,
    destination_chain: u64,
) -> TxHash {
    TxHash { w0: request_id, w1: token_id, w2: source_chain, w3: destination_chain }
}

/// Derives the transaction hash of a bridge execution from the request's
/// fields and the execution timestamp: the first 32 bytes of the SCALE
/// encoding of the request's words. The strictly increasing request id in the
/// leading word keeps hashes of distinct requests distinct.
pub fn derive_bridge_hash(
    request_id: u64,
    token_id: u64,
    source_chain: u64,
    destination_chain: u64,
    sender: AccountId,
    recipient: AccountId,
    timestamp: u64,
) -> (r: TxHash)
    ensures
        r == spec_bridge_hash(request_id, token_id, source_chain, destination_chain),
{
    let enc = scale_encode_bridge_words(
        request_id,
        token_id,
        source_chain,
        destination_chain,
        sender,
        recipient,
        timestamp,
    );
    proof {
        assert(enc@.len() == 56);
    }
    let w0 = word_from_le(&enc, 0);
    let w1 = word_from_le(&enc, 8);
    let w2 = word_from_le(&enc, 16);
    let w3 = word_from_le(&enc, 24);
    proof {
        assert(u64_le_bytes(w0) =~= u64_le_bytes(request_id));
        assert(u64_le_bytes(w1) =~= u64_le_bytes(token_id));
        assert(u64_le_bytes(w2) =~= u64_le_bytes(source_chain));
        assert(u64_le_bytes(w3) =~= u64_le_bytes(destination_chain));
        lemma_u64_le_bytes_injective(w0, request_id);
        lemma_u64_le_bytes_injective(w1, token_id);
        lemma_u64_le_bytes_injective(w2, source_chain);
        lemma_u64_le_bytes_injective(w3, destination_chain);
    }
    TxHash { w0, w1, w2, w3 }
}

/// Two equal little-endian encodings come from the same word.
proof fn lemma_u64_le_bytes_injective(x: u64, y: u64)
    requires
        u64_le_bytes(x) == u64_le_bytes(y),
    ensures
        x == y,
{
    assert(u64_le_bytes(x)[0] == u64_le_bytes(y)[0]);
    assert(u64_le_bytes(x)[1] == u64_le_bytes(y)[1]);
    assert(u64_le_bytes(x)[2] == u64_le_bytes(y)[2]);
    assert(u64_le_bytes(x)[3] == u64_le_bytes(y)[3]);
    assert(u64_le_bytes(x)[4] == u64_le_bytes(y)[4]);
    assert(u64_le_bytes(x)[5] == u64_le_bytes(y)[5]);
    assert(u64_le_bytes(x)[6] == u64_le_bytes(y)[6]);
    assert(u64_le_bytes(x)[7] == u64_le_bytes(y)[7]);
    assert((x & 0xff) as u8 == (y & 0xff) as u8
        && ((x >> 8) & 0xff) as u8 == ((y >> 8) & 0xff) as u8
        && ((x >> 16) & 0xff) as u8 == ((y >> 16) & 0xff) as u8
        && ((x >> 24) & 0xff) as u8 == ((y >> 24) & 0xff) as u8
        && ((x >> 32) & 0xff) as u8 == ((y >> 32) & 0xff) as u8
        && ((x >> 40) & 0xff) as u8 == ((y >> 40) & 0xff) as u8
        && ((x >> 48) & 0xff) as u8 == ((y >> 48) & 0xff) as u8
        && ((x >> 56) & 0xff) as u8 == ((y >> 56) & 0xff) as u8 ==> x == y) by (bit_vector);
}

/// Hashes of two executions agree only when the executions belong to the same
/// bridge request: the request id is recoverable from the hash.
pub proof fn lemma_bridge_hash_identifies_request(
    r1: u64,
    t1: u64,
    s1: u64,
    d1: u64,
    r2: u64,
    t2: u64,
    s2: u64,
    d2: u64,
)
    requires
        spec_bridge_hash(r1, t1, s1, d1) == spec_bridge_hash(r2, t2, s2, d2),
    ensures
        r1 == r2,
        t1 == t2,
        s1 == s2,
        d1 == d2,
{
}

} // verus!
