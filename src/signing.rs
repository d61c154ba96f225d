use vstd::prelude::*;
use vstd::bytes::{spec_u64_to_le_bytes, spec_u64_from_le_bytes, u64_to_le_bytes, lemma_auto_spec_u64_to_from_le_bytes};

verus! {

/// What `G1Projective::hash_to_curve(msg, dst, &[])` compresses to.
pub uninterp spec fn g1_hash_to_curve(msg: Seq<u8>, dst: Seq<u8>) -> Seq<u8>;

/// The domain-separation tag of swap signatures: the bytes of "SAFE-PUMP-SWAP".
pub open spec fn swap_domain() -> Seq<u8> {
    seq![83u8, 65u8, 70u8, 69u8, 45u8, 80u8, 85u8, 77u8, 80u8, 45u8, 83u8, 87u8, 65u8, 80u8]
}

/// The canonical encoding of a swap order: `amount_in`, one direction byte,
/// `min_out` and `nonce`, integers little-endian, then the rotator public key.
pub open spec fn swap_message(rotator: Seq<u8>, amount_in: u64, is_buy: bool, min_out: u64, nonce: u64) -> Seq<u8> {
    spec_u64_to_le_bytes(amount_in) + seq![if is_buy { 1u8 } else { 0u8 }] + spec_u64_to_le_bytes(min_out)
        + spec_u64_to_le_bytes(nonce) + rotator
}

/// The signature of a swap order: the compressed hash-to-curve point of its encoding.
pub open spec fn swap_signature(rotator: Seq<u8>, amount_in: u64, is_buy: bool, min_out: u64, nonce: u64) -> Seq<u8> {
    g1_hash_to_curve(swap_message(rotator, amount_in, is_buy, min_out, nonce), swap_domain())
}

/// Relies on `blstrs::G1Projective::hash_to_curve` with an empty augmentation and
/// `to_compressed`: a function of the message and the tag alone, 48 bytes long.
#[verifier::external_body]
fn hash_to_g1(msg: &[u8], dst: &[u8]) -> (r: [u8; 48])
    ensures
        r@ == g1_hash_to_curve(msg@, dst@),
{
    blstrs::G1Projective::hash_to_curve(msg, dst, &[]).to_compressed()
}

/// The canonical encoding of a swap order.
pub fn encode_swap(rotator: &[u8; 32], amount_in: u64, is_buy: bool, min_out: u64, nonce: u64) -> (r: Vec<u8>)
    ensures
        r@ == swap_message(rotator@, amount_in, is_buy, min_out, nonce),
{
    let mut msg = u64_to_le_bytes(amount_in);
    msg.push(if is_buy { 1u8 } else { 0u8 });
    let mut rest = u64_to_le_bytes(min_out);
    msg.append(&mut rest);
    let mut tail = u64_to_le_bytes(nonce);
    msg.append(&mut tail);
    let mut i: usize = 0;
    let ghost start = msg@;
    while i < 32
        invariant
            i <= 32,
            start == swap_message(rotator@, amount_in, is_buy, min_out, nonce).subrange(0, 25),
            msg@ == start + rotator@.subrange(0, i as int),
        decreases 32 - i,
    {
        msg.push(rotator[i]);
        assert(rotator@.subrange(0, i + 1) =~= rotator@.subrange(0, i as int).push(rotator@[i as int]));
        i = i + 1;
    }
    assert(rotator@.subrange(0, 32) =~= rotator@);
    msg
}

/// The signature of a swap order under the rotator public key `rotator`.
/// The secret key takes no part: anyone who knows the public inputs can compute it.
pub fn sign_swap_order(rotator: &[u8; 32], amount_in: u64, is_buy: bool, min_out: u64, nonce: u64) -> (r: Vec<u8>)
    ensures
        r@ == swap_signature(rotator@, amount_in, is_buy, min_out, nonce),
        r@.len() == 48,
{
    let msg = encode_swap(rotator, amount_in, is_buy, min_out, nonce);
    let tag: [u8; 14] = [83u8, 65u8, 70u8, 69u8, 45u8, 80u8, 85u8, 77u8, 80u8, 45u8, 83u8, 87u8, 65u8, 80u8];
    assert(tag@ =~= swap_domain());
    let point = hash_to_g1(msg.as_slice(), &tag);
    vstd::slice::slice_to_vec(&point)
}

/// Swap signing is deterministic: the same rotator key and order give the same signature.
pub proof fn lemma_swap_signature_deterministic(
    rotator: Seq<u8>,
    amount_in: u64,
    is_buy: bool,
    min_out: u64,
    nonce: u64,
    first: Seq<u8>,
    second: Seq<u8>,
)
    requires
        first == swap_signature(rotator, amount_in, is_buy, min_out, nonce),
        second == swap_signature(rotator, amount_in, is_buy, min_out, nonce),
    ensures
        first == second,
{
}

/// The encoding of a swap order is injective: two orders with different
/// amounts, directions, minimum outputs, nonces or rotator keys are encoded
/// differently, so the hash-to-curve step sees different messages.
pub proof fn lemma_swap_message_injective(
    rotator1: Seq<u8>,
    amount_in1: u64,
    is_buy1: bool,
    min_out1: u64,
    nonce1: u64,
    rotator2: Seq<u8>,
    amount_in2: u64,
    is_buy2: bool,
    min_out2: u64,
    nonce2: u64,
)
    requires
        rotator1.len() == 32,
        rotator2.len() == 32,
        swap_message(rotator1, amount_in1, is_buy1, min_out1, nonce1)
            == swap_message(rotator2, amount_in2, is_buy2, min_out2, nonce2),
    ensures
        rotator1 == rotator2,
        amount_in1 == amount_in2,
        is_buy1 == is_buy2,
        min_out1 == min_out2,
        nonce1 == nonce2,
{
    lemma_auto_spec_u64_to_from_le_bytes();
    let m1 = swap_message(rotator1, amount_in1, is_buy1, min_out1, nonce1);
    let m2 = swap_message(rotator2, amount_in2, is_buy2, min_out2, nonce2);
    assert(m1.subrange(0, 8) =~= spec_u64_to_le_bytes(amount_in1));
    assert(m2.subrange(0, 8) =~= spec_u64_to_le_bytes(amount_in2));
    assert(spec_u64_from_le_bytes(spec_u64_to_le_bytes(amount_in1)) == amount_in1);
    assert(spec_u64_from_le_bytes(spec_u64_to_le_bytes(amount_in2)) == amount_in2);
    assert(m1[8] == (if is_buy1 { 1u8 } else { 0u8 }));
    assert(m2[8] == (if is_buy2 { 1u8 } else { 0u8 }));
    assert(m1.subrange(9, 17) =~= spec_u64_to_le_bytes(min_out1));
    assert(m2.subrange(9, 17) =~= spec_u64_to_le_bytes(min_out2));
    assert(spec_u64_from_le_bytes(spec_u64_to_le_bytes(min_out1)) == min_out1);
    assert(spec_u64_from_le_bytes(spec_u64_to_le_bytes(min_out2)) == min_out2);
    assert(m1.subrange(17, 25) =~= spec_u64_to_le_bytes(nonce1));
    assert(m2.subrange(17, 25) =~= spec_u64_to_le_bytes(nonce2));
    assert(spec_u64_from_le_bytes(spec_u64_to_le_bytes(nonce1)) == nonce1);
    assert(spec_u64_from_le_bytes(spec_u64_to_le_bytes(nonce2)) == nonce2);
    assert(m1.subrange(25, 57) =~= rotator1);
    assert(m2.subrange(25, 57) =~= rotator2);
}

} // verus!
