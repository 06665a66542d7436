//! The clear-text model: set bits of a byte and the Hamming distance of two
//! byte sequences.

use vstd::prelude::*;

verus! {

/// Bit `i` of `x`, as 0 or 1.
pub open spec fn bit_at(x: u8, i: u8) -> nat {
    ((x >> i) & 1) as nat
}

/// The number of set bits of a byte.
pub open spec fn bit_count(x: u8) -> nat {
    bit_at(x, 0) + bit_at(x, 1) + bit_at(x, 2) + bit_at(x, 3) + bit_at(x, 4) + bit_at(x, 5)
        + bit_at(x, 6) + bit_at(x, 7)
}

/// The bytes `a[i] ^ b[i]`, over the length of `a`.
pub open spec fn xor_bytes(a: Seq<u8>, b: Seq<u8>) -> Seq<u8> {
    Seq::new(a.len(), |i: int| a[i] ^ b[i])
}

/// The sum of the set bits of all bytes of `s`.
pub open spec fn weight(s: Seq<u8>) -> nat
    decreases s.len(),
{
    if s.len() == 0 {
        0
    } else {
        weight(s.drop_last()) + bit_count(s.last())
    }
}

/// The Hamming distance of two byte sequences of one length: the number of
/// bit positions in which they differ.
pub open spec fn hamming(a: Seq<u8>, b: Seq<u8>) -> nat {
    weight(xor_bytes(a, b))
}

/// A byte has between 0 and 8 set bits.
pub proof fn lemma_bit_count_bound(x: u8)
    ensures
        bit_count(x) <= 8,
{
    assert(((x >> 0u8) & 1) <= 1 && ((x >> 1u8) & 1) <= 1 && ((x >> 2u8) & 1) <= 1 && ((x >> 3u8)
        & 1) <= 1 && ((x >> 4u8) & 1) <= 1 && ((x >> 5u8) & 1) <= 1 && ((x >> 6u8) & 1) <= 1 && ((x
        >> 7u8) & 1) <= 1) by (bit_vector);
}

/// Appending a byte adds its set bits to the weight.
pub proof fn lemma_weight_push(s: Seq<u8>, x: u8)
    ensures
        weight(s.push(x)) == weight(s) + bit_count(x),
{
    assert(s.push(x).drop_last() =~= s);
}

/// The weight of a sequence is at most 8 for each byte.
pub proof fn lemma_weight_bound(s: Seq<u8>)
    ensures
        weight(s) <= 8 * s.len(),
    decreases s.len(),
{
    if s.len() > 0 {
        lemma_weight_bound(s.drop_last());
        lemma_bit_count_bound(s.last());
    }
}

/// The weight of the first `i + 1` bytes is that of the first `i` and the
/// set bits of byte `i`.
pub proof fn lemma_weight_step(s: Seq<u8>, i: int)
    requires
        0 <= i < s.len(),
    ensures
        weight(s.take(i + 1)) == weight(s.take(i)) + bit_count(s[i]),
{
    assert(s.take(i + 1) =~= s.take(i).push(s[i]));
    lemma_weight_push(s.take(i), s[i]);
}

/// The distance is symmetric.
pub proof fn lemma_hamming_symmetric(a: Seq<u8>, b: Seq<u8>)
    requires
        a.len() == b.len(),
    ensures
        hamming(a, b) == hamming(b, a),
{
    assert forall|i: int| 0 <= i < a.len() implies a[i] ^ b[i] == b[i] ^ a[i] by {
        let x = a[i];
        let y = b[i];
        assert(x ^ y == y ^ x) by (bit_vector);
    }
    assert(xor_bytes(a, b) =~= xor_bytes(b, a));
}

/// A sequence of zero bytes has weight zero.
pub proof fn lemma_weight_zero(s: Seq<u8>)
    requires
        forall|i: int| 0 <= i < s.len() ==> s[i] == 0,
    ensures
        weight(s) == 0,
    decreases s.len(),
{
    if s.len() > 0 {
        lemma_weight_zero(s.drop_last());
        assert(bit_count(0u8) == 0) by (bit_vector);
    }
}

/// A sequence of bytes with all bits set has weight 8 for each byte.
pub proof fn lemma_weight_full(s: Seq<u8>)
    requires
        forall|i: int| 0 <= i < s.len() ==> s[i] == 0xFF,
    ensures
        weight(s) == 8 * s.len(),
    decreases s.len(),
{
    if s.len() > 0 {
        lemma_weight_full(s.drop_last());
        assert(bit_count(0xFFu8) == 8) by (bit_vector);
    }
}

/// The distance of a sequence to itself is zero.
pub proof fn lemma_hamming_identity(a: Seq<u8>)
    ensures
        hamming(a, a) == 0,
{
    assert forall|i: int| 0 <= i < a.len() implies xor_bytes(a, a)[i] == 0 by {
        let x = a[i];
        assert(x ^ x == 0) by (bit_vector);
    }
    lemma_weight_zero(xor_bytes(a, a));
}

/// The distance is at most 8 for each byte.
pub proof fn lemma_hamming_bound(a: Seq<u8>, b: Seq<u8>)
    ensures
        hamming(a, b) <= 8 * a.len(),
{
    lemma_weight_bound(xor_bytes(a, b));
}

/// Two sequences that differ in every bit are at the largest distance, 8
/// for each byte: 256 for 32 bytes.
pub proof fn lemma_hamming_maximum(a: Seq<u8>, b: Seq<u8>)
    requires
        a.len() == b.len(),
        forall|i: int| 0 <= i < a.len() ==> b[i] == !a[i],
    ensures
        hamming(a, b) == 8 * a.len(),
        a.len() == 32 ==> hamming(a, b) == 256,
{
    assert forall|i: int| 0 <= i < a.len() implies xor_bytes(a, b)[i] == 0xFF by {
        let x = a[i];
        assert(x ^ !x == 0xFF) by (bit_vector);
    }
    lemma_weight_full(xor_bytes(a, b));
}

} // verus!
