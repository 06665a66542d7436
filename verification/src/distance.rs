//! The encrypted distance evaluator: XOR, then set bits per byte, then their
//! sum, all on ciphertexts.

use vstd::prelude::*;
use crate::bits::{hamming, lemma_hamming_bound, lemma_weight_bound, lemma_weight_step, weight};
use crate::cipher::{EncryptedScalar, EncryptedVector};
use crate::keys::{EncryptionKey, Evaluator, PrivateKey};

verus! {

/// The largest vector length whose distance the 16-bit accumulator holds:
/// `8 * 8191 <= 65535`.
pub const MAX_VECTOR_LEN: usize = 8191;

/// Whether the largest distance of vectors of `len` bytes, `8 * len`, lies in
/// the range of the accumulator.
pub open spec fn fits_accumulator(len: nat) -> bool {
    8 * len <= u16::MAX
}

/// Why a distance was not computed.
#[derive(Debug, Clone, Copy, PartialEq, Eq)]
pub enum DistanceError {
    /// The two vectors have different lengths.
    LengthMismatch,
    /// The vectors are so long that their distance may exceed the
    /// accumulator.
    AccumulatorTooNarrow,
}

/// The Hamming distance of two encrypted vectors, as an encrypted scalar.
///
/// Nothing is decrypted: the result holds, under the key set of the
/// arguments, the number of bits in which the two clear vectors differ.
pub fn hamming_distance(
    a: &EncryptedVector,
    b: &EncryptedVector,
    public_key: &EncryptionKey,
    evaluator: &Evaluator,
) -> (d: EncryptedScalar)
    requires
        a.owner() == evaluator.owner(),
        b.owner() == evaluator.owner(),
        public_key.owner() == evaluator.owner(),
        a.plain().len() == b.plain().len(),
        fits_accumulator(a.plain().len()),
    ensures
        d.owner() == evaluator.owner(),
        d.plain() == hamming(a.plain(), b.plain()),
{
    let c = a.xor(b, evaluator);
    let mut dist = EncryptedScalar::encrypt(0u16, public_key);
    let n = c.len();
    let mut i: usize = 0;
    while i < n
        invariant
            i <= n,
            n == c.plain().len(),
            fits_accumulator(n as nat),
            c.owner() == evaluator.owner(),
            dist.owner() == evaluator.owner(),
            dist.plain() == weight(c.plain().take(i as int)),
        decreases n - i,
    {
        let bits = c.bit_count_at(i, evaluator);
        proof {
            lemma_weight_step(c.plain(), i as int);
            lemma_weight_bound(c.plain().take(i + 1));
        }
        dist = dist.add(&bits, evaluator);
        i = i + 1;
    }
    proof {
        assert(c.plain().take(n as int) =~= c.plain());
    }
    dist
}

/// The distance of two clear vectors of one length, computed on their
/// ciphertexts: both are encrypted, the distance is evaluated, and the result
/// is decrypted. It is the Hamming distance of the two vectors.
pub fn decrypted_distance(
    a: &[u8],
    b: &[u8],
    private_key: &PrivateKey,
    public_key: &EncryptionKey,
    evaluator: &Evaluator,
) -> (d: u16)
    requires
        public_key.owner() == private_key.owner(),
        evaluator.owner() == private_key.owner(),
        a@.len() == b@.len(),
        fits_accumulator(a@.len()),
    ensures
        d == hamming(a@, b@),
{
    let encrypted_a = EncryptedVector::encrypt(a, private_key);
    let encrypted_b = EncryptedVector::encrypt(b, private_key);
    hamming_distance(&encrypted_a, &encrypted_b, public_key, evaluator).decrypt(private_key)
}

/// The distance of two descriptors of 32 bytes is at most 256, which the
/// accumulator holds.
pub proof fn lemma_descriptor_distance_fits(a: Seq<u8>, b: Seq<u8>)
    requires
        a.len() == 32,
        b.len() == 32,
    ensures
        fits_accumulator(a.len()),
        hamming(a, b) <= 256,
{
    lemma_hamming_bound(a, b);
}

/// As `hamming_distance`, for vectors whose lengths are not known to agree:
/// the lengths and the accumulator's range are tested first.
pub fn checked_hamming_distance(
    a: &EncryptedVector,
    b: &EncryptedVector,
    public_key: &EncryptionKey,
    evaluator: &Evaluator,
) -> (r: Result<EncryptedScalar, DistanceError>)
    requires
        a.owner() == evaluator.owner(),
        b.owner() == evaluator.owner(),
        public_key.owner() == evaluator.owner(),
    ensures
        match r {
            Ok(d) => {
                &&& a.plain().len() == b.plain().len()
                &&& fits_accumulator(a.plain().len())
                &&& d.owner() == evaluator.owner()
                &&& d.plain() == hamming(a.plain(), b.plain())
            },
            Err(DistanceError::LengthMismatch) => a.plain().len() != b.plain().len(),
            Err(DistanceError::AccumulatorTooNarrow) => {
                &&& a.plain().len() == b.plain().len()
                &&& !fits_accumulator(a.plain().len())
            },
        },
{
    let n = a.len();
    if n != b.len() {
        Err(DistanceError::LengthMismatch)
    } else if n > MAX_VECTOR_LEN {
        Err(DistanceError::AccumulatorTooNarrow)
    } else {
        Ok(hamming_distance(a, b, public_key, evaluator))
    }
}

} // verus!
