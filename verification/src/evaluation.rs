//! The evaluation run: every unordered pair of the corpus is compared on
//! ciphertexts, classified, and held against the ground truth.

use vstd::prelude::*;
use crate::bits::hamming;
use crate::cipher::EncryptedVector;
use crate::classify::{classify, record, within, ConfusionCounts, Tally};
use crate::corpus::{uniform, Corpus};
use crate::distance::hamming_distance;
use crate::keys::{EncryptionKey, Evaluator, PrivateKey};
use crate::subject::{same_subject, subject};

verus! {

/// The largest corpus whose pairs the 64-bit counters can count.
pub const MAX_CORPUS_LEN: usize = 0xFFFF_FFFF;

/// Why an evaluation run did not start.
#[derive(Debug, Clone, Copy, PartialEq, Eq)]
pub enum EvaluationError {
    /// The corpus has more than `MAX_CORPUS_LEN` entries.
    CorpusTooLarge,
}

/// What a pair of entries adds to a tally: predicted "same" where the
/// distance of the descriptors is within `tau`, truly "same" where the
/// identifiers name one subject.
pub open spec fn with_entries(
    tally: Tally,
    a: (Seq<char>, Seq<u8>),
    b: (Seq<char>, Seq<u8>),
    tau: u32,
) -> Tally {
    tally.with_pair(within(hamming(a.1, b.1), tau), subject(a.0) == subject(b.0))
}

/// The tally of the pairs that come before the pair `(i, j)`, where the
/// pairs `(i, j)` with `i < j` are taken row by row: `(0, 1)`, `(0, 2)`, ...,
/// then `(1, 2)`, and so on.
pub open spec fn tally_before(corpus: Seq<(Seq<char>, Seq<u8>)>, tau: u32, i: int, j: int) -> Tally
    decreases i, j,
{
    if i < 0 || j <= i {
        Tally::zero()
    } else if j > i + 1 {
        with_entries(tally_before(corpus, tau, i, j - 1), corpus[i], corpus[j - 1], tau)
    } else if i > 0 {
        tally_before(corpus, tau, i - 1, corpus.len() as int)
    } else {
        Tally::zero()
    }
}

/// The confusion counts of a corpus at a threshold: the tally of all its
/// unordered pairs.
pub open spec fn pair_tally(corpus: Seq<(Seq<char>, Seq<u8>)>, tau: u32) -> Tally {
    tally_before(corpus, tau, corpus.len() as int, corpus.len() as int + 1)
}

/// Fewer than `i * n + j` pairs come before the pair `(i, j)` of `n` entries.
pub proof fn lemma_tally_total(corpus: Seq<(Seq<char>, Seq<u8>)>, tau: u32, i: int, j: int)
    requires
        0 <= i < j <= corpus.len() + 1,
        i <= corpus.len(),
    ensures
        tally_before(corpus, tau, i, j).total() + i + 1 <= i * corpus.len() + j,
    decreases i, j,
{
    let n = corpus.len() as int;
    if j > i + 1 {
        lemma_tally_total(corpus, tau, i, j - 1);
    } else if i > 0 {
        lemma_tally_total(corpus, tau, i - 1, n);
        assert(i * n == (i - 1) * n + n) by (nonlinear_arith);
    } else {
    }
}

/// Evaluates every unordered pair of the corpus.
///
/// For each pair the two descriptors are encrypted, their distance is
/// computed on the ciphertexts and decrypted, and the verdict at `tau` is
/// recorded against the ground truth of the identifiers. The counts are those
/// of the clear descriptors.
pub fn evaluate(
    corpus: &Corpus,
    private_key: &PrivateKey,
    public_key: &EncryptionKey,
    evaluator: &Evaluator,
    tau: u32,
) -> (r: Result<ConfusionCounts, EvaluationError>)
    requires
        public_key.owner() == private_key.owner(),
        evaluator.owner() == private_key.owner(),
    ensures
        match r {
            Ok(counts) => corpus@.len() <= MAX_CORPUS_LEN && counts@ == pair_tally(corpus@, tau),
            Err(EvaluationError::CorpusTooLarge) => corpus@.len() > MAX_CORPUS_LEN,
        },
{
    let n = corpus.len();
    if n > MAX_CORPUS_LEN {
        return Err(EvaluationError::CorpusTooLarge);
    }
    let mut counts = ConfusionCounts::new();
    let mut i: usize = 0;
    while i < n
        invariant
            i <= n,
            n == corpus@.len(),
            n <= MAX_CORPUS_LEN,
            uniform(corpus@),
            public_key.owner() == private_key.owner(),
            evaluator.owner() == private_key.owner(),
            counts@ == tally_before(corpus@, tau, i as int, i + 1),
        decreases n - i,
    {
        let mut j: usize = i + 1;
        while j < n
            invariant
                i < j <= n,
                n == corpus@.len(),
                n <= MAX_CORPUS_LEN,
                uniform(corpus@),
                public_key.owner() == private_key.owner(),
                evaluator.owner() == private_key.owner(),
                counts@ == tally_before(corpus@, tau, i as int, j as int),
            decreases n - j,
        {
            let a = EncryptedVector::encrypt(corpus.descriptor(i), private_key);
            let b = EncryptedVector::encrypt(corpus.descriptor(j), private_key);
            let actual = same_subject(corpus.id(i), corpus.id(j));
            let d = hamming_distance(&a, &b, public_key, evaluator);
            let predicted = classify(&d, private_key, tau);
            proof {
                lemma_tally_total(corpus@, tau, i as int, j as int);
                assert(i * n + j <= n * n) by (nonlinear_arith)
                    requires
                        i < j <= n,
                ;
                assert(n * n <= 0xFFFF_FFFF * 0xFFFF_FFFF) by (nonlinear_arith)
                    requires
                        n <= 0xFFFF_FFFF,
                ;
            }
            record(predicted, actual, &mut counts);
            j = j + 1;
        }
        i = i + 1;
    }
    Ok(counts)
}

} // verus!
