//! The threshold classifier and the accuracy aggregator.

use vstd::prelude::*;
use crate::cipher::EncryptedScalar;
use crate::keys::PrivateKey;

verus! {

/// The verdict for a clear distance: "same subject" where the distance does
/// not exceed the threshold.
pub open spec fn within(distance: nat, tau: u32) -> bool {
    distance <= tau
}

/// Applies the threshold to a clear distance.
pub fn verdict(distance: u32, tau: u32) -> (same: bool)
    ensures
        same == within(distance as nat, tau),
{
    distance <= tau
}

/// Decrypts a distance and applies the threshold: `true` where the two
/// descriptors are judged to belong to one subject.
pub fn classify(d: &EncryptedScalar, private_key: &PrivateKey, tau: u32) -> (same: bool)
    requires
        d.owner() == private_key.owner(),
    ensures
        same == within(d.plain() as nat, tau),
{
    let distance = d.decrypt(private_key);
    verdict(distance as u32, tau)
}

/// Raising the threshold never turns a "same" verdict into "different".
pub proof fn lemma_threshold_monotonic(distance: nat, tau: u32, larger: u32)
    requires
        tau <= larger,
        within(distance, tau),
    ensures
        within(distance, larger),
{
}

/// The four counts of a confusion matrix, as natural numbers.
pub struct Tally {
    pub true_positive: nat,
    pub true_negative: nat,
    pub false_positive: nat,
    pub false_negative: nat,
}

impl Tally {
    /// No pair counted.
    pub open spec fn zero() -> Tally {
        Tally { true_positive: 0, true_negative: 0, false_positive: 0, false_negative: 0 }
    }

    /// The number of pairs counted.
    pub open spec fn total(self) -> nat {
        self.true_positive + self.true_negative + self.false_positive + self.false_negative
    }

    /// The number of pairs whose prediction was right.
    pub open spec fn correct(self) -> nat {
        self.true_positive + self.true_negative
    }

    /// This tally with one more pair, counted by what was predicted and what
    /// is true.
    pub open spec fn with_pair(self, predicted: bool, actual: bool) -> Tally {
        if actual && predicted {
            Tally { true_positive: self.true_positive + 1, ..self }
        } else if !actual && !predicted {
            Tally { true_negative: self.true_negative + 1, ..self }
        } else if !actual && predicted {
            Tally { false_positive: self.false_positive + 1, ..self }
        } else {
            Tally { false_negative: self.false_negative + 1, ..self }
        }
    }
}

/// A share of pairs: `correct` out of `total`, with `total` above zero.
#[derive(Debug, Clone, Copy, PartialEq, Eq)]
pub struct Accuracy {
    pub correct: u64,
    pub total: u64,
}

/// The confusion counts of one evaluation run. Together they fit in 64 bits.
#[derive(Debug, Clone, Copy)]
pub struct ConfusionCounts {
    true_positive: u64,
    true_negative: u64,
    false_positive: u64,
    false_negative: u64,
}

impl View for ConfusionCounts {
    type V = Tally;

    closed spec fn view(&self) -> Tally {
        Tally {
            true_positive: self.true_positive as nat,
            true_negative: self.true_negative as nat,
            false_positive: self.false_positive as nat,
            false_negative: self.false_negative as nat,
        }
    }
}

impl ConfusionCounts {
    #[verifier::type_invariant]
    spec fn bounded(&self) -> bool {
        self.true_positive + self.true_negative + self.false_positive + self.false_negative
            <= u64::MAX
    }

    /// Counts with nothing recorded.
    pub fn new() -> (counts: ConfusionCounts)
        ensures
            counts@ == Tally::zero(),
    {
        ConfusionCounts { true_positive: 0, true_negative: 0, false_positive: 0, false_negative: 0 }
    }

    /// Pairs of one subject that were predicted "same".
    pub fn true_positive(&self) -> (n: u64)
        ensures
            n == self@.true_positive,
    {
        self.true_positive
    }

    /// Pairs of two subjects that were predicted "different".
    pub fn true_negative(&self) -> (n: u64)
        ensures
            n == self@.true_negative,
    {
        self.true_negative
    }

    /// Pairs of two subjects that were predicted "same".
    pub fn false_positive(&self) -> (n: u64)
        ensures
            n == self@.false_positive,
    {
        self.false_positive
    }

    /// Pairs of one subject that were predicted "different".
    pub fn false_negative(&self) -> (n: u64)
        ensures
            n == self@.false_negative,
    {
        self.false_negative
    }

    /// The number of pairs recorded.
    pub fn total(&self) -> (n: u64)
        ensures
            n == self@.total(),
    {
        proof {
            use_type_invariant(self);
        }
        self.true_positive + self.true_negative + self.false_positive + self.false_negative
    }

    /// The share of pairs that were predicted rightly, `(tp + tn)` out of all
    /// four counts; `None` where no pair was recorded, for which the share is
    /// undefined.
    pub fn accuracy(&self) -> (share: Option<Accuracy>)
        ensures
            self@.total() == 0 <==> share is None,
            share matches Some(a) ==> a.correct == self@.correct() && a.total == self@.total(),
    {
        proof {
            use_type_invariant(self);
        }
        let total = self.total();
        if total == 0 {
            None
        } else {
            Some(Accuracy { correct: self.true_positive + self.true_negative, total })
        }
    }
}

/// Records one evaluated pair: exactly one of the four counters grows by
/// one, chosen by what was predicted and what is true.
pub fn record(predicted: bool, actual: bool, counts: &mut ConfusionCounts)
    requires
        old(counts)@.total() < u64::MAX,
    ensures
        final(counts)@ == old(counts)@.with_pair(predicted, actual),
{
    proof {
        use_type_invariant(&*counts);
    }
    let ConfusionCounts { true_positive, true_negative, false_positive, false_negative } = *counts;
    *counts = if actual && predicted {
        ConfusionCounts { true_positive: true_positive + 1, true_negative, false_positive, false_negative }
    } else if !actual && !predicted {
        ConfusionCounts { true_positive, true_negative: true_negative + 1, false_positive, false_negative }
    } else if !actual && predicted {
        ConfusionCounts { true_positive, true_negative, false_positive: false_positive + 1, false_negative }
    } else {
        ConfusionCounts { true_positive, true_negative, false_positive, false_negative: false_negative + 1 }
    };
}

} // verus!
