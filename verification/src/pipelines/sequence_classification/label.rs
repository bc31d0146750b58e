//! Class probabilities and the labels decoded from them.

use vstd::prelude::*;

verus! {

/// Bit pattern of the probability one, in the IEEE 754 binary64 format.
pub const ONE_BITS: u64 = 0x3FF0_0000_0000_0000;

/// A probability between zero and one, held as the bit pattern of its IEEE 754
/// binary64 value.
///
/// Among the values from zero to one the bit patterns, read as unsigned
/// integers, are ordered as the probabilities are, and equal exactly where
/// the probabilities are. The view of a score is that integer: comparing
/// views compares probabilities. Negative values, values above one and NaN
/// have greater bit patterns and are no scores.
#[derive(Clone, Copy, Debug)]
pub struct Score {
    bits: u64,
}

impl View for Score {
    type V = nat;

    closed spec fn view(&self) -> nat {
        self.bits as nat
    }
}

impl Score {
    #[verifier::type_invariant]
    closed spec fn in_range(self) -> bool {
        self.bits <= ONE_BITS
    }

    /// The score with the given bit pattern, where that pattern is one of a
    /// value from zero to one.
    pub fn from_bits(bits: u64) -> (r: Option<Score>)
        ensures
            r is Some <==> bits <= ONE_BITS,
            r matches Some(score) ==> score@ == bits,
    {
        if bits <= ONE_BITS {
            Some(Score { bits })
        } else {
            None
        }
    }

    /// The bit pattern of the score.
    pub fn to_bits(&self) -> (bits: u64)
        ensures
            bits == self@,
            bits <= ONE_BITS,
    {
        proof {
            use_type_invariant(self);
        }
        self.bits
    }

    /// The probability zero.
    pub fn zero() -> (score: Score)
        ensures
            score@ == 0,
    {
        Score { bits: 0 }
    }

    /// The probability one.
    pub fn one() -> (score: Score)
        ensures
            score@ == ONE_BITS,
    {
        Score { bits: ONE_BITS }
    }

    /// Whether this probability is at least `other`.
    pub fn ge(&self, other: &Score) -> (b: bool)
        ensures
            b == (self@ >= other@),
    {
        self.bits >= other.bits
    }

    /// Whether this probability is greater than `other`.
    pub fn gt(&self, other: &Score) -> (b: bool)
        ensures
            b == (self@ > other@),
    {
        self.bits > other.bits
    }
}

/// Label generated by a sequence classification model.
#[derive(Clone, Debug)]
pub struct Label {
    /// Label String representation
    pub text: String,
    /// Confidence score
    pub score: Score,
    /// Label ID
    pub id: i64,
    /// Sentence index
    pub sentence: usize,
}

/// Mathematical value of a [`Label`].
pub struct LabelView {
    pub text: Seq<char>,
    pub score: nat,
    pub id: int,
    pub sentence: nat,
}

impl View for Label {
    type V = LabelView;

    open spec fn view(&self) -> LabelView {
        LabelView {
            text: self.text@,
            score: self.score@,
            id: self.id as int,
            sentence: self.sentence as nat,
        }
    }
}

} // verus!
