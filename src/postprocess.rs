use vstd::prelude::*;

use crate::error::PipelineError;

verus! {

/// Sign bit of an IEEE-754 binary32 bit pattern.
pub const SIGN_BIT: u32 = 0x8000_0000;

/// Bit pattern of positive infinity; a larger magnitude is a NaN.
pub const INFINITY_BITS: u32 = 0x7f80_0000;

/// Rank shared by every NaN: below that of every number.
pub const NAN_RANK: i64 = -0x8000_0000;

/// The bit pattern without its sign.
pub open spec fn magnitude_of(bits: u32) -> int {
    if bits >= SIGN_BIT {
        (bits - SIGN_BIT) as int
    } else {
        bits as int
    }
}

/// The bit pattern is a NaN: exponent all ones, mantissa not zero.
pub open spec fn is_nan_bits(bits: u32) -> bool {
    magnitude_of(bits) > INFINITY_BITS
}

/// The position of a binary32 score, given by its bit pattern, in the order
/// of scores: IEEE-754 orders finite values and infinities like their
/// sign-magnitude integers, so `-0.0` and `+0.0` tie. A NaN never beats a
/// number: all NaNs rank below negative infinity.
pub open spec fn rank_of(bits: u32) -> int {
    if is_nan_bits(bits) {
        NAN_RANK as int
    } else if bits >= SIGN_BIT {
        -magnitude_of(bits)
    } else {
        bits as int
    }
}

/// `i` holds a highest-ranked score of `s`, and no earlier index does.
pub open spec fn is_first_max(s: Seq<u32>, i: int) -> bool {
    &&& 0 <= i < s.len()
    &&& forall|j: int| 0 <= j < s.len() ==> rank_of(#[trigger] s[j]) <= rank_of(s[i])
    &&& forall|j: int| 0 <= j < i ==> rank_of(#[trigger] s[j]) < rank_of(s[i])
}

/// The top-1 prediction: the winning class and its score's bit pattern.
#[derive(Debug, Clone, Copy, PartialEq, Eq, Structural)]
pub struct Prediction {
    pub class_index: usize,
    pub confidence_bits: u32,
}

pub fn score_rank(bits: u32) -> (r: i64)
    ensures
        r == rank_of(bits),
{
    let magnitude: u32 = if bits >= SIGN_BIT {
        bits - SIGN_BIT
    } else {
        bits
    };
    if magnitude > INFINITY_BITS {
        NAN_RANK
    } else if bits >= SIGN_BIT {
        -(magnitude as i64)
    } else {
        bits as i64
    }
}

/// Reduces the model's scores, given as binary32 bit patterns, to the
/// highest-scoring class. A linear scan keeps the best so far, and a later
/// equal score never replaces it, so ties go to the lowest index. A NaN
/// score is chosen only where every score is a NaN.
pub fn postprocess(scores: &Vec<u32>) -> (r: Result<Prediction, PipelineError>)
    ensures
        scores@.len() == 0 ==> r == Err::<Prediction, PipelineError>(PipelineError::EmptyOutput),
        scores@.len() > 0 ==> (r matches Ok(p) && is_first_max(scores@, p.class_index as int)
            && p.confidence_bits == scores@[p.class_index as int]),
        r matches Ok(p) ==> (is_nan_bits(scores@[p.class_index as int]) ==> forall|j: int|
            0 <= j < scores@.len() ==> is_nan_bits(#[trigger] scores@[j])),
{
    if scores.len() == 0 {
        return Err(PipelineError::EmptyOutput);
    }
    let mut best: usize = 0;
    let mut best_rank: i64 = score_rank(scores[0]);
    let mut i: usize = 1;
    while i < scores.len()
        invariant
            1 <= i <= scores@.len(),
            best < i,
            best_rank == rank_of(scores@[best as int]),
            forall|j: int| 0 <= j < i ==> rank_of(#[trigger] scores@[j]) <= best_rank,
            forall|j: int| 0 <= j < best ==> rank_of(#[trigger] scores@[j]) < best_rank,
        decreases scores@.len() - i,
    {
        let rank = score_rank(scores[i]);
        if rank > best_rank {
            best = i;
            best_rank = rank;
        }
        i = i + 1;
    }
    Ok(Prediction { class_index: best, confidence_bits: scores[best] })
}

/// Scores with a tie at the top: the class chosen is the lowest index among
/// all indices that hold the highest score.
pub proof fn lemma_tie_goes_to_lowest_index(s: Seq<u32>, i: int, k: int)
    requires
        is_first_max(s, i),
        0 <= k < s.len(),
        rank_of(s[k]) == rank_of(s[i]),
    ensures
        i <= k,
{
    if k < i {
        assert(rank_of(s[k]) < rank_of(s[i]));
    }
}

/// At most one index is the first maximum of a sequence of scores, so the
/// prediction is a function of the scores alone.
pub proof fn lemma_first_max_unique(s: Seq<u32>, i: int, k: int)
    requires
        is_first_max(s, i),
        is_first_max(s, k),
    ensures
        i == k,
{
    lemma_tie_goes_to_lowest_index(s, i, k);
    lemma_tie_goes_to_lowest_index(s, k, i);
}

} // verus!
