//! Ranking of the fitted models and selection of the best one.
//!
//! Each family's evaluation ends in either a deviation score (the bit
//! pattern of its root-mean-square of residuals) or a failure.  The selector
//! screens out failed families and non-finite scores, ranks the remaining
//! scores in the standard binary64 total order, and picks the lowest; when
//! several are equally lowest, the earliest family in the fixed fitting
//! order wins.

use vstd::prelude::*;

use crate::EngineError;
use crate::family::FittedModel;
use crate::real_bits::{is_finite_pattern, pattern_is_finite, total_rank, total_rank_spec};

verus! {

/// The payload of a `Some` score entry (irrelevant on `None`).
pub open spec fn score_of(o: Option<u64>) -> u64 {
    match o {
        Option::Some(s) => s,
        Option::None => 0,
    }
}

/// The rank, in the binary64 total order, of the score at position `i`.
pub open spec fn rank_at(scores: Seq<Option<u64>>, i: int) -> u64 {
    total_rank_spec(score_of(scores[i]))
}

/// The position the selector must choose on `scores`: the earliest `Some`
/// entry whose score ranks lowest in the binary64 total order, or nothing
/// when every entry is `None`.
pub open spec fn best_index_spec(scores: Seq<Option<u64>>) -> Option<int>
    decreases scores.len(),
{
    if scores.len() == 0 {
        Option::None
    } else {
        let last: int = scores.len() - 1;
        let prefix = best_index_spec(scores.drop_last());
        if scores[last] is None {
            prefix
        } else {
            match prefix {
                Option::None => Option::Some(last),
                Option::Some(p) => if rank_at(scores, p) <= rank_at(scores, last) {
                    Option::Some(p)
                } else {
                    Option::Some(last)
                },
            }
        }
    }
}

/// Position `b` holds a score, no other score ranks below it, and every
/// earlier score ranks strictly above it: `b` is the first minimum.
pub open spec fn is_first_minimum(scores: Seq<Option<u64>>, b: int) -> bool {
    &&& 0 <= b < scores.len()
    &&& scores[b] is Some
    &&& forall|j: int|
        0 <= j < scores.len() && scores[j] is Some ==> rank_at(scores, b) <= rank_at(scores, j)
    &&& forall|j: int| 0 <= j < b && scores[j] is Some ==> rank_at(scores, j) > rank_at(scores, b)
}

/// The selector chooses a position exactly when some family produced a
/// score, and the position it chooses is the first minimum.
pub proof fn lemma_best_index_properties(scores: Seq<Option<u64>>)
    ensures
        (best_index_spec(scores) is Some) <==> (exists|i: int|
            0 <= i < scores.len() && scores[i] is Some),
        best_index_spec(scores) matches Some(b) ==> is_first_minimum(scores, b),
    decreases scores.len(),
{
    if scores.len() > 0 {
        let prev = scores.drop_last();
        let last: int = scores.len() - 1;
        lemma_best_index_properties(prev);
        assert(forall|j: int| 0 <= j < last ==> prev[j] == scores[j]);
        if best_index_spec(scores) is Some {
            let b = best_index_spec(scores)->0;
            if scores[last] is None {
                assert(is_first_minimum(prev, b));
                assert(is_first_minimum(scores, b));
            } else if best_index_spec(prev) is Some {
                let p = best_index_spec(prev)->0;
                assert(is_first_minimum(prev, p));
                if rank_at(scores, p) <= rank_at(scores, last) {
                    assert(b == p);
                    assert(is_first_minimum(scores, b));
                } else {
                    assert(b == last);
                    assert(forall|j: int|
                        0 <= j < last && scores[j] is Some ==> rank_at(scores, j) >= rank_at(
                            scores,
                            p,
                        ));
                    assert(is_first_minimum(scores, b));
                }
            } else {
                assert(b == last);
                assert(forall|j: int| 0 <= j < last ==> scores[j] is None);
                assert(is_first_minimum(scores, b));
            }
        }
        if exists|i: int| 0 <= i < scores.len() && scores[i] is Some {
            let i = choose|i: int| 0 <= i < scores.len() && scores[i] is Some;
            if i < last {
                assert(prev[i] is Some);
            }
            assert(best_index_spec(scores) is Some);
        }
    }
}

/// Only one position can be the first minimum: together with
/// `lemma_best_index_properties` this says the selector's choice among the
/// families that succeeded is exactly one and fully determined — two runs on
/// the same scores choose the same position.
pub proof fn lemma_first_minimum_unique(scores: Seq<Option<u64>>, b1: int, b2: int)
    requires
        is_first_minimum(scores, b1),
        is_first_minimum(scores, b2),
    ensures
        b1 == b2,
{
    if b1 < b2 {
        assert(rank_at(scores, b1) > rank_at(scores, b2));
        assert(rank_at(scores, b1) <= rank_at(scores, b2));
    }
    if b2 < b1 {
        assert(rank_at(scores, b2) > rank_at(scores, b1));
        assert(rank_at(scores, b2) <= rank_at(scores, b1));
    }
}

/// Tie break: when position `i` holds a lowest-ranking score, every position
/// chosen over it lies at or before `i`.  In particular, of two families
/// with equal lowest scores the selector always chooses the one earlier in
/// the fixed fitting order, never the later.
pub proof fn lemma_tie_breaks_to_earlier(scores: Seq<Option<u64>>, i: int)
    requires
        0 <= i < scores.len(),
        scores[i] is Some,
        forall|j: int|
            0 <= j < scores.len() && scores[j] is Some ==> rank_at(scores, i) <= rank_at(scores, j),
    ensures
        best_index_spec(scores) matches Some(b) && b <= i,
{
    lemma_best_index_properties(scores);
    assert(best_index_spec(scores) is Some);
    let b = best_index_spec(scores)->0;
    assert(is_first_minimum(scores, b));
    if b > i {
        assert(rank_at(scores, i) > rank_at(scores, b));
        assert(rank_at(scores, i) <= rank_at(scores, b));
    }
}

/// An equal rank is a bit-identical score: the total order confuses no two
/// patterns, so "equally lowest" in the tie break means bit-for-bit equality
/// of the scores, never an accident of the ranking.
pub proof fn lemma_equal_ranks_are_identical(scores: Seq<Option<u64>>, i: int, j: int)
    requires
        0 <= i < scores.len(),
        0 <= j < scores.len(),
        rank_at(scores, i) == rank_at(scores, j),
    ensures
        score_of(scores[i]) == score_of(scores[j]),
{
    crate::real_bits::lemma_total_rank_injective(score_of(scores[i]), score_of(scores[j]));
}

/// On non-negative scores — and every root-mean-square is non-negative — the
/// binary64 total order agrees with the unsigned order of the patterns, so
/// the selector's choice is a numerically lowest score, and a position that
/// holds a lowest score is never beaten by a later one: of equally lowest
/// scores the earliest family wins.
pub proof fn lemma_lowest_score_selected(scores: Seq<Option<u64>>, i: int)
    requires
        forall|j: int|
            0 <= j < scores.len() && scores[j] is Some ==> score_of(scores[j])
                & crate::real_bits::SIGN_MASK == 0,
        0 <= i < scores.len(),
        scores[i] is Some,
        forall|j: int|
            0 <= j < scores.len() && scores[j] is Some ==> score_of(scores[i]) <= score_of(
                scores[j],
            ),
    ensures
        best_index_spec(scores) matches Some(b) && b <= i && score_of(scores[b]) <= score_of(
            scores[i],
        ),
{
    assert forall|j: int| 0 <= j < scores.len() && scores[j] is Some implies rank_at(scores, i)
        <= rank_at(scores, j) by {
        crate::real_bits::lemma_total_rank_monotone_on_nonnegative(
            score_of(scores[i]),
            score_of(scores[j]),
        );
    }
    lemma_tie_breaks_to_earlier(scores, i);
    lemma_best_index_properties(scores);
    let b = best_index_spec(scores)->0;
    crate::real_bits::lemma_total_rank_monotone_on_nonnegative(
        score_of(scores[b]),
        score_of(scores[i]),
    );
}

/// The first minimum is always chosen: a position that holds a lowest score
/// and strictly beats every earlier one is the selector's choice.
pub proof fn lemma_selects_first_minimum(scores: Seq<Option<u64>>, i: int)
    requires
        is_first_minimum(scores, i),
    ensures
        best_index_spec(scores) == Some(i),
{
    lemma_best_index_properties(scores);
    let b = best_index_spec(scores)->0;
    assert(best_index_spec(scores) is Some);
    assert(is_first_minimum(scores, b));
    lemma_first_minimum_unique(scores, b, i);
}

/// Picks the position of the lowest score among the screened entries, the
/// earliest of equals first, or nothing when every entry is `None`.
pub fn select_best(scores: &Vec<Option<u64>>) -> (r: Option<usize>)
    ensures
        r matches Some(b) ==> best_index_spec(scores@) == Some(b as int),
        r is None ==> best_index_spec(scores@) is None,
{
    let n = scores.len();
    let mut best: Option<usize> = None;
    let mut best_rank: u64 = 0;
    for i in 0..n
        invariant
            n == scores@.len(),
            match best {
                Option::Some(b) => {
                    &&& b < i
                    &&& best_index_spec(scores@.take(i as int)) == Some(b as int)
                    &&& scores@[b as int] is Some
                    &&& best_rank == rank_at(scores@, b as int)
                },
                Option::None => best_index_spec(scores@.take(i as int)) is None,
            },
    {
        proof {
            assert(scores@.take(i + 1).drop_last() =~= scores@.take(i as int));
            assert(scores@.take(i + 1)[i as int] == scores@[i as int]);
        }
        if let Some(s) = scores[i] {
            let rank = total_rank(s);
            match best {
                Option::None => {
                    best = Some(i);
                    best_rank = rank;
                },
                Option::Some(b) => {
                    proof {
                        assert(rank_at(scores@.take(i + 1), b as int) == rank_at(
                            scores@,
                            b as int,
                        ));
                        assert(rank_at(scores@.take(i + 1), i as int) == rank_at(
                            scores@,
                            i as int,
                        ));
                    }
                    if rank < best_rank {
                        best = Some(i);
                        best_rank = rank;
                    }
                },
            }
        }
    }
    proof {
        assert(scores@.take(n as int) =~= scores@);
    }
    best
}

/// The screen applied to one family's evaluation outcome before ranking: a
/// failed family, and a family whose score is NaN or infinite, yield no
/// entry; a finite score passes through.
pub open spec fn screen_spec(o: Result<u64, EngineError>) -> Option<u64> {
    match o {
        Result::Ok(s) => if is_finite_pattern(s) {
            Option::Some(s)
        } else {
            Option::None
        },
        Result::Err(_) => Option::None,
    }
}

/// Screens the per-family evaluation outcomes, position by position.
pub fn screen_scores(outcomes: &Vec<Result<u64, EngineError>>) -> (r: Vec<Option<u64>>)
    ensures
        r@.len() == outcomes@.len(),
        forall|j: int| 0 <= j < outcomes@.len() ==> r@[j] == screen_spec(outcomes@[j]),
{
    let n = outcomes.len();
    let mut screened: Vec<Option<u64>> = Vec::new();
    for i in 0..n
        invariant
            n == outcomes@.len(),
            screened@.len() == i,
            forall|j: int| 0 <= j < i ==> screened@[j] == screen_spec(outcomes@[j]),
    {
        let entry = match &outcomes[i] {
            Result::Ok(s) => if pattern_is_finite(*s) {
                Some(*s)
            } else {
                None
            },
            Result::Err(_) => None,
        };
        screened.push(entry);
    }
    screened
}

/// The screened view of a whole outcome sequence.
pub open spec fn screened_spec(outcomes: Seq<Result<u64, EngineError>>) -> Seq<Option<u64>> {
    Seq::new(outcomes.len(), |j: int| screen_spec(outcomes[j]))
}

/// The selector's whole contract in one step: given the per-family
/// evaluation outcomes, in the fixed fitting order, returns the position and
/// score of the best model — the lowest finite score, the earliest of
/// equals — or nothing when no family produced a finite score.
pub fn select_scored(outcomes: &Vec<Result<u64, EngineError>>) -> (r: Option<(usize, u64)>)
    ensures
        r matches Some((b, s)) ==> {
            &&& best_index_spec(screened_spec(outcomes@)) == Some(b as int)
            &&& outcomes@[b as int] == Result::<u64, EngineError>::Ok(s)
            &&& is_finite_pattern(s)
        },
        r is None ==> best_index_spec(screened_spec(outcomes@)) is None,
{
    let screened = screen_scores(outcomes);
    proof {
        assert(screened@ =~= screened_spec(outcomes@));
    }
    match select_best(&screened) {
        Option::Some(b) => {
            proof {
                lemma_best_index_properties(screened_spec(outcomes@));
            }
            match &outcomes[b] {
                Result::Ok(s) => Some((b, *s)),
                // unreachable: the chosen position passed the screen, so the
                // outcome there is a finite score
                Result::Err(_) => {
                    proof {
                        assert(false);
                    }
                    None
                },
            }
        },
        Option::None => None,
    }
}

/// What the selection hands back: the best fitted model, its deviation
/// score, and its position in the fixed fitting order.
#[derive(Clone, Copy, Debug, PartialEq, Eq, Structural)]
pub struct Selection {
    pub best_model: FittedModel,
    pub best_score: u64,
    pub best_index: usize,
}

/// Selects the best model from the per-family fit results and evaluation
/// outcomes, aligned with the fixed fitting order: the model whose finite
/// score ranks lowest, the earliest family of equals.  Returns nothing
/// exactly when no family both fitted and scored finitely.
pub fn select_models(
    models: &Vec<Result<FittedModel, EngineError>>,
    scores: &Vec<Result<u64, EngineError>>,
) -> (r: Option<Selection>)
    requires
        models@.len() == scores@.len(),
        forall|j: int| 0 <= j < scores@.len() && scores@[j] is Ok ==> models@[j] is Ok,
    ensures
        r is Some <==> best_index_spec(screened_spec(scores@)) is Some,
        r matches Some(c) ==> {
            &&& best_index_spec(screened_spec(scores@)) == Some(c.best_index as int)
            &&& scores@[c.best_index as int] == Result::<u64, EngineError>::Ok(c.best_score)
            &&& models@[c.best_index as int] == Result::<FittedModel, EngineError>::Ok(
                c.best_model,
            )
            &&& is_finite_pattern(c.best_score)
        },
{
    match select_scored(scores) {
        Option::Some((best_index, best_score)) => {
            proof {
                lemma_best_index_properties(screened_spec(scores@));
            }
            match &models[best_index] {
                Result::Ok(m) => Some(
                    Selection { best_model: *m, best_score, best_index },
                ),
                // unreachable: the chosen position scored, so it was fitted
                Result::Err(_) => {
                    proof {
                        assert(false);
                    }
                    None
                },
            }
        },
        Option::None => None,
    }
}

} // verus!
