//! The end of a search: the workers' outcomes reduced to one solution.

use crate::hash::nonce_bytes;
use crate::hash::HashResult;
use crate::worker::oracle_difficulty;
use crate::worker::Worker;
use crate::worker::WorkerOutcome;
use vstd::bytes::spec_u64_to_le_bytes;
use vstd::prelude::*;

verus! {

/// What is submitted for a search: the digest of the winning hash and the
/// eight little-endian bytes of its nonce.
#[derive(Clone, Copy, Debug, PartialEq, Eq)]
pub struct Solution {
    pub d: [u8; 16],
    pub n: [u8; 8],
}

/// The outcome that wins among `outcomes`, taken in order: the first of
/// those with the highest difficulty, and the empty outcome at nonce zero
/// where no difficulty is above zero.
pub open spec fn winner(outcomes: Seq<WorkerOutcome>) -> WorkerOutcome
    decreases outcomes.len(),
{
    if outcomes.len() == 0 {
        WorkerOutcome::spec_empty(0)
    } else {
        let before = winner(outcomes.drop_last());
        if outcomes.last().best_difficulty > before.best_difficulty {
            outcomes.last()
        } else {
            before
        }
    }
}

/// Whether a find of `best_difficulty` is worth a higher fee: it is above
/// the midpoint of `min` and `best`, the midpoint rounded down.
pub open spec fn fee_hint(best_difficulty: u32, min: u32, best: u32) -> bool {
    best_difficulty > (min + best) / 2
}

/// The outcomes of `workers`, in order.
pub open spec fn outcomes_of(workers: Seq<Worker>) -> Seq<WorkerOutcome> {
    workers.map_values(|w: Worker| w.best)
}

/// Reduces the outcomes of the workers to the one that wins.
pub fn reduce(outcomes: &Vec<WorkerOutcome>) -> (r: WorkerOutcome)
    ensures
        r == winner(outcomes@),
{
    let mut best = WorkerOutcome::empty(0);
    let mut i: usize = 0;
    while i < outcomes.len()
        invariant
            i <= outcomes.len(),
            best == winner(outcomes@.take(i as int)),
        decreases outcomes.len() - i,
    {
        proof {
            assert(outcomes@.take(i + 1).drop_last() =~= outcomes@.take(i as int));
        }
        if outcomes[i].best_difficulty > best.best_difficulty {
            best = outcomes[i];
        }
        i = i + 1;
    }
    proof {
        assert(outcomes@.take(i as int) =~= outcomes@);
    }
    best
}

/// Whether a find of `best_difficulty` is worth a higher fee.
pub fn should_increase_fee(best_difficulty: u32, min: u32, best: u32) -> (r: bool)
    ensures
        r == fee_hint(best_difficulty, min, best),
{
    let midpoint: u64 = (min as u64 + best as u64) / 2;
    best_difficulty as u64 > midpoint
}

/// The result of a search from the outcomes of its workers: the solution of
/// the winner, whether its difficulty is worth a higher fee, and that
/// difficulty.
pub fn best_solution(outcomes: &Vec<WorkerOutcome>, min: u32, best: u32) -> (r: (
    Solution,
    bool,
    u32,
))
    ensures
        r.0.d == winner(outcomes@).best_hash.d,
        r.0.n@ == spec_u64_to_le_bytes(winner(outcomes@).best_nonce),
        r.1 == fee_hint(r.2, min, best),
        r.2 == winner(outcomes@).best_difficulty,
{
    let won = reduce(outcomes);
    let solution = Solution { d: won.best_hash.d, n: nonce_bytes(won.best_nonce) };
    (solution, should_increase_fee(won.best_difficulty, min, best), won.best_difficulty)
}

/// Whether outcome `i` is the first of `outcomes` with the highest
/// difficulty.
pub open spec fn is_first_maximum(outcomes: Seq<WorkerOutcome>, i: int) -> bool {
    &&& 0 <= i < outcomes.len()
    &&& forall|j: int|
        0 <= j < outcomes.len() ==> (#[trigger] outcomes[j]).best_difficulty
            <= outcomes[i].best_difficulty
    &&& forall|j: int|
        0 <= j < i ==> (#[trigger] outcomes[j]).best_difficulty < outcomes[i].best_difficulty
}

/// The winner is the first outcome with the highest difficulty; where no
/// outcome is above difficulty zero it is the empty outcome at nonce zero.
pub proof fn lemma_winner_is_first_maximum(outcomes: Seq<WorkerOutcome>)
    ensures
        forall|i: int|
            0 <= i < outcomes.len() ==> (#[trigger] outcomes[i]).best_difficulty <= winner(
                outcomes,
            ).best_difficulty,
        winner(outcomes).best_difficulty == 0 ==> winner(outcomes) == WorkerOutcome::spec_empty(0),
        winner(outcomes).best_difficulty > 0 ==> exists|i: int|
            is_first_maximum(outcomes, i) && #[trigger] outcomes[i] == winner(outcomes),
    decreases outcomes.len(),
{
    if outcomes.len() > 0 {
        let init = outcomes.drop_last();
        lemma_winner_is_first_maximum(init);
        let before = winner(init);
        let last = outcomes.len() - 1;
        assert forall|i: int| 0 <= i < outcomes.len() implies (
        #[trigger] outcomes[i]).best_difficulty <= winner(outcomes).best_difficulty by {
            if i < last {
                assert(outcomes[i] == init[i]);
            }
        }
        if outcomes.last().best_difficulty > before.best_difficulty {
            assert forall|j: int| 0 <= j < last implies (#[trigger] outcomes[j]).best_difficulty
                < outcomes[last].best_difficulty by {
                assert(outcomes[j] == init[j]);
            }
            assert(is_first_maximum(outcomes, last) && outcomes[last] == winner(outcomes));
        } else if before.best_difficulty > 0 {
            let i = choose|i: int| is_first_maximum(init, i) && #[trigger] init[i] == before;
            assert(outcomes[i] == init[i]);
            assert forall|j: int| 0 <= j < i implies (#[trigger] outcomes[j]).best_difficulty
                < outcomes[i].best_difficulty by {
                assert(outcomes[j] == init[j]);
            }
            assert(is_first_maximum(outcomes, i) && outcomes[i] == winner(outcomes));
        }
    }
}

/// A search reports no less than any of its workers met: where every
/// worker holds the best of the nonces it has passed, the winner's
/// difficulty is at least that of every nonce that any worker has passed.
pub proof fn lemma_winner_dominates(
    workers: Seq<Worker>,
    oracle: spec_fn(u64) -> Option<HashResult>,
    k: int,
    n: u64,
)
    requires
        forall|i: int| 0 <= i < workers.len() ==> (#[trigger] workers[i]).wf(oracle),
        0 <= k < workers.len(),
        workers[k].start <= n < workers[k].nonce,
    ensures
        oracle_difficulty(oracle, n) <= winner(outcomes_of(workers)).best_difficulty,
{
    let outcomes = outcomes_of(workers);
    lemma_winner_is_first_maximum(outcomes);
    assert(outcomes[k] == workers[k].best);
    assert(workers[k].wf(oracle));
}

/// Once a worker holds a difficulty above `best`, so does the winner.
pub proof fn lemma_winner_exceeds_target(workers: Seq<Worker>, k: int, best: u32)
    requires
        0 <= k < workers.len(),
        workers[k].best.best_difficulty > best,
    ensures
        winner(outcomes_of(workers)).best_difficulty > best,
{
    let outcomes = outcomes_of(workers);
    lemma_winner_is_first_maximum(outcomes);
    assert(outcomes[k] == workers[k].best);
}

/// A winner above difficulty zero is a hash that the oracle gives: its hash
/// is the oracle's hash of its nonce, and its difficulty that of the hash.
pub proof fn lemma_winner_is_hashed(
    workers: Seq<Worker>,
    oracle: spec_fn(u64) -> Option<HashResult>,
)
    requires
        forall|i: int| 0 <= i < workers.len() ==> (#[trigger] workers[i]).wf(oracle),
        winner(outcomes_of(workers)).best_difficulty > 0,
    ensures
        oracle(winner(outcomes_of(workers)).best_nonce) == Some(
            winner(outcomes_of(workers)).best_hash,
        ),
        winner(outcomes_of(workers)).best_hash.spec_difficulty() == winner(
            outcomes_of(workers),
        ).best_difficulty,
{
    let outcomes = outcomes_of(workers);
    lemma_winner_is_first_maximum(outcomes);
    let i = choose|i: int|
        is_first_maximum(outcomes, i) && #[trigger] outcomes[i] == winner(outcomes);
    assert(workers[i].wf(oracle));
    assert(outcomes[i] == workers[i].best);
}

} // verus!
