//! One worker of a search: the nonces it scans, the best hash it holds, and
//! what it does in each pass of its loop.

use crate::hash::hash_nonce;
use crate::hash::hash_of;
use crate::hash::HashResult;
use crate::partition::nonce_start;
use crate::partition::range_start;
use drillx::equix::SolverMemory;
use std::sync::atomic::AtomicBool;
use std::sync::atomic::Ordering;
use std::time::Duration;
use std::time::Instant;
use vstd::prelude::*;

verus! {

/// A point in time of the monotonic clock, `std::time::Instant`.
#[verifier::external_type_specification]
#[verifier::external_body]
pub struct ExInstant(Instant);

/// `Instant::elapsed`: the time since the instant. Nothing is claimed of it.
pub assume_specification[ Instant::elapsed ](timer: &Instant) -> Duration;

/// `Duration::as_secs`: the whole seconds of a duration. Nothing is claimed
/// of it.
pub assume_specification[ Duration::as_secs ](duration: &Duration) -> u64;

/// What every worker of one search is given.
#[derive(Clone, Copy, Debug, PartialEq, Eq)]
pub struct SearchParams {
    /// The challenge that every nonce is hashed under.
    pub challenge: [u8; 32],
    /// Seconds after which a worker may leave with a hash above `min`.
    pub cutoff_time: u64,
    /// Number of workers.
    pub threads: u64,
    /// The difficulty that a hash must exceed before a worker leaves at the
    /// cutoff.
    pub min: u32,
    /// The difficulty above which the search stops early.
    pub best: u32,
}

/// The best that one worker has found.
#[derive(Clone, Copy, Debug, PartialEq, Eq)]
pub struct WorkerOutcome {
    pub best_nonce: u64,
    pub best_difficulty: u32,
    pub best_hash: HashResult,
}

/// What one worker holds between two passes of its loop.
#[derive(Clone, Copy, Debug, PartialEq, Eq)]
pub struct Worker {
    /// The first nonce of this worker.
    pub start: u64,
    /// The nonce that the next pass hashes.
    pub nonce: u64,
    /// The best found so far.
    pub best: WorkerOutcome,
}

/// What a worker sees of the world in one pass.
#[derive(Clone, Copy, Debug, PartialEq, Eq)]
pub struct Observation {
    /// The stop signal, as read at the start of the pass.
    pub stopped: bool,
    /// Whole seconds since the worker started, as read in this pass.
    pub elapsed: u64,
    /// The hash of the worker's current nonce, `None` where it has none.
    pub hashed: Option<HashResult>,
}

/// What a worker does after a pass.
#[derive(Clone, Copy, Debug, PartialEq, Eq)]
pub enum Step {
    /// Leave the loop and hand in the outcome.
    Exit,
    /// Wait a second, then make the next pass.
    Sleep,
    /// Make the next pass at once.
    Continue,
}

/// The result of one pass.
#[derive(Clone, Copy, Debug, PartialEq, Eq)]
pub struct Verdict {
    pub step: Step,
    /// Whether the pass sets the stop signal.
    pub raise: bool,
}

impl WorkerOutcome {
    /// The outcome of a worker that has found nothing: difficulty zero at
    /// `nonce`, with the all-zero hash.
    pub open spec fn spec_empty(nonce: u64) -> WorkerOutcome {
        WorkerOutcome {
            best_nonce: nonce,
            best_difficulty: 0,
            best_hash: HashResult::spec_default(),
        }
    }

    /// The outcome of a worker that has found nothing.
    pub fn empty(nonce: u64) -> (r: WorkerOutcome)
        ensures
            r == WorkerOutcome::spec_empty(nonce),
    {
        WorkerOutcome { best_nonce: nonce, best_difficulty: 0, best_hash: HashResult::default() }
    }
}

/// The step of a worker that found the stop signal set: it leaves once the
/// cutoff is reached and sleeps until then.
pub open spec fn spec_idle_step(elapsed: u64, cutoff_time: u64) -> Step {
    if elapsed >= cutoff_time {
        Step::Exit
    } else {
        Step::Sleep
    }
}

/// The step of a worker that found the stop signal set.
pub fn idle_step(elapsed: u64, cutoff_time: u64) -> (step: Step)
    ensures
        step == spec_idle_step(elapsed, cutoff_time),
{
    if elapsed >= cutoff_time {
        Step::Exit
    } else {
        Step::Sleep
    }
}

/// The difficulty that `oracle` gives to nonce `n`: that of its hash, and
/// zero where it has none.
pub open spec fn oracle_difficulty(oracle: spec_fn(u64) -> Option<HashResult>, n: u64) -> nat {
    match oracle(n) {
        Some(hx) => hx.spec_difficulty(),
        None => 0,
    }
}

/// drillx under `challenge`, as a function from nonces to hashes.
pub open spec fn drillx_oracle(challenge: [u8; 32]) -> spec_fn(u64) -> Option<HashResult> {
    |n: u64| hash_of(challenge, n)
}

impl Worker {
    /// Whether the worker holds the best that `oracle` gives on the nonces
    /// it has passed: the best is the hash of the best nonce, no nonce from
    /// the start up to the current one reaches more, and none before the
    /// best nonce reaches as much. With nothing found the outcome is the
    /// empty one.
    pub open spec fn wf(self, oracle: spec_fn(u64) -> Option<HashResult>) -> bool {
        &&& self.start <= self.best.best_nonce <= self.nonce
        &&& self.best.best_difficulty == 0 ==> self.best == WorkerOutcome::spec_empty(self.start)
        &&& self.best.best_difficulty > 0 ==> {
            &&& oracle(self.best.best_nonce) == Some(self.best.best_hash)
            &&& self.best.best_hash.spec_difficulty() == self.best.best_difficulty
        }
        &&& forall|n: u64|
            self.start <= n < self.nonce ==> #[trigger] oracle_difficulty(oracle, n)
                <= self.best.best_difficulty
        &&& forall|n: u64|
            self.start <= n < self.best.best_nonce ==> #[trigger] oracle_difficulty(oracle, n)
                < self.best.best_difficulty
    }

    /// Worker `i` of `threads` before its first pass.
    pub open spec fn spec_new(threads: u64, i: u64) -> Worker {
        let start = range_start(threads, i) as u64;
        Worker { start, nonce: start, best: WorkerOutcome::spec_empty(start) }
    }

    /// Worker `i` of `threads` before its first pass: at the start of its
    /// range, with nothing found.
    pub fn new(threads: u64, i: u64) -> (w: Worker)
        requires
            threads >= 1,
        ensures
            w == Worker::spec_new(threads, i),
    {
        let start = nonce_start(threads, i);
        Worker { start, nonce: start, best: WorkerOutcome::empty(start) }
    }

    /// The worker after it has seen the hash of its current nonce: a hash
    /// of strictly higher difficulty replaces the best, anything else
    /// changes nothing.
    pub open spec fn spec_record(self, hashed: Option<HashResult>) -> Worker {
        match hashed {
            Some(hx) => if hx.spec_difficulty() > self.best.best_difficulty {
                Worker {
                    best: WorkerOutcome {
                        best_nonce: self.nonce,
                        best_difficulty: hx.spec_difficulty() as u32,
                        best_hash: hx,
                    },
                    ..self
                }
            } else {
                self
            },
            None => self,
        }
    }

    /// Whether the rest of the pass depends on the clock, for a worker that
    /// has recorded the hash of its nonce: it does at every hundredth
    /// nonce, unless the best is above `best`.
    pub open spec fn reads_clock(self, params: SearchParams) -> bool {
        self.best.best_difficulty <= params.best && self.nonce % 100 == 0
    }

    /// The rest of a pass, for a worker that has recorded the hash of its
    /// nonce. Above `best` it sets the stop signal and stays on the nonce.
    /// At every hundredth nonce, with the cutoff reached and the best above
    /// `min`, it sets the stop signal and leaves. In every other case it
    /// moves to the next nonce.
    pub open spec fn spec_decide(self, params: SearchParams, elapsed: u64) -> (Worker, Verdict) {
        if self.best.best_difficulty > params.best {
            (self, Verdict { step: Step::Continue, raise: true })
        } else if self.nonce % 100 == 0 && elapsed >= params.cutoff_time
            && self.best.best_difficulty > params.min {
            (self, Verdict { step: Step::Exit, raise: true })
        } else {
            (
                Worker { nonce: (self.nonce + 1) as u64, ..self },
                Verdict { step: Step::Continue, raise: false },
            )
        }
    }

    /// One pass of the loop, as a function of what the worker sees.
    ///
    /// With the stop signal set the worker hashes nothing: it leaves at the
    /// cutoff and sleeps before it. Otherwise it records the hash of its
    /// nonce and decides on what it then holds.
    pub open spec fn next(self, params: SearchParams, seen: Observation) -> (Worker, Verdict) {
        if seen.stopped {
            (self, Verdict { step: spec_idle_step(seen.elapsed, params.cutoff_time), raise: false })
        } else {
            self.spec_record(seen.hashed).spec_decide(params, seen.elapsed)
        }
    }

    /// One pass of a worker that hashes with drillx, as a function of the
    /// stop signal and the clock.
    pub open spec fn next_hashed(self, params: SearchParams, stopped: bool, elapsed: u64) -> (
        Worker,
        Verdict,
    ) {
        self.next(
            params,
            Observation { stopped, elapsed, hashed: hash_of(params.challenge, self.nonce) },
        )
    }

    /// Takes in the hash of the current nonce.
    pub fn record(&mut self, hashed: Option<HashResult>)
        ensures
            *final(self) == old(self).spec_record(hashed),
    {
        if let Some(hx) = hashed {
            let difficulty = hx.difficulty();
            if difficulty > self.best.best_difficulty {
                self.best = WorkerOutcome {
                    best_nonce: self.nonce,
                    best_difficulty: difficulty,
                    best_hash: hx,
                };
            }
        }
    }

    /// Whether the rest of the pass depends on the clock.
    pub fn wants_clock(&self, params: &SearchParams) -> (r: bool)
        ensures
            r == self.reads_clock(*params),
    {
        self.best.best_difficulty <= params.best && self.nonce % 100 == 0
    }

    /// Ends a pass in which the hash of the nonce has been recorded.
    /// `elapsed` is the reading of the clock, and counts only where the
    /// pass depends on it.
    pub fn decide(&mut self, params: &SearchParams, elapsed: u64) -> (verdict: Verdict)
        requires
            old(self).nonce < u64::MAX,
        ensures
            (*final(self), verdict) == old(self).spec_decide(*params, elapsed),
            !old(self).reads_clock(*params) ==> forall|other: u64|
                #[trigger] old(self).spec_decide(*params, other) == (*final(self), verdict),
    {
        if self.best.best_difficulty > params.best {
            return Verdict { step: Step::Continue, raise: true };
        }
        if self.nonce % 100 == 0 && elapsed >= params.cutoff_time && self.best.best_difficulty
            > params.min {
            return Verdict { step: Step::Exit, raise: true };
        }
        self.nonce = self.nonce + 1;
        Verdict { step: Step::Continue, raise: false }
    }

    /// Makes one pass of the loop on what the worker has seen.
    pub fn advance(&mut self, params: &SearchParams, seen: &Observation) -> (verdict: Verdict)
        requires
            old(self).nonce < u64::MAX,
        ensures
            (*final(self), verdict) == old(self).next(*params, *seen),
    {
        if seen.stopped {
            return Verdict { step: idle_step(seen.elapsed, params.cutoff_time), raise: false };
        }
        self.record(seen.hashed);
        self.decide(params, seen.elapsed)
    }

    /// Makes one pass of the loop: reads the stop signal, hashes the current
    /// nonce with drillx unless the signal is set, reads the clock where the
    /// pass depends on it, and sets the stop signal where the verdict says
    /// so.
    ///
    /// `stop` is the signal that the workers of one search share, `timer`
    /// the instant at which this worker started. The pass is the one that
    /// [`Worker::next`] describes for the hash that drillx gives, for some
    /// state of the stop signal and some reading of the clock.
    pub fn step(
        &mut self,
        params: &SearchParams,
        memory: &mut SolverMemory,
        stop: &AtomicBool,
        timer: &Instant,
    ) -> (verdict: Verdict)
        requires
            old(self).nonce < u64::MAX,
        ensures
            exists|stopped: bool, elapsed: u64|
                (*final(self), verdict) == #[trigger] old(self).next_hashed(
                    *params,
                    stopped,
                    elapsed,
                ),
            old(self).wf(drillx_oracle(params.challenge)) ==> final(self).wf(
                drillx_oracle(params.challenge),
            ),
    {
        let ghost before = *self;
        proof {
            let oracle = drillx_oracle(params.challenge);
            if before.wf(oracle) {
                assert forall|stopped: bool, elapsed: u64|
                    (#[trigger] before.next_hashed(*params, stopped, elapsed)).0.wf(oracle) by {
                    lemma_next_keeps_wf(
                        before,
                        *params,
                        Observation {
                            stopped,
                            elapsed,
                            hashed: hash_of(params.challenge, before.nonce),
                        },
                        oracle,
                    );
                }
            }
        }
        if stop.load(Ordering::Relaxed) {
            let elapsed = timer.elapsed().as_secs();
            let verdict = Verdict { step: idle_step(elapsed, params.cutoff_time), raise: false };
            assert((*self, verdict) == before.next_hashed(*params, true, elapsed));
            return verdict;
        }
        let hashed = hash_nonce(memory, &params.challenge, self.nonce);
        self.record(hashed);
        let elapsed = if self.wants_clock(params) {
            timer.elapsed().as_secs()
        } else {
            0
        };
        let verdict = self.decide(params, elapsed);
        if verdict.raise {
            stop.store(true, Ordering::Relaxed);
        }
        assert((*self, verdict) == before.next_hashed(*params, false, elapsed));
        verdict
    }
}

/// A worker that has made no pass holds the best of the nonces it has
/// passed, whatever the oracle: it has passed none.
pub proof fn lemma_new_is_wf(threads: u64, i: u64, oracle: spec_fn(u64) -> Option<HashResult>)
    ensures
        Worker::spec_new(threads, i).wf(oracle),
{
}

/// A pass that sees the oracle's hash of the current nonce leaves the
/// worker holding the best of the nonces it has passed.
pub proof fn lemma_next_keeps_wf(
    w: Worker,
    params: SearchParams,
    seen: Observation,
    oracle: spec_fn(u64) -> Option<HashResult>,
)
    requires
        w.wf(oracle),
        w.nonce < u64::MAX,
        !seen.stopped ==> seen.hashed == oracle(w.nonce),
    ensures
        w.next(params, seen).0.wf(oracle),
{
    let after = w.next(params, seen).0;
    if !seen.stopped {
        let recorded = w.spec_record(seen.hashed);
        if let Some(hx) = seen.hashed {
            hx.lemma_difficulty_bound();
        }
        assert(oracle_difficulty(oracle, w.nonce) <= recorded.best.best_difficulty);
        assert(recorded.wf(oracle));
        assert forall|n: u64| after.start <= n < after.nonce implies #[trigger] oracle_difficulty(
            oracle,
            n,
        ) <= after.best.best_difficulty by {
            if n < w.nonce {
                assert(oracle_difficulty(oracle, n) <= w.best.best_difficulty);
            }
        }
    }
}

/// Within one worker the best difficulty never falls, and the worker stays
/// in its range: a pass moves the nonce up by one or leaves it.
pub proof fn lemma_next_is_monotone(w: Worker, params: SearchParams, seen: Observation)
    requires
        w.nonce < u64::MAX,
    ensures
        w.next(params, seen).0.best.best_difficulty >= w.best.best_difficulty,
        w.next(params, seen).0.start == w.start,
        w.next(params, seen).0.nonce == w.nonce || w.next(params, seen).0.nonce == w.nonce + 1,
{
    if let Some(hx) = seen.hashed {
        hx.lemma_difficulty_bound();
    }
}

/// A pass that hashes a nonce of a difficulty above `best` sets the stop
/// signal, and the worker then holds a difficulty above `best`.
pub proof fn lemma_target_hit(w: Worker, params: SearchParams, seen: Observation)
    requires
        !seen.stopped,
        seen.hashed is Some,
        seen.hashed.unwrap().spec_difficulty() > params.best,
    ensures
        w.next(params, seen).1 == (Verdict { step: Step::Continue, raise: true }),
        w.next(params, seen).0.best.best_difficulty > params.best,
{
    seen.hashed.unwrap().lemma_difficulty_bound();
}

/// A worker that holds a difficulty above `best` sets the stop signal in
/// every pass that finds it unset, and stays on its nonce.
pub proof fn lemma_target_held(w: Worker, params: SearchParams, seen: Observation)
    requires
        !seen.stopped,
        w.best.best_difficulty > params.best,
    ensures
        w.next(params, seen).1 == (Verdict { step: Step::Continue, raise: true }),
        w.next(params, seen).0.best.best_difficulty > params.best,
        w.next(params, seen).0.nonce == w.nonce,
{
    if let Some(hx) = seen.hashed {
        hx.lemma_difficulty_bound();
    }
}

/// A worker that finds the stop signal set keeps what it holds; it leaves
/// if the cutoff is reached and sleeps if not.
pub proof fn lemma_stopped_worker_idles(w: Worker, params: SearchParams, seen: Observation)
    requires
        seen.stopped,
    ensures
        w.next(params, seen).0 == w,
        !w.next(params, seen).1.raise,
        seen.elapsed >= params.cutoff_time ==> w.next(params, seen).1.step == Step::Exit,
        seen.elapsed < params.cutoff_time ==> w.next(params, seen).1.step == Step::Sleep,
{
}

/// A worker whose best exceeds neither `min` nor `best` never leaves and
/// never sets the stop signal by itself, whatever the clock says: it moves
/// to the next nonce.
pub proof fn lemma_below_minimum_scans_on(w: Worker, params: SearchParams, seen: Observation)
    requires
        !seen.stopped,
        w.nonce < u64::MAX,
        w.spec_record(seen.hashed).best.best_difficulty <= params.min,
        w.spec_record(seen.hashed).best.best_difficulty <= params.best,
    ensures
        w.next(params, seen).1 == (Verdict { step: Step::Continue, raise: false }),
        w.next(params, seen).0.nonce == w.nonce + 1,
{
}

/// A worker leaves only with the stop signal set: it found the signal set
/// and the cutoff reached, or it sets the signal as it leaves, at a
/// hundredth nonce, with the cutoff reached and its best above `min`.
pub proof fn lemma_exit_conditions(w: Worker, params: SearchParams, seen: Observation)
    requires
        w.next(params, seen).1.step == Step::Exit,
    ensures
        seen.elapsed >= params.cutoff_time,
        seen.stopped || w.next(params, seen).1.raise,
        !seen.stopped ==> w.nonce % 100 == 0 && w.next(params, seen).0.best.best_difficulty
            > params.min,
{
}

} // verus!
