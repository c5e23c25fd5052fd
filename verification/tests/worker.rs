use drillx::equix::SolverMemory;
use ore_miner::hash::HashResult;
use ore_miner::partition::nonce_start;
use ore_miner::search::best_solution;
use ore_miner::worker::idle_step;
use ore_miner::worker::Observation;
use ore_miner::worker::SearchParams;
use ore_miner::worker::Step;
use ore_miner::worker::Verdict;
use ore_miner::worker::Worker;
use ore_miner::worker::WorkerOutcome;
use std::sync::atomic::AtomicBool;
use std::sync::atomic::Ordering;
use std::time::Instant;

/// A hash with `difficulty` leading zero bits, for a difficulty below 16,
/// that carries the nonce in its digest.
fn hash_of_difficulty(difficulty: u32, nonce: u64) -> HashResult {
    assert!(difficulty < 16);
    let mut h = [0xffu8; 32];
    if difficulty < 8 {
        h[0] = 0xff >> difficulty;
    } else {
        h[0] = 0;
        h[1] = 0xff >> (difficulty - 8);
    }
    let mut d = [0u8; 16];
    d[..8].copy_from_slice(&nonce.to_le_bytes());
    HashResult { d, h }
}

/// An outcome of `best_difficulty` at `best_nonce`.
fn held(best_nonce: u64, best_difficulty: u32) -> WorkerOutcome {
    WorkerOutcome {
        best_nonce,
        best_difficulty,
        best_hash: hash_of_difficulty(best_difficulty, best_nonce),
    }
}

fn params(cutoff_time: u64, min: u32, best: u32) -> SearchParams {
    SearchParams { challenge: [0u8; 32], cutoff_time, threads: 4, min, best }
}

fn scanning(elapsed: u64, hashed: Option<HashResult>) -> Observation {
    Observation { stopped: false, elapsed, hashed }
}

fn stopped(elapsed: u64) -> Observation {
    Observation { stopped: true, elapsed, hashed: None }
}

const ON: Verdict = Verdict { step: Step::Continue, raise: false };

#[test]
fn stub_hash_has_the_difficulty_asked_for() {
    for difficulty in 0..16 {
        assert_eq!(hash_of_difficulty(difficulty, 1).difficulty(), difficulty);
    }
}

#[test]
fn new_worker_stands_at_the_start_of_its_range() {
    for i in 0..4 {
        let w = Worker::new(4, i);
        let start = nonce_start(4, i);
        assert_eq!(w.start, start);
        assert_eq!(w.nonce, start);
        let best_hash = HashResult::default();
        assert_eq!(w.best, WorkerOutcome { best_nonce: start, best_difficulty: 0, best_hash });
        assert_eq!(w.best, WorkerOutcome::empty(start));
    }
}

#[test]
fn record_keeps_a_strictly_better_hash() {
    let mut w = Worker::new(4, 0);
    w.nonce = 41;
    w.record(Some(hash_of_difficulty(5, 41)));
    assert_eq!(w.best, held(41, 5));
    w.nonce = 42;
    w.record(Some(hash_of_difficulty(9, 42)));
    assert_eq!(w.best, held(42, 9));
    assert_eq!(w.nonce, 42);
}

#[test]
fn record_keeps_the_first_of_equal_hashes() {
    let mut w = Worker::new(4, 0);
    w.nonce = 41;
    w.record(Some(hash_of_difficulty(5, 41)));
    let held = w;
    w.nonce = 42;
    w.record(Some(hash_of_difficulty(5, 42)));
    assert_eq!(w.best, held.best);
    w.record(Some(hash_of_difficulty(4, 42)));
    assert_eq!(w.best, held.best);
    w.record(None);
    assert_eq!(w.best, held.best);
}

#[test]
fn record_passes_over_a_hash_of_difficulty_zero() {
    let mut w = Worker::new(4, 1);
    let before = w;
    w.record(Some(hash_of_difficulty(0, w.nonce)));
    assert_eq!(w, before);
}

#[test]
fn idle_worker_leaves_at_the_cutoff() {
    assert_eq!(idle_step(0, 0), Step::Exit);
    assert_eq!(idle_step(9, 10), Step::Sleep);
    assert_eq!(idle_step(10, 10), Step::Exit);
    assert_eq!(idle_step(11, 10), Step::Exit);
    assert_eq!(idle_step(0, u64::MAX), Step::Sleep);
}

#[test]
fn stopped_worker_hashes_nothing() {
    let mut w = Worker::new(4, 2);
    let before = w;
    let hashed = Some(hash_of_difficulty(15, w.nonce));
    let seen = Observation { stopped: true, elapsed: 3, hashed };
    assert_eq!(w.advance(&params(10, 1, 2), &seen), Verdict { step: Step::Sleep, raise: false });
    assert_eq!(w, before);
    let left = Verdict { step: Step::Exit, raise: false };
    assert_eq!(w.advance(&params(10, 1, 2), &stopped(10)), left);
    assert_eq!(w, before);
}

#[test]
fn pass_moves_to_the_next_nonce() {
    let mut w = Worker::new(4, 0);
    w.nonce = 1;
    w.best.best_nonce = 1;
    w.start = 1;
    assert_eq!(w.advance(&params(60, 10, 14), &scanning(0, Some(hash_of_difficulty(3, 1)))), ON);
    assert_eq!(w.nonce, 2);
    assert_eq!(w.best.best_difficulty, 3);
    assert_eq!(w.best.best_nonce, 1);
    assert_eq!(w.advance(&params(60, 10, 14), &scanning(0, None)), ON);
    assert_eq!(w.nonce, 3);
    assert_eq!(w.best.best_difficulty, 3);
}

#[test]
fn failed_hash_is_skipped() {
    let mut w = Worker::new(4, 0);
    for _ in 0..250 {
        assert_eq!(w.advance(&params(60, 10, 14), &scanning(0, None)), ON);
    }
    assert_eq!(w.nonce, 250);
    assert_eq!(w.best, WorkerOutcome::empty(0));
}

#[test]
fn hash_above_the_best_asked_for_raises_the_signal() {
    let mut w = Worker::new(4, 0);
    w.nonce = 7;
    let v = w.advance(&params(60, 10, 14), &scanning(0, Some(hash_of_difficulty(15, 7))));
    assert_eq!(v, Verdict { step: Step::Continue, raise: true });
    // the worker stays on the nonce
    assert_eq!(w.nonce, 7);
    assert_eq!(w.best.best_nonce, 7);
    assert_eq!(w.best.best_difficulty, 15);
    // and then idles until the cutoff
    assert_eq!(w.advance(&params(60, 10, 14), &stopped(59)).step, Step::Sleep);
    assert_eq!(w.advance(&params(60, 10, 14), &stopped(60)).step, Step::Exit);
    assert_eq!(w.best.best_difficulty, 15);
}

#[test]
fn hash_at_the_best_asked_for_raises_nothing() {
    let mut w = Worker::new(4, 0);
    w.nonce = 7;
    assert_eq!(w.advance(&params(60, 10, 14), &scanning(0, Some(hash_of_difficulty(14, 7)))), ON);
    assert_eq!(w.nonce, 8);
    assert_eq!(w.best.best_difficulty, 14);
}

#[test]
fn worker_leaves_at_a_checkpoint_past_the_cutoff_above_the_minimum() {
    let mut w = Worker::new(4, 0);
    w.nonce = 200;
    w.best = held(150, 11);
    let v = w.advance(&params(60, 10, 14), &scanning(60, Some(hash_of_difficulty(2, 200))));
    assert_eq!(v, Verdict { step: Step::Exit, raise: true });
    assert_eq!(w.nonce, 200);
    assert_eq!(w.best.best_nonce, 150);
}

#[test]
fn worker_stays_at_a_checkpoint_before_the_cutoff() {
    let mut w = Worker::new(4, 0);
    w.nonce = 200;
    w.best = held(150, 11);
    assert_eq!(w.advance(&params(60, 10, 14), &scanning(59, None)), ON);
    assert_eq!(w.nonce, 201);
}

#[test]
fn worker_stays_at_a_checkpoint_at_the_minimum() {
    let mut w = Worker::new(4, 0);
    w.nonce = 200;
    w.best = held(150, 10);
    assert_eq!(w.advance(&params(60, 10, 14), &scanning(1000, None)), ON);
    assert_eq!(w.nonce, 201);
}

#[test]
fn worker_stays_between_checkpoints_past_the_cutoff() {
    let mut w = Worker::new(4, 0);
    w.best = held(0, 11);
    for nonce in 201u64..300 {
        w.nonce = nonce;
        assert_eq!(w.advance(&params(60, 10, 14), &scanning(1000, None)), ON);
        assert_eq!(w.nonce, nonce + 1);
    }
    assert_eq!(w.advance(&params(60, 10, 14), &scanning(1000, None)).step, Step::Exit);
}

#[test]
fn hash_of_the_checkpoint_counts_for_leaving() {
    let mut w = Worker::new(4, 0);
    w.nonce = 300;
    let v = w.advance(&params(60, 10, 14), &scanning(60, Some(hash_of_difficulty(11, 300))));
    assert_eq!(v, Verdict { step: Step::Exit, raise: true });
    assert_eq!(w.best.best_nonce, 300);
    assert_eq!(w.best.best_difficulty, 11);
}

#[test]
fn clock_is_read_at_every_hundredth_nonce() {
    let mut w = Worker::new(4, 0);
    for (nonce, wanted) in [(0u64, true), (1, false), (99, false), (100, true), (4200, true)] {
        w.nonce = nonce;
        assert_eq!(w.wants_clock(&params(60, 10, 14)), wanted);
    }
    // not by a worker that is above the best asked for
    w.nonce = 100;
    w.best = held(7, 15);
    assert!(!w.wants_clock(&params(60, 10, 14)));
    w.best = held(7, 14);
    assert!(w.wants_clock(&params(60, 10, 14)));
}

#[test]
fn decision_follows_what_the_worker_holds() {
    let p = params(60, 10, 14);
    let raised = Verdict { step: Step::Continue, raise: true };
    let left = Verdict { step: Step::Exit, raise: true };

    let mut w = Worker::new(4, 0);
    w.nonce = 100;
    w.best = held(7, 15);
    assert_eq!(w.decide(&p, 1000), raised);
    assert_eq!(w.nonce, 100);

    w.best = held(7, 11);
    assert_eq!(w.decide(&p, 59), ON);
    assert_eq!(w.nonce, 101);
    assert_eq!(w.decide(&p, 1000), ON);
    assert_eq!(w.nonce, 102);

    w.nonce = 200;
    assert_eq!(w.decide(&p, 60), left);
    assert_eq!(w.nonce, 200);
    assert_eq!(w.best, held(7, 11));
}

#[test]
fn decision_between_checkpoints_does_not_depend_on_the_clock() {
    let p = params(60, 10, 14);
    for elapsed in [0u64, 59, 60, u64::MAX] {
        let mut w = Worker::new(4, 0);
        w.nonce = 101;
        w.best = held(7, 11);
        assert_eq!(w.decide(&p, elapsed), ON);
        assert_eq!(w.nonce, 102);
    }
}

#[test]
fn best_difficulty_never_falls() {
    let mut w = Worker::new(1, 0);
    let mut last = 0;
    for nonce in 0u64..500 {
        let difficulty = ((nonce * 7) % 13) as u32;
        let hashed = Some(hash_of_difficulty(difficulty, nonce));
        let _ = w.advance(&params(u64::MAX, 100, 100), &scanning(0, hashed));
        assert!(w.best.best_difficulty >= last);
        last = w.best.best_difficulty;
    }
    assert_eq!(last, 12);
    // nonce 9 is the first with 9 * 7 % 13 == 11, nonce 11 the first with 12
    assert_eq!(w.best.best_nonce, 11);
}

#[test]
fn search_stops_above_the_target_and_reports_the_maximum() {
    // difficulty of a nonce: nonce % 16, target 12
    let target = 12;
    let p = params(u64::MAX, 0, target);
    let mut w = Worker::new(4, 0);
    let mut raised = false;
    let mut passes = 0;
    while !raised {
        let nonce = w.nonce;
        let v = w.advance(&p, &scanning(0, Some(hash_of_difficulty((nonce % 16) as u32, nonce))));
        raised = v.raise;
        passes += 1;
        assert!(passes <= 16);
    }
    // nonce 13 is the first above the target
    assert_eq!(passes, 14);
    assert_eq!(w.nonce, 13);
    assert!(w.best.best_difficulty > target);
    assert_eq!(w.best.best_difficulty, 13);
    assert_eq!(w.best.best_nonce, 13);
    assert_eq!(w.best.best_hash, hash_of_difficulty(13, 13));
    // no nonce that the worker passed has more
    for nonce in 0..=w.nonce {
        assert!((nonce % 16) as u32 <= w.best.best_difficulty);
    }
    let (_, _, difficulty) = best_solution(&vec![Worker::new(4, 1).best, w.best], 0, target);
    assert_eq!(difficulty, 13);
}

/// Runs the workers of one search in turn on a stub oracle, with a clock
/// that stands at `elapsed`, for at most `rounds` rounds.
fn run_in_turn(
    p: &SearchParams,
    difficulty_of: fn(u64) -> u32,
    elapsed: u64,
    rounds: u64,
) -> (Vec<Worker>, Vec<bool>, bool) {
    let mut workers: Vec<Worker> = (0..p.threads).map(|i| Worker::new(p.threads, i)).collect();
    let mut left = vec![false; workers.len()];
    let mut stop = false;
    for _ in 0..rounds {
        for (k, w) in workers.iter_mut().enumerate() {
            if left[k] {
                continue;
            }
            let nonce = w.nonce;
            let seen = Observation {
                stopped: stop,
                elapsed,
                hashed: Some(hash_of_difficulty(difficulty_of(nonce), nonce)),
            };
            let v = w.advance(p, &seen);
            if v.raise {
                stop = true;
            }
            assert_ne!(v.step, Step::Sleep);
            if v.step == Step::Exit {
                left[k] = true;
            }
        }
        if left.iter().all(|&l| l) {
            break;
        }
    }
    (workers, left, stop)
}

fn nonce_mod_16(nonce: u64) -> u32 {
    (nonce % 16) as u32
}

fn nonce_mod_6(nonce: u64) -> u32 {
    (nonce % 6) as u32
}

#[test]
fn four_workers_end_at_the_first_hash_of_difficulty_15() {
    let p = SearchParams { challenge: [0u8; 32], cutoff_time: 0, threads: 4, min: 10, best: 14 };
    let (workers, left, stop) = run_in_turn(&p, nonce_mod_16, 0, 100);
    assert!(stop);
    assert!(left.iter().all(|&l| l));
    // the second worker starts on a nonce of difficulty 15
    assert_eq!(nonce_start(4, 1) % 16, 15);
    assert_eq!(workers[1].nonce, nonce_start(4, 1));
    // no worker got further than the first found it
    for w in &workers {
        assert!(w.nonce - w.start <= 15);
    }
    let outcomes: Vec<WorkerOutcome> = workers.iter().map(|w| w.best).collect();
    let (solution, fee, difficulty) = best_solution(&outcomes, p.min, p.best);
    assert_eq!(difficulty, 15);
    assert!(fee);
    assert_eq!(solution.n, nonce_start(4, 1).to_le_bytes());
    assert_eq!(solution.d, hash_of_difficulty(15, nonce_start(4, 1)).d);
}

#[test]
fn workers_below_the_minimum_scan_on_past_the_cutoff() {
    let p = SearchParams { challenge: [0u8; 32], cutoff_time: 0, threads: 4, min: 10, best: 14 };
    let rounds = 2_500;
    let (workers, left, stop) = run_in_turn(&p, nonce_mod_6, 1_000_000, rounds);
    // 25 checkpoints later no worker has left and none has set the signal
    assert!(!stop);
    assert!(left.iter().all(|&l| !l));
    for w in &workers {
        assert_eq!(w.nonce, w.start + rounds);
        assert_eq!(w.best.best_difficulty, 5);
    }
}

#[test]
fn step_scans_with_drillx() {
    let p = SearchParams { challenge: [11u8; 32], ..params(u64::MAX, 300, 300) };
    let mut memory = SolverMemory::new();
    let stop = AtomicBool::new(false);
    let timer = Instant::now();
    let mut w = Worker::new(2, 1);
    let start = w.start;
    let mut expected = WorkerOutcome::empty(start);
    for pass in 0u64..10 {
        let nonce = start + pass;
        if let Ok(hx) = drillx::hash(&p.challenge, &nonce.to_le_bytes()) {
            if hx.difficulty() > expected.best_difficulty {
                expected = WorkerOutcome {
                    best_nonce: nonce,
                    best_difficulty: hx.difficulty(),
                    best_hash: HashResult { d: hx.d, h: hx.h },
                };
            }
        }
        let v = w.step(&p, &mut memory, &stop, &timer);
        assert_eq!(v, ON);
        assert_eq!(w.nonce, nonce + 1);
        assert_eq!(w.best, expected);
    }
    assert!(!stop.load(Ordering::Relaxed));
}

#[test]
fn step_sets_the_stop_signal_above_the_best_asked_for() {
    let p = SearchParams { challenge: [12u8; 32], cutoff_time: 0, threads: 1, min: 0, best: 0 };
    let mut memory = SolverMemory::new();
    let stop = AtomicBool::new(false);
    let timer = Instant::now();
    let mut w = Worker::new(1, 0);
    w.nonce = 1;
    w.start = 1;
    w.best = WorkerOutcome::empty(1);
    let mut passes = 0;
    loop {
        let v = w.step(&p, &mut memory, &stop, &timer);
        passes += 1;
        if v.raise {
            assert_eq!(v.step, Step::Continue);
            break;
        }
        assert_eq!(v, ON);
        assert!(passes < 60);
    }
    assert!(stop.load(Ordering::Relaxed));
    assert!(w.best.best_difficulty > 0);
    assert_eq!(w.best.best_nonce, w.nonce);
    // with the signal set and the cutoff reached the worker leaves
    let held = w;
    assert_eq!(w.step(&p, &mut memory, &stop, &timer), Verdict { step: Step::Exit, raise: false });
    assert_eq!(w, held);
}

#[test]
fn step_sleeps_under_the_stop_signal_before_the_cutoff() {
    let p = SearchParams { challenge: [13u8; 32], cutoff_time: 3600, threads: 1, min: 0, best: 0 };
    let mut memory = SolverMemory::new();
    let stop = AtomicBool::new(true);
    let timer = Instant::now();
    let mut w = Worker::new(1, 0);
    let held = w;
    assert_eq!(w.step(&p, &mut memory, &stop, &timer), Verdict { step: Step::Sleep, raise: false });
    assert_eq!(w, held);
}

#[test]
fn step_leaves_at_a_checkpoint_past_the_cutoff() {
    let p = SearchParams { challenge: [14u8; 32], cutoff_time: 0, threads: 1, min: 0, best: 300 };
    let mut memory = SolverMemory::new();
    let stop = AtomicBool::new(false);
    let timer = Instant::now();
    let mut w = Worker::new(1, 0);
    w.nonce = 100;
    w.best = held(3, 1);
    let v = w.step(&p, &mut memory, &stop, &timer);
    assert_eq!(v, Verdict { step: Step::Exit, raise: true });
    assert_eq!(w.nonce, 100);
    assert!(stop.load(Ordering::Relaxed));
}
