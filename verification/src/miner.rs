//! The mining cycle: from the ledger's state through a search to one
//! submission, and again.
//!
//! The miner decides and the caller acts. Each call of [`Miner::mine`]
//! takes what the caller's last action brought and says what to do next.

use crate::bus::find_bus;
use crate::bus::parsed_from;
use crate::bus::top_bus;
use crate::bus::BUS_COUNT;
use crate::chance::random_below;
use crate::deadline::cutoff;
use crate::deadline::get_cutoff;
use crate::deadline::reset_due;
use crate::deadline::should_reset;
use crate::search::Solution;
use crate::state::Config;
use crate::state::Proof;
use crate::worker::SearchParams;
use vstd::prelude::*;

verus! {

/// Compute budget of a submission without a reset.
pub const BASE_COMPUTE_BUDGET: u32 = 500_000;

/// What a reset adds to the compute budget.
pub const RESET_COMPUTE_BUDGET: u32 = 100_000;

/// A reset that is due is sent with one submission in this many.
pub const RESET_ODDS: usize = 100;

/// The settings of a mining run.
#[derive(Clone, Copy, Debug, PartialEq, Eq)]
pub struct MineArgs {
    /// Number of workers of each search.
    pub threads: u64,
    /// Seconds kept free before the deadline of each search.
    pub buffer_time: u64,
    /// The difficulty that a search must exceed before it ends at its
    /// cutoff.
    pub min_difficulty: u32,
    /// The difficulty above which a search ends early.
    pub best_difficulty: u32,
}

/// What a search found.
#[derive(Clone, Copy, Debug, PartialEq, Eq)]
pub struct Found {
    pub solution: Solution,
    pub should_increase_fee: bool,
    pub best_difficulty: u32,
}

/// The counts of a run so far.
#[derive(Clone, Copy, Debug, PartialEq, Eq)]
pub struct Report {
    pub num_hash_created: u64,
    pub num_hash_best_difficulty_created: u64,
    pub best_difficulty_created: u32,
}

/// What is sent to the ledger at the end of a cycle.
#[derive(Clone, Copy, Debug, PartialEq, Eq)]
pub struct Submission {
    /// Whether a reset goes with the solution.
    pub reset: bool,
    pub compute_budget: u32,
    /// Which of the buses the solution is routed through.
    pub bus: usize,
    pub solution: Solution,
    pub should_increase_fee: bool,
}

/// Where in its cycle a miner stands, with what it carries to the next
/// step.
#[derive(Clone, Copy, Debug, PartialEq, Eq)]
pub enum Phase {
    /// Between two cycles.
    Ready,
    /// Waiting for the ledger's state.
    Fetching,
    /// Waiting for the search.
    Searching { config: Config },
    /// Waiting for the time, to decide on a reset.
    Timing { config: Config, found: Found },
    /// Waiting for the bus accounts.
    Routing { found: Found, reset: bool },
}

/// What the caller's last action brought.
#[derive(Debug, PartialEq, Eq)]
pub enum Event {
    /// A cycle begins.
    Begin,
    /// The ledger's state, and the time after it was fetched.
    Fetched { config: Config, proof: Proof, now: i64 },
    /// The result of the search.
    Found(Found),
    /// The time.
    Clock(i64),
    /// The data of the bus accounts, each absent where the ledger has
    /// none, or `None` where the query failed.
    Buses(Option<Vec<Option<Vec<u8>>>>),
}

/// What the caller does next.
#[derive(Clone, Copy, Debug, PartialEq, Eq)]
pub enum Action {
    /// Show the report if there is one, then fetch the configuration, the
    /// proof once it is newer than `last_hash_at`, and the time.
    Fetch { last_hash_at: i64, report: Option<Report> },
    /// Run a search.
    Search(SearchParams),
    /// Read the time.
    ReadClock,
    /// Query the bus accounts.
    QueryBuses,
    /// Send the submission, whatever comes of it, and begin the next cycle.
    Submit(Submission),
}

/// What a step of the cycle takes from neither the miner nor the event.
#[derive(Clone, Copy, Debug, PartialEq, Eq)]
pub struct Chance {
    /// The draw that decides whether a reset that is due is sent.
    pub roll: usize,
    /// The bus chosen for the submission.
    pub bus: usize,
}

/// A mining run between two steps of its cycle.
#[derive(Clone, Copy, Debug, PartialEq, Eq)]
pub struct Miner {
    pub phase: Phase,
    /// When the proof last fetched had its last hash.
    pub last_hash_at: i64,
    /// Number of searches made.
    pub num_hash_created: u64,
    /// Number of searches that exceeded the best difficulty asked for.
    pub num_hash_best_difficulty_created: u64,
    /// The highest difficulty that a search reached.
    pub best_difficulty_created: u32,
}

/// The warning that is due where more workers are asked for than the
/// machine has cores: the number of its cores.
pub open spec fn spec_core_warning(cores: u64, num_cores: u64) -> Option<u64> {
    if cores > num_cores {
        Some(num_cores)
    } else {
        None
    }
}

/// The warning that is due for `cores` workers on `num_cores` cores.
pub fn core_warning(cores: u64, num_cores: u64) -> (r: Option<u64>)
    ensures
        r == spec_core_warning(cores, num_cores),
{
    if cores > num_cores {
        Some(num_cores)
    } else {
        None
    }
}

/// Calls `num_cpus::get`. Trusted: the machine has at least one core; how
/// many is left open.
#[verifier::external_body]
fn available_cores() -> (n: usize)
    ensures
        n >= 1,
{
    num_cpus::get()
}

impl Miner {
    /// A run before its first cycle.
    pub open spec fn spec_new() -> Miner {
        Miner {
            phase: Phase::Ready,
            last_hash_at: 0,
            num_hash_created: 0,
            num_hash_best_difficulty_created: 0,
            best_difficulty_created: 0,
        }
    }

    /// The counts to show at the start of a cycle: none before the first
    /// search.
    pub open spec fn report(self) -> Option<Report> {
        if self.num_hash_created > 0 {
            Some(
                Report {
                    num_hash_created: self.num_hash_created,
                    num_hash_best_difficulty_created: self.num_hash_best_difficulty_created,
                    best_difficulty_created: self.best_difficulty_created,
                },
            )
        } else {
            None
        }
    }

    /// The search that follows the ledger's state.
    pub open spec fn search_params(args: MineArgs, proof: Proof, now: i64) -> SearchParams {
        SearchParams {
            challenge: proof.challenge,
            cutoff_time: cutoff(proof.last_hash_at, args.buffer_time, now) as u64,
            threads: args.threads,
            min: args.min_difficulty,
            best: args.best_difficulty,
        }
    }

    /// The counts after a search that reached `best_difficulty`.
    pub open spec fn counted(self, args: MineArgs, best_difficulty: u32) -> Miner {
        Miner {
            num_hash_created: (self.num_hash_created + 1) as u64,
            num_hash_best_difficulty_created: if best_difficulty > args.best_difficulty {
                (self.num_hash_best_difficulty_created + 1) as u64
            } else {
                self.num_hash_best_difficulty_created
            },
            best_difficulty_created: if best_difficulty > self.best_difficulty_created {
                best_difficulty
            } else {
                self.best_difficulty_created
            },
            ..self
        }
    }

    /// The submission of a cycle.
    pub open spec fn submission(found: Found, reset: bool, bus: usize) -> Submission {
        Submission {
            reset,
            compute_budget: if reset {
                (BASE_COMPUTE_BUDGET + RESET_COMPUTE_BUDGET) as u32
            } else {
                BASE_COMPUTE_BUDGET
            },
            bus,
            solution: found.solution,
            should_increase_fee: found.should_increase_fee,
        }
    }

    /// Whether `event` is the one that the miner waits for.
    pub open spec fn awaits(self, event: Event) -> bool {
        match (self.phase, event) {
            (Phase::Ready, Event::Begin) => true,
            (Phase::Fetching, Event::Fetched { .. }) => true,
            (Phase::Searching { .. }, Event::Found(_)) => true,
            (Phase::Timing { .. }, Event::Clock(_)) => true,
            (Phase::Routing { .. }, Event::Buses(_)) => true,
            _ => false,
        }
    }

    /// Whether the counts leave room for one more search.
    pub open spec fn can_count(self) -> bool {
        self.phase is Searching ==> self.num_hash_created < u64::MAX
            && self.num_hash_best_difficulty_created < u64::MAX
    }

    /// One step of the cycle, as a function of the event and of what chance
    /// brings.
    ///
    /// A cycle runs from `Ready` through `Fetching`, `Searching`, `Timing`
    /// and `Routing` back to `Ready`. Each phase takes one kind of event:
    /// on any other the miner stays as it is and gives no action.
    pub open spec fn next(self, args: MineArgs, event: Event, chance: Chance) -> (
        Miner,
        Option<Action>,
    ) {
        match (self.phase, event) {
            (Phase::Ready, Event::Begin) => (
                Miner { phase: Phase::Fetching, ..self },
                Some(Action::Fetch { last_hash_at: self.last_hash_at, report: self.report() }),
            ),
            (Phase::Fetching, Event::Fetched { config, proof, now }) => (
                Miner {
                    phase: Phase::Searching { config },
                    last_hash_at: proof.last_hash_at,
                    ..self
                },
                Some(Action::Search(Miner::search_params(args, proof, now))),
            ),
            (Phase::Searching { config }, Event::Found(found)) => (
                Miner {
                    phase: Phase::Timing { config, found },
                    ..self.counted(args, found.best_difficulty)
                },
                Some(Action::ReadClock),
            ),
            (Phase::Timing { config, found }, Event::Clock(now)) => (
                Miner {
                    phase: Phase::Routing {
                        found,
                        reset: reset_due(config.last_reset_at, now) && chance.roll == 0,
                    },
                    ..self
                },
                Some(Action::QueryBuses),
            ),
            (Phase::Routing { found, reset }, Event::Buses(_)) => (
                Miner { phase: Phase::Ready, ..self },
                Some(Action::Submit(Miner::submission(found, reset, chance.bus))),
            ),
            _ => (self, None),
        }
    }

    /// What chance can bring with an event: a roll below the odds, and a
    /// bus that exists; where the miner waits for the bus accounts and they
    /// came, the bus with the largest rewards among those that parse.
    pub open spec fn may_bring(self, event: Event, chance: Chance) -> bool {
        &&& chance.roll < RESET_ODDS
        &&& chance.bus < BUS_COUNT
        &&& self.phase is Routing ==> (event matches Event::Buses(Some(accounts))
            ==> exists|rewards: Seq<Option<u64>>|
            parsed_from(accounts@, rewards) && chance.bus == #[trigger] top_bus(rewards))
    }

    /// A run before its first cycle.
    pub fn new() -> (miner: Miner)
        ensures
            miner == Miner::spec_new(),
    {
        Miner {
            phase: Phase::Ready,
            last_hash_at: 0,
            num_hash_created: 0,
            num_hash_best_difficulty_created: 0,
            best_difficulty_created: 0,
        }
    }

    /// Takes one step of the cycle with what chance brought.
    pub fn advance(&mut self, args: &MineArgs, event: &Event, chance: &Chance) -> (action: Option<
        Action,
    >)
        requires
            old(self).can_count(),
        ensures
            (*final(self), action) == old(self).next(*args, *event, *chance),
            action is Some <==> old(self).awaits(*event),
    {
        match (self.phase, event) {
            (Phase::Ready, Event::Begin) => {
                let report = if self.num_hash_created > 0 {
                    Some(
                        Report {
                            num_hash_created: self.num_hash_created,
                            num_hash_best_difficulty_created: self.num_hash_best_difficulty_created,
                            best_difficulty_created: self.best_difficulty_created,
                        },
                    )
                } else {
                    None
                };
                self.phase = Phase::Fetching;
                Some(Action::Fetch { last_hash_at: self.last_hash_at, report })
            },
            (Phase::Fetching, Event::Fetched { config, proof, now }) => {
                let cutoff_time = get_cutoff(proof, args.buffer_time, *now);
                self.phase = Phase::Searching { config: *config };
                self.last_hash_at = proof.last_hash_at;
                Some(
                    Action::Search(
                        SearchParams {
                            challenge: proof.challenge,
                            cutoff_time,
                            threads: args.threads,
                            min: args.min_difficulty,
                            best: args.best_difficulty,
                        },
                    ),
                )
            },
            (Phase::Searching { config }, Event::Found(found)) => {
                self.num_hash_created = self.num_hash_created + 1;
                if found.best_difficulty > args.best_difficulty {
                    self.num_hash_best_difficulty_created = self.num_hash_best_difficulty_created
                        + 1;
                }
                if found.best_difficulty > self.best_difficulty_created {
                    self.best_difficulty_created = found.best_difficulty;
                }
                self.phase = Phase::Timing { config, found: *found };
                Some(Action::ReadClock)
            },
            (Phase::Timing { config, found }, Event::Clock(now)) => {
                let reset = should_reset(&config, *now) && chance.roll == 0;
                self.phase = Phase::Routing { found, reset };
                Some(Action::QueryBuses)
            },
            (Phase::Routing { found, reset }, Event::Buses(_)) => {
                let mut compute_budget = BASE_COMPUTE_BUDGET;
                if reset {
                    compute_budget = compute_budget + RESET_COMPUTE_BUDGET;
                }
                self.phase = Phase::Ready;
                Some(
                    Action::Submit(
                        Submission {
                            reset,
                            compute_budget,
                            bus: chance.bus,
                            solution: found.solution,
                            should_increase_fee: found.should_increase_fee,
                        },
                    ),
                )
            },
            _ => None,
        }
    }

    /// Takes one step of the cycle: draws what the step leaves to chance,
    /// the roll for a reset that is due and the bus for the submission,
    /// and decides on it.
    ///
    /// The step is the one that [`Miner::next`] describes, for something
    /// that chance may bring.
    pub fn mine(&mut self, args: &MineArgs, event: &Event) -> (action: Option<Action>)
        requires
            old(self).can_count(),
        ensures
            exists|chance: Chance|
                old(self).may_bring(*event, chance) && (*final(self), action) == #[trigger] old(
                    self,
                ).next(*args, *event, chance),
            action is Some <==> old(self).awaits(*event),
            !old(self).awaits(*event) ==> *final(self) == *old(self),
    {
        let mut chance = Chance { roll: 0, bus: 0 };
        match (self.phase, event) {
            (Phase::Timing { config, .. }, Event::Clock(now)) => {
                if should_reset(&config, *now) {
                    chance.roll = random_below(RESET_ODDS);
                }
            },
            (Phase::Routing { .. }, Event::Buses(accounts)) => {
                chance.bus = find_bus(accounts);
            },
            _ => {},
        }
        let ghost before = *self;
        let action = self.advance(args, event, &chance);
        proof {
            assert(before.may_bring(*event, chance) && (*self, action) == before.next(
                *args,
                *event,
                chance,
            ));
        }
        action
    }

    /// Says whether `cores` workers are more than the machine has cores,
    /// and if so how many it has.
    pub fn check_num_cores(&self, cores: u64) -> (r: Option<u64>)
        ensures
            exists|num_cores: u64|
                num_cores >= 1 && r == #[trigger] spec_core_warning(cores, num_cores),
            r matches Some(num_cores) ==> 1 <= num_cores < cores,
            cores <= 1 ==> r is None,
    {
        core_warning(cores, available_cores() as u64)
    }
}

} // verus!
