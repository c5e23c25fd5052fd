//! Deadlines: the seconds left for a search, and whether the epoch is due
//! for a reset.

use crate::state::Config;
use crate::state::Proof;
use vstd::prelude::*;

verus! {

/// Seconds after a miner's last hash within which the next is due.
pub const HASH_WINDOW: i64 = 60;

/// Seconds in one epoch of the program.
pub const EPOCH_DURATION: i64 = 300;

/// Seconds before the end of an epoch from which a reset is due.
pub const RESET_BUFFER: i64 = 5;

/// `x`, held within the range of `i64`.
pub open spec fn clamp_i64(x: int) -> int {
    if x > i64::MAX {
        i64::MAX as int
    } else if x < i64::MIN {
        i64::MIN as int
    } else {
        x
    }
}

/// Seconds left for a search at time `now`: the window after the last hash,
/// less the buffer, less the time that has passed, each step held within
/// `i64`, and zero where nothing is left.
pub open spec fn cutoff(last_hash_at: i64, buffer_time: u64, now: i64) -> int {
    let deadline = clamp_i64(clamp_i64(last_hash_at + HASH_WINDOW) - buffer_time);
    let left = clamp_i64(deadline - now);
    if left > 0 {
        left
    } else {
        0
    }
}

/// Whether a reset is due at time `now`: the buffer before the end of the
/// epoch that began at `last_reset_at` has been reached, each step held
/// within `i64`.
pub open spec fn reset_due(last_reset_at: i64, now: i64) -> bool {
    clamp_i64(clamp_i64(last_reset_at + EPOCH_DURATION) - RESET_BUFFER) <= now
}

/// Reads `ore_api::consts::EPOCH_DURATION`. Trusted: it is five minutes,
/// 300 seconds.
#[verifier::external_body]
fn epoch_duration() -> (r: i64)
    ensures
        r == EPOCH_DURATION,
{
    ore_api::consts::EPOCH_DURATION
}

/// `a + b`, held at the largest `i64`, for `b` that is not negative.
fn add_saturating(a: i64, b: i64) -> (r: i64)
    requires
        b >= 0,
    ensures
        r == clamp_i64(a + b),
{
    match a.checked_add(b) {
        Some(sum) => sum,
        None => i64::MAX,
    }
}

/// `a - b`, held within `i64`.
fn sub_saturating(a: i64, b: i64) -> (r: i64)
    ensures
        r == clamp_i64(a - b),
{
    match a.checked_sub(b) {
        Some(difference) => difference,
        None => if b < 0 {
            i64::MAX
        } else {
            i64::MIN
        },
    }
}

/// The seconds left for the search that follows `proof`, at time `now`.
pub fn get_cutoff(proof: &Proof, buffer_time: u64, now: i64) -> (r: u64)
    ensures
        r == cutoff(proof.last_hash_at, buffer_time, now),
{
    let window_end = add_saturating(proof.last_hash_at, HASH_WINDOW);
    let deadline = match window_end.checked_sub_unsigned(buffer_time) {
        Some(deadline) => deadline,
        None => i64::MIN,
    };
    let left = sub_saturating(deadline, now);
    if left > 0 {
        left as u64
    } else {
        0
    }
}

/// Whether the epoch of `config` is due for a reset at time `now`.
pub fn should_reset(config: &Config, now: i64) -> (r: bool)
    ensures
        r == reset_due(config.last_reset_at, now),
{
    let epoch_end = add_saturating(config.last_reset_at, epoch_duration());
    sub_saturating(epoch_end, RESET_BUFFER) <= now
}

/// The later it is, the less is left for the search, and never less than
/// nothing.
pub proof fn lemma_cutoff_monotone(last_hash_at: i64, buffer_time: u64, now: i64, later: i64)
    requires
        now <= later,
    ensures
        0 <= cutoff(last_hash_at, buffer_time, later) <= cutoff(last_hash_at, buffer_time, now),
{
}

/// Once a reset is due it stays due.
pub proof fn lemma_reset_due_monotone(last_reset_at: i64, now: i64, later: i64)
    requires
        now <= later,
        reset_due(last_reset_at, now),
    ensures
        reset_due(last_reset_at, later),
{
}

} // verus!
