//! The choice of the bus that a submission is routed through.
//!
//! The buses are a fixed set, and a bus is known by its place in it. The
//! ledger is asked for the account of each, and the bus with the largest
//! rewards left is chosen.

use crate::chance::random_below;
use ore_utils::AccountDeserialize;
use vstd::prelude::*;

verus! {

/// Number of bus accounts.
pub const BUS_COUNT: usize = 8;

/// Length of the data of a bus account: eight bytes that begin with the
/// discriminator, then four fields of eight bytes.
pub const BUS_ACCOUNT_LEN: usize = 40;

/// First byte of the data of a bus account.
pub const BUS_DISCRIMINATOR: u8 = 100;

/// The largest rewards among `rewards`, taken in order, and the place of
/// the first bus that has them. Only rewards above zero at one of the
/// first `BUS_COUNT` places count; where there are none the result is
/// zero rewards at place zero.
pub open spec fn top(rewards: Seq<Option<u64>>) -> (u64, usize)
    decreases rewards.len(),
{
    if rewards.len() == 0 {
        (0, 0)
    } else {
        let before = top(rewards.drop_last());
        let place = rewards.len() - 1;
        match rewards.last() {
            Some(amount) => if place < BUS_COUNT && amount > before.0 {
                (amount, place as usize)
            } else {
                before
            },
            None => before,
        }
    }
}

/// The place of the bus chosen among `rewards`.
pub open spec fn top_bus(rewards: Seq<Option<u64>>) -> usize {
    top(rewards).1
}

/// Whether `rewards` can be what the accounts parse to: one entry for each
/// account, none for an absent account, and rewards only for data of the
/// length and first byte of a bus account.
pub open spec fn parsed_from(accounts: Seq<Option<Vec<u8>>>, rewards: Seq<Option<u64>>) -> bool {
    &&& rewards.len() == accounts.len()
    &&& forall|i: int|
        0 <= i < accounts.len() && (#[trigger] rewards[i]) is Some ==> {
            &&& accounts[i] is Some
            &&& accounts[i].unwrap()@.len() == BUS_ACCOUNT_LEN
            &&& accounts[i].unwrap()@[0] == BUS_DISCRIMINATOR
        }
}

/// Whether the bus at place `i` has strictly more rewards than every other
/// of `rewards`.
pub open spec fn is_strict_maximum(rewards: Seq<Option<u64>>, i: int) -> bool {
    &&& 0 <= i < rewards.len()
    &&& forall|j: int|
        0 <= j < rewards.len() && j != i ==> (#[trigger] rewards[j]).unwrap()
            < rewards[i].unwrap()
}

/// Whether the bus at place `i` is the first of `rewards` with the largest
/// rewards among the first `BUS_COUNT`.
pub open spec fn is_first_top(rewards: Seq<Option<u64>>, i: int) -> bool {
    &&& 0 <= i < rewards.len()
    &&& i < BUS_COUNT
    &&& rewards[i] is Some
    &&& forall|j: int|
        0 <= j < rewards.len() && j < BUS_COUNT && (#[trigger] rewards[j]) is Some
            ==> rewards[j].unwrap() <= rewards[i].unwrap()
    &&& forall|j: int|
        0 <= j < i && (#[trigger] rewards[j]) is Some ==> rewards[j].unwrap()
            < rewards[i].unwrap()
}

/// Reads `ore_api::consts::BUS_COUNT`. Trusted: it is eight.
#[verifier::external_body]
fn bus_count() -> (n: usize)
    ensures
        n == BUS_COUNT,
{
    ore_api::consts::BUS_COUNT
}

/// Calls `Bus::try_from_bytes` of ore_api on the data of an account and
/// hands out the rewards of the bus. Trusted: it gives a bus only for 40
/// bytes that begin with 100. Whether it gives one for such data is left
/// open: that depends on where the bytes lie in memory. Data of fewer than
/// eight bytes, on which it panics, is ruled out.
#[verifier::external_body]
fn rewards_from_bytes(data: &[u8]) -> (r: Option<u64>)
    requires
        data@.len() >= 8,
    ensures
        r is Some ==> data@.len() == BUS_ACCOUNT_LEN && data@[0] == BUS_DISCRIMINATOR,
{
    match ore_api::state::Bus::try_from_bytes(data) {
        Ok(bus) => Some(bus.rewards),
        Err(_) => None,
    }
}

/// The rewards of the bus that the data of an account holds, if it holds
/// one.
pub fn bus_rewards(data: &Vec<u8>) -> (r: Option<u64>)
    ensures
        r is Some ==> data@.len() == BUS_ACCOUNT_LEN && data@[0] == BUS_DISCRIMINATOR,
        data@.len() < 8 ==> r is None,
{
    if data.len() < 8 {
        None
    } else {
        rewards_from_bytes(data.as_slice())
    }
}

/// The place of the bus with the largest rewards.
pub fn select_bus(rewards: &Vec<Option<u64>>) -> (r: usize)
    ensures
        r == top_bus(rewards@),
        r < BUS_COUNT,
{
    let mut top_bus_balance: u64 = 0;
    let mut top_bus: usize = 0;
    let mut i: usize = 0;
    while i < rewards.len()
        invariant
            i <= rewards.len(),
            (top_bus_balance, top_bus) == top(rewards@.take(i as int)),
            top_bus < BUS_COUNT,
        decreases rewards.len() - i,
    {
        proof {
            assert(rewards@.take(i + 1).drop_last() =~= rewards@.take(i as int));
        }
        if let Some(amount) = rewards[i] {
            if i < BUS_COUNT && amount > top_bus_balance {
                top_bus_balance = amount;
                top_bus = i;
            }
        }
        i = i + 1;
    }
    proof {
        assert(rewards@.take(i as int) =~= rewards@);
    }
    top_bus
}

/// Chooses the bus for a submission from the accounts that the ledger
/// gave, one for each bus in order: the bus with the largest rewards among
/// those that parse, and any bus where the query failed as a whole.
pub fn find_bus(accounts: &Option<Vec<Option<Vec<u8>>>>) -> (r: usize)
    ensures
        r < BUS_COUNT,
        accounts matches Some(accounts) ==> exists|rewards: Seq<Option<u64>>|
            parsed_from(accounts@, rewards) && r == #[trigger] top_bus(rewards),
{
    match accounts {
        Some(accounts) => {
            let mut rewards: Vec<Option<u64>> = Vec::new();
            let mut i: usize = 0;
            while i < accounts.len()
                invariant
                    i <= accounts.len(),
                    parsed_from(accounts@.take(i as int), rewards@),
                decreases accounts.len() - i,
            {
                let amount = match &accounts[i] {
                    Some(data) => bus_rewards(data),
                    None => None,
                };
                rewards.push(amount);
                i = i + 1;
            }
            proof {
                assert(accounts@.take(i as int) =~= accounts@);
            }
            select_bus(&rewards)
        },
        None => random_below(bus_count()),
    }
}

/// The bus chosen is the first with the largest rewards among the first
/// `BUS_COUNT`, if these are above zero, and the bus at place zero if not.
pub proof fn lemma_top_is_first_maximum(rewards: Seq<Option<u64>>)
    ensures
        top_bus(rewards) < BUS_COUNT,
        forall|i: int|
            0 <= i < rewards.len() && i < BUS_COUNT && (#[trigger] rewards[i]) is Some
                ==> rewards[i].unwrap() <= top(rewards).0,
        top(rewards).0 == 0 ==> top_bus(rewards) == 0,
        top(rewards).0 > 0 ==> is_first_top(rewards, top_bus(rewards) as int)
            && rewards[top_bus(rewards) as int] == Some(top(rewards).0),
    decreases rewards.len(),
{
    if rewards.len() > 0 {
        let init = rewards.drop_last();
        let last = rewards.len() - 1;
        lemma_top_is_first_maximum(init);
        assert forall|i: int|
            0 <= i < rewards.len() && i < BUS_COUNT && (
            #[trigger] rewards[i]) is Some implies rewards[i].unwrap() <= top(rewards).0 by {
            if i < last {
                assert(rewards[i] == init[i]);
            }
        }
        if top(rewards) != top(init) {
            assert forall|j: int| 0 <= j < last && (#[trigger] rewards[j]) is Some implies rewards[j]
                .unwrap() < rewards[last].unwrap() by {
                assert(rewards[j] == init[j]);
            }
            assert(is_first_top(rewards, last));
        } else if top(init).0 > 0 {
            let i = top_bus(init) as int;
            assert(rewards[i] == init[i]);
            assert forall|j: int| 0 <= j < i && (#[trigger] rewards[j]) is Some implies rewards[j]
                .unwrap() < rewards[i].unwrap() by {
                assert(rewards[j] == init[j]);
            }
            assert(is_first_top(rewards, i));
        }
    }
}

/// With the account of every bus answered and no two buses with the same
/// rewards, the bus chosen has strictly more rewards than every other.
pub proof fn lemma_top_bus_is_strict_maximum(rewards: Seq<Option<u64>>)
    requires
        1 <= rewards.len() <= BUS_COUNT,
        forall|i: int| 0 <= i < rewards.len() ==> (#[trigger] rewards[i]) is Some,
        forall|i: int, j: int|
            0 <= i < j < rewards.len() ==> (#[trigger] rewards[i]).unwrap() != (
            #[trigger] rewards[j]).unwrap(),
    ensures
        is_strict_maximum(rewards, top_bus(rewards) as int),
{
    lemma_top_is_first_maximum(rewards);
    let i = top_bus(rewards) as int;
    if top(rewards).0 > 0 {
        assert forall|j: int| 0 <= j < rewards.len() && j != i implies (
        #[trigger] rewards[j]).unwrap() < rewards[i].unwrap() by {
            assert(rewards[j] is Some);
            if j < i {
                assert(rewards[j].unwrap() != rewards[i].unwrap());
            } else {
                assert(rewards[i].unwrap() != rewards[j].unwrap());
            }
        }
    } else {
        assert(rewards[0] is Some);
        if rewards.len() >= 2 {
            assert(rewards[1] is Some);
            assert(rewards[0].unwrap() != rewards[1].unwrap());
        }
    }
}

} // verus!
