use vstd::prelude::*;

use crate::model::ContractView;
use crate::types::{Address, Bytes32, Event, FutureKey, FuturesError, PoiKey};
use crate::uint::{u256_bound, U256};

verus! {

/// One public operation with its caller, block time and arguments, and for
/// those that move tokens, whether the token made the transfer requested.
pub ghost enum Call {
    Stake { indexer: Address, amount: U256, transfer_made: bool },
    CreateFuture {
        indexer: Address,
        now: U256,
        buyer: Address,
        amount: U256,
        duration: U256,
        transfer_made: bool,
    },
    CancelFuture { buyer: Address, indexer: Address, transfer_made: bool },
    SettleFuture { indexer: Address, now: U256, buyer: Address, transfer_made: bool },
    SubmitPoi { subgraph_id: Bytes32, block_number: U256, poi: Bytes32 },
}

/// The state after `call`: the operation's new state where its checks pass
/// and its transfer is made, the state unchanged where it is rejected or the
/// transfer is not made.
pub open spec fn step(s: ContractView, call: Call) -> ContractView {
    match call {
        Call::Stake { indexer, amount, transfer_made } => {
            if s.stake_of(indexer) + amount.value() < u256_bound() && transfer_made {
                s.after_stake(indexer, amount)
            } else {
                s
            }
        },
        Call::CreateFuture { indexer, now, buyer, amount, duration, transfer_made } => {
            match s.create_future(indexer, buyer, amount, duration, now) {
                Ok((t, _)) => if transfer_made {
                    t
                } else {
                    s
                },
                Err(_) => s,
            }
        },
        Call::CancelFuture { buyer, indexer, transfer_made } => {
            match s.cancel_future(buyer, indexer) {
                Ok((t, _)) => if transfer_made {
                    t
                } else {
                    s
                },
                Err(_) => s,
            }
        },
        Call::SettleFuture { indexer, now, buyer, transfer_made } => {
            match s.settle_future(indexer, buyer, now) {
                Ok((t, _)) => if transfer_made {
                    t
                } else {
                    s
                },
                Err(_) => s,
            }
        },
        Call::SubmitPoi { subgraph_id, block_number, poi } => s.after_submit_poi(
            subgraph_id,
            block_number,
            poi,
        ),
    }
}

/// The state after `calls`, in order.
pub open spec fn run(s: ContractView, calls: Seq<Call>) -> ContractView
    decreases calls.len(),
{
    if calls.len() == 0 {
        s
    } else {
        step(run(s, calls.drop_last()), calls.last())
    }
}

/// No operation lowers an indexer's stake: along any sequence of calls every
/// ledger entry is non-decreasing.
pub proof fn lemma_stake_never_decreases(s: ContractView, calls: Seq<Call>, indexer: Address)
    ensures
        run(s, calls).stake_of(indexer) >= s.stake_of(indexer),
    decreases calls.len(),
{
    if calls.len() > 0 {
        lemma_stake_never_decreases(s, calls.drop_last(), indexer);
    }
}

/// Staking into an empty entry leaves exactly the amount staked; staking
/// again adds to it.
pub proof fn lemma_stake_round_trip(s: ContractView, indexer: Address, first: U256, second: U256)
    requires
        s.stake_of(indexer) == 0,
    ensures
        s.after_stake(indexer, first).stake_of(indexer) == first.value(),
        s.after_stake(indexer, first).after_stake(indexer, second).stake_of(indexer) == first.value()
            + second.value(),
{
}

/// A cancelled future is closed for good: a second cancel, or a settle, of
/// the same pair is rejected with `NoActiveFuture`.
pub proof fn lemma_cancel_closes_future(s: ContractView, buyer: Address, indexer: Address, now: U256)
    requires
        s.cancel_future(buyer, indexer) is Ok,
    ensures
        ({
            let t = s.cancel_future(buyer, indexer)->Ok_0.0;
            &&& t.cancel_future(buyer, indexer) == Err::<(ContractView, Event), FuturesError>(
                FuturesError::NoActiveFuture,
            )
            &&& t.settle_future(indexer, buyer, now) == Err::<(ContractView, Event), FuturesError>(
                FuturesError::NoActiveFuture,
            )
        }),
{
}

/// A settled future is closed for good: a second settle, or a cancel, of the
/// same pair is rejected with `NoActiveFuture`.
pub proof fn lemma_settle_closes_future(
    s: ContractView,
    indexer: Address,
    buyer: Address,
    now: U256,
    later: U256,
)
    requires
        s.settle_future(indexer, buyer, now) is Ok,
    ensures
        ({
            let t = s.settle_future(indexer, buyer, now)->Ok_0.0;
            &&& t.settle_future(indexer, buyer, later) == Err::<(ContractView, Event), FuturesError>(
                FuturesError::NoActiveFuture,
            )
            &&& t.cancel_future(buyer, indexer) == Err::<(ContractView, Event), FuturesError>(
                FuturesError::NoActiveFuture,
            )
        }),
{
}

/// Creating a future while one is active for the same pair is rejected with
/// `DuplicateFuture`, whatever the amount, duration and time.
pub proof fn lemma_active_future_blocks_create(
    s: ContractView,
    indexer: Address,
    buyer: Address,
    amount: U256,
    duration: U256,
    now: U256,
)
    requires
        s.is_active(indexer, buyer),
    ensures
        s.create_future(indexer, buyer, amount, duration, now) == Err::<(ContractView, Event), FuturesError>(
            FuturesError::DuplicateFuture,
        ),
{
}

/// Settlement of an active future is rejected with `NotMatured` exactly when
/// `now` is before its end time.
pub proof fn lemma_maturity_gate(s: ContractView, indexer: Address, buyer: Address, now: U256)
    requires
        s.is_active(indexer, buyer),
    ensures
        (s.settle_future(indexer, buyer, now) == Err::<(ContractView, Event), FuturesError>(
            FuturesError::NotMatured,
        )) <==> now.value() < s.futures[FutureKey { indexer, buyer }].end_time(),
{
}

/// Of two proofs of indexing for one (subgraph, block), only the later one stays.
pub proof fn lemma_poi_overwrite(
    s: ContractView,
    subgraph_id: Bytes32,
    block_number: U256,
    first: Bytes32,
    second: Bytes32,
)
    ensures
        ({
            let t = s.after_submit_poi(subgraph_id, block_number, first).after_submit_poi(
                subgraph_id,
                block_number,
                second,
            );
            t.pois[PoiKey { subgraph_id, block_number }] == second
        }),
{
}

} // verus!
