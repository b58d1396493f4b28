use vstd::prelude::*;

use crate::types::{Address, Bytes32, Event, Future, FutureKey, FuturesError, PoiKey};
use crate::uint::U256;

verus! {

/// The abstract state of the contract: its configuration, the stake ledger,
/// the future registry and the attestation log.
pub ghost struct ContractView {
    pub owner: Address,
    pub contract_address: Address,
    pub grt_token: Address,
    pub graph_token: Address,
    pub staking_contract: Address,
    pub stakes: Map<Address, nat>,
    pub futures: Map<FutureKey, Future>,
    pub pois: Map<PoiKey, Bytes32>,
}

impl ContractView {
    /// Stake ledger entry; an identity that never staked holds 0.
    pub open spec fn stake_of(self, indexer: Address) -> nat {
        if self.stakes.contains_key(indexer) {
            self.stakes[indexer]
        } else {
            0
        }
    }

    pub open spec fn is_active(self, indexer: Address, buyer: Address) -> bool {
        let k = FutureKey { indexer, buyer };
        self.futures.contains_key(k) && self.futures[k].is_active
    }

    /// The performance predicate consulted at settlement: the indexer holds stake.
    pub open spec fn performance_ok(self, indexer: Address) -> bool {
        self.stake_of(indexer) > 0
    }

    pub open spec fn with_stakes(self, stakes: Map<Address, nat>) -> ContractView {
        ContractView {
            owner: self.owner,
            contract_address: self.contract_address,
            grt_token: self.grt_token,
            graph_token: self.graph_token,
            staking_contract: self.staking_contract,
            stakes,
            futures: self.futures,
            pois: self.pois,
        }
    }

    pub open spec fn with_futures(self, futures: Map<FutureKey, Future>) -> ContractView {
        ContractView {
            owner: self.owner,
            contract_address: self.contract_address,
            grt_token: self.grt_token,
            graph_token: self.graph_token,
            staking_contract: self.staking_contract,
            stakes: self.stakes,
            futures,
            pois: self.pois,
        }
    }

    pub open spec fn with_pois(self, pois: Map<PoiKey, Bytes32>) -> ContractView {
        ContractView {
            owner: self.owner,
            contract_address: self.contract_address,
            grt_token: self.grt_token,
            graph_token: self.graph_token,
            staking_contract: self.staking_contract,
            stakes: self.stakes,
            futures: self.futures,
            pois,
        }
    }

    /// The state after `indexer` has staked `amount` more.
    pub open spec fn after_stake(self, indexer: Address, amount: U256) -> ContractView {
        self.with_stakes(self.stakes.insert(indexer, self.stake_of(indexer) + amount.value()))
    }

    /// Outcome of `indexer` creating a future for `buyer` at time `now`, the
    /// escrow transfer having succeeded.
    pub open spec fn create_future(
        self,
        indexer: Address,
        buyer: Address,
        amount: U256,
        duration: U256,
        now: U256,
    ) -> Result<(ContractView, Event), FuturesError> {
        if self.is_active(indexer, buyer) {
            Err(FuturesError::DuplicateFuture)
        } else if self.stake_of(indexer) < amount.value() {
            Err(FuturesError::InsufficientStake)
        } else {
            let f = Future { indexer, buyer, amount, start_time: now, duration, is_active: true };
            Ok(
                (
                    self.with_futures(self.futures.insert(FutureKey { indexer, buyer }, f)),
                    Event::FutureCreated { indexer, buyer, amount, duration },
                ),
            )
        }
    }

    /// Outcome of `buyer` cancelling its future with `indexer`, the refund
    /// having succeeded.
    pub open spec fn cancel_future(self, buyer: Address, indexer: Address) -> Result<
        (ContractView, Event),
        FuturesError,
    > {
        let k = FutureKey { indexer, buyer };
        if !self.is_active(indexer, buyer) {
            Err(FuturesError::NoActiveFuture)
        } else {
            let f = self.futures[k];
            Ok(
                (
                    self.with_futures(self.futures.insert(k, Future { is_active: false, ..f })),
                    Event::FutureCancelled { indexer, buyer, amount: f.amount },
                ),
            )
        }
    }

    /// Outcome of `indexer` settling its future with `buyer` at time `now`, the
    /// payout having succeeded.
    pub open spec fn settle_future(self, indexer: Address, buyer: Address, now: U256) -> Result<
        (ContractView, Event),
        FuturesError,
    > {
        let k = FutureKey { indexer, buyer };
        if !self.is_active(indexer, buyer) {
            Err(FuturesError::NoActiveFuture)
        } else if now.value() < self.futures[k].end_time() {
            Err(FuturesError::NotMatured)
        } else if !self.performance_ok(indexer) {
            Err(FuturesError::PerformanceCheckFailed)
        } else {
            let f = self.futures[k];
            Ok(
                (
                    self.with_futures(self.futures.insert(k, Future { is_active: false, ..f })),
                    Event::FutureSettled { indexer, buyer, amount: f.amount },
                ),
            )
        }
    }

    /// The state after a proof of indexing is recorded; it replaces any earlier one.
    pub open spec fn after_submit_poi(self, subgraph_id: Bytes32, block_number: U256, poi: Bytes32) -> ContractView {
        self.with_pois(self.pois.insert(PoiKey { subgraph_id, block_number }, poi))
    }
}

} // verus!
