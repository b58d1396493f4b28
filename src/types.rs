use vstd::prelude::*;

use crate::uint::U256;

verus! {

/// A 20-byte account identity, held as its top four bytes and its low sixteen.
#[derive(Clone, Copy, Debug, PartialEq, Eq, Structural)]
pub struct Address {
    pub hi: u32,
    pub lo: u128,
}

impl Address {
    pub open spec fn zero_spec() -> Address {
        Address { hi: 0, lo: 0 }
    }

    /// The all-zero identity; as a transfer source it stands for the contract's own custody.
    pub fn zero() -> (r: Address)
        ensures
            r == Address::zero_spec(),
    {
        Address { hi: 0, lo: 0 }
    }
}

/// A 32-byte word (a subgraph id or a proof of indexing).
#[derive(Clone, Copy, Debug, PartialEq, Eq, Structural)]
pub struct Bytes32 {
    pub hi: u128,
    pub lo: u128,
}

/// Key of the future registry: the ordered pair (indexer, buyer).
#[derive(Clone, Copy, Debug, PartialEq, Eq, Structural)]
pub struct FutureKey {
    pub indexer: Address,
    pub buyer: Address,
}

/// Key of the attestation log: (subgraph id, block number).
#[derive(Clone, Copy, Debug, PartialEq, Eq, Structural)]
pub struct PoiKey {
    pub subgraph_id: Bytes32,
    pub block_number: U256,
}

/// One escrow commitment between an indexer and a buyer.
#[derive(Clone, Copy, Debug, PartialEq, Eq, Structural)]
pub struct Future {
    pub indexer: Address,
    pub buyer: Address,
    pub amount: U256,
    pub start_time: U256,
    pub duration: U256,
    pub is_active: bool,
}

impl Future {
    /// `start_time + duration`, unbounded.
    pub open spec fn end_time(self) -> nat {
        self.start_time.value() + self.duration.value()
    }
}

/// What an operation reports on success.
#[derive(Clone, Copy, Debug, PartialEq, Eq, Structural)]
pub enum Event {
    FutureCreated { indexer: Address, buyer: Address, amount: U256, duration: U256 },
    FutureCancelled { indexer: Address, buyer: Address, amount: U256 },
    FutureSettled { indexer: Address, buyer: Address, amount: U256 },
    IndexerStaked { indexer: Address, amount: U256 },
    PoiSubmitted { subgraph_id: Bytes32, block_number: U256, poi: Bytes32 },
}

/// Why an operation was rejected. A rejected operation changes nothing.
#[derive(Clone, Copy, Debug, PartialEq, Eq, Structural)]
pub enum FuturesError {
    /// An active future already exists for the (indexer, buyer) pair.
    DuplicateFuture,
    /// The indexer's stake is below the requested amount.
    InsufficientStake,
    /// No active future exists for the (indexer, buyer) pair.
    NoActiveFuture,
    /// The future's end time has not been reached.
    NotMatured,
    /// The performance predicate rejected the indexer.
    PerformanceCheckFailed,
    /// The token gateway failed or returned false.
    TransferFailed,
    /// The new stake would not fit in 256 bits.
    StakeOverflow,
}

/// Keys with an executable equality that agrees with `==` in specifications.
pub trait KeyEq: Copy + Sized {
    fn key_eq(&self, other: &Self) -> (r: bool)
        ensures
            r == (*self == *other),
    ;
}

impl KeyEq for Address {
    fn key_eq(&self, other: &Self) -> (r: bool) {
        self.hi == other.hi && self.lo == other.lo
    }
}

impl KeyEq for FutureKey {
    fn key_eq(&self, other: &Self) -> (r: bool) {
        self.indexer.key_eq(&other.indexer) && self.buyer.key_eq(&other.buyer)
    }
}

impl KeyEq for PoiKey {
    fn key_eq(&self, other: &Self) -> (r: bool) {
        self.subgraph_id.hi == other.subgraph_id.hi && self.subgraph_id.lo == other.subgraph_id.lo
            && self.block_number.hi == other.block_number.hi
            && self.block_number.lo == other.block_number.lo
    }
}

} // verus!
