use vstd::prelude::*;

use crate::model::ContractView;
use crate::table::Table;
use crate::types::{Address, Bytes32, Event, Future, FutureKey, FuturesError, PoiKey};
use crate::uint::{u256_bound, U256};

verus! {

/// A request made of the token contract.
#[derive(Clone, Copy, Debug, PartialEq, Eq, Structural)]
pub enum TokenCall {
    /// Out of this contract's custody to `to`.
    Transfer { token: Address, to: Address, amount: U256 },
    /// From `from`, which has authorised this contract, to `to`.
    TransferFrom { token: Address, from: Address, to: Address, amount: U256 },
}

/// The request that moves `amount` of `token` from `from` to `to`: the zero
/// identity as source stands for this contract's custody.
pub open spec fn token_call(token: Address, from: Address, to: Address, amount: U256) -> TokenCall {
    if from == Address::zero_spec() {
        TokenCall::Transfer { token, to, amount }
    } else {
        TokenCall::TransferFrom { token, from, to, amount }
    }
}

/// The token contract's interface, as the host reaches it: `transfer` moves
/// funds out of this contract's custody, `transfer_from` pulls them from an
/// account that has authorised this contract. `Ok(true)` is a transfer made;
/// `Ok(false)` one refused, `Err` a failed call. Which one comes depends on the
/// token's balances and allowances, so nothing is said of it.
pub trait ERC20 {
    fn transfer(&mut self, token: Address, to: Address, amount: U256) -> Result<bool, Vec<u8>>;

    fn transfer_from(&mut self, token: Address, from: Address, to: Address, amount: U256) -> Result<
        bool,
        Vec<u8>,
    >;
}

/// A token contract together with the record of the requests made of it
/// through this gateway, each with the token's answer.
pub struct TokenGateway<G> {
    token: G,
    log: Ghost<Seq<(TokenCall, Result<bool, Vec<u8>>)>>,
}

impl<G: ERC20> TokenGateway<G> {
    pub closed spec fn calls(&self) -> Seq<(TokenCall, Result<bool, Vec<u8>>)> {
        self.log@
    }

    pub closed spec fn token_spec(&self) -> G {
        self.token
    }

    pub fn new(token: G) -> (r: TokenGateway<G>)
        ensures
            r.calls() == Seq::<(TokenCall, Result<bool, Vec<u8>>)>::empty(),
            r.token_spec() == token,
    {
        TokenGateway { token, log: Ghost(Seq::empty()) }
    }

    pub fn token(&self) -> (r: &G)
        ensures
            *r == self.token_spec(),
    {
        &self.token
    }

    /// The token itself, for the host to adjust; the record is kept.
    pub fn token_mut(&mut self) -> (r: &mut G)
        ensures
            *r == old(self).token_spec(),
            final(self).token_spec() == *final(r),
            final(self).calls() == old(self).calls(),
    {
        &mut self.token
    }

    pub fn transfer(&mut self, token: Address, to: Address, amount: U256) -> (r: Result<bool, Vec<u8>>)
        ensures
            final(self).calls() == old(self).calls().push(
                (TokenCall::Transfer { token, to, amount }, r),
            ),
    {
        let r = self.token.transfer(token, to, amount);
        self.log = Ghost(self.log@.push((TokenCall::Transfer { token, to, amount }, r)));
        r
    }

    pub fn transfer_from(&mut self, token: Address, from: Address, to: Address, amount: U256) -> (r:
        Result<bool, Vec<u8>>)
        ensures
            final(self).calls() == old(self).calls().push(
                (TokenCall::TransferFrom { token, from, to, amount }, r),
            ),
    {
        let r = self.token.transfer_from(token, from, to, amount);
        self.log = Ghost(
            self.log@.push(
                (TokenCall::TransferFrom { token, from, to, amount }, r),
            ),
        );
        r
    }
}

/// The record `after` is `before` with one more request, `call`, whose
/// answer was a transfer made (`Ok(true)`) exactly when `made` holds.
pub open spec fn one_request(
    before: Seq<(TokenCall, Result<bool, Vec<u8>>)>,
    after: Seq<(TokenCall, Result<bool, Vec<u8>>)>,
    call: TokenCall,
    made: bool,
) -> bool {
    &&& after.len() == before.len() + 1
    &&& after.drop_last() == before
    &&& after.last().0 == call
    &&& made == (after.last().1 == Ok::<bool, Vec<u8>>(true))
}

/// An operation rejected with `e` before any request: nothing changed and
/// nothing was asked of the token.
pub open spec fn rejected<G: ERC20>(
    r: Result<Event, FuturesError>,
    e: FuturesError,
    before: ContractView,
    after: ContractView,
    gateway_before: TokenGateway<G>,
    gateway_after: TokenGateway<G>,
) -> bool {
    &&& r == Err::<Event, FuturesError>(e)
    &&& after == before
    &&& gateway_after.calls() == gateway_before.calls()
}

/// An operation that made exactly the request `call`: its result is `Ok(ev)`
/// with the state `done` if the request succeeded, and `TransferFailed` with
/// the state unchanged if it did not.
pub open spec fn settled_by<G: ERC20>(
    r: Result<Event, FuturesError>,
    call: TokenCall,
    ev: Event,
    done: ContractView,
    before: ContractView,
    after: ContractView,
    gateway_before: TokenGateway<G>,
    gateway_after: TokenGateway<G>,
) -> bool {
    &&& one_request(gateway_before.calls(), gateway_after.calls(), call, r is Ok)
    &&& r is Ok ==> r == Ok::<Event, FuturesError>(ev) && after == done
    &&& !(r is Ok) ==> r == Err::<Event, FuturesError>(FuturesError::TransferFailed) && after == before
}

/// Moves `amount` of `token` to `to`: out of this contract's custody when
/// `from` is the zero identity, from `from` otherwise.
pub fn transfer_tokens<G: ERC20>(
    gateway: &mut TokenGateway<G>,
    token: Address,
    from: Address,
    to: Address,
    amount: U256,
) -> (r: Result<bool, Vec<u8>>)
    ensures
        final(gateway).calls() == old(gateway).calls().push(
            (token_call(token, from, to, amount), r),
        ),
{
    if from.hi == 0 && from.lo == 0 {
        gateway.transfer(token, to, amount)
    } else {
        gateway.transfer_from(token, from, to, amount)
    }
}

/// Futures between staking indexers and buyers, with the stake ledger and the
/// attestation log they rely on.
pub struct IndexerFuturesContract {
    owner: Address,
    contract_address: Address,
    grt_token: Address,
    graph_token: Address,
    staking_contract: Address,
    futures: Table<FutureKey, Future>,
    indexer_stakes: Table<Address, U256>,
    poi_data: Table<PoiKey, Bytes32>,
}

impl View for IndexerFuturesContract {
    type V = ContractView;

    closed spec fn view(&self) -> ContractView {
        ContractView {
            owner: self.owner,
            contract_address: self.contract_address,
            grt_token: self.grt_token,
            graph_token: self.graph_token,
            staking_contract: self.staking_contract,
            stakes: Map::new(
                |a: Address| self.indexer_stakes@.contains_key(a),
                |a: Address| self.indexer_stakes@[a].value(),
            ),
            futures: self.futures@,
            pois: self.poi_data@,
        }
    }
}

impl IndexerFuturesContract {
    /// An empty contract living at `contract_address`, not yet configured.
    pub fn new(contract_address: Address) -> (r: IndexerFuturesContract)
        ensures
            r@.contract_address == contract_address,
            r@.owner == Address::zero_spec(),
            r@.grt_token == Address::zero_spec(),
            r@.graph_token == Address::zero_spec(),
            r@.staking_contract == Address::zero_spec(),
            r@.stakes == Map::<Address, nat>::empty(),
            r@.futures == Map::<FutureKey, Future>::empty(),
            r@.pois == Map::<PoiKey, Bytes32>::empty(),
    {
        let r = IndexerFuturesContract {
            owner: Address::zero(),
            contract_address,
            grt_token: Address::zero(),
            graph_token: Address::zero(),
            staking_contract: Address::zero(),
            futures: Table::new(),
            indexer_stakes: Table::new(),
            poi_data: Table::new(),
        };
        assert(r@.stakes =~= Map::<Address, nat>::empty());
        r
    }

    /// Records the initialising caller as owner and the three collaborating contracts.
    pub fn constructor(
        &mut self,
        sender: Address,
        grt_token: Address,
        graph_token: Address,
        staking_contract: Address,
    )
        ensures
            final(self)@ == (ContractView {
                owner: sender,
                grt_token,
                graph_token,
                staking_contract,
                ..old(self)@
            }),
    {
        self.owner = sender;
        self.grt_token = grt_token;
        self.graph_token = graph_token;
        self.staking_contract = staking_contract;
    }

    /// `indexer` opens a future for `buyer` at block time `now`. The buyer's
    /// `amount` is pulled into this contract's custody before the record is
    /// written; stake is read, not reserved.
    pub fn create_future<G: ERC20>(
        &mut self,
        gateway: &mut TokenGateway<G>,
        indexer: Address,
        now: U256,
        buyer: Address,
        amount: U256,
        duration: U256,
    ) -> (r: Result<Event, FuturesError>)
        ensures
            old(self)@.is_active(indexer, buyer) ==> r == Err::<Event, FuturesError>(
                FuturesError::DuplicateFuture,
            ),
            forall|a: Address| final(self)@.stake_of(a) >= old(self)@.stake_of(a),
            match old(self)@.create_future(indexer, buyer, amount, duration, now) {
                Err(e) => rejected(r, e, old(self)@, final(self)@, *old(gateway), *final(gateway)),
                Ok((s, ev)) => settled_by(
                    r,
                    token_call(old(self)@.grt_token, buyer, old(self)@.contract_address, amount),
                    ev,
                    s,
                    old(self)@,
                    final(self)@,
                    *old(gateway),
                    *final(gateway),
                ),
            },
    {
        let key = FutureKey { indexer, buyer };
        match self.futures.get(&key) {
            Some(f) => {
                if f.is_active {
                    return Err(FuturesError::DuplicateFuture);
                }
            },
            None => {},
        }
        if self.stake_of(indexer).lt(&amount) {
            return Err(FuturesError::InsufficientStake);
        }
        let custody = self.contract_address;
        match self.transfer_grt(gateway, buyer, custody, amount) {
            Ok(()) => {},
            Err(e) => return Err(e),
        }
        let future = Future { indexer, buyer, amount, start_time: now, duration, is_active: true };
        self.futures.set(key, future);
        assert(self@.stakes =~= old(self)@.stakes);
        Ok(Event::FutureCreated { indexer, buyer, amount, duration })
    }

    /// `buyer` cancels its active future with `indexer`; the escrowed amount
    /// goes back to it. The record is closed before the refund is attempted,
    /// and reopened if the refund fails.
    pub fn cancel_future<G: ERC20>(&mut self, gateway: &mut TokenGateway<G>, buyer: Address, indexer: Address) -> (r:
        Result<Event, FuturesError>)
        ensures
            forall|a: Address| final(self)@.stake_of(a) >= old(self)@.stake_of(a),
            match old(self)@.cancel_future(buyer, indexer) {
                Err(e) => rejected(r, e, old(self)@, final(self)@, *old(gateway), *final(gateway)),
                Ok((s, ev)) => settled_by(
                    r,
                    TokenCall::Transfer {
                        token: old(self)@.grt_token,
                        to: buyer,
                        amount: old(self)@.futures[FutureKey { indexer, buyer }].amount,
                    },
                    ev,
                    s,
                    old(self)@,
                    final(self)@,
                    *old(gateway),
                    *final(gateway),
                ),
            },
    {
        let key = FutureKey { indexer, buyer };
        let future = match self.futures.get(&key) {
            Some(f) => f,
            None => return Err(FuturesError::NoActiveFuture),
        };
        if !future.is_active {
            return Err(FuturesError::NoActiveFuture);
        }
        self.futures.set(key, Future { is_active: false, ..future });
        match self.transfer_grt(gateway, Address::zero(), buyer, future.amount) {
            Ok(()) => {},
            Err(e) => {
                self.futures.set(key, future);
                assert(self@.futures =~= old(self)@.futures);
                assert(self@.stakes =~= old(self)@.stakes);
                return Err(e);
            },
        }
        assert(self@.stakes =~= old(self)@.stakes);
        Ok(Event::FutureCancelled { indexer, buyer, amount: future.amount })
    }

    /// `indexer` settles its future with `buyer` at block time `now`: once
    /// matured and if the performance predicate holds, the escrowed amount is
    /// paid to the indexer. The record is closed before the payout is
    /// attempted, and reopened if the payout fails.
    pub fn settle_future<G: ERC20>(
        &mut self,
        gateway: &mut TokenGateway<G>,
        indexer: Address,
        now: U256,
        buyer: Address,
    ) -> (r: Result<Event, FuturesError>)
        ensures
            old(self)@.is_active(indexer, buyer) && now.value() < old(self)@.futures[FutureKey {
                indexer,
                buyer,
            }].end_time() ==> r == Err::<Event, FuturesError>(FuturesError::NotMatured),
            old(self)@.is_active(indexer, buyer) && now.value() >= old(self)@.futures[FutureKey {
                indexer,
                buyer,
            }].end_time() ==> r != Err::<Event, FuturesError>(FuturesError::NotMatured),
            forall|a: Address| final(self)@.stake_of(a) >= old(self)@.stake_of(a),
            match old(self)@.settle_future(indexer, buyer, now) {
                Err(e) => rejected(r, e, old(self)@, final(self)@, *old(gateway), *final(gateway)),
                Ok((s, ev)) => settled_by(
                    r,
                    TokenCall::Transfer {
                        token: old(self)@.grt_token,
                        to: indexer,
                        amount: old(self)@.futures[FutureKey { indexer, buyer }].amount,
                    },
                    ev,
                    s,
                    old(self)@,
                    final(self)@,
                    *old(gateway),
                    *final(gateway),
                ),
            },
    {
        let key = FutureKey { indexer, buyer };
        let future = match self.futures.get(&key) {
            Some(f) => f,
            None => return Err(FuturesError::NoActiveFuture),
        };
        if !future.is_active {
            return Err(FuturesError::NoActiveFuture);
        }
        match future.start_time.checked_add(&future.duration) {
            Some(end_time) => {
                if now.lt(&end_time) {
                    return Err(FuturesError::NotMatured);
                }
            },
            None => {
                proof {
                    crate::uint::lemma_value_bound(now);
                }
                return Err(FuturesError::NotMatured);
            },
        }
        if !self.check_indexer_performance(indexer) {
            return Err(FuturesError::PerformanceCheckFailed);
        }
        self.futures.set(key, Future { is_active: false, ..future });
        match self.transfer_grt(gateway, Address::zero(), indexer, future.amount) {
            Ok(()) => {},
            Err(e) => {
                self.futures.set(key, future);
                assert(self@.futures =~= old(self)@.futures);
                assert(self@.stakes =~= old(self)@.stakes);
                return Err(e);
            },
        }
        assert(self@.stakes =~= old(self)@.stakes);
        Ok(Event::FutureSettled { indexer, buyer, amount: future.amount })
    }

    /// The performance predicate: the indexer holds stake.
    pub fn check_indexer_performance(&self, indexer: Address) -> (r: bool)
        ensures
            r == self@.performance_ok(indexer),
    {
        !self.stake_of(indexer).is_zero()
    }

    /// Moves `amount` of the staking token through the gateway; `from` as the
    /// zero identity means out of this contract's custody.
    pub fn transfer_grt<G: ERC20>(&self, gateway: &mut TokenGateway<G>, from: Address, to: Address, amount: U256) -> (r:
        Result<(), FuturesError>)
        ensures
            r matches Ok(()) || r == Err::<(), FuturesError>(FuturesError::TransferFailed),
            one_request(
                old(gateway).calls(),
                final(gateway).calls(),
                token_call(self@.grt_token, from, to, amount),
                r is Ok,
            ),
    {
        let answer = transfer_tokens(gateway, self.grt_token, from, to, amount);
        assert(gateway.calls().drop_last() =~= old(gateway).calls());
        match answer {
            Ok(true) => Ok(()),
            _ => Err(FuturesError::TransferFailed),
        }
    }

    /// `indexer` stakes `amount`, pulled from it into the staking contract.
    /// The ledger is written only once the transfer has succeeded.
    pub fn stake<G: ERC20>(&mut self, gateway: &mut TokenGateway<G>, indexer: Address, amount: U256) -> (r: Result<
        Event,
        FuturesError,
    >)
        ensures
            forall|a: Address| final(self)@.stake_of(a) >= old(self)@.stake_of(a),
            old(self)@.stake_of(indexer) + amount.value() >= u256_bound() ==> rejected(
                r,
                FuturesError::StakeOverflow,
                old(self)@,
                final(self)@,
                *old(gateway),
                *final(gateway),
            ),
            old(self)@.stake_of(indexer) + amount.value() < u256_bound() ==> settled_by(
                r,
                token_call(old(self)@.grt_token, indexer, old(self)@.staking_contract, amount),
                Event::IndexerStaked { indexer, amount },
                old(self)@.after_stake(indexer, amount),
                old(self)@,
                final(self)@,
                *old(gateway),
                *final(gateway),
            ),
    {
        let current = self.stake_of(indexer);
        let total = match current.checked_add(&amount) {
            Some(t) => t,
            None => return Err(FuturesError::StakeOverflow),
        };
        let staking_contract = self.staking_contract;
        match self.transfer_grt(gateway, indexer, staking_contract, amount) {
            Ok(()) => {},
            Err(e) => return Err(e),
        }
        self.indexer_stakes.set(indexer, total);
        assert(self@.stakes =~= old(self)@.after_stake(indexer, amount).stakes);
        Ok(Event::IndexerStaked { indexer, amount })
    }

    /// Records (replacing any earlier one) the proof of indexing for (subgraph, block).
    pub fn submit_poi(&mut self, subgraph_id: Bytes32, block_number: U256, poi: Bytes32) -> (r: Event)
        ensures
            final(self)@ == old(self)@.after_submit_poi(subgraph_id, block_number, poi),
            r == (Event::PoiSubmitted { subgraph_id, block_number, poi }),
    {
        self.poi_data.set(PoiKey { subgraph_id, block_number }, poi);
        assert(self@.stakes =~= old(self)@.stakes);
        Event::PoiSubmitted { subgraph_id, block_number, poi }
    }

    /// Stake ledger entry of `indexer` (0 if it never staked).
    pub fn stake_of(&self, indexer: Address) -> (r: U256)
        ensures
            r.value() == self@.stake_of(indexer),
    {
        match self.indexer_stakes.get(&indexer) {
            Some(s) => s,
            None => U256::zero(),
        }
    }

    /// The registry record for (indexer, buyer), active or not.
    pub fn future(&self, indexer: Address, buyer: Address) -> (r: Option<Future>)
        ensures
            r == (if self@.futures.contains_key(FutureKey { indexer, buyer }) {
                Some(self@.futures[FutureKey { indexer, buyer }])
            } else {
                None
            }),
    {
        self.futures.get(&FutureKey { indexer, buyer })
    }

    /// The latest proof of indexing recorded for (subgraph, block).
    pub fn poi(&self, subgraph_id: Bytes32, block_number: U256) -> (r: Option<Bytes32>)
        ensures
            r == (if self@.pois.contains_key(PoiKey { subgraph_id, block_number }) {
                Some(self@.pois[PoiKey { subgraph_id, block_number }])
            } else {
                None
            }),
    {
        self.poi_data.get(&PoiKey { subgraph_id, block_number })
    }
}

} // verus!
