use indexer_futures::{
    transfer_tokens, Address, Bytes32, Event, FuturesError, IndexerFuturesContract, TokenGateway, U256,
    ERC20,
};

/// A token that keeps balances and allowances-free bookkeeping of what moved,
/// and can be told to fail.
struct Token {
    custody: Address,
    balances: Vec<(Address, u128)>,
    fail: bool,
    revert: bool,
    calls: Vec<(&'static str, Address, Address, u128)>,
}

impl Token {
    fn new(custody: Address) -> Token {
        Token { custody, balances: Vec::new(), fail: false, revert: false, calls: Vec::new() }
    }

    fn balance(&self, a: Address) -> u128 {
        self.balances.iter().find(|(k, _)| *k == a).map(|(_, v)| *v).unwrap_or(0)
    }

    fn credit(&mut self, a: Address, n: u128) {
        match self.balances.iter_mut().find(|(k, _)| *k == a) {
            Some(e) => e.1 += n,
            None => self.balances.push((a, n)),
        }
    }

    fn move_funds(&mut self, from: Address, to: Address, amount: U256) -> Result<bool, Vec<u8>> {
        if self.revert {
            return Err(b"reverted".to_vec());
        }
        if self.fail {
            return Ok(false);
        }
        let n = amount.lo;
        if self.balance(from) < n {
            return Ok(false);
        }
        self.credit(from, 0);
        for e in self.balances.iter_mut() {
            if e.0 == from {
                e.1 -= n;
            }
        }
        self.credit(to, n);
        Ok(true)
    }
}

impl ERC20 for Token {
    fn transfer(&mut self, _token: Address, to: Address, amount: U256) -> Result<bool, Vec<u8>> {
        self.calls.push(("transfer", self.custody, to, amount.lo));
        let custody = self.custody;
        self.move_funds(custody, to, amount)
    }

    fn transfer_from(
        &mut self,
        _token: Address,
        from: Address,
        to: Address,
        amount: U256,
    ) -> Result<bool, Vec<u8>> {
        self.calls.push(("transfer_from", from, to, amount.lo));
        self.move_funds(from, to, amount)
    }
}

fn addr(n: u128) -> Address {
    Address { hi: 0, lo: n }
}

fn u(n: u128) -> U256 {
    U256::from_u128(n)
}

const CONTRACT: u128 = 1000;
const GRT: u128 = 1001;
const STAKING: u128 = 1002;
const INDEXER: u128 = 1;
const BUYER: u128 = 2;

fn setup() -> (IndexerFuturesContract, TokenGateway<Token>) {
    let mut c = IndexerFuturesContract::new(addr(CONTRACT));
    c.constructor(addr(77), addr(GRT), addr(1003), addr(STAKING));
    let mut t = Token::new(addr(CONTRACT));
    t.credit(addr(INDEXER), 1_000);
    t.credit(addr(BUYER), 1_000);
    (c, TokenGateway::new(t))
}

#[test]
fn stake_round_trip_and_accumulates() {
    let (mut c, mut t) = setup();
    assert_eq!(c.stake_of(addr(INDEXER)), u(0));
    let ev = c.stake(&mut t, addr(INDEXER), u(100)).unwrap();
    assert_eq!(ev, Event::IndexerStaked { indexer: addr(INDEXER), amount: u(100) });
    assert_eq!(c.stake_of(addr(INDEXER)), u(100));
    c.stake(&mut t, addr(INDEXER), u(25)).unwrap();
    assert_eq!(c.stake_of(addr(INDEXER)), u(125));
    assert_eq!(t.token().balance(addr(STAKING)), 125);
    assert_eq!(t.token().balance(addr(INDEXER)), 875);
}

#[test]
fn stake_not_recorded_when_transfer_fails() {
    let (mut c, mut t) = setup();
    t.token_mut().fail = true;
    assert_eq!(c.stake(&mut t, addr(INDEXER), u(100)), Err(FuturesError::TransferFailed));
    assert_eq!(c.stake_of(addr(INDEXER)), u(0));
    t.token_mut().fail = false;
    t.token_mut().revert = true;
    assert_eq!(c.stake(&mut t, addr(INDEXER), u(100)), Err(FuturesError::TransferFailed));
    assert_eq!(c.stake_of(addr(INDEXER)), u(0));
}

#[test]
fn stake_overflow_rejected() {
    let (mut c, mut t) = setup();
    let max = U256 { hi: u128::MAX, lo: u128::MAX };
    t.token_mut().credit(addr(INDEXER), 0);
    c.stake(&mut t, addr(INDEXER), u(1)).unwrap();
    assert_eq!(c.stake(&mut t, addr(INDEXER), max), Err(FuturesError::StakeOverflow));
    assert_eq!(c.stake_of(addr(INDEXER)), u(1));
    assert_eq!(t.token().calls.len(), 1);
}

#[test]
fn create_then_settle_at_maturity() {
    let (mut c, mut t) = setup();
    c.stake(&mut t, addr(INDEXER), u(100)).unwrap();
    let ev = c
        .create_future(&mut t, addr(INDEXER), u(5_000), addr(BUYER), u(50), u(1000))
        .unwrap();
    assert_eq!(
        ev,
        Event::FutureCreated { indexer: addr(INDEXER), buyer: addr(BUYER), amount: u(50), duration: u(1000) }
    );
    assert_eq!(t.token().balance(addr(CONTRACT)), 50);
    let f = c.future(addr(INDEXER), addr(BUYER)).unwrap();
    assert!(f.is_active);
    assert_eq!(f.start_time, u(5_000));
    assert_eq!(
        c.settle_future(&mut t, addr(INDEXER), u(5_999), addr(BUYER)),
        Err(FuturesError::NotMatured)
    );
    let before = t.token().balance(addr(INDEXER));
    let ev = c.settle_future(&mut t, addr(INDEXER), u(6_000), addr(BUYER)).unwrap();
    assert_eq!(ev, Event::FutureSettled { indexer: addr(INDEXER), buyer: addr(BUYER), amount: u(50) });
    assert_eq!(t.token().balance(addr(INDEXER)), before + 50);
    assert_eq!(t.token().balance(addr(CONTRACT)), 0);
    assert!(!c.future(addr(INDEXER), addr(BUYER)).unwrap().is_active);
    assert_eq!(
        c.settle_future(&mut t, addr(INDEXER), u(7_000), addr(BUYER)),
        Err(FuturesError::NoActiveFuture)
    );
}

#[test]
fn cancel_refunds_and_blocks_settle() {
    let (mut c, mut t) = setup();
    c.stake(&mut t, addr(INDEXER), u(100)).unwrap();
    c.create_future(&mut t, addr(INDEXER), u(10), addr(BUYER), u(50), u(1000)).unwrap();
    assert_eq!(t.token().balance(addr(BUYER)), 950);
    let ev = c.cancel_future(&mut t, addr(BUYER), addr(INDEXER)).unwrap();
    assert_eq!(ev, Event::FutureCancelled { indexer: addr(INDEXER), buyer: addr(BUYER), amount: u(50) });
    assert_eq!(t.token().balance(addr(BUYER)), 1_000);
    assert_eq!(
        c.settle_future(&mut t, addr(INDEXER), u(2_000), addr(BUYER)),
        Err(FuturesError::NoActiveFuture)
    );
    assert_eq!(
        c.cancel_future(&mut t, addr(BUYER), addr(INDEXER)),
        Err(FuturesError::NoActiveFuture)
    );
}

#[test]
fn create_with_insufficient_stake_writes_nothing() {
    let (mut c, mut t) = setup();
    c.stake(&mut t, addr(INDEXER), u(40)).unwrap();
    assert_eq!(
        c.create_future(&mut t, addr(INDEXER), u(10), addr(BUYER), u(50), u(1000)),
        Err(FuturesError::InsufficientStake)
    );
    assert_eq!(c.future(addr(INDEXER), addr(BUYER)), None);
    assert_eq!(t.token().balance(addr(CONTRACT)), 0);
}

#[test]
fn duplicate_active_future_rejected() {
    let (mut c, mut t) = setup();
    c.stake(&mut t, addr(INDEXER), u(100)).unwrap();
    c.create_future(&mut t, addr(INDEXER), u(10), addr(BUYER), u(50), u(1000)).unwrap();
    assert_eq!(
        c.create_future(&mut t, addr(INDEXER), u(20), addr(BUYER), u(1), u(5)),
        Err(FuturesError::DuplicateFuture)
    );
    let f = c.future(addr(INDEXER), addr(BUYER)).unwrap();
    assert_eq!(f.amount, u(50));
    // the reverse pair is another key
    c.stake(&mut t, addr(BUYER), u(10)).unwrap();
    assert!(c.create_future(&mut t, addr(BUYER), u(10), addr(INDEXER), u(10), u(5)).is_ok());
}

#[test]
fn closed_slot_can_be_reused() {
    let (mut c, mut t) = setup();
    c.stake(&mut t, addr(INDEXER), u(100)).unwrap();
    c.create_future(&mut t, addr(INDEXER), u(10), addr(BUYER), u(50), u(1000)).unwrap();
    c.cancel_future(&mut t, addr(BUYER), addr(INDEXER)).unwrap();
    c.create_future(&mut t, addr(INDEXER), u(20), addr(BUYER), u(30), u(7)).unwrap();
    let f = c.future(addr(INDEXER), addr(BUYER)).unwrap();
    assert_eq!((f.amount, f.start_time, f.duration, f.is_active), (u(30), u(20), u(7), true));
}

#[test]
fn stake_not_reserved_across_buyers() {
    let (mut c, mut t) = setup();
    t.token_mut().credit(addr(3), 1_000);
    c.stake(&mut t, addr(INDEXER), u(100)).unwrap();
    c.create_future(&mut t, addr(INDEXER), u(0), addr(BUYER), u(100), u(1)).unwrap();
    c.create_future(&mut t, addr(INDEXER), u(0), addr(3), u(100), u(1)).unwrap();
    assert_eq!(c.stake_of(addr(INDEXER)), u(100));
}

#[test]
fn create_transfer_failure_writes_nothing() {
    let (mut c, mut t) = setup();
    c.stake(&mut t, addr(INDEXER), u(100)).unwrap();
    t.token_mut().fail = true;
    assert_eq!(
        c.create_future(&mut t, addr(INDEXER), u(10), addr(BUYER), u(50), u(1000)),
        Err(FuturesError::TransferFailed)
    );
    assert_eq!(c.future(addr(INDEXER), addr(BUYER)), None);
}

#[test]
fn failed_refund_keeps_future_active() {
    let (mut c, mut t) = setup();
    c.stake(&mut t, addr(INDEXER), u(100)).unwrap();
    c.create_future(&mut t, addr(INDEXER), u(10), addr(BUYER), u(50), u(1000)).unwrap();
    t.token_mut().revert = true;
    assert_eq!(
        c.cancel_future(&mut t, addr(BUYER), addr(INDEXER)),
        Err(FuturesError::TransferFailed)
    );
    assert!(c.future(addr(INDEXER), addr(BUYER)).unwrap().is_active);
    assert_eq!(
        c.settle_future(&mut t, addr(INDEXER), u(2_000), addr(BUYER)),
        Err(FuturesError::TransferFailed)
    );
    assert!(c.future(addr(INDEXER), addr(BUYER)).unwrap().is_active);
    t.token_mut().revert = false;
    assert!(c.settle_future(&mut t, addr(INDEXER), u(2_000), addr(BUYER)).is_ok());
}

#[test]
fn no_future_errors() {
    let (mut c, mut t) = setup();
    assert_eq!(
        c.cancel_future(&mut t, addr(BUYER), addr(INDEXER)),
        Err(FuturesError::NoActiveFuture)
    );
    assert_eq!(
        c.settle_future(&mut t, addr(INDEXER), u(0), addr(BUYER)),
        Err(FuturesError::NoActiveFuture)
    );
}

#[test]
fn settle_requires_stake() {
    let (mut c, mut t) = setup();
    c.create_future(&mut t, addr(INDEXER), u(10), addr(BUYER), u(0), u(5)).unwrap();
    assert!(!c.check_indexer_performance(addr(INDEXER)));
    assert_eq!(
        c.settle_future(&mut t, addr(INDEXER), u(15), addr(BUYER)),
        Err(FuturesError::PerformanceCheckFailed)
    );
    c.stake(&mut t, addr(INDEXER), u(1)).unwrap();
    assert!(c.check_indexer_performance(addr(INDEXER)));
    assert!(c.settle_future(&mut t, addr(INDEXER), u(15), addr(BUYER)).is_ok());
}

#[test]
fn end_time_beyond_range_never_matures() {
    let (mut c, mut t) = setup();
    c.stake(&mut t, addr(INDEXER), u(100)).unwrap();
    let max = U256 { hi: u128::MAX, lo: u128::MAX };
    c.create_future(&mut t, addr(INDEXER), u(10), addr(BUYER), u(50), max).unwrap();
    assert_eq!(
        c.settle_future(&mut t, addr(INDEXER), max, addr(BUYER)),
        Err(FuturesError::NotMatured)
    );
}

#[test]
fn poi_overwrite_keeps_latest() {
    let (mut c, _t) = setup();
    let sg = Bytes32 { hi: 7, lo: 8 };
    let p1 = Bytes32 { hi: 0, lo: 1 };
    let p2 = Bytes32 { hi: 0, lo: 2 };
    assert_eq!(c.poi(sg, u(42)), None);
    let ev = c.submit_poi(sg, u(42), p1);
    assert_eq!(ev, Event::PoiSubmitted { subgraph_id: sg, block_number: u(42), poi: p1 });
    c.submit_poi(sg, u(42), p2);
    c.submit_poi(sg, u(43), p1);
    assert_eq!(c.poi(sg, u(42)), Some(p2));
    assert_eq!(c.poi(sg, u(43)), Some(p1));
}

#[test]
fn transfer_tokens_dispatches_on_zero_source() {
    let mut token = Token::new(addr(CONTRACT));
    token.credit(addr(CONTRACT), 10);
    token.credit(addr(BUYER), 10);
    let mut t = TokenGateway::new(token);
    assert_eq!(transfer_tokens(&mut t, addr(GRT), Address::zero(), addr(5), u(3)), Ok(true));
    assert_eq!(transfer_tokens(&mut t, addr(GRT), addr(BUYER), addr(5), u(4)), Ok(true));
    assert_eq!(t.token().calls[0], ("transfer", addr(CONTRACT), addr(5), 3));
    assert_eq!(t.token().calls[1], ("transfer_from", addr(BUYER), addr(5), 4));
    assert_eq!(t.token().balance(addr(5)), 7);
}

#[test]
fn u256_arithmetic() {
    let a = U256 { hi: 0, lo: u128::MAX };
    assert_eq!(a.checked_add(&u(1)), Some(U256 { hi: 1, lo: 0 }));
    let max = U256 { hi: u128::MAX, lo: u128::MAX };
    assert_eq!(max.checked_add(&u(1)), None);
    assert_eq!(max.checked_add(&u(0)), Some(max));
    assert!(u(3).lt(&u(4)));
    assert!(!u(4).lt(&u(4)));
    assert!(u(5).lt(&U256 { hi: 1, lo: 0 }));
    assert!(U256::zero().is_zero());
    assert!(!U256 { hi: 1, lo: 0 }.is_zero());
}

#[test]
fn requests_made_of_the_token() {
    let (mut c, mut t) = setup();
    c.stake(&mut t, addr(INDEXER), u(100)).unwrap();
    assert_eq!(t.token().calls, vec![("transfer_from", addr(INDEXER), addr(STAKING), 100)]);
    assert_eq!(
        c.create_future(&mut t, addr(INDEXER), u(10), addr(BUYER), u(500), u(1000)),
        Err(FuturesError::InsufficientStake)
    );
    assert_eq!(t.token().calls.len(), 1);
    c.create_future(&mut t, addr(INDEXER), u(10), addr(BUYER), u(50), u(1000)).unwrap();
    assert_eq!(t.token().calls[1], ("transfer_from", addr(BUYER), addr(CONTRACT), 50));
    assert_eq!(
        c.settle_future(&mut t, addr(INDEXER), u(500), addr(BUYER)),
        Err(FuturesError::NotMatured)
    );
    assert_eq!(t.token().calls.len(), 2);
    c.cancel_future(&mut t, addr(BUYER), addr(INDEXER)).unwrap();
    assert_eq!(t.token().calls[2], ("transfer", addr(CONTRACT), addr(BUYER), 50));
    assert_eq!(
        c.cancel_future(&mut t, addr(BUYER), addr(INDEXER)),
        Err(FuturesError::NoActiveFuture)
    );
    assert_eq!(
        c.settle_future(&mut t, addr(INDEXER), u(5_000), addr(BUYER)),
        Err(FuturesError::NoActiveFuture)
    );
    assert_eq!(t.token().calls.len(), 3);
}
