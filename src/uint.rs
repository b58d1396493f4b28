use vstd::prelude::*;

verus! {

/// The limb base: 2^128.
pub open spec fn limb_base() -> int {
    u128::MAX as int + 1
}

/// One more than the largest `U256`: 2^256.
pub open spec fn u256_bound() -> int {
    limb_base() * limb_base()
}

/// An unsigned 256-bit integer, the native unit of token amounts and times.
#[derive(Clone, Copy, Debug, PartialEq, Eq, Structural)]
pub struct U256 {
    pub hi: u128,
    pub lo: u128,
}

impl U256 {
    /// The number this value stands for.
    pub open spec fn value(self) -> nat {
        (self.hi as nat) * (limb_base() as nat) + (self.lo as nat)
    }

    pub fn zero() -> (r: U256)
        ensures
            r.value() == 0,
    {
        U256 { hi: 0, lo: 0 }
    }

    pub fn from_u128(n: u128) -> (r: U256)
        ensures
            r.value() == n,
    {
        U256 { hi: 0, lo: n }
    }

    pub fn is_zero(&self) -> (r: bool)
        ensures
            r == (self.value() == 0),
    {
        proof {
            lemma_value_order(U256 { hi: 0, lo: 0 }, *self);
        }
        self.hi == 0 && self.lo == 0
    }

    /// `self < other`, as numbers.
    pub fn lt(&self, other: &U256) -> (r: bool)
        ensures
            r == (self.value() < other.value()),
    {
        proof {
            lemma_value_order(*self, *other);
        }
        self.hi < other.hi || (self.hi == other.hi && self.lo < other.lo)
    }

    /// The sum, unless it does not fit in 256 bits.
    pub fn checked_add(&self, other: &U256) -> (r: Option<U256>)
        ensures
            r matches Some(s) <==> self.value() + other.value() < u256_bound(),
            r matches Some(s) ==> s.value() == self.value() + other.value(),
    {
        let (lo, carry): (u128, u128) = if self.lo <= u128::MAX - other.lo {
            (self.lo + other.lo, 0)
        } else {
            (self.lo - (u128::MAX - other.lo) - 1, 1)
        };
        assert(lo + carry * limb_base() == self.lo + other.lo);
        proof {
            lemma_value_bound(*self);
            lemma_value_bound(*other);
        }
        if self.hi <= u128::MAX - other.hi && self.hi + other.hi <= u128::MAX - carry {
            let s = U256 { hi: self.hi + other.hi + carry, lo };
            assert(s.value() == self.value() + other.value()) by (nonlinear_arith)
                requires
                    s.hi == self.hi + other.hi + carry,
                    lo + carry * limb_base() == self.lo + other.lo,
                    s.lo == lo,
            ;
            Some(s)
        } else {
            assert(self.value() + other.value() >= u256_bound()) by (nonlinear_arith)
                requires
                    self.hi + other.hi + carry >= limb_base(),
                    lo + carry * limb_base() == self.lo + other.lo,
                    lo >= 0,
            ;
            None
        }
    }
}

pub proof fn lemma_value_bound(x: U256)
    ensures
        x.value() < u256_bound(),
{
    assert(x.value() < u256_bound()) by (nonlinear_arith)
        requires
            x.hi < limb_base(),
            x.lo < limb_base(),
    ;
}

proof fn lemma_value_order(x: U256, y: U256)
    ensures
        (x.value() < y.value()) == (x.hi < y.hi || (x.hi == y.hi && x.lo < y.lo)),
{
    assert((x.value() < y.value()) == (x.hi < y.hi || (x.hi == y.hi && x.lo < y.lo)))
        by (nonlinear_arith)
        requires
            x.lo < limb_base(),
            y.lo < limb_base(),
    ;
}

} // verus!
