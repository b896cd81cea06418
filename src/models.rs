//! Token identities, pool errors and the capability every pool curve offers.

use vstd::prelude::*;

use crate::wide::U256;

verus! {

/// A 20-byte network account identifier.
#[derive(Clone, Copy, Debug, PartialEq, Eq)]
pub struct Address(pub [u8; 20]);

impl Address {
    /// The all-zero address, used as a placeholder.
    pub fn zero() -> (r: Address)
        ensures
            forall|i: int| 0 <= i < 20 ==> r.0[i] == 0u8,
    {
        Address([0u8; 20])
    }
}

/// A fungible token: the network it lives on, its symbol, the number of
/// fractional digits of its human-readable amounts, and its address.
///
/// Within one pool the symbol is the key under which its reserve is held.
#[derive(Clone, Debug)]
pub struct ERC20Token {
    pub chain: String,
    pub decimals: u64,
    pub symbol: String,
    pub address: Address,
}

impl ERC20Token {
    /// A field-by-field copy of the token.
    pub fn duplicate(&self) -> (r: ERC20Token)
        ensures
            r == *self,
    {
        ERC20Token {
            chain: self.chain.clone(),
            decimals: self.decimals,
            symbol: self.symbol.clone(),
            address: self.address,
        }
    }
}

/// The kinds of failure of a pool operation.
#[derive(Clone, Copy, Debug, PartialEq, Eq, Structural)]
pub enum PoolErrorKind {
    /// A token's symbol has no reserve in the pool.
    Lookup,
    /// An intermediate value does not fit in 256 bits, or a divisor is zero.
    Arithmetic,
    /// The trade would pay out the whole reserve of the bought token, or more.
    InvariantViolation,
}

/// Why a pool operation could not be carried out.
#[derive(Clone, Copy, Debug, PartialEq, Eq, Structural)]
pub struct PoolSimulationError(pub PoolErrorKind);

/// A fixed-point decimal: `mantissa / 10^scale`.
#[derive(Clone, Copy, Debug, PartialEq, Eq, Structural)]
pub struct FixedPoint {
    pub mantissa: U256,
    pub scale: u64,
}

/// A fraction `numerator / denominator`, kept as two integers so that it can be
/// applied to amounts without rounding.
#[derive(Clone, Copy, Debug, PartialEq, Eq, Structural)]
pub struct FeeFraction {
    pub numerator: u64,
    pub denominator: u64,
}

/// What a liquidity pool offers, whatever its pricing curve.
///
/// Each curve states what its operations return through the spec predicates
/// below. No operation changes the pool: a trade yields a new pool value.
pub trait Pool: Sized {
    /// What `spot_price(a, b)` may return.
    spec fn spot_price_ensures(&self, a: ERC20Token, b: ERC20Token, r: Result<FixedPoint, PoolSimulationError>) -> bool;

    /// What `fee(a, b)` may return.
    spec fn fee_ensures(&self, a: ERC20Token, b: ERC20Token, r: FeeFraction) -> bool;

    /// What `get_amount_out(sell_amount, sell_token, buy_token)` may return.
    spec fn get_amount_out_ensures(
        &self,
        sell_amount: U256,
        sell_token: ERC20Token,
        buy_token: ERC20Token,
        r: Result<(U256, Self), PoolSimulationError>,
    ) -> bool;

    /// What `inertia(a, b)` may return.
    spec fn inertia_ensures(&self, a: ERC20Token, b: ERC20Token, r: U256) -> bool;

    /// The price of `a` quoted in `b`, as a decimal with `b`'s precision.
    fn spot_price(&self, a: &ERC20Token, b: &ERC20Token) -> (r: Result<FixedPoint, PoolSimulationError>)
        ensures
            self.spot_price_ensures(*a, *b, r),
    ;

    /// The fee charged on a trade between `a` and `b`.
    fn fee(&self, a: &ERC20Token, b: &ERC20Token) -> (r: FeeFraction)
        ensures
            self.fee_ensures(*a, *b, r),
    ;

    /// Sells `sell_amount` of `sell_token` for `buy_token`: the amount bought and
    /// the pool as it stands after the trade.
    fn get_amount_out(&self, sell_amount: U256, sell_token: &ERC20Token, buy_token: &ERC20Token) -> (r: Result<(U256, Self), PoolSimulationError>)
        requires
            sell_token.symbol@ != buy_token.symbol@,
        ensures
            self.get_amount_out_ensures(sell_amount, *sell_token, *buy_token, r),
    ;

    /// Resistance to slippage beyond the base curve, for curves that model
    /// concentrated liquidity.
    fn inertia(&self, a: &ERC20Token, b: &ERC20Token) -> (r: U256)
        ensures
            self.inertia_ensures(*a, *b, r),
    ;
}

} // verus!
