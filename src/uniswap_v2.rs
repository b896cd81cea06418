//! The constant-product pool: reserves `x` and `y` of two tokens are priced so
//! that `x * y` does not fall across a trade, with a fee taken from the input.

use vstd::prelude::*;

use crate::models::{Address, ERC20Token, FeeFraction, FixedPoint, Pool, PoolErrorKind, PoolSimulationError};
use crate::wide::{u256_limit, U256};

verus! {

/// Fee numerator: the fee is `FEE / FEE_PRECISION` of the amount sold.
pub const FEE: u64 = 30000;

/// Fee denominator.
pub const FEE_PRECISION: u64 = 10000000;

/// The sold amount scaled by `FEE_PRECISION`, less the fee.
pub open spec fn less_fee(amount: nat) -> nat {
    amount * ((FEE_PRECISION - FEE) as nat)
}

/// The divisor of the trade formula.
pub open spec fn trade_denominator(amount: nat, reserve_sell: nat) -> nat {
    reserve_sell * (FEE_PRECISION as nat) + less_fee(amount)
}

/// The dividend of the trade formula.
pub open spec fn trade_numerator(amount: nat, reserve_buy: nat) -> nat {
    less_fee(amount) * reserve_buy
}

/// Whether every intermediate value of the trade formula fits in 256 bits.
pub open spec fn trade_fits(amount: nat, reserve_sell: nat, reserve_buy: nat) -> bool {
    trade_numerator(amount, reserve_buy) < u256_limit() && trade_denominator(amount, reserve_sell)
        < u256_limit()
}

/// The amount bought when selling `amount` into reserves `reserve_sell`,
/// `reserve_buy`, rounded down.
pub open spec fn amount_out_of(amount: nat, reserve_sell: nat, reserve_buy: nat) -> nat {
    (trade_numerator(amount, reserve_buy) as int / trade_denominator(amount, reserve_sell) as int) as nat
}

/// `10^n`.
pub open spec fn pow10(n: nat) -> nat
    decreases n,
{
    if n == 0 {
        1
    } else {
        10 * pow10((n - 1) as nat)
    }
}

/// `10^n` grows with `n`.
pub proof fn lemma_pow10_monotone(m: nat, n: nat)
    requires
        m <= n,
    ensures
        pow10(m) <= pow10(n),
    decreases n - m,
{
    if m < n {
        lemma_pow10_monotone(m, (n - 1) as nat);
    }
}

/// The mantissa of the spot price of a token with reserve `reserve_a`, quoted in
/// a token with reserve `reserve_b` and `decimals` digits: rounded down.
pub open spec fn spot_mantissa(reserve_a: nat, reserve_b: nat, decimals: nat) -> nat {
    ((reserve_a * pow10(decimals)) as int / reserve_b as int) as nat
}

/// `10^n`, or `None` when it does not fit in 256 bits.
fn power_of_ten(n: u64) -> (r: Option<U256>)
    ensures
        match r {
            Some(v) => v@ == pow10(n as nat),
            None => pow10(n as nat) >= u256_limit(),
        },
{
    let ten = U256::from_u64(10);
    let mut acc = U256::from_u64(1);
    let mut i: u64 = 0;
    while i < n
        invariant
            i <= n,
            ten@ == 10,
            acc@ == pow10(i as nat),
        decreases n - i,
    {
        assert(pow10((i + 1) as nat) == pow10(i as nat) * 10);
        match acc.checked_mul(ten) {
            Some(v) => {
                acc = v;
                i = i + 1;
            },
            None => {
                proof {
                    lemma_pow10_monotone((i + 1) as nat, n as nat);
                }
                return None;
            },
        }
    }
    Some(acc)
}

/// `x / d` rounded down, bracketed by multiples of `d`.
proof fn lemma_div_bracket(x: int, d: int)
    requires
        x >= 0,
        d > 0,
    ensures
        0 <= x / d,
        d * (x / d) <= x < d * (x / d) + d,
{
    vstd::arithmetic::div_mod::lemma_fundamental_div_mod(x, d);
    vstd::arithmetic::div_mod::lemma_mod_bound(x, d);
    vstd::arithmetic::div_mod::lemma_div_pos_is_pos(x, d);
}

/// A multiple of `q` that stays below `x` bounds `q` by `x / d`.
proof fn lemma_div_lower(q: int, x: int, d: int)
    requires
        x >= 0,
        d > 0,
        q * d <= x,
    ensures
        q <= x / d,
{
    lemma_div_bracket(x, d);
    let f = x / d;
    if q > f {
        assert(q * d >= d * f + d) by (nonlinear_arith)
            requires
                q >= f + 1,
                d > 0,
        ;
    }
}

/// `10^n` is positive.
pub proof fn lemma_pow10_positive(n: nat)
    ensures
        pow10(n) > 0,
    decreases n,
{
    if n > 0 {
        lemma_pow10_positive((n - 1) as nat);
    }
}

/// Selling more never buys less: for fixed reserves the amount bought does not
/// decrease as the amount sold grows.
pub proof fn lemma_amount_out_monotone(x: nat, y: nat, reserve_sell: nat, reserve_buy: nat)
    requires
        x <= y,
        trade_denominator(x, reserve_sell) > 0,
    ensures
        amount_out_of(x, reserve_sell, reserve_buy) <= amount_out_of(y, reserve_sell, reserve_buy),
{
    let k = (FEE_PRECISION - FEE) as int;
    let f = FEE_PRECISION as int;
    let nx = trade_numerator(x, reserve_buy) as int;
    let ny = trade_numerator(y, reserve_buy) as int;
    let dx = trade_denominator(x, reserve_sell) as int;
    let dy = trade_denominator(y, reserve_sell) as int;
    let (rs, rb) = (reserve_sell as int, reserve_buy as int);
    assert(nx == k * x * rb && ny == k * y * rb && dx == rs * f + k * x && dy == rs * f + k * y)
        by (nonlinear_arith)
        requires
            nx == trade_numerator(x, reserve_buy),
            ny == trade_numerator(y, reserve_buy),
            dx == trade_denominator(x, reserve_sell),
            dy == trade_denominator(y, reserve_sell),
            k == FEE_PRECISION - FEE,
            f == FEE_PRECISION,
            rs == reserve_sell,
            rb == reserve_buy,
    ;
    lemma_div_bracket(nx, dx);
    let q = nx / dx;
    assert(dy >= dx) by (nonlinear_arith)
        requires
            dx == rs * f + k * x,
            dy == rs * f + k * y,
            x <= y,
            k > 0,
    ;
    assert(q * dy <= ny) by (nonlinear_arith)
        requires
            q >= 0,
            dx > 0,
            dx * q <= nx,
            nx == k * x * rb,
            ny == k * y * rb,
            dx == rs * f + k * x,
            dy == rs * f + k * y,
            x <= y,
            k > 0,
            f > 0,
            rs >= 0,
            rb >= 0,
    ;
    lemma_div_lower(q, ny, dy);
}

/// Selling nothing buys nothing.
pub proof fn lemma_zero_trade(reserve_sell: nat, reserve_buy: nat)
    requires
        trade_denominator(0, reserve_sell) > 0,
    ensures
        amount_out_of(0, reserve_sell, reserve_buy) == 0,
{
    assert(trade_numerator(0, reserve_buy) == 0);
}

/// With both reserves nonempty the pool never pays out its whole reserve.
pub proof fn lemma_amount_out_below_reserve(amount: nat, reserve_sell: nat, reserve_buy: nat)
    requires
        reserve_sell > 0,
        reserve_buy > 0,
    ensures
        amount_out_of(amount, reserve_sell, reserve_buy) < reserve_buy,
{
    let n = trade_numerator(amount, reserve_buy) as int;
    let d = trade_denominator(amount, reserve_sell) as int;
    let l = less_fee(amount) as int;
    assert(n == l * reserve_buy && d > l) by (nonlinear_arith)
        requires
            n == trade_numerator(amount, reserve_buy),
            d == trade_denominator(amount, reserve_sell),
            l == less_fee(amount),
            reserve_sell > 0,
    ;
    lemma_div_bracket(n, d);
    let q = n / d;
    assert(q < reserve_buy) by (nonlinear_arith)
        requires
            d * q <= n,
            n == l * reserve_buy,
            d > l,
            l >= 0,
            reserve_buy > 0,
    ;
}

/// A trade never lowers the product of the two reserves.
pub proof fn lemma_trade_keeps_product(amount: nat, reserve_sell: nat, reserve_buy: nat)
    requires
        trade_denominator(amount, reserve_sell) > 0,
    ensures
        amount_out_of(amount, reserve_sell, reserve_buy) <= reserve_buy,
        (reserve_sell + amount) * (reserve_buy - amount_out_of(amount, reserve_sell, reserve_buy))
            >= reserve_sell * reserve_buy,
{
    let k = (FEE_PRECISION - FEE) as int;
    let f = FEE_PRECISION as int;
    let (a, rs, rb) = (amount as int, reserve_sell as int, reserve_buy as int);
    let n = trade_numerator(amount, reserve_buy) as int;
    let d = trade_denominator(amount, reserve_sell) as int;
    assert(n == k * a * rb && d == rs * f + k * a) by (nonlinear_arith)
        requires
            n == trade_numerator(amount, reserve_buy),
            d == trade_denominator(amount, reserve_sell),
            k == FEE_PRECISION - FEE,
            f == FEE_PRECISION,
            a == amount,
            rs == reserve_sell,
            rb == reserve_buy,
    ;
    lemma_div_bracket(n, d);
    let q = n / d;
    assert(q * (rs + a) <= a * rb) by (nonlinear_arith)
        requires
            d * q <= n,
            n == k * a * rb,
            d == rs * f + k * a,
            0 < k <= f,
            q >= 0,
            rs >= 0,
            a >= 0,
    ;
    assert(q <= rb && (rs + a) * (rb - q) >= rs * rb) by (nonlinear_arith)
        requires
            q * (rs + a) <= a * rb,
            d * q <= n,
            n == k * a * rb,
            d == rs * f + k * a,
            0 < k <= f,
            d > 0,
            q >= 0,
            rs >= 0,
            a >= 0,
            rb >= 0,
    ;
}

/// Spot prices quoted each way, with the same precision `10^-decimals`, multiply
/// to at most one, and fall short of one by less than `(r_a/r_b + r_b/r_a)`
/// units of the last digit; for equal reserves they multiply to exactly one.
///
/// Over mantissas `p`, `q` and `t = 10^decimals`: `p * q <= t * t` and
/// `r_a * r_b * (t * t - p * q) < (r_a * r_a + r_b * r_b) * t`.
pub proof fn lemma_spot_price_reciprocal(reserve_a: nat, reserve_b: nat, decimals: nat)
    requires
        reserve_a > 0,
        reserve_b > 0,
    ensures
        spot_mantissa(reserve_a, reserve_b, decimals) * spot_mantissa(reserve_b, reserve_a, decimals)
            <= pow10(decimals) * pow10(decimals),
        reserve_a * reserve_b * (pow10(decimals) * pow10(decimals) - spot_mantissa(reserve_a, reserve_b, decimals)
            * spot_mantissa(reserve_b, reserve_a, decimals)) < (reserve_a * reserve_a + reserve_b * reserve_b)
            * pow10(decimals),
        reserve_a == reserve_b ==> spot_mantissa(reserve_a, reserve_b, decimals) * spot_mantissa(
            reserve_b,
            reserve_a,
            decimals,
        ) == pow10(decimals) * pow10(decimals),
{
    let t = pow10(decimals) as int;
    lemma_pow10_positive(decimals);
    let (ra, rb) = (reserve_a as int, reserve_b as int);
    assert(ra * t >= 0 && rb * t >= 0) by (nonlinear_arith)
        requires
            ra > 0,
            rb > 0,
            t > 0,
    ;
    lemma_div_bracket(ra * t, rb);
    lemma_div_bracket(rb * t, ra);
    let p = (ra * t) / rb;
    let q = (rb * t) / ra;
    let e1 = ra * t - rb * p;
    let e2 = rb * t - ra * q;
    assert(p * q <= t * t) by (nonlinear_arith)
        requires
            rb * p <= ra * t,
            ra * q <= rb * t,
            p >= 0,
            q >= 0,
            ra > 0,
            rb > 0,
    ;
    let x = ra * t;
    let y = rb * t;
    let (pp, qq) = (rb * p, ra * q);
    assert(ra * rb * (t * t) == x * y && ra * rb * (p * q) == pp * qq) by (nonlinear_arith)
        requires
            x == ra * t,
            y == rb * t,
            pp == rb * p,
            qq == ra * q,
    ;
    assert(x * y - pp * qq == x * e2 + y * e1 - e1 * e2) by (nonlinear_arith)
        requires
            x == e1 + pp,
            y == e2 + qq,
    ;
    assert(ra * rb * (t * t) - ra * rb * (p * q) == ra * rb * (t * t - p * q)) by (nonlinear_arith);
    assert(x * e2 + y * e1 - e1 * e2 < (ra * ra + rb * rb) * t) by (nonlinear_arith)
        requires
            x == ra * t,
            y == rb * t,
            0 <= e1 < rb,
            0 <= e2 < ra,
            t > 0,
    ;
    if ra == rb {
        vstd::arithmetic::div_mod::lemma_div_multiples_vanish(t, ra);
        assert(ra * t == t * ra) by (nonlinear_arith);
    }
}

/// A pool that prices by the constant-product rule.
///
/// The reserve of `token_0` is `reserve_0`, that of `token_1` is `reserve_1`;
/// they are looked up by symbol.
#[derive(Clone, Debug)]
pub struct UniswapV2Pool {
    pub address: Address,
    pub token_0: ERC20Token,
    pub token_1: ERC20Token,
    pub reserve_0: U256,
    pub reserve_1: U256,
}

impl UniswapV2Pool {
    /// A pool at `address` trading `token_0` and `token_1`, holding `reserve_0`
    /// and `reserve_1` of them.
    pub fn new(address: Address, token_0: ERC20Token, token_1: ERC20Token, reserve_0: U256, reserve_1: U256) -> (r: UniswapV2Pool)
        ensures
            r.address == address,
            r.token_0 == token_0,
            r.token_1 == token_1,
            r.reserve_0 == reserve_0,
            r.reserve_1 == reserve_1,
    {
        UniswapV2Pool { address, token_0, token_1, reserve_0, reserve_1 }
    }

    /// The reserves, keyed by token symbol. Should both tokens share a symbol,
    /// the key holds `reserve_0`.
    pub open spec fn reserves(&self) -> Map<Seq<char>, nat> {
        Map::empty().insert(self.token_1.symbol@, self.reserve_1@).insert(
            self.token_0.symbol@,
            self.reserve_0@,
        )
    }

    /// The outcome of selling `amount` of the token keyed `sell` for the one keyed `buy`.
    pub open spec fn trade_ensures(
        &self,
        amount: nat,
        sell: Seq<char>,
        buy: Seq<char>,
        r: Result<(U256, UniswapV2Pool), PoolSimulationError>,
    ) -> bool {
        let res = self.reserves();
        if !res.contains_key(sell) || !res.contains_key(buy) {
            r == Err::<(U256, UniswapV2Pool), PoolSimulationError>(PoolSimulationError(PoolErrorKind::Lookup))
        } else {
            let rs = res[sell];
            let rb = res[buy];
            if !trade_fits(amount, rs, rb) || trade_denominator(amount, rs) == 0 {
                r == Err::<(U256, UniswapV2Pool), PoolSimulationError>(PoolSimulationError(PoolErrorKind::Arithmetic))
            } else if amount_out_of(amount, rs, rb) >= rb {
                r == Err::<(U256, UniswapV2Pool), PoolSimulationError>(
                    PoolSimulationError(PoolErrorKind::InvariantViolation),
                )
            } else {
                match r {
                    Ok((out, pool)) => {
                        &&& out@ == amount_out_of(amount, rs, rb)
                        &&& pool.address == self.address
                        &&& pool.token_0 == self.token_0
                        &&& pool.token_1 == self.token_1
                        &&& pool.reserves() == res.insert(sell, rs + amount).insert(buy, (rb - out@) as nat)
                    },
                    Err(_) => false,
                }
            }
        }
    }

    /// The spot price of the token keyed `a` quoted in the token keyed `b`,
    /// which has `decimals` fractional digits.
    pub open spec fn price_ensures(
        &self,
        a: Seq<char>,
        b: Seq<char>,
        decimals: u64,
        r: Result<FixedPoint, PoolSimulationError>,
    ) -> bool {
        let res = self.reserves();
        if !res.contains_key(a) || !res.contains_key(b) {
            r == Err::<FixedPoint, PoolSimulationError>(PoolSimulationError(PoolErrorKind::Lookup))
        } else {
            let ra = res[a];
            let rb = res[b];
            let scale = pow10(decimals as nat);
            if scale >= u256_limit() || ra * scale >= u256_limit() || rb == 0 {
                r == Err::<FixedPoint, PoolSimulationError>(PoolSimulationError(PoolErrorKind::Arithmetic))
            } else {
                match r {
                    Ok(p) => p.mantissa@ == spot_mantissa(ra, rb, decimals as nat) && p.scale == decimals,
                    Err(_) => false,
                }
            }
        }
    }

    /// The reserve held for `symbol`.
    pub fn reserve(&self, symbol: &String) -> (r: Result<U256, PoolSimulationError>)
        ensures
            match r {
                Ok(v) => self.reserves().contains_key(symbol@) && v@ == self.reserves()[symbol@],
                Err(e) => !self.reserves().contains_key(symbol@) && e == PoolSimulationError(PoolErrorKind::Lookup),
            },
    {
        if *symbol == self.token_0.symbol {
            Ok(self.reserve_0)
        } else if *symbol == self.token_1.symbol {
            Ok(self.reserve_1)
        } else {
            Err(PoolSimulationError(PoolErrorKind::Lookup))
        }
    }

    fn trade(&self, sell_amount: U256, sell_token: &ERC20Token, buy_token: &ERC20Token) -> (r: Result<(U256, UniswapV2Pool), PoolSimulationError>)
        requires
            sell_token.symbol@ != buy_token.symbol@,
        ensures
            self.trade_ensures(sell_amount@, sell_token.symbol@, buy_token.symbol@, r),
    {
        let reserves_sell = match self.reserve(&sell_token.symbol) {
            Ok(v) => v,
            Err(e) => return Err(e),
        };
        let reserves_buy = match self.reserve(&buy_token.symbol) {
            Ok(v) => v,
            Err(e) => return Err(e),
        };
        let ghost amount = sell_amount@;
        let ghost rs = reserves_sell@;
        let ghost rb = reserves_buy@;
        let sell_amount_less_fee = match sell_amount.checked_mul(U256::from_u64(FEE_PRECISION - FEE)) {
            Some(v) => v,
            None => return Err(PoolSimulationError(PoolErrorKind::Arithmetic)),
        };
        let numerator = match sell_amount_less_fee.checked_mul(reserves_buy) {
            Some(v) => v,
            None => return Err(PoolSimulationError(PoolErrorKind::Arithmetic)),
        };
        let scaled_reserve = match reserves_sell.checked_mul(U256::from_u64(FEE_PRECISION)) {
            Some(v) => v,
            None => return Err(PoolSimulationError(PoolErrorKind::Arithmetic)),
        };
        let denominator = match scaled_reserve.checked_add(sell_amount_less_fee) {
            Some(v) => v,
            None => return Err(PoolSimulationError(PoolErrorKind::Arithmetic)),
        };
        let amount_out = match numerator.checked_div(denominator) {
            Some(v) => v,
            None => return Err(PoolSimulationError(PoolErrorKind::Arithmetic)),
        };
        let new_buy_reserves = match reserves_buy.checked_sub(amount_out) {
            Some(v) => v,
            None => return Err(PoolSimulationError(PoolErrorKind::InvariantViolation)),
        };
        if new_buy_reserves.is_zero() {
            return Err(PoolSimulationError(PoolErrorKind::InvariantViolation));
        }
        proof {
            assert(rs <= rs * (FEE_PRECISION as nat) && amount <= less_fee(amount)) by (nonlinear_arith);
        }
        let new_sell_reserves = match reserves_sell.checked_add(sell_amount) {
            Some(v) => v,
            None => return Err(PoolSimulationError(PoolErrorKind::Arithmetic)),
        };
        let (reserve_0, reserve_1) = if sell_token.symbol == self.token_0.symbol {
            (new_sell_reserves, new_buy_reserves)
        } else {
            (new_buy_reserves, new_sell_reserves)
        };
        let updated_pool = UniswapV2Pool {
            address: self.address,
            token_0: self.token_0.duplicate(),
            token_1: self.token_1.duplicate(),
            reserve_0,
            reserve_1,
        };
        assert(updated_pool.reserves() =~= self.reserves().insert(sell_token.symbol@, rs + amount).insert(
            buy_token.symbol@,
            (rb - amount_out@) as nat,
        ));
        Ok((amount_out, updated_pool))
    }
}

impl Pool for UniswapV2Pool {
    open spec fn spot_price_ensures(&self, a: ERC20Token, b: ERC20Token, r: Result<FixedPoint, PoolSimulationError>) -> bool {
        self.price_ensures(a.symbol@, b.symbol@, b.decimals, r)
    }

    open spec fn fee_ensures(&self, a: ERC20Token, b: ERC20Token, r: FeeFraction) -> bool {
        &&& r.numerator == FEE
        &&& r.denominator == FEE_PRECISION
        &&& r.numerator * 1000 == 3 * r.denominator
    }

    open spec fn get_amount_out_ensures(
        &self,
        sell_amount: U256,
        sell_token: ERC20Token,
        buy_token: ERC20Token,
        r: Result<(U256, UniswapV2Pool), PoolSimulationError>,
    ) -> bool {
        self.trade_ensures(sell_amount@, sell_token.symbol@, buy_token.symbol@, r)
    }

    open spec fn inertia_ensures(&self, a: ERC20Token, b: ERC20Token, r: U256) -> bool {
        r@ == 0
    }

    fn spot_price(&self, a: &ERC20Token, b: &ERC20Token) -> (r: Result<FixedPoint, PoolSimulationError>) {
        let r1 = match self.reserve(&a.symbol) {
            Ok(v) => v,
            Err(e) => return Err(e),
        };
        let r2 = match self.reserve(&b.symbol) {
            Ok(v) => v,
            Err(e) => return Err(e),
        };
        let scale = match power_of_ten(b.decimals) {
            Some(v) => v,
            None => return Err(PoolSimulationError(PoolErrorKind::Arithmetic)),
        };
        let scaled = match r1.checked_mul(scale) {
            Some(v) => v,
            None => return Err(PoolSimulationError(PoolErrorKind::Arithmetic)),
        };
        match scaled.checked_div(r2) {
            Some(m) => Ok(FixedPoint { mantissa: m, scale: b.decimals }),
            None => Err(PoolSimulationError(PoolErrorKind::Arithmetic)),
        }
    }

    fn fee(&self, a: &ERC20Token, b: &ERC20Token) -> (r: FeeFraction) {
        FeeFraction { numerator: FEE, denominator: FEE_PRECISION }
    }

    fn get_amount_out(&self, sell_amount: U256, sell_token: &ERC20Token, buy_token: &ERC20Token) -> (r: Result<(U256, UniswapV2Pool), PoolSimulationError>) {
        self.trade(sell_amount, sell_token, buy_token)
    }

    fn inertia(&self, a: &ERC20Token, b: &ERC20Token) -> (r: U256) {
        U256::zero()
    }
}

} // verus!
