use amm_pool::{Address, ERC20Token, FixedPoint, Pool, PoolErrorKind, PoolSimulationError, UniswapV2Pool, U256};
use rust_decimal::Decimal;

fn token(symbol: &str, decimals: u64) -> ERC20Token {
    ERC20Token {
        chain: String::from("ethereum"),
        decimals,
        symbol: String::from(symbol),
        address: Address::zero(),
    }
}

fn wide(digits: &str) -> U256 {
    let v = ethereum_types::U256::from_str_radix(digits, 10).unwrap();
    U256(v.0[0], v.0[1], v.0[2], v.0[3])
}

fn to_decimal(p: &FixedPoint) -> Decimal {
    assert_eq!(p.mantissa.2, 0);
    assert_eq!(p.mantissa.3, 0);
    let m = (p.mantissa.0 as i128) | ((p.mantissa.1 as i128) << 64);
    Decimal::from_i128_with_scale(m, p.scale as u32)
}

fn pool_with(r0: U256, r1: U256) -> UniswapV2Pool {
    UniswapV2Pool {
        address: Address::zero(),
        token_0: token("ShitCoin1", 18),
        token_1: token("ShitCoin2", 18),
        reserve_0: r0,
        reserve_1: r1,
    }
}

fn create_test_pool() -> UniswapV2Pool {
    pool_with(U256::from_u64(15000000000_u64), U256::from_u64(10000000000_u64))
}

#[test]
fn test_pool_attributes() {
    let usv2_pool = create_test_pool();
    let (a, b) = (&usv2_pool.token_0, &usv2_pool.token_1);

    assert_eq!(usv2_pool.reserve(&a.symbol).unwrap(), wide("15000000000"));
    let fee = usv2_pool.fee(a, b);
    assert_eq!(fee.numerator as f64 / fee.denominator as f64, 0.003)
}

#[test]
fn test_spot_prices() {
    let usv2_pool = create_test_pool();
    let (a, b) = (&usv2_pool.token_0, &usv2_pool.token_1);

    assert_eq!(
        to_decimal(&usv2_pool.spot_price(a, b).unwrap()),
        Decimal::from_str_exact("1.500000000000000000").unwrap()
    );
    assert_eq!(
        to_decimal(&usv2_pool.spot_price(b, a).unwrap()),
        Decimal::from_str_exact("0.666666666666666666").unwrap()
    );
}

#[test]
fn test_get_amount_out() {
    let usv2_pool = create_test_pool();
    let (a, b) = (&usv2_pool.token_0, &usv2_pool.token_1);

    let (amount, new_pool) = usv2_pool.get_amount_out(U256::from_u64(100000_u64), a, b).unwrap();

    assert!(!amount.is_zero());
    assert_eq!(new_pool.address, usv2_pool.address);
    assert_ne!(
        (new_pool.reserve_0, new_pool.reserve_1),
        (usv2_pool.reserve_0, usv2_pool.reserve_1)
    );
}

#[test]
fn test_real_pool() {
    let usv2pool = pool_with(wide("6770398782322527849696614"), wide("5124813135806900540214"));
    let (amount_out, _) = usv2pool
        .get_amount_out(wide("10000000000000000000000"), &usv2pool.token_0, &usv2pool.token_1)
        .unwrap();

    assert_eq!(amount_out, wide("7535635391574243447"))
}

#[test]
fn fee_ignores_argument_order() {
    let pool = create_test_pool();
    let (a, b) = (&pool.token_0, &pool.token_1);
    assert_eq!(pool.fee(a, b), pool.fee(b, a));
    assert_eq!(pool.fee(a, b).numerator, 30000);
    assert_eq!(pool.fee(a, b).denominator, 10000000);
}

#[test]
fn spot_prices_multiply_close_to_one() {
    let pool = create_test_pool();
    let (a, b) = (&pool.token_0, &pool.token_1);
    let p = to_decimal(&pool.spot_price(a, b).unwrap());
    let q = to_decimal(&pool.spot_price(b, a).unwrap());
    let product = p * q;
    let one = Decimal::from(1);
    assert!(product <= one);
    assert!(one - product <= Decimal::from_str_exact("0.000000000000000001").unwrap());
}

#[test]
fn spot_price_of_equal_reserves_is_one() {
    let pool = pool_with(U256::from_u64(777), U256::from_u64(777));
    let (a, b) = (&pool.token_0, &pool.token_1);
    assert_eq!(to_decimal(&pool.spot_price(a, b).unwrap()), Decimal::from(1));
}

#[test]
fn spot_price_uses_quote_decimals() {
    let pool = UniswapV2Pool::new(
        Address::zero(),
        token("AAA", 18),
        token("BBB", 6),
        U256::from_u64(3),
        U256::from_u64(7),
    );
    let p = pool.spot_price(&pool.token_0, &pool.token_1).unwrap();
    assert_eq!(p.scale, 6);
    assert_eq!(p.mantissa, U256::from_u64(428571));
    let q = pool.spot_price(&pool.token_1, &pool.token_0).unwrap();
    assert_eq!(q.scale, 18);
    assert_eq!(q.mantissa, wide("2333333333333333333"));
}

#[test]
fn spot_price_unknown_symbol_is_lookup_error() {
    let pool = create_test_pool();
    let other = token("Other", 18);
    assert_eq!(pool.spot_price(&other, &pool.token_1), Err(PoolSimulationError(PoolErrorKind::Lookup)));
    assert_eq!(pool.spot_price(&pool.token_0, &other), Err(PoolSimulationError(PoolErrorKind::Lookup)));
}

#[test]
fn spot_price_empty_quote_reserve_is_arithmetic_error() {
    let pool = pool_with(U256::from_u64(5), U256::zero());
    assert_eq!(
        pool.spot_price(&pool.token_0, &pool.token_1),
        Err(PoolSimulationError(PoolErrorKind::Arithmetic))
    );
}

#[test]
fn spot_price_too_many_decimals_is_arithmetic_error() {
    let pool = UniswapV2Pool::new(
        Address::zero(),
        token("AAA", 18),
        token("BBB", 78),
        U256::from_u64(1),
        U256::from_u64(1),
    );
    assert_eq!(
        pool.spot_price(&pool.token_0, &pool.token_1),
        Err(PoolSimulationError(PoolErrorKind::Arithmetic))
    );
    let wide_quote = UniswapV2Pool::new(
        Address::zero(),
        token("AAA", 18),
        token("BBB", 77),
        U256::from_u64(2),
        U256::from_u64(1),
    );
    assert_eq!(
        wide_quote.spot_price(&wide_quote.token_1, &wide_quote.token_0).unwrap().mantissa,
        wide("500000000000000000")
    );
    assert_eq!(
        wide_quote.spot_price(&wide_quote.token_0, &wide_quote.token_1),
        Err(PoolSimulationError(PoolErrorKind::Arithmetic))
    );
}

#[test]
fn trade_amount_grows_with_amount_sold() {
    let pool = create_test_pool();
    let (a, b) = (&pool.token_0, &pool.token_1);
    let mut last = U256::zero();
    for x in [0_u64, 1, 2, 10, 1000, 100000, 5000000000, 15000000000, 1000000000000] {
        let (out, _) = pool.get_amount_out(U256::from_u64(x), a, b).unwrap();
        let (o, l) = (
            ethereum_types::U256([out.0, out.1, out.2, out.3]),
            ethereum_types::U256([last.0, last.1, last.2, last.3]),
        );
        assert!(o >= l);
        last = out;
    }
}

#[test]
fn trade_formula_exact_value() {
    let pool = create_test_pool();
    let (a, b) = (&pool.token_0, &pool.token_1);
    // 100000 * 9970000 * 10^10 / (1.5 * 10^10 * 10^7 + 100000 * 9970000)
    let (out, _) = pool.get_amount_out(U256::from_u64(100000), a, b).unwrap();
    assert_eq!(out, U256::from_u64(66466));
}

#[test]
fn trade_moves_reserves_exactly() {
    let pool = create_test_pool();
    let (a, b) = (&pool.token_0, &pool.token_1);
    let (out, after) = pool.get_amount_out(U256::from_u64(100000), a, b).unwrap();
    assert_eq!(after.reserve(&a.symbol).unwrap(), U256::from_u64(15000000000 + 100000));
    assert_eq!(after.reserve(&b.symbol).unwrap(), U256::from_u64(10000000000 - out.0));

    let (out, after) = pool.get_amount_out(U256::from_u64(100000), b, a).unwrap();
    assert_eq!(out, U256::from_u64(149548));
    assert_eq!(after.reserve_1, U256::from_u64(10000000000 + 100000));
    assert_eq!(after.reserve_0, U256::from_u64(15000000000 - 149548));
}

#[test]
fn trade_leaves_pool_unchanged() {
    let pool = create_test_pool();
    let before = pool.clone();
    let (_, after) = pool.get_amount_out(U256::from_u64(100000), &pool.token_0, &pool.token_1).unwrap();
    assert_eq!(pool.reserve_0, before.reserve_0);
    assert_eq!(pool.reserve_1, before.reserve_1);
    assert_eq!(after.address, pool.address);
    assert_eq!(after.token_0.symbol, pool.token_0.symbol);
    assert_eq!(after.token_1.symbol, pool.token_1.symbol);
}

#[test]
fn zero_trade_buys_nothing() {
    let pool = create_test_pool();
    let (out, after) = pool.get_amount_out(U256::zero(), &pool.token_0, &pool.token_1).unwrap();
    assert_eq!(out, U256::zero());
    assert_eq!(after.reserve_0, pool.reserve_0);
    assert_eq!(after.reserve_1, pool.reserve_1);
}

#[test]
fn trade_unknown_symbol_is_lookup_error() {
    let pool = create_test_pool();
    let other = token("Other", 18);
    assert_eq!(
        pool.get_amount_out(U256::from_u64(1), &other, &pool.token_1).err(),
        Some(PoolSimulationError(PoolErrorKind::Lookup))
    );
    assert_eq!(
        pool.get_amount_out(U256::from_u64(1), &pool.token_0, &other).err(),
        Some(PoolSimulationError(PoolErrorKind::Lookup))
    );
}

#[test]
fn trade_overflow_is_arithmetic_error() {
    let pool = pool_with(wide("1000000000000000000000000000000000000000"), wide("1000000000000000000000000000000000000000"));
    let amount = wide("100000000000000000000000000000000000000000");
    assert_eq!(
        pool.get_amount_out(amount, &pool.token_0, &pool.token_1).err(),
        Some(PoolSimulationError(PoolErrorKind::Arithmetic))
    );
}

#[test]
fn trade_from_empty_pool_is_arithmetic_error() {
    let pool = pool_with(U256::zero(), U256::from_u64(10));
    assert_eq!(
        pool.get_amount_out(U256::zero(), &pool.token_0, &pool.token_1).err(),
        Some(PoolSimulationError(PoolErrorKind::Arithmetic))
    );
}

#[test]
fn trade_draining_reserve_is_invariant_violation() {
    let pool = pool_with(U256::zero(), U256::from_u64(10));
    assert_eq!(
        pool.get_amount_out(U256::from_u64(5), &pool.token_0, &pool.token_1).err(),
        Some(PoolSimulationError(PoolErrorKind::InvariantViolation))
    );
    let empty_buy = pool_with(U256::from_u64(10), U256::zero());
    assert_eq!(
        empty_buy.get_amount_out(U256::from_u64(5), &empty_buy.token_0, &empty_buy.token_1).err(),
        Some(PoolSimulationError(PoolErrorKind::InvariantViolation))
    );
}

#[test]
fn inertia_is_zero() {
    let pool = create_test_pool();
    assert_eq!(pool.inertia(&pool.token_0, &pool.token_1), U256::zero());
}

#[test]
fn reserve_lookup_by_symbol() {
    let pool = create_test_pool();
    assert_eq!(pool.reserve(&String::from("ShitCoin2")), Ok(U256::from_u64(10000000000)));
    assert_eq!(pool.reserve(&String::from("Nope")), Err(PoolSimulationError(PoolErrorKind::Lookup)));
}
