use polymarket_rs::client::TradingClient;
use polymarket_rs::decimal::{Dec, MAX_MANTISSA};
use polymarket_rs::error::Error;
use polymarket_rs::orders::{
    calculate_market_price, fill_cost, get_order_amounts, CreateOrderOptions, ExtraOrderArgs,
    MarketOrderArgs, OrderArgs, OrderBookSummary, OrderBuilder, PriceLevel, Side, SignatureType,
    ZERO_ADDRESS,
};
use polymarket_rs::rounding::{round_price, RoundConfig};
use polymarket_rs::signing::ApiCreds;

fn level(p: i64, ps: u32, s: i64, ss: u32) -> PriceLevel {
    PriceLevel { price: Dec::new(p, ps), size: Dec::new(s, ss) }
}

fn asks() -> Vec<PriceLevel> {
    vec![level(40, 2, 10, 0), level(45, 2, 20, 0)]
}

fn client() -> TradingClient {
    let creds = ApiCreds::new("key".to_string(), "c2VjcmV0LWtleS0xMjM0NTY3ODkw".to_string(), "pass".to_string());
    let builder = OrderBuilder::new("0xsigner".to_string(), SignatureType::Eoa, None);
    TradingClient::new("https://clob.example.com", 137, creds, builder)
}

fn options(tick: Dec) -> CreateOrderOptions {
    CreateOrderOptions { tick_size: Some(tick), neg_risk: Some(false) }
}

#[test]
fn market_price_is_size_weighted_average() {
    let p = calculate_market_price(&asks(), Dec::new(15, 0)).unwrap();
    let rounded = round_price(p, &RoundConfig { price: 4, size: 2, amount: 6 });
    assert_eq!(rounded, Dec::new(4167, 4));
    let cost = fill_cost(&asks(), Dec::new(15, 0)).unwrap();
    assert_eq!(cost.mantissa * 100 / 10i128.pow(cost.scale), 625);
}

#[test]
fn market_price_needs_enough_depth() {
    assert!(matches!(calculate_market_price(&asks(), Dec::new(40, 0)), Err(Error::InvalidOrder(_))));
    assert!(matches!(calculate_market_price(&Vec::new(), Dec::new(1, 0)), Err(Error::InvalidOrder(_))));
}

#[test]
fn market_price_refuses_non_positive_amount() {
    assert!(matches!(calculate_market_price(&asks(), Dec::new(0, 0)), Err(Error::InvalidParameter(_))));
}

#[test]
fn market_price_within_first_level() {
    let p = calculate_market_price(&asks(), Dec::new(10, 0)).unwrap();
    assert_eq!(round_price(p, &RoundConfig { price: 2, size: 2, amount: 4 }), Dec::new(40, 2));
}

#[test]
fn limit_order_amounts_by_side() {
    let c = RoundConfig { price: 2, size: 2, amount: 4 };
    assert_eq!(get_order_amounts(Side::Buy, Dec::new(55, 2), Dec::new(10123, 3), &c).unwrap(), (5_566_000, 10_120_000));
    assert_eq!(get_order_amounts(Side::Sell, Dec::new(55, 2), Dec::new(10123, 3), &c).unwrap(), (10_120_000, 5_566_000));
}

#[test]
fn amounts_out_of_range_are_refused() {
    let c = RoundConfig { price: 2, size: 2, amount: 4 };
    assert!(matches!(get_order_amounts(Side::Buy, Dec::new(-55, 2), Dec::new(10, 0), &c), Err(Error::InvalidOrder(_))));
}

#[test]
fn overflowing_products_are_decimal_errors() {
    let huge = Dec { mantissa: MAX_MANTISSA, scale: 0 };
    let c = RoundConfig { price: 2, size: 2, amount: 4 };
    assert!(matches!(get_order_amounts(Side::Buy, huge, Dec::new(2, 0), &c), Err(Error::Decimal(_))));
    let book = vec![PriceLevel { price: huge, size: Dec::new(10, 0) }];
    assert!(matches!(calculate_market_price(&book, Dec::new(2, 0)), Err(Error::Decimal(_))));
}

#[test]
fn create_order_fills_every_field() {
    let c = client();
    let args = OrderArgs { token_id: "123".to_string(), price: Dec::new(55, 2), size: Dec::new(10123, 3), side: Side::Buy };
    let o = c.create_order(&args, None, None, options(Dec::new(1, 2)), 42).unwrap();
    assert_eq!(o.maker_amount, 5_566_000);
    assert_eq!(o.taker_amount, 10_120_000);
    assert_eq!(o.salt, 42);
    assert_eq!(o.expiration, 0);
    assert_eq!(o.maker, "0xsigner");
    assert_eq!(o.signer, "0xsigner");
    assert_eq!(o.taker, ZERO_ADDRESS);
    assert_eq!(o.token_id, "123");
    assert_eq!(o.nonce, 0);
    assert_eq!(o.fee_rate_bps, 0);
    assert_eq!(o.side, Side::Buy);
    assert_eq!(o.signature_type, SignatureType::Eoa);
    assert!(!o.neg_risk);
}

#[test]
fn create_order_is_deterministic() {
    let c = client();
    let args = OrderArgs { token_id: "9".to_string(), price: Dec::new(3333, 4), size: Dec::new(77777, 3), side: Side::Sell };
    let a = c.create_order(&args, Some(1_800_000_000), None, options(Dec::new(1, 3)), 7).unwrap();
    let b = c.create_order(&args, Some(1_800_000_000), None, options(Dec::new(1, 3)), 7).unwrap();
    assert_eq!((a.maker_amount, a.taker_amount), (b.maker_amount, b.taker_amount));
    assert_eq!(a.expiration, 1_800_000_000);
}

#[test]
fn funder_is_the_maker() {
    let creds = ApiCreds::new("k".to_string(), "c2VjcmV0LWtleS0xMjM0NTY3ODkw".to_string(), "p".to_string());
    let builder = OrderBuilder::new("0xsigner".to_string(), SignatureType::PolyProxy, Some("0xproxy".to_string()));
    let c = TradingClient::new("h", 137, creds, builder);
    let extras = ExtraOrderArgs { fee_rate_bps: 10, nonce: 3, taker: "0xtaker".to_string() };
    let args = OrderArgs { token_id: "1".to_string(), price: Dec::new(5, 1), size: Dec::new(2, 0), side: Side::Buy };
    let o = c.create_order(&args, None, Some(&extras), options(Dec::new(1, 1)), 1).unwrap();
    assert_eq!(o.maker, "0xproxy");
    assert_eq!(o.signer, "0xsigner");
    assert_eq!(o.taker, "0xtaker");
    assert_eq!((o.fee_rate_bps, o.nonce), (10, 3));
}

#[test]
fn missing_fields_and_unknown_tick() {
    let c = client();
    let args = OrderArgs { token_id: "1".to_string(), price: Dec::new(5, 1), size: Dec::new(2, 0), side: Side::Buy };
    let no_tick = CreateOrderOptions { tick_size: None, neg_risk: Some(false) };
    assert!(matches!(c.create_order(&args, None, None, no_tick, 1), Err(Error::MissingField(_))));
    let no_neg_risk = CreateOrderOptions { tick_size: Some(Dec::new(1, 2)), neg_risk: None };
    assert!(matches!(c.create_order(&args, None, None, no_neg_risk, 1), Err(Error::MissingField(_))));
    assert!(matches!(c.create_order(&args, None, None, options(Dec::new(5, 2)), 1), Err(Error::InvalidParameter(_))));
}

#[test]
fn market_order_takes_from_asks_for_a_buy() {
    let c = client();
    let book = OrderBookSummary { bids: vec![level(39, 2, 100, 0)], asks: asks() };
    let args = MarketOrderArgs { token_id: "5".to_string(), amount: Dec::new(15, 0), side: Side::Buy };
    let o = c.create_market_order(&args, &book, None, options(Dec::new(1, 4)), 9).unwrap();
    assert_eq!(o.maker_amount, 6_250_500);
    assert_eq!(o.taker_amount, 15_000_000);
    assert_eq!(o.expiration, 0);
    let deep = MarketOrderArgs { token_id: "5".to_string(), amount: Dec::new(40, 0), side: Side::Buy };
    assert!(matches!(c.create_market_order(&deep, &book, None, options(Dec::new(1, 4)), 9), Err(Error::InvalidOrder(_))));
}

#[test]
fn market_order_takes_from_bids_for_a_sell() {
    let c = client();
    let book = OrderBookSummary { bids: vec![level(39, 2, 100, 0)], asks: asks() };
    let args = MarketOrderArgs { token_id: "5".to_string(), amount: Dec::new(40, 0), side: Side::Sell };
    let o = c.create_market_order(&args, &book, None, options(Dec::new(1, 2)), 9).unwrap();
    assert_eq!(o.maker_amount, 40_000_000);
    assert_eq!(o.taker_amount, 15_600_000);
}
