use polymarket_rs::decimal::Dec;
use polymarket_rs::error::Error;
use polymarket_rs::rounding::{
    decimal_to_token_u64, fix_amount_rounding, to_token_units, lookup_config, round_price, round_size,
    token_u64_to_decimal, RoundConfig, RoundingTable,
};

fn cfg(table: &RoundingTable, tick: Dec) -> RoundConfig {
    lookup_config(table, &tick).unwrap()
}

#[test]
fn test_rounding_configs_exist() {
    let table = RoundingTable::standard();
    assert!(table.contains_key(&Dec::new(1, 1)));
    assert!(table.contains_key(&Dec::new(1, 2)));
    assert!(table.contains_key(&Dec::new(1, 3)));
    assert!(table.contains_key(&Dec::new(1, 4)));
}

#[test]
fn test_decimal_to_token() {
    let result = decimal_to_token_u64(Dec::new(15, 1));
    assert_eq!(result, 1_500_000);
}

#[test]
fn standard_table_rules() {
    let table = RoundingTable::standard();
    assert_eq!(cfg(&table, Dec::new(1, 1)), RoundConfig { price: 1, size: 2, amount: 3 });
    assert_eq!(cfg(&table, Dec::new(1, 2)), RoundConfig { price: 2, size: 2, amount: 4 });
    assert_eq!(cfg(&table, Dec::new(1, 3)), RoundConfig { price: 3, size: 2, amount: 5 });
    assert_eq!(cfg(&table, Dec::new(1, 4)), RoundConfig { price: 4, size: 2, amount: 6 });
}

#[test]
fn tick_lookup_goes_by_value() {
    let table = RoundingTable::standard();
    assert!(table.contains_key(&Dec::new(10, 2)));
    assert_eq!(cfg(&table, Dec::new(100, 4)), RoundConfig { price: 2, size: 2, amount: 4 });
}

#[test]
fn unknown_tick_is_invalid_parameter() {
    let table = RoundingTable::standard();
    assert!(!table.contains_key(&Dec::new(5, 2)));
    assert!(matches!(lookup_config(&table, &Dec::new(5, 2)), Err(Error::InvalidParameter(_))));
    assert!(matches!(lookup_config(&table, &Dec::new(1, 5)), Err(Error::InvalidParameter(_))));
}

#[test]
fn round_price_half_away_from_zero() {
    let c = RoundConfig { price: 2, size: 2, amount: 4 };
    assert_eq!(round_price(Dec::new(5551, 4), &c), Dec::new(56, 2));
    assert_eq!(round_price(Dec::new(555, 3), &c), Dec::new(56, 2));
    assert_eq!(round_price(Dec::new(554, 3), &c), Dec::new(55, 2));
    assert_eq!(round_size(Dec::new(10125, 3), &c), Dec::new(1013, 2));
}

#[test]
fn rounding_leaves_values_within_precision_untouched() {
    let c = RoundConfig { price: 3, size: 2, amount: 5 };
    assert_eq!(round_price(Dec::new(5, 1), &c), Dec::new(5, 1));
    assert_eq!(round_size(Dec::new(12, 0), &c), Dec::new(12, 0));
}

#[test]
fn rounding_is_idempotent_for_every_tick() {
    let table = RoundingTable::standard();
    for k in 1..=4u32 {
        let c = cfg(&table, Dec::new(1, k));
        for x in [Dec::new(123456789, 8), Dec::new(5, 1), Dec::new(-987654, 5), Dec::new(45, 3)] {
            let p = round_price(x, &c);
            assert_eq!(round_price(p, &c), p);
            let s = round_size(x, &c);
            assert_eq!(round_size(s, &c), s);
        }
    }
}

#[test]
fn fix_amount_rounds_in_two_stages() {
    let c = RoundConfig { price: 2, size: 2, amount: 4 };
    assert_eq!(fix_amount_rounding(Dec::new(1234567891, 9), &c), Dec::new(12345, 4));
    assert_eq!(fix_amount_rounding(Dec::new(1234510, 6), &c), Dec::new(12345, 4));
    assert_eq!(fix_amount_rounding(Dec::new(12345, 4), &c), Dec::new(12345, 4));
    assert_eq!(fix_amount_rounding(Dec::new(5566, 3), &c), Dec::new(5566, 3));
}

#[test]
fn fix_amount_never_exceeds_amount_places() {
    let c = RoundConfig { price: 4, size: 2, amount: 6 };
    for x in [Dec::new(1, 28), Dec::new(999999999999999999, 18), Dec::new(123456789, 7)] {
        assert!(fix_amount_rounding(x, &c).scale <= 6);
    }
}

#[test]
fn token_units_round_half_toward_zero() {
    assert_eq!(decimal_to_token_u64(Dec::new(5, 7)), 0);
    assert_eq!(decimal_to_token_u64(Dec::new(15, 7)), 1);
    assert_eq!(decimal_to_token_u64(Dec::new(16, 7)), 2);
    assert_eq!(decimal_to_token_u64(Dec::new(42, 0)), 42_000_000);
}

#[test]
fn token_units_of_any_scale() {
    let max = Dec { mantissa: 79228162514264337593543950335, scale: 28 };
    assert_eq!(decimal_to_token_u64(max), 7_922_816);
    assert_eq!(decimal_to_token_u64(Dec::new(15000000, 7)), 1_500_000);
    assert_eq!(decimal_to_token_u64(Dec { mantissa: 25, scale: 28 }), 0);
    assert_eq!(to_token_units(Dec::new(-1, 0)), None);
    assert_eq!(to_token_units(Dec::new(18_446_744_073_709_552, 0)), None);
    assert_eq!(to_token_units(Dec::new(18_446_744_073_709, 0)), Some(18_446_744_073_709_000_000));
}

#[test]
fn token_units_round_trip() {
    for x in [Dec::new(15, 1), Dec::new(123456, 6), Dec::new(7, 0), Dec::new(0, 3), Dec::new(4167, 4)] {
        let back = token_u64_to_decimal(decimal_to_token_u64(x));
        assert_eq!(back.scale, 6);
        assert_eq!(back.mantissa, x.mantissa * 10i128.pow(6 - x.scale));
    }
}
