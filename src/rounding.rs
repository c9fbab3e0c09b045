//! Precision rules per tick size, and the conversions between decimal amounts
//! and integer token units.

use vstd::prelude::*;
use crate::decimal::{
    abs, pow10, round_dp, round_dp_spec, Dec, RoundingMode,
};
use crate::error::Error;

verus! {

/// Number of places kept for price, size and amount under one tick size.
#[derive(Clone, Copy, Debug, PartialEq, Eq)]
pub struct RoundConfig {
    pub price: u32,
    pub size: u32,
    pub amount: u32,
}

/// Minor units per whole token.
pub const TOKEN_UNITS: i128 = 1000000;

/// Places of a token amount expressed in minor units.
pub const TOKEN_DECIMALS: u32 = 6;

/// The precision rules of the supported tick sizes `10^-k`, k = 1..=4.
pub open spec fn config_for_places(k: nat) -> Option<RoundConfig> {
    if 1 <= k <= 4 {
        Some(RoundConfig { price: k as u32, size: 2, amount: (k + 2) as u32 })
    } else {
        None
    }
}

/// `tick` has the value `10^-k`.
pub open spec fn tick_is(tick: Dec, k: nat) -> bool {
    Dec { mantissa: 1, scale: k as u32 }.value_eq(tick)
}

/// The rule of a tick size, if it is one of the supported ones.
pub open spec fn config_for_tick(tick: Dec) -> Option<RoundConfig> {
    if tick_is(tick, 1) {
        config_for_places(1)
    } else if tick_is(tick, 2) {
        config_for_places(2)
    } else if tick_is(tick, 3) {
        config_for_places(3)
    } else if tick_is(tick, 4) {
        config_for_places(4)
    } else {
        None
    }
}

/// The table that maps each supported tick size to its precision rules.
#[derive(Debug)]
pub struct RoundingTable {
    pub entries: Vec<(Dec, RoundConfig)>,
}

impl RoundingTable {
    /// Every tick in the table is a decimal that `rust_decimal` can hold.
    pub open spec fn wf(&self) -> bool {
        forall|i: int| 0 <= i < self.entries@.len() ==> (#[trigger] self.entries@[i]).0.wf()
            && self.entries@[i].1.amount <= u32::MAX - 4
    }

    /// The four tick sizes the exchange quotes: 0.1, 0.01, 0.001 and 0.0001.
    pub fn standard() -> (r: RoundingTable)
        ensures
            r.wf(),
            r.entries@.len() == 4,
            forall|i: int| 0 <= i < 4 ==> (#[trigger] r.entries@[i]).0 == (Dec { mantissa: 1, scale: (i + 1) as u32 })
                && config_for_places((i + 1) as nat) == Some(r.entries@[i].1),
            forall|t: Dec| #[trigger] r.lookup(t) == config_for_tick(t),
    {
        let mut entries: Vec<(Dec, RoundConfig)> = Vec::new();
        entries.push((Dec::new(1, 1), RoundConfig { price: 1, size: 2, amount: 3 }));
        entries.push((Dec::new(1, 2), RoundConfig { price: 2, size: 2, amount: 4 }));
        entries.push((Dec::new(1, 3), RoundConfig { price: 3, size: 2, amount: 5 }));
        entries.push((Dec::new(1, 4), RoundConfig { price: 4, size: 2, amount: 6 }));
        let r = RoundingTable { entries };
        assert forall|t: Dec| #[trigger] r.lookup(t) == config_for_tick(t) by {
            assert(r.lookup_from(t, 4) is None);
            assert(r.lookup_from(t, 3) == if tick_is(t, 4) { config_for_places(4) } else { None });
            assert(r.lookup_from(t, 2) == if tick_is(t, 3) { config_for_places(3) } else { r.lookup_from(t, 3) });
            assert(r.lookup_from(t, 1) == if tick_is(t, 2) { config_for_places(2) } else { r.lookup_from(t, 2) });
            assert(r.lookup_from(t, 0) == if tick_is(t, 1) { config_for_places(1) } else { r.lookup_from(t, 1) });
        }
        r
    }

    /// The rules of the first entry, from index `i` on, whose tick has the value of `tick`.
    pub open spec fn lookup_from(&self, tick: Dec, i: int) -> Option<RoundConfig>
        decreases self.entries@.len() - i,
    {
        if i < 0 || i >= self.entries@.len() {
            None
        } else if self.entries@[i].0.value_eq(tick) {
            Some(self.entries@[i].1)
        } else {
            self.lookup_from(tick, i + 1)
        }
    }

    pub open spec fn lookup(&self, tick: Dec) -> Option<RoundConfig> {
        self.lookup_from(tick, 0)
    }

    /// Whether some entry has a tick of the same value as `tick`.
    pub fn contains_key(&self, tick: &Dec) -> (r: bool)
        requires
            tick.wf(),
            self.wf(),
        ensures
            r == self.lookup(*tick) is Some,
    {
        match self.get(tick) {
            Some(_) => true,
            None => false,
        }
    }

    /// The rules of the first entry whose tick has the value of `tick`.
    pub fn get(&self, tick: &Dec) -> (r: Option<RoundConfig>)
        requires
            tick.wf(),
            self.wf(),
        ensures
            r == self.lookup(*tick),
            r matches Some(c) ==> c.amount <= u32::MAX - 4,
    {
        let mut i: usize = 0;
        while i < self.entries.len()
            invariant
                i <= self.entries@.len(),
                tick.wf(),
                self.wf(),
                self.lookup(*tick) == self.lookup_from(*tick, i as int),
            decreases self.entries@.len() - i,
        {
            let e = self.entries[i];
            if crate::decimal::dec_le(e.0, *tick) && crate::decimal::dec_le(*tick, e.0) {
                assert(self.entries@[i as int].1.amount <= u32::MAX - 4);
                return Some(e.1);
            }
            i = i + 1;
        }
        None
    }
}

/// Looks up the rules of a tick size; a tick size missing from the table is refused.
pub fn lookup_config(table: &RoundingTable, tick: &Dec) -> (r: Result<RoundConfig, Error>)
    requires
        table.wf(),
        tick.wf(),
    ensures
        table.lookup(*tick) matches Some(c) ==> r == Ok::<RoundConfig, Error>(c),
        table.lookup(*tick) is None ==> r matches Err(Error::InvalidParameter(_)),
        r matches Ok(c) ==> c.amount <= u32::MAX - 4,
{
    match table.get(tick) {
        Some(c) => Ok(c),
        None => Err(Error::InvalidParameter(String::from_str("tick size is not configured"))),
    }
}

/// The price rounded to `cfg.price` places, an exact half away from zero.
pub open spec fn round_price_spec(price: Dec, cfg: RoundConfig) -> Dec {
    round_dp_spec(price, cfg.price, RoundingMode::MidpointAwayFromZero)
}

/// The size rounded to `cfg.size` places, an exact half away from zero.
pub open spec fn round_size_spec(size: Dec, cfg: RoundConfig) -> Dec {
    round_dp_spec(size, cfg.size, RoundingMode::MidpointAwayFromZero)
}

/// Rounds a price to the places its tick size allows; a price already within
/// them is returned untouched.
pub fn round_price(price: Dec, cfg: &RoundConfig) -> (r: Dec)
    requires
        price.wf(),
    ensures
        r == round_price_spec(price, *cfg),
        r.wf(),
        r.places() <= cfg.price,
{
    if price.scale > cfg.price {
        round_dp(price, cfg.price, RoundingMode::MidpointAwayFromZero)
    } else {
        price
    }
}

/// Rounds a size to the places its tick size allows; a size already within
/// them is returned untouched.
pub fn round_size(size: Dec, cfg: &RoundConfig) -> (r: Dec)
    requires
        size.wf(),
    ensures
        r == round_size_spec(size, *cfg),
        r.wf(),
        r.places() <= cfg.size,
{
    if size.scale > cfg.size {
        round_dp(size, cfg.size, RoundingMode::MidpointAwayFromZero)
    } else {
        size
    }
}

/// Rounding a value that is already rounded to `dp` places leaves it unchanged,
/// whatever the strategy; in particular `round_price` and `round_size` are idempotent.
pub proof fn lemma_round_idempotent(x: Dec, dp: u32, mode: RoundingMode)
    ensures
        round_dp_spec(round_dp_spec(x, dp, mode), dp, mode) == round_dp_spec(x, dp, mode),
{
}

/// For every tick rule, rounding a rounded price or size again returns it unchanged.
pub proof fn lemma_round_price_size_idempotent(x: Dec, cfg: RoundConfig)
    ensures
        round_price_spec(round_price_spec(x, cfg), cfg) == round_price_spec(x, cfg),
        round_size_spec(round_size_spec(x, cfg), cfg) == round_size_spec(x, cfg),
{
    lemma_round_idempotent(x, cfg.price, RoundingMode::MidpointAwayFromZero);
    lemma_round_idempotent(x, cfg.size, RoundingMode::MidpointAwayFromZero);
}

/// The amount rounding: first away from zero to `amount + 4` places, then, if
/// still too precise, toward zero to `amount` places.
pub open spec fn fix_amount_spec(amt: Dec, places: u32) -> Dec {
    if amt.scale > places {
        let t = round_dp_spec(amt, (places + 4) as u32, RoundingMode::AwayFromZero);
        if t.scale > places {
            round_dp_spec(t, places, RoundingMode::ToZero)
        } else {
            t
        }
    } else {
        amt
    }
}

/// Brings an amount to the precision of `round_config.amount`.
pub fn fix_amount_rounding(amt: Dec, round_config: &RoundConfig) -> (r: Dec)
    requires
        amt.wf(),
        round_config.amount <= u32::MAX - 4,
    ensures
        r == fix_amount_spec(amt, round_config.amount),
        r.wf(),
        r.places() <= round_config.amount,
{
    let mut amt = amt;
    if amt.scale > round_config.amount {
        amt = round_dp(amt, round_config.amount + 4, RoundingMode::AwayFromZero);
        if amt.scale > round_config.amount {
            amt = round_dp(amt, round_config.amount, RoundingMode::ToZero);
        }
    }
    amt
}

/// Whatever the input's precision, the fixed amount has at most `places` places.
pub proof fn lemma_fix_amount_places(amt: Dec, places: u32)
    requires
        places <= u32::MAX - 4,
    ensures
        fix_amount_spec(amt, places).places() <= places,
{
}

/// The minor units of `amt`: `amt * 10^6` rounded to the nearest integer, an
/// exact half going toward zero. With at most six places this is exact; with
/// more, it is `amt` rounded to six places, read as an integer.
pub open spec fn token_units_spec(amt: Dec) -> int {
    if amt.scale > TOKEN_DECIMALS {
        round_dp_spec(amt, TOKEN_DECIMALS, RoundingMode::MidpointTowardZero).mantissa as int
    } else {
        amt.mantissa * pow10((TOKEN_DECIMALS - amt.scale) as nat)
    }
}

/// Amounts whose minor units are a `u64`.
pub open spec fn token_units_fit(amt: Dec) -> bool {
    &&& amt.wf()
    &&& 0 <= token_units_spec(amt) <= u64::MAX
}

/// `10^k` for the few places below the token precision.
fn small_pow10(k: u32) -> (r: i128)
    requires
        k <= TOKEN_DECIMALS,
    ensures
        r as int == pow10(k as nat),
        1 <= r <= TOKEN_UNITS,
{
    proof {
        reveal_with_fuel(pow10, 7);
    }
    if k == 0 {
        1
    } else if k == 1 {
        10
    } else if k == 2 {
        100
    } else if k == 3 {
        1000
    } else if k == 4 {
        10000
    } else if k == 5 {
        100000
    } else {
        1000000
    }
}

/// The minor units of `amt`, or `None` where they are negative or above `u64::MAX`.
pub fn to_token_units(amt: Dec) -> (r: Option<u64>)
    requires
        amt.wf(),
    ensures
        r == if token_units_fit(amt) { Some(token_units_spec(amt) as u64) } else { None::<u64> },
{
    let units: i128;
    if amt.scale > TOKEN_DECIMALS {
        units = round_dp(amt, TOKEN_DECIMALS, RoundingMode::MidpointTowardZero).mantissa;
    } else {
        let f = small_pow10(TOKEN_DECIMALS - amt.scale);
        assert(-170141183460469231731687303715884105727 <= amt.mantissa * f <= 170141183460469231731687303715884105727) by (nonlinear_arith)
            requires
                -79228162514264337593543950335 <= amt.mantissa <= 79228162514264337593543950335,
                1 <= f <= 1000000,
        ;
        units = amt.mantissa * f;
    }
    if 0 <= units && units <= u64::MAX as i128 {
        Some(units as u64)
    } else {
        None
    }
}

/// Converts a decimal amount to integer minor units (10^-6 of a token).
pub fn decimal_to_token_u64(amt: Dec) -> (r: u64)
    requires
        token_units_fit(amt),
    ensures
        r as int == token_units_spec(amt),
{
    match to_token_units(amt) {
        Some(u) => u,
        None => 0,
    }
}

/// The decimal amount of a count of minor units.
pub fn token_u64_to_decimal(units: u64) -> (r: Dec)
    ensures
        r.mantissa == units as i128,
        r.scale == TOKEN_DECIMALS,
        r.wf(),
{
    Dec { mantissa: units as i128, scale: TOKEN_DECIMALS }
}

pub proof fn lemma_pow10_add(a: nat, b: nat)
    ensures
        pow10(a + b) == pow10(a) * pow10(b),
        pow10(a) > 0,
    decreases a,
{
    if a > 0 {
        lemma_pow10_add((a - 1) as nat, b);
        assert(pow10(a + b) == 10 * pow10((a - 1 + b) as nat));
        vstd::arithmetic::mul::lemma_mul_is_associative(10, pow10((a - 1) as nat), pow10(b));
    }
}

/// A non-negative amount whose value has at most six places converts to minor
/// units and back without loss: read with six places, the units have the
/// value of the amount. (Trailing zeros beyond six places are allowed.)
pub proof fn lemma_token_units_round_trip(amt: Dec)
    requires
        amt.wf(),
        amt.mantissa >= 0,
        amt.scale <= TOKEN_DECIMALS || (amt.mantissa as int) % pow10((amt.scale - TOKEN_DECIMALS) as nat) == 0,
    ensures
        amt.scale <= TOKEN_DECIMALS ==> token_units_spec(amt) == amt.mantissa * pow10((TOKEN_DECIMALS - amt.scale) as nat),
        (Dec { mantissa: token_units_spec(amt) as i128, scale: TOKEN_DECIMALS }).value_eq(amt),
{
    let s = amt.scale as nat;
    let m = amt.mantissa as int;
    reveal_with_fuel(pow10, 7);
    assert(pow10(6) == 1000000);
    if s <= 6 {
        let k = (6 - s) as nat;
        lemma_pow10_add(k, s);
        lemma_pow10_add(s, 0);
        assert(m * pow10(k) <= 170141183460469231731687303715884105727) by (nonlinear_arith)
            requires
                0 <= m <= 79228162514264337593543950335,
                pow10(k) * pow10(s) == 1000000,
                pow10(s) >= 1,
                pow10(k) >= 1,
        ;
        vstd::arithmetic::mul::lemma_mul_is_associative(m, pow10(k), pow10(s));
    } else {
        let k = (s - 6) as nat;
        let d = pow10(k);
        lemma_pow10_add(k, 6);
        lemma_pow10_add(k, 0);
        vstd::arithmetic::div_mod::lemma_fundamental_div_mod(m, d);
        let q = m / d;
        assert(m == d * q);
        assert(abs(m) == m);
        assert(0 <= q <= m) by (nonlinear_arith)
            requires
                m == d * q,
                d >= 1,
                m >= 0,
        ;
        assert(round_dp_spec(amt, 6, RoundingMode::MidpointTowardZero).mantissa == q);
        assert(q * pow10(s) == m * pow10(6)) by (nonlinear_arith)
            requires
                m == d * q,
                pow10(s) == d * pow10(6),
        ;
    }
}

} // verus!
