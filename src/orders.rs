//! Orders: the book walk that prices a market order, the maker and taker
//! amounts of an order, and the canonical order that is handed on for signing.

use vstd::prelude::*;
use crate::decimal::{dec_add, dec_div, dec_le, dec_mul, dec_sub, difference, product, quotient, sum, Dec};
use crate::error::Error;
use crate::rounding::{
    fix_amount_rounding, fix_amount_spec, lookup_config, round_price, round_price_spec, round_size,
    round_size_spec, to_token_units, token_units_fit, token_units_spec, RoundConfig, RoundingTable, config_for_tick,
};

verus! {

/// The side of an order.
#[derive(Clone, Copy, Debug, PartialEq, Eq)]
pub enum Side {
    Buy,
    Sell,
}

/// How the order's signature is to be checked by the exchange.
#[derive(Clone, Copy, Debug, PartialEq, Eq)]
pub enum SignatureType {
    /// A plain externally owned account.
    Eoa,
    /// A proxy wallet.
    PolyProxy,
    /// A Gnosis safe.
    PolyGnosisSafe,
}

/// One level of an order book.
#[derive(Clone, Copy, Debug, PartialEq, Eq)]
pub struct PriceLevel {
    pub price: Dec,
    pub size: Dec,
}

/// A snapshot of an order book: bids by descending price, asks by ascending price.
#[derive(Clone, Debug)]
pub struct OrderBookSummary {
    pub bids: Vec<PriceLevel>,
    pub asks: Vec<PriceLevel>,
}

/// A limit order as the user asks for it.
#[derive(Clone, Debug)]
pub struct OrderArgs {
    pub token_id: String,
    pub price: Dec,
    pub size: Dec,
    pub side: Side,
}

/// A market order as the user asks for it: `amount` shares at whatever the book gives.
#[derive(Clone, Debug)]
pub struct MarketOrderArgs {
    pub token_id: String,
    pub amount: Dec,
    pub side: Side,
}

/// Order fields that are rarely changed.
#[derive(Clone, Debug)]
pub struct ExtraOrderArgs {
    pub fee_rate_bps: u32,
    pub nonce: u64,
    pub taker: String,
}

/// The zero address: an order that anyone may take.
pub const ZERO_ADDRESS: &'static str = "0x0000000000000000000000000000000000000000";

impl ExtraOrderArgs {
    /// Fee rate, nonce and taker.
    pub open spec fn fields(&self) -> (u32, u64, Seq<char>) {
        (self.fee_rate_bps, self.nonce, self.taker@)
    }

    /// No fee, nonce zero, open to any taker.
    pub fn new() -> (r: ExtraOrderArgs)
        ensures
            r.fields() == default_extras(),
    {
        ExtraOrderArgs { fee_rate_bps: 0, nonce: 0, taker: String::from_str(ZERO_ADDRESS) }
    }
}

/// The extra fields where none are given: no fee, nonce zero, any taker.
pub open spec fn default_extras() -> (u32, u64, Seq<char>) {
    (0, 0, ZERO_ADDRESS@)
}

/// The extra fields given, or the defaults.
pub open spec fn extras_or_default(extras: Option<&ExtraOrderArgs>) -> (u32, u64, Seq<char>) {
    match extras {
        Some(x) => x.fields(),
        None => default_extras(),
    }
}

/// Market parameters an order needs; both must be given.
#[derive(Clone, Copy, Debug)]
pub struct CreateOrderOptions {
    pub tick_size: Option<Dec>,
    pub neg_risk: Option<bool>,
}

/// The canonical order, every field of which the signature covers, in this order.
#[derive(Clone, Debug)]
pub struct OrderData {
    pub salt: u64,
    pub maker: String,
    pub signer: String,
    pub taker: String,
    pub token_id: String,
    pub maker_amount: u64,
    pub taker_amount: u64,
    pub expiration: u64,
    pub nonce: u64,
    pub fee_rate_bps: u32,
    pub side: Side,
    pub signature_type: SignatureType,
    /// Which exchange contract the order is signed for.
    pub neg_risk: bool,
}

pub open spec fn levels_wf(levels: Seq<PriceLevel>) -> bool {
    forall|i: int| 0 <= i < levels.len() ==> (#[trigger] levels[i]).price.wf() && levels[i].size.wf()
}

/// Where a walk of the book ends.
pub enum Fill {
    /// The amount is filled at this total cost.
    Cost(Dec),
    /// The book runs out first.
    Short,
    /// A product, sum or difference leaves the range of `rust_decimal`.
    Overflow,
}

/// What the level takes of the remaining amount: all of the level, or the rest.
pub open spec fn take_of(level: PriceLevel, remaining: Dec) -> Dec {
    if level.size.value_le(remaining) {
        level.size
    } else {
        remaining
    }
}

/// Walks the levels from index `i`, taking from each until nothing remains, and
/// adds up price times size taken, with the arithmetic of `rust_decimal`.
pub open spec fn fill_from(levels: Seq<PriceLevel>, i: int, remaining: Dec, cost: Dec) -> Fill
    decreases levels.len() - i,
{
    if remaining.mantissa <= 0 {
        Fill::Cost(cost)
    } else if i < 0 || i >= levels.len() {
        Fill::Short
    } else {
        let level = levels[i];
        let take = take_of(level, remaining);
        match (product(level.price, take), difference(remaining, take)) {
            (Some(spent), Some(rest)) => match sum(cost, spent) {
                Some(next_cost) => fill_from(levels, i + 1, rest, next_cost),
                None => Fill::Overflow,
            },
            _ => Fill::Overflow,
        }
    }
}

pub open spec fn fill(levels: Seq<PriceLevel>, amount: Dec) -> Fill {
    fill_from(levels, 0, amount, Dec { mantissa: 0, scale: 0 })
}

/// The result of a walk: the cost, `InvalidOrder` where the book runs out,
/// `Decimal` where the arithmetic leaves its range.
pub open spec fn fill_result(f: Fill, r: Result<Dec, Error>) -> bool {
    match f {
        Fill::Cost(c) => r == Ok::<Dec, Error>(c),
        Fill::Short => r matches Err(Error::InvalidOrder(_)),
        Fill::Overflow => r matches Err(Error::Decimal(_)),
    }
}

/// The total cost of taking `amount` from the levels in their order.
pub fn fill_cost(levels: &Vec<PriceLevel>, amount: Dec) -> (r: Result<Dec, Error>)
    requires
        amount.wf(),
        levels_wf(levels@),
    ensures
        fill_result(fill(levels@, amount), r),
        r matches Ok(c) ==> c.wf(),
{
    let mut remaining = amount;
    let mut cost = Dec::zero();
    let mut i: usize = 0;
    while remaining.mantissa > 0 && i < levels.len()
        invariant
            i <= levels@.len(),
            levels_wf(levels@),
            remaining.wf(),
            cost.wf(),
            fill(levels@, amount) == fill_from(levels@, i as int, remaining, cost),
        decreases levels@.len() - i,
    {
        let level = levels[i];
        let take = if dec_le(level.size, remaining) { level.size } else { remaining };
        let spent = dec_mul(level.price, take);
        let rest = dec_sub(remaining, take);
        let (spent, rest) = match (spent, rest) {
            (Some(x), Some(y)) => (x, y),
            _ => { return Err(Error::Decimal(String::from_str("order book arithmetic out of range"))); },
        };
        let next_cost = match dec_add(cost, spent) {
            Some(x) => x,
            None => { return Err(Error::Decimal(String::from_str("order book arithmetic out of range"))); },
        };
        remaining = rest;
        cost = next_cost;
        i = i + 1;
    }
    if remaining.mantissa > 0 {
        Err(Error::InvalidOrder(String::from_str("not enough liquidity in the order book")))
    } else {
        Ok(cost)
    }
}

/// The result of pricing a market order for `amount` against `levels`.
pub open spec fn market_price_result(levels: Seq<PriceLevel>, amount: Dec, r: Result<Dec, Error>) -> bool {
    if amount.mantissa <= 0 {
        r matches Err(Error::InvalidParameter(_))
    } else {
        match fill(levels, amount) {
            Fill::Cost(c) => match quotient(c, amount) {
                Some(p) => r == Ok::<Dec, Error>(p),
                None => r matches Err(Error::Decimal(_)),
            },
            f => fill_result(f, r),
        }
    }
}

/// The execution price of a market order for `amount` against one side of the
/// book: the size-weighted average over the levels consumed, in the book's order.
/// A non-positive amount is refused, and so is a book too thin to fill it.
pub fn calculate_market_price(levels: &Vec<PriceLevel>, amount: Dec) -> (r: Result<Dec, Error>)
    requires
        amount.wf(),
        levels_wf(levels@),
    ensures
        market_price_result(levels@, amount, r),
        r matches Ok(p) ==> p.wf(),
{
    if amount.mantissa <= 0 {
        return Err(Error::InvalidParameter(String::from_str("amount must be positive")));
    }
    let cost = fill_cost(levels, amount)?;
    match dec_div(cost, amount) {
        Some(p) => Ok(p),
        None => Err(Error::Decimal(String::from_str("price out of range"))),
    }
}

/// The maker and taker amounts of an order, or why there are none.
pub enum Amounts {
    /// Maker and taker amounts in minor units.
    Legs(u64, u64),
    /// Price times size leaves the range of `rust_decimal`.
    Overflow,
    /// A leg is negative or above `u64::MAX` minor units.
    OutOfRange,
}

/// Rounds price and size to the tick rule, multiplies them, fixes the amount,
/// and assigns the legs by side: a buyer pays the amount and receives the size;
/// a seller gives the size and receives the amount.
pub open spec fn order_amounts(side: Side, price: Dec, size: Dec, cfg: RoundConfig) -> Amounts {
    let p = round_price_spec(price, cfg);
    let s = round_size_spec(size, cfg);
    match product(p, s) {
        None => Amounts::Overflow,
        Some(raw) => {
            let amount = fix_amount_spec(raw, cfg.amount);
            if token_units_fit(s) && token_units_fit(amount) {
                let size_units = token_units_spec(s) as u64;
                let amount_units = token_units_spec(amount) as u64;
                match side {
                    Side::Buy => Amounts::Legs(amount_units, size_units),
                    Side::Sell => Amounts::Legs(size_units, amount_units),
                }
            } else {
                Amounts::OutOfRange
            }
        },
    }
}

/// The result of computing the amounts: the legs, `Decimal` on overflow,
/// `InvalidOrder` where a leg is out of range.
pub open spec fn amounts_result(a: Amounts, r: Result<(u64, u64), Error>) -> bool {
    match a {
        Amounts::Legs(maker, taker) => r == Ok::<(u64, u64), Error>((maker, taker)),
        Amounts::Overflow => r matches Err(Error::Decimal(_)),
        Amounts::OutOfRange => r matches Err(Error::InvalidOrder(_)),
    }
}

/// Computes the maker and taker amounts of an order in minor units.
pub fn get_order_amounts(side: Side, price: Dec, size: Dec, cfg: &RoundConfig) -> (r: Result<(u64, u64), Error>)
    requires
        price.wf(),
        size.wf(),
        cfg.amount <= u32::MAX - 4,
    ensures
        amounts_result(order_amounts(side, price, size, *cfg), r),
{
    let p = round_price(price, cfg);
    let s = round_size(size, cfg);
    let raw = match dec_mul(p, s) {
        Some(x) => x,
        None => { return Err(Error::Decimal(String::from_str("amount out of range"))); },
    };
    let amount = fix_amount_rounding(raw, cfg);
    let size_units = match to_token_units(s) {
        Some(u) => u,
        None => { return Err(Error::InvalidOrder(String::from_str("size out of range"))); },
    };
    let amount_units = match to_token_units(amount) {
        Some(u) => u,
        None => { return Err(Error::InvalidOrder(String::from_str("amount out of range"))); },
    };
    match side {
        Side::Buy => Ok((amount_units, size_units)),
        Side::Sell => Ok((size_units, amount_units)),
    }
}

} // verus!

verus! {

/// An order exactly where the amounts are defined, with those amounts; the
/// error of the amounts otherwise.
pub open spec fn order_result(a: Amounts, r: Result<OrderData, Error>) -> bool {
    match a {
        Amounts::Legs(maker, taker) => r matches Ok(o) && o.maker_amount == maker && o.taker_amount == taker,
        Amounts::Overflow => r matches Err(Error::Decimal(_)),
        Amounts::OutOfRange => r matches Err(Error::InvalidOrder(_)),
    }
}

/// Builds canonical orders for one signer under one table of tick rules.
#[derive(Debug)]
pub struct OrderBuilder {
    /// Address of the key that signs orders.
    pub signer_address: String,
    pub signature_type: SignatureType,
    /// Address that holds the funds, where it differs from the signer's.
    pub funder: Option<String>,
    pub table: RoundingTable,
}

impl OrderBuilder {
    pub open spec fn wf(&self) -> bool {
        self.table.wf()
    }

    /// The maker of the orders: the funder where one is set, else the signer.
    pub open spec fn maker_spec(&self) -> Seq<char> {
        match self.funder {
            Some(f) => f@,
            None => self.signer_address@,
        }
    }

    /// The tick rule the options select, if the tick size is given and known.
    pub open spec fn config_of(&self, options: CreateOrderOptions) -> Option<RoundConfig> {
        match options.tick_size {
            Some(t) => self.table.lookup(t),
            None => None,
        }
    }

    /// What building an order from these inputs must give: the missing field or
    /// unknown tick size refused, and otherwise an order whose fields are the
    /// inputs and whose amounts follow the tick rule wherever they are exact.
    pub open spec fn builds(
        &self,
        r: Result<OrderData, Error>,
        token_id: Seq<char>,
        side: Side,
        price: Dec,
        size: Dec,
        expiration: u64,
        extras: (u32, u64, Seq<char>),
        options: CreateOrderOptions,
        salt: u64,
    ) -> bool {
        &&& (options.tick_size is None ==> (r matches Err(Error::MissingField(_))))
        &&& (options.tick_size is Some && options.neg_risk is None ==> (r matches Err(Error::MissingField(_))))
        &&& (options.tick_size is Some && options.neg_risk is Some && self.config_of(options) is None
                ==> (r matches Err(Error::InvalidParameter(_))))
        &&& (options.neg_risk is Some ==> match self.config_of(options) {
                Some(cfg) => order_result(order_amounts(side, price, size, cfg), r),
                None => true,
            })
        &&& (r matches Ok(o) ==> {
            &&& self.config_of(options) is Some
            &&& options.neg_risk == Some(o.neg_risk)
            &&& o.salt == salt
            &&& o.maker@ == self.maker_spec()
            &&& o.signer@ == self.signer_address@
            &&& o.taker@ == extras.2
            &&& o.token_id@ == token_id
            &&& o.expiration == expiration
            &&& o.nonce == extras.1
            &&& o.fee_rate_bps == extras.0
            &&& o.side == side
            &&& o.signature_type == self.signature_type
        })
    }

    /// A builder with the exchange's four standard tick sizes.
    pub fn new(signer_address: String, signature_type: SignatureType, funder: Option<String>) -> (r: OrderBuilder)
        ensures
            r.wf(),
            r.signer_address@ == signer_address@,
            r.signature_type == signature_type,
            r.funder == funder,
            r.table.entries@.len() == 4,
            forall|t: Dec| #[trigger] r.table.lookup(t) == config_for_tick(t),
    {
        OrderBuilder { signer_address, signature_type, funder, table: RoundingTable::standard() }
    }

    fn maker(&self) -> (r: String)
        ensures
            r@ == self.maker_spec(),
    {
        match &self.funder {
            Some(f) => f.clone(),
            None => self.signer_address.clone(),
        }
    }

    fn build(
        &self,
        token_id: &String,
        side: Side,
        price: Dec,
        size: Dec,
        expiration: u64,
        extras: &ExtraOrderArgs,
        options: CreateOrderOptions,
        salt: u64,
    ) -> (r: Result<OrderData, Error>)
        requires
            self.wf(),
            price.wf(),
            size.wf(),
            options.tick_size matches Some(t) ==> t.wf(),
        ensures
            self.builds(r, token_id@, side, price, size, expiration, extras.fields(), options, salt),
    {
        let tick = match options.tick_size {
            Some(t) => t,
            None => { return Err(Error::MissingField(String::from_str("tick_size"))); },
        };
        let neg_risk = match options.neg_risk {
            Some(n) => n,
            None => { return Err(Error::MissingField(String::from_str("neg_risk"))); },
        };
        let cfg = lookup_config(&self.table, &tick)?;
        let (maker_amount, taker_amount) = get_order_amounts(side, price, size, &cfg)?;
        Ok(OrderData {
            salt,
            maker: self.maker(),
            signer: self.signer_address.clone(),
            taker: extras.taker.clone(),
            token_id: token_id.clone(),
            maker_amount,
            taker_amount,
            expiration,
            nonce: extras.nonce,
            fee_rate_bps: extras.fee_rate_bps,
            side,
            signature_type: self.signature_type,
            neg_risk,
        })
    }

    /// Builds a limit order at the user's price and size.
    pub fn create_order(
        &self,
        order_args: &OrderArgs,
        expiration: u64,
        extras: &ExtraOrderArgs,
        options: CreateOrderOptions,
        salt: u64,
    ) -> (r: Result<OrderData, Error>)
        requires
            self.wf(),
            order_args.price.wf(),
            order_args.size.wf(),
            options.tick_size matches Some(t) ==> t.wf(),
        ensures
            self.builds(r, order_args.token_id@, order_args.side, order_args.price, order_args.size,
                expiration, extras.fields(), options, salt),
    {
        self.build(&order_args.token_id, order_args.side, order_args.price, order_args.size, expiration,
            extras, options, salt)
    }

    /// Builds a market order for `amount` shares at the given execution price;
    /// it never expires.
    pub fn create_market_order(
        &self,
        order_args: &MarketOrderArgs,
        price: Dec,
        extras: &ExtraOrderArgs,
        options: CreateOrderOptions,
        salt: u64,
    ) -> (r: Result<OrderData, Error>)
        requires
            self.wf(),
            price.wf(),
            order_args.amount.wf(),
            options.tick_size matches Some(t) ==> t.wf(),
        ensures
            self.builds(r, order_args.token_id@, order_args.side, price, order_args.amount, 0, extras.fields(),
                options, salt),
    {
        self.build(&order_args.token_id, order_args.side, price, order_args.amount, 0, extras, options, salt)
    }
}

} // verus!
