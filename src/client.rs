//! The clients: public market data, authenticated account operations, and
//! trading. They hold the configuration and decide what is signed and built;
//! the transport sends it.

use vstd::prelude::*;
use crate::decimal::quotient;
use crate::error::Error;
use crate::orders::{
    calculate_market_price, levels_wf, fill, Fill, ExtraOrderArgs, MarketOrderArgs,
    OrderArgs, OrderBookSummary, OrderBuilder, OrderData, CreateOrderOptions, PriceLevel, Side,
    extras_or_default,
};
use crate::signing::{base64url_decoded, create_l2_headers, decimal_digits, l2_signature, ApiCreds, L2Headers};

verus! {

/// Client of the public market-data endpoints.
#[derive(Clone, Debug)]
pub struct ClobClient {
    pub host: String,
}

impl ClobClient {
    /// A client of the API at `host` (such as `https://clob.polymarket.com`).
    pub fn new(host: &str) -> (r: ClobClient)
        ensures
            r.host@ == host@,
    {
        ClobClient { host: String::from_str(host) }
    }
}

/// Client of the operations that need a wallet or API credentials.
#[derive(Clone)]
pub struct AuthenticatedClient {
    pub host: String,
    /// Address of the wallet that signs.
    pub signer_address: String,
    pub chain_id: u64,
    pub api_creds: Option<ApiCreds>,
    /// Proxy wallet that holds the funds, if any.
    pub funder: Option<String>,
}

impl AuthenticatedClient {
    pub fn new(
        host: &str,
        signer_address: String,
        chain_id: u64,
        api_creds: Option<ApiCreds>,
        funder: Option<String>,
    ) -> (r: AuthenticatedClient)
        ensures
            r.host@ == host@,
            r.signer_address@ == signer_address@,
            r.chain_id == chain_id,
            r.api_creds == api_creds,
            r.funder == funder,
    {
        AuthenticatedClient { host: String::from_str(host), signer_address, chain_id, api_creds, funder }
    }

    /// The API credentials, if configured.
    pub fn api_creds(&self) -> (r: Option<&ApiCreds>)
        ensures
            r == match self.api_creds {
                Some(c) => Some(&c),
                None => None::<&ApiCreds>,
            },
    {
        match &self.api_creds {
            Some(c) => Some(c),
            None => None,
        }
    }

    pub fn get_address(&self) -> (r: String)
        ensures
            r@ == self.signer_address@,
    {
        self.signer_address.clone()
    }

    pub fn get_funder(&self) -> (r: Option<String>)
        ensures
            r == self.funder,
    {
        match &self.funder {
            Some(f) => Some(f.clone()),
            None => None,
        }
    }

    /// Headers of a request signed with the API credentials; `AuthRequired`
    /// where none are configured.
    pub fn l2_headers(&self, method: &str, path: &str, body: Option<&str>, timestamp: u64) -> (r: Result<L2Headers, Error>)
        ensures
            self.api_creds is None ==> (r matches Err(Error::AuthRequired(_))),
            self.api_creds matches Some(c) && base64url_decoded(c.secret@) is None ==> (r matches Err(Error::Signing(_))),
            self.api_creds matches Some(c) && base64url_decoded(c.secret@) is Some ==> r is Ok,
            r matches Ok(h) ==> {
                &&& self.api_creds matches Some(c)
                &&& Some(h.signature@) == l2_signature(c.secret@, timestamp, method@, path@, match body { Some(b) => Some(b@), None => None })
                &&& h.api_key@ == c.api_key@
                &&& h.passphrase@ == c.passphrase@
                &&& h.timestamp@ == decimal_digits(timestamp as nat)
                &&& h.address@ == self.signer_address@
            },
    {
        let creds = match &self.api_creds {
            Some(c) => Some(c),
            None => None,
        };
        create_l2_headers(self.signer_address.as_str(), creds, method, path, body, timestamp)
    }
}

/// Client of order creation and trading, with API credentials.
pub struct TradingClient {
    pub host: String,
    pub chain_id: u64,
    pub api_creds: ApiCreds,
    pub order_builder: OrderBuilder,
}

/// The side of the book a market order takes from: asks for a buy, bids for a sell.
pub open spec fn book_side(book: OrderBookSummary, side: Side) -> Seq<PriceLevel> {
    match side {
        Side::Buy => book.asks@,
        Side::Sell => book.bids@,
    }
}

impl TradingClient {
    /// What building a market order must give: the errors of pricing it
    /// against `levels`, and otherwise an order built at the market price.
    pub open spec fn market_order_result(
        &self,
        r: Result<OrderData, Error>,
        order_args: &MarketOrderArgs,
        levels: Seq<PriceLevel>,
        extras: (u32, u64, Seq<char>),
        options: CreateOrderOptions,
        salt: u64,
    ) -> bool {
        let amount = order_args.amount;
        if amount.mantissa <= 0 {
            r matches Err(Error::InvalidParameter(_))
        } else {
            match fill(levels, amount) {
                Fill::Cost(c) => match quotient(c, amount) {
                    Some(p) => self.order_builder.builds(r, order_args.token_id@, order_args.side, p, amount, 0,
                        extras, options, salt),
                    None => r matches Err(Error::Decimal(_)),
                },
                Fill::Short => r matches Err(Error::InvalidOrder(_)),
                Fill::Overflow => r matches Err(Error::Decimal(_)),
            }
        }
    }

    pub fn new(host: &str, chain_id: u64, api_creds: ApiCreds, order_builder: OrderBuilder) -> (r: TradingClient)
        ensures
            r.host@ == host@,
            r.chain_id == chain_id,
            r.api_creds == api_creds,
            r.order_builder == order_builder,
    {
        TradingClient { host: String::from_str(host), chain_id, api_creds, order_builder }
    }

    /// Builds a limit order locally; no expiration given means none (0), no
    /// extras mean the defaults.
    pub fn create_order(
        &self,
        order_args: &OrderArgs,
        expiration: Option<u64>,
        extras: Option<&ExtraOrderArgs>,
        options: CreateOrderOptions,
        salt: u64,
    ) -> (r: Result<OrderData, Error>)
        requires
            self.order_builder.wf(),
            order_args.price.wf(),
            order_args.size.wf(),
            options.tick_size matches Some(t) ==> t.wf(),
        ensures
            self.order_builder.builds(
                r,
                order_args.token_id@,
                order_args.side,
                order_args.price,
                order_args.size,
                match expiration { Some(e) => e, None => 0 },
                extras_or_default(extras),
                options,
                salt,
            ),
    {
        let expiration = match expiration {
            Some(e) => e,
            None => 0,
        };
        match extras {
            Some(x) => self.order_builder.create_order(order_args, expiration, x, options, salt),
            None => {
                let defaults = ExtraOrderArgs::new();
                self.order_builder.create_order(order_args, expiration, &defaults, options, salt)
            },
        }
    }

    /// Builds a market order locally for `amount` shares, priced at the
    /// size-weighted average of the levels it would take.
    pub fn create_market_order(
        &self,
        order_args: &MarketOrderArgs,
        order_book: &OrderBookSummary,
        extras: Option<&ExtraOrderArgs>,
        options: CreateOrderOptions,
        salt: u64,
    ) -> (r: Result<OrderData, Error>)
        requires
            self.order_builder.wf(),
            order_args.amount.wf(),
            levels_wf(order_book.bids@),
            levels_wf(order_book.asks@),
            options.tick_size matches Some(t) ==> t.wf(),
        ensures
            self.market_order_result(
                r,
                order_args,
                book_side(*order_book, order_args.side),
                extras_or_default(extras),
                options,
                salt,
            ),
    {
        let levels = match order_args.side {
            Side::Buy => &order_book.asks,
            Side::Sell => &order_book.bids,
        };
        let price = calculate_market_price(levels, order_args.amount)?;
        match extras {
            Some(x) => self.order_builder.create_market_order(order_args, price, x, options, salt),
            None => {
                let defaults = ExtraOrderArgs::new();
                self.order_builder.create_market_order(order_args, price, &defaults, options, salt)
            },
        }
    }

    /// Headers of a trading request signed with this client's credentials.
    pub fn l2_headers(&self, method: &str, path: &str, body: Option<&str>, timestamp: u64) -> (r: Result<L2Headers, Error>)
        ensures
            r matches Ok(h) ==> {
                &&& Some(h.signature@) == l2_signature(self.api_creds.secret@, timestamp, method@, path@, match body { Some(b) => Some(b@), None => None })
                &&& h.api_key@ == self.api_creds.api_key@
                &&& h.passphrase@ == self.api_creds.passphrase@
                &&& h.timestamp@ == decimal_digits(timestamp as nat)
                &&& h.address@ == self.order_builder.signer_address@
            },
            base64url_decoded(self.api_creds.secret@) is None ==> (r matches Err(Error::Signing(_))),
            base64url_decoded(self.api_creds.secret@) is Some ==> r is Ok,
    {
        create_l2_headers(self.order_builder.signer_address.as_str(), Some(&self.api_creds), method, path, body, timestamp)
    }
}

} // verus!
