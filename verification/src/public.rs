//! The public surface: market data that anyone may ask for, unsigned.

use vstd::prelude::*;
use vstd::string::StringExecFns;
use crate::clock::Instant;
use crate::ident::OrderId;
use crate::request::{Method, Request, RequestModel};
use crate::side::Side;
use crate::text::{concatenate, decimal_nat, push_decimal_nat};

verus! {

/// How much of the order book to ask for.
#[derive(Clone, Copy, Debug, PartialEq, Eq, Structural)]
pub enum Level {
    /// The best bid and the best ask only.
    Best,
    /// The best fifty prices on each side, orders at one price taken together.
    Top50,
    /// Every order that rests in the book.
    Full,
}

impl Level {
    /// The number that stands for the level in a query.
    pub open spec fn number(self) -> nat {
        match self {
            Level::Best => 1,
            Level::Top50 => 2,
            Level::Full => 3,
        }
    }

    /// The number that stands for the level in a query.
    pub fn as_number(&self) -> (n: u8)
        ensures
            n == self.number(),
    {
        match self {
            Level::Best => 1,
            Level::Top50 => 2,
            Level::Full => 3,
        }
    }
}

/// A pair of currencies that is traded.
#[derive(Debug)]
pub struct Product {
    pub id: String,
    pub base_currency: String,
    pub quote_currency: String,
    pub base_min_size: String,
    pub base_max_size: String,
    pub quote_increment: String,
    pub status: String,
    pub margin_enabled: bool,
    pub min_market_funds: String,
    pub max_market_funds: String,
    pub post_only: bool,
    pub limit_only: bool,
    pub cancel_only: bool,
}

/// One price of the book, with the orders at that price taken together.
#[derive(Debug)]
pub struct BookEntry {
    pub price: String,
    pub size: String,
    pub num_orders: u64,
}

/// One order of the book.
#[derive(Debug)]
pub struct FullBookEntry {
    pub price: String,
    pub size: String,
    pub order_id: OrderId,
}

/// A snapshot of the order book, as flat lists.
#[derive(Debug)]
pub struct OrderBook<T> {
    pub sequence: usize,
    pub bids: Vec<T>,
    pub asks: Vec<T>,
}

/// The last trade of a product and the market around it.
#[derive(Debug)]
pub struct Tick {
    pub trade_id: u64,
    pub price: String,
    pub size: String,
    pub bid: String,
    pub ask: String,
    pub volume: String,
    pub time: Instant,
}

/// One trade.
#[derive(Debug)]
pub struct Trade {
    pub time: Instant,
    pub trade_id: u64,
    pub price: String,
    pub size: String,
    pub side: Side,
}

/// A product's last twenty-four hours.
#[derive(Debug)]
pub struct Stats {
    pub open: String,
    pub high: String,
    pub low: String,
    pub volume: String,
    pub last: String,
    pub volume_30day: String,
}

/// A currency that the exchange knows.
#[derive(Debug)]
pub struct Currency {
    pub id: String,
    pub name: String,
    pub min_size: String,
}

/// The address that every path of the public API is relative to.
pub open spec fn api_url() -> Seq<char> {
    "https://api.gdax.com"@
}

/// The one header line that a public request carries.
pub open spec fn user_agent() -> Seq<char> {
    "User-Agent: rust-gdax-client/1.2.0"@
}

/// The address of something about one product.
pub open spec fn product_url(product: Seq<char>, what: Seq<char>) -> Seq<char> {
    api_url() + "/products/"@ + product + what
}

/// The address of a product's order book at one level.
pub open spec fn book_url(product: Seq<char>, level: Level) -> Seq<char> {
    product_url(product, "/book?level="@ + decimal_nat(level.number()))
}

/// The address of a product's candles between two instants, given in RFC
/// 3339 form, at a granularity in seconds.
pub open spec fn candles_url(
    product: Seq<char>,
    start: Seq<char>,
    end: Seq<char>,
    granularity: u64,
) -> Seq<char> {
    product_url(
        product,
        "/candles?start="@ + start + "&end="@ + end + "&granularity="@ + decimal_nat(
            granularity as nat,
        ),
    )
}

/// The unsigned `GET` of an address.
pub open spec fn public_request(url: Seq<char>) -> RequestModel {
    RequestModel { method: Method::Get, url, headers: seq![user_agent()], body: Seq::empty() }
}

/// The public client. It holds nothing: each call is prepared from its
/// arguments alone.
pub struct Client {}

impl Client {
    pub fn new() -> Client {
        Client {  }
    }

    /// The unsigned `GET` of `url`.
    pub fn get(&self, url: String) -> (request: Request)
        ensures
            request@ == public_request(url@),
    {
        let mut headers: Vec<String> = Vec::new();
        headers.push(String::from_str("User-Agent: rust-gdax-client/1.2.0"));
        let request = Request { method: Method::Get, url, headers, body: String::new() };
        assert(request@.headers =~= seq![user_agent()]);
        request
    }

    /// The `GET` of something about one product.
    fn get_product(&self, product: &str, what: &str) -> (request: Request)
        ensures
            request@ == public_request(product_url(product@, what@)),
    {
        let mut url = String::from_str("https://api.gdax.com");
        url.append("/products/");
        url.append(product);
        url.append(what);
        self.get(url)
    }

    /// The `GET` of a product's order book at one level.
    pub fn get_book(&self, product: &str, level: Level) -> (request: Request)
        ensures
            request@ == public_request(book_url(product@, level)),
    {
        let mut what = String::from_str("/book?level=");
        push_decimal_nat(&mut what, level.as_number() as u64);
        self.get_product(product, what.as_str())
    }

    /// Asks for all products.
    pub fn get_products(&self) -> (request: Request)
        ensures
            request@ == public_request(api_url() + "/products"@),
    {
        self.get(concatenate("https://api.gdax.com", "/products"))
    }

    /// Asks for the best bid and ask of a product.
    pub fn get_best_order(&self, product: &str) -> (request: Request)
        ensures
            request@ == public_request(book_url(product@, Level::Best)),
    {
        self.get_book(product, Level::Best)
    }

    /// Asks for the best fifty prices on each side of a product's book.
    pub fn get_top50_orders(&self, product: &str) -> (request: Request)
        ensures
            request@ == public_request(book_url(product@, Level::Top50)),
    {
        self.get_book(product, Level::Top50)
    }

    /// Asks for every order in a product's book.
    pub fn get_full_book(&self, product: &str) -> (request: Request)
        ensures
            request@ == public_request(book_url(product@, Level::Full)),
    {
        self.get_book(product, Level::Full)
    }

    /// Asks for a product's last trade and the market around it.
    pub fn get_product_ticker(&self, product: &str) -> (request: Request)
        ensures
            request@ == public_request(product_url(product@, "/ticker"@)),
    {
        self.get_product(product, "/ticker")
    }

    /// Asks for a product's latest trades.
    pub fn get_trades(&self, product: &str) -> (request: Request)
        ensures
            request@ == public_request(product_url(product@, "/trades"@)),
    {
        self.get_product(product, "/trades")
    }

    /// Asks for a product's candles between two instants, at a granularity
    /// in seconds. There is no request where the calendar cannot hold one
    /// of the instants.
    pub fn get_historic_rates(
        &self,
        product: &str,
        start_time: Instant,
        end_time: Instant,
        granularity: u64,
    ) -> (r: Option<Request>)
        ensures
            match (start_time.text(), end_time.text()) {
                (Some(start), Some(end)) => r matches Some(request) && request@ == public_request(
                    candles_url(product@, start, end, granularity),
                ),
                _ => r is None,
            },
    {
        match start_time.to_rfc3339() {
            Some(start) => match end_time.to_rfc3339() {
                Some(end) => {
                    let mut what = String::from_str("/candles?start=");
                    what.append(start.as_str());
                    what.append("&end=");
                    what.append(end.as_str());
                    what.append("&granularity=");
                    push_decimal_nat(&mut what, granularity);
                    Some(self.get_product(product, what.as_str()))
                },
                None => None,
            },
            None => None,
        }
    }

    /// Asks for a product's last twenty-four hours.
    pub fn get_24hr_stats(&self, product: &str) -> (request: Request)
        ensures
            request@ == public_request(product_url(product@, "/stats"@)),
    {
        self.get_product(product, "/stats")
    }

    /// Asks for all currencies.
    pub fn get_currencies(&self) -> (request: Request)
        ensures
            request@ == public_request(api_url() + "/currencies"@),
    {
        self.get(concatenate("https://api.gdax.com", "/currencies"))
    }

    /// Asks for the exchange's time.
    pub fn get_time(&self) -> (request: Request)
        ensures
            request@ == public_request(api_url() + "/time"@),
    {
        self.get(concatenate("https://api.gdax.com", "/time"))
    }
}

} // verus!
