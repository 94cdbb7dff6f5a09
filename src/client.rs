//! The endpoint client: request URLs, classification of replies, and the
//! typed records that the exchange's bodies decode into.
use vstd::prelude::*;

use crate::config::ApiConfig;
use crate::error::{ClientError, Operation};

verus! {

/// A quote snapshot for one market. Decimal values stay text.
#[derive(Debug, PartialEq, Eq)]
pub struct Ticker {
    pub timestamp: String,
    pub open: String,
    pub high: String,
    pub low: String,
    pub last: String,
    pub volume: String,
    pub vwap: String,
    pub bid: String,
    pub ask: String,
    pub side: String,
    pub open_24: String,
    pub percent_change_24: Option<String>,
    pub pair: Option<String>,
}

/// A currency that the exchange lists.
#[derive(Debug, PartialEq, Eq)]
pub struct Currency {
    pub name: String,
    pub currency: String,
    pub currency_type: String,
    pub symbol: Option<String>,
    pub decimals: u8,
    pub logo: String,
    pub available_supply: String,
    pub deposit: String,
    pub withdrawal: String,
    pub networks: Option<Vec<Network>>,
}

/// A settlement network through which a currency moves.
#[derive(Debug, PartialEq, Eq)]
pub struct Network {
    pub network: String,
    pub withdrawal_decimals: u8,
    pub deposit: String,
    pub withdrawal: String,
    pub withdrawal_minimum_amount: Option<String>,
}

/// A market that the exchange lists.
#[derive(Debug, PartialEq, Eq)]
pub struct Market {
    pub name: String,
    pub market_symbol: String,
    pub base_currency: String,
    pub base_decimals: u8,
    pub counter_currency: String,
    pub counter_decimals: u8,
    pub minimum_order_value: String,
    pub trading: String,
    pub instant_order_counter_decimals: u8,
    pub instant_and_market_orders: String,
    pub description: String,
    pub market_type: String,
}

/// The outstanding orders of a market, best price first on each side.
#[derive(Debug, PartialEq, Eq)]
pub struct OrderBook {
    pub timestamp: String,
    pub microtimestamp: String,
    pub bids: Vec<Order>,
    pub asks: Vec<Order>,
}

/// One price level of an order book.
#[derive(Debug, PartialEq, Eq)]
pub struct Order {
    pub price: String,
    pub amount: String,
}

/// `base/version/path`: the address of a resource under a configuration.
pub open spec fn url_for(base_url: Seq<char>, version: Seq<char>, path: Seq<char>) -> Seq<char> {
    base_url + "/"@ + version + "/"@ + path
}

/// The resource path of a market's ticker.
pub open spec fn ticker_path(symbol: Seq<char>) -> Seq<char> {
    "ticker/"@ + symbol
}

/// The resource path of a market's order book.
pub open spec fn order_book_path(symbol: Seq<char>) -> Seq<char> {
    "order_book/"@ + symbol
}

/// The client for the exchange's public endpoints.
pub struct RestClient {
    config: ApiConfig,
}

impl RestClient {
    /// The configuration that the client was made with.
    pub closed spec fn spec_config(&self) -> ApiConfig {
        self.config
    }

    /// A client that keeps its own copy of the configuration.
    pub fn new(config: &ApiConfig) -> (r: RestClient)
        ensures
            r.spec_config() == *config,
    {
        RestClient { config: config.duplicate() }
    }

    /// The address of `service` under the configured base URL and version.
    pub fn build_url(&self, service: &str) -> (r: String)
        ensures
            r@ == url_for(self.spec_config().base_url@, self.spec_config().version@, service@),
    {
        let mut url = self.config.base_url.clone();
        url.append("/");
        url.append(self.config.version.as_str());
        url.append("/");
        url.append(service);
        url
    }

    /// The address of a market's ticker; the symbol is used verbatim.
    pub fn ticker_url(&self, market_symbol: &str) -> (r: String)
        ensures
            r@ == url_for(
                self.spec_config().base_url@,
                self.spec_config().version@,
                ticker_path(market_symbol@),
            ),
    {
        let mut path = String::from_str("ticker/");
        path.append(market_symbol);
        self.build_url(path.as_str())
    }

    /// The address of the currency list.
    pub fn currencies_url(&self) -> (r: String)
        ensures
            r@ == url_for(self.spec_config().base_url@, self.spec_config().version@, "currencies"@),
    {
        self.build_url("currencies")
    }

    /// The address of the market list.
    pub fn markets_url(&self) -> (r: String)
        ensures
            r@ == url_for(self.spec_config().base_url@, self.spec_config().version@, "markets"@),
    {
        self.build_url("markets")
    }

    /// The address of a market's order book; the symbol is used verbatim.
    pub fn order_book_url(&self, market_symbol: &str) -> (r: String)
        ensures
            r@ == url_for(
                self.spec_config().base_url@,
                self.spec_config().version@,
                order_book_path(market_symbol@),
            ),
    {
        let mut path = String::from_str("order_book/");
        path.append(market_symbol);
        self.build_url(path.as_str())
    }
}

/// The result of one decode attempt for `operation`: the value, or a
/// `Decode` error that names the operation and keeps the cause.
pub open spec fn spec_decoded<T>(operation: Operation, attempt: Result<T, String>) -> Result<
    T,
    ClientError,
> {
    match attempt {
        Ok(v) => Ok(v),
        Err(cause) => Err(ClientError::Decode { operation, cause }),
    }
}

/// Turns one decode attempt for `operation` into the client's result.
pub fn decoded<T>(operation: Operation, attempt: Result<T, String>) -> (r: Result<T, ClientError>)
    ensures
        r == spec_decoded(operation, attempt),
{
    match attempt {
        Ok(v) => Ok(v),
        Err(cause) => Err(ClientError::Decode { operation, cause }),
    }
}

/// Whether the attempt to read a ticker body as a list gave a non-empty list.
pub open spec fn has_first(as_list: Result<Vec<Ticker>, String>) -> bool {
    as_list is Ok && as_list->Ok_0@.len() > 0
}

/// Chooses the ticker from the two readings of one body: the first element
/// when the body is a non-empty list, else the body read as one object, else
/// a `Decode` error for the ticker operation with the object reading's cause.
pub fn decode_ticker(as_list: Result<Vec<Ticker>, String>, as_object: Result<Ticker, String>) -> (r:
    Result<Ticker, ClientError>)
    ensures
        has_first(as_list) ==> r == Ok::<Ticker, ClientError>(as_list->Ok_0@[0]),
        !has_first(as_list) ==> r == spec_decoded(Operation::Ticker, as_object),
        as_list is Err && as_object is Ok ==> r == Ok::<Ticker, ClientError>(as_object->Ok_0),
        as_list is Ok && as_list->Ok_0@.len() == 0 && as_object is Err ==> r == Err::<
            Ticker,
            ClientError,
        >((ClientError::Decode { operation: Operation::Ticker, cause: as_object->Err_0 })),
{
    match as_list {
        Ok(mut tickers) => {
            if tickers.len() > 0 {
                return Ok(tickers.swap_remove(0));
            }
        },
        Err(_) => {},
    }
    decoded(Operation::Ticker, as_object)
}

/// The currency codes of a list, in its order.
pub fn currency_codes(currencies: &Vec<Currency>) -> (r: Vec<String>)
    ensures
        r@ == currencies@.map_values(|c: Currency| c.currency),
{
    let mut codes: Vec<String> = Vec::new();
    let mut i: usize = 0;
    while i < currencies.len()
        invariant
            i <= currencies@.len(),
            codes@ == currencies@.subrange(0, i as int).map_values(|c: Currency| c.currency),
        decreases currencies@.len() - i,
    {
        codes.push(currencies[i].currency.clone());
        i = i + 1;
        assert(currencies@.subrange(0, i as int) == currencies@.subrange(0, i - 1 as int).push(
            currencies@[i - 1],
        ));
    }
    assert(currencies@.subrange(0, i as int) == currencies@);
    codes
}

/// The market symbols of a list, in its order.
pub fn market_symbols(markets: &Vec<Market>) -> (r: Vec<String>)
    ensures
        r@ == markets@.map_values(|m: Market| m.market_symbol),
{
    let mut symbols: Vec<String> = Vec::new();
    let mut i: usize = 0;
    while i < markets.len()
        invariant
            i <= markets@.len(),
            symbols@ == markets@.subrange(0, i as int).map_values(|m: Market| m.market_symbol),
        decreases markets@.len() - i,
    {
        symbols.push(markets[i].market_symbol.clone());
        i = i + 1;
        assert(markets@.subrange(0, i as int) == markets@.subrange(0, i - 1 as int).push(
            markets@[i - 1],
        ));
    }
    assert(markets@.subrange(0, i as int) == markets@);
    symbols
}

} // verus!
