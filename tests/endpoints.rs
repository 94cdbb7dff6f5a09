use ruststamp::client::{
    currency_codes, decode_ticker, decoded, market_symbols, Currency, Market, Order, OrderBook,
    RestClient, Ticker,
};
use ruststamp::config::{default_api_version, ApiConfig, ConfigError};
use ruststamp::error::{ClientError, Operation};

fn config(base: &str, version: Option<&str>) -> ApiConfig {
    ApiConfig::new(base.to_string(), version.map(|v| v.to_string()), 8000, 8000, 5000, None, None)
        .unwrap()
}

fn ticker(last: &str) -> Ticker {
    Ticker {
        timestamp: "1700000000".to_string(),
        open: "36000.00".to_string(),
        high: "37000.10".to_string(),
        low: "35900".to_string(),
        last: last.to_string(),
        volume: "1234.56789012".to_string(),
        vwap: "36500.5".to_string(),
        bid: "36499.99".to_string(),
        ask: "36500.01".to_string(),
        side: "0".to_string(),
        open_24: "35800".to_string(),
        percent_change_24: Some("1.96".to_string()),
        pair: None,
    }
}

fn currency(code: &str) -> Currency {
    Currency {
        name: format!("{} coin", code),
        currency: code.to_string(),
        currency_type: "crypto".to_string(),
        symbol: None,
        decimals: 8,
        logo: "https://example.test/logo.svg".to_string(),
        available_supply: "21000000".to_string(),
        deposit: "Enabled".to_string(),
        withdrawal: "Enabled".to_string(),
        networks: None,
    }
}

fn market(symbol: &str) -> Market {
    Market {
        name: symbol.to_uppercase(),
        market_symbol: symbol.to_string(),
        base_currency: "BTC".to_string(),
        base_decimals: 8,
        counter_currency: "USD".to_string(),
        counter_decimals: 2,
        minimum_order_value: "10.00".to_string(),
        trading: "Enabled".to_string(),
        instant_order_counter_decimals: 2,
        instant_and_market_orders: "Enabled".to_string(),
        description: "Bitcoin / U.S. dollar".to_string(),
        market_type: "SPOT".to_string(),
    }
}

#[test]
fn markets_url_is_exact() {
    let client = RestClient::new(&config("https://example.test", Some("v2")));
    assert_eq!(client.markets_url(), "https://example.test/v2/markets");
}

#[test]
fn order_book_url_is_exact() {
    let client = RestClient::new(&config("https://example.test", Some("v2")));
    assert_eq!(client.order_book_url("btcusd"), "https://example.test/v2/order_book/btcusd");
}

#[test]
fn ticker_and_currencies_urls() {
    let client = RestClient::new(&config("https://example.test", None));
    assert_eq!(client.ticker_url("xrpgbp"), "https://example.test/v2/ticker/xrpgbp");
    assert_eq!(client.currencies_url(), "https://example.test/v2/currencies");
}

#[test]
fn build_url_uses_version_and_symbol_verbatim() {
    let client = RestClient::new(&config("https://example.test/api", Some("v3")));
    assert_eq!(client.build_url("ticker/BTC-USD"), "https://example.test/api/v3/ticker/BTC-USD");
}

#[test]
fn missing_version_defaults() {
    assert_eq!(default_api_version(), "v2");
    let c = config("https://example.test", None);
    assert_eq!(c.version, "v2");
    assert_eq!(c.base_url, "https://example.test");
    assert_eq!(c.timeout_ms, 5000);
}

#[test]
fn invalid_base_url_is_refused() {
    let r = ApiConfig::new("not a url".to_string(), None, 1, 1, 1, None, None);
    assert_eq!(r.unwrap_err(), ConfigError::InvalidBaseUrl);
    let r = ApiConfig::new("/v2/relative".to_string(), None, 1, 1, 1, None, None);
    assert_eq!(r.unwrap_err(), ConfigError::InvalidBaseUrl);
}

#[test]
fn empty_version_is_refused() {
    let r = ApiConfig::new("https://example.test".to_string(), Some(String::new()), 1, 1, 1, None, None);
    assert_eq!(r.unwrap_err(), ConfigError::EmptyApiVersion);
}

#[test]
fn duplicate_keeps_every_field() {
    let c = ApiConfig::new(
        "https://example.test".to_string(),
        Some("v2".to_string()),
        7,
        9,
        11,
        Some("id".to_string()),
        Some("SECRET-REDACTED".to_string()),
    )
    .unwrap();
    let d = c.duplicate();
    assert_eq!(d.base_url, c.base_url);
    assert_eq!(d.version, c.version);
    assert_eq!((d.rate_limit_sec, d.rate_limit_min, d.timeout_ms), (7, 9, 11));
    assert_eq!(d.client_id, Some("id".to_string()));
    assert_eq!(d.client_secret, Some("SECRET-REDACTED".to_string()));
}

#[test]
fn single_object_ticker_is_returned_unchanged() {
    let r = decode_ticker(Err("invalid type: map, expected a sequence".to_string()), Ok(ticker("36500.00")));
    assert_eq!(r, Ok(ticker("36500.00")));
}

#[test]
fn list_ticker_returns_first_element() {
    let r = decode_ticker(
        Ok(vec![ticker("1.0"), ticker("2.0")]),
        Err("invalid type: sequence, expected struct Ticker".to_string()),
    );
    assert_eq!(r.unwrap().last, "1.0");
}

#[test]
fn empty_list_falls_back_to_object() {
    let r = decode_ticker(Ok(vec![]), Ok(ticker("3.5")));
    assert_eq!(r.unwrap().last, "3.5");
}

#[test]
fn empty_list_and_failed_object_is_decode_error() {
    let r = decode_ticker(Ok(vec![]), Err("invalid type: sequence".to_string()));
    assert_eq!(
        r,
        Err(ClientError::Decode { operation: Operation::Ticker, cause: "invalid type: sequence".to_string() })
    );
}

#[test]
fn malformed_ticker_body_is_decode_error() {
    let r = decode_ticker(Err("expected value at line 1".to_string()), Err("expected value at line 1 column 1".to_string()));
    assert_eq!(
        r,
        Err(ClientError::Decode {
            operation: Operation::Ticker,
            cause: "expected value at line 1 column 1".to_string()
        })
    );
}

#[test]
fn decimal_text_is_kept_exactly() {
    let r = decode_ticker(Ok(vec![ticker("0.00000001")]), Err(String::new())).unwrap();
    assert_eq!(r.last, "0.00000001");
    assert_eq!(r.volume, "1234.56789012");
    assert_eq!(r.percent_change_24, Some("1.96".to_string()));
}

#[test]
fn malformed_body_names_each_operation() {
    for op in [Operation::Currencies, Operation::Markets, Operation::OrderBook] {
        let r: Result<u8, ClientError> = decoded(op, Err("EOF while parsing".to_string()));
        assert_eq!(r, Err(ClientError::Decode { operation: op, cause: "EOF while parsing".to_string() }));
    }
}

#[test]
fn decoded_order_book_keeps_order() {
    let book = OrderBook {
        timestamp: "1700000000".to_string(),
        microtimestamp: "1700000000123456".to_string(),
        bids: vec![
            Order { price: "100.5".to_string(), amount: "1".to_string() },
            Order { price: "100.4".to_string(), amount: "2".to_string() },
        ],
        asks: vec![Order { price: "100.6".to_string(), amount: "0.5".to_string() }],
    };
    let r = decoded(Operation::OrderBook, Ok(book)).unwrap();
    assert_eq!(r.bids[0].price, "100.5");
    assert_eq!(r.bids[1].price, "100.4");
    assert_eq!(r.asks[0].amount, "0.5");
}

#[test]
fn brief_currencies_lists_codes_in_order() {
    let list = vec![currency("btc"), currency("usd"), currency("eth")];
    assert_eq!(currency_codes(&list), vec!["btc", "usd", "eth"]);
    assert!(currency_codes(&vec![]).is_empty());
}

#[test]
fn brief_markets_lists_symbols_in_order() {
    let list = vec![market("btcusd"), market("ethbtc")];
    assert_eq!(market_symbols(&list), vec!["btcusd", "ethbtc"]);
}
