//! The errors that a request can end in.
use vstd::prelude::*;

verus! {

/// The exchange's documented family of "not found" answers (HTTP 404 with a
/// sub-code in the body).
#[derive(Debug, Clone, Copy, PartialEq, Eq, Structural)]
pub enum BitstampError {
    UnknownNotFound,
    OrderNotFound,
    CurrencyPairNotFound,
    TradeAccountNotFound,
    OrderBookNotFound,
    CurrencyNotFound,
    MarketNotFound,
}

impl BitstampError {
    /// The text shown to a user for each sub-code.
    pub open spec fn spec_message(self) -> Seq<char> {
        match self {
            BitstampError::UnknownNotFound => "Unknown not found error (404.001)"@,
            BitstampError::OrderNotFound => "Order not found for corresponding request (404.002)"@,
            BitstampError::CurrencyPairNotFound =>
                "Currency pair not found for corresponding request (404.003)"@,
            BitstampError::TradeAccountNotFound =>
                "Trade account not found for provided API key (404.004)"@,
            BitstampError::OrderBookNotFound => "Order book not found (404.005)"@,
            BitstampError::CurrencyNotFound =>
                "Currency not found for corresponding request (404.006)"@,
            BitstampError::MarketNotFound => "Market not found for corresponding request (404.007)"@,
        }
    }

    /// Renders the error for a user.
    pub fn message(&self) -> (r: String)
        ensures
            r@ == self.spec_message(),
    {
        match self {
            BitstampError::UnknownNotFound => String::from_str("Unknown not found error (404.001)"),
            BitstampError::OrderNotFound => String::from_str(
                "Order not found for corresponding request (404.002)",
            ),
            BitstampError::CurrencyPairNotFound => String::from_str(
                "Currency pair not found for corresponding request (404.003)",
            ),
            BitstampError::TradeAccountNotFound => String::from_str(
                "Trade account not found for provided API key (404.004)",
            ),
            BitstampError::OrderBookNotFound => String::from_str("Order book not found (404.005)"),
            BitstampError::CurrencyNotFound => String::from_str(
                "Currency not found for corresponding request (404.006)",
            ),
            BitstampError::MarketNotFound => String::from_str(
                "Market not found for corresponding request (404.007)",
            ),
        }
    }
}

/// The endpoint operation that a request was made for.
#[derive(Debug, Clone, Copy, PartialEq, Eq, Structural)]
pub enum Operation {
    Ticker,
    Currencies,
    Markets,
    OrderBook,
}

/// How a request to the exchange failed.
#[derive(Debug, PartialEq, Eq)]
pub enum ClientError {
    /// The exchange could not be reached: connection, DNS or timeout.
    Network(String),
    /// The exchange answered with a status other than 200 and 404.
    HttpStatus(u16),
    /// The exchange answered 404.
    NotFound,
    /// The body did not have the shape that the operation expects.
    Decode { operation: Operation, cause: String },
}

} // verus!
