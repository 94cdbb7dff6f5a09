//! A client for a cryptocurrency exchange's public REST API: configuration,
//! request URLs, classification of HTTP replies, and the choice among the
//! shapes in which the exchange answers.
pub mod client;
pub mod config;
pub mod error;
pub mod transport;
