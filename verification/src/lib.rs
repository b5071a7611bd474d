//! Typed request and response handling for the Coinpaprika market-data API.
//!
//! A [`client::Client`] fixes the tier of the API and the key. Each endpoint
//! has a request type, reached through a method of the client, whose setters
//! choose the optional filters and whose `request` gives the URL, the query
//! parameters and the headers to send. [`client::Client::response`] decides
//! what the outcome of a sent request means: an error of [`error::Error`], or
//! the response handed on for decoding. Nothing here touches the network:
//! sending is left to the caller.

pub mod changelog;
pub mod client;
pub mod coins;
pub mod contracts;
pub mod date;
pub mod error;
pub mod exchanges;
pub mod global;
pub mod json;
pub mod key;
pub mod people;
pub mod request;
pub mod tags;
pub mod text;
pub mod tickers;
pub mod tools;
