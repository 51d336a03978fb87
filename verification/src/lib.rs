//! The core of a client for a currency exchange-rate service and for a
//! service that tells a caller its public address.
//!
//! The crate never touches the network. Each operation comes in two halves:
//! a [`transport::Request`] that says what to fetch, and a function that
//! takes the [`transport::Reply`] and says what it means. Whoever performs
//! the request decodes the body of the reply in the shape the client asks
//! for and hands back what it found, so every rule of the client (which
//! status counts as success, which currency is worth most, what a failure
//! is called) is stated once, here, and proved.
//!
//! Rates are binary64 numbers. They are held as bit patterns
//! ([`rate::Rate`]) and compared as such, so that no floating-point
//! arithmetic is needed to order them.

pub mod currency_set;
pub mod error;
pub mod exchange_rate_api;
pub mod ip_api;
pub mod rate;
pub mod snapshot;
pub mod text;
pub mod transport;
