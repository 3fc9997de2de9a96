//! A minimal client library for the Alpha Vantage financial-data web API.
//!
//! The library builds a query URL from a typed parameter bundle, and turns
//! the outcome of the HTTP exchange into the query's result. The network
//! call itself is performed by the caller; the library states exactly which
//! URL must be fetched and what each transport outcome means.
//!
//! A small set of passive value types models historical price time series
//! (metadata plus OHLCV samples).

pub mod historical;
pub mod third_party_api;
