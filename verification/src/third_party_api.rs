//! Clients for third-party web APIs.

pub mod alpha_vantage;
