//! A gateway core for daily average prices: date-range validation, the
//! classification of what the upstream pricing service answered, and the
//! mapping of every outcome onto the public response contract.

pub mod config;
pub mod date_validation;
pub mod errors;
pub mod models;
pub mod prices;
pub mod python_client;
