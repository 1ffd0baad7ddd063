//! The adapters, one module for each provider.

pub mod cohere;
