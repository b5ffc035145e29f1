//! A local forwarding proxy with selective traffic filtering: the filter
//! decision engine, the lifecycle state machine and the request dispatch rules.

pub mod cli;
pub mod csv_handler;
pub mod engine;
pub mod events;
pub mod filter_laws;
pub mod lifecycle_laws;
pub mod logger;
pub mod proxy;
pub mod request;
pub mod startup;
pub mod text;
pub mod traffic_filter;
