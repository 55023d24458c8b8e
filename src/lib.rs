//! A service written once against two capabilities, a key-value store and an HTTP client,
//! and bundles that bind them to concrete implementations per environment: production,
//! staging, development and test. Which bundle runs is selected once, from the build's
//! environment flags, with production as the default.
//!
//! The HTTP capability is free of I/O: a client turns a GET into either an answer of its own
//! or a request for a driver to send over a network transport.

pub mod beta_dependencies;
pub mod btreemap_database_client;
pub mod database_client;
pub mod dependencies;
pub mod dev_dependencies;
pub mod entries;
pub mod environment;
pub mod hashmap_database_client;
pub mod http_client;
pub mod network_http_client;
pub mod prod_dependencies;
pub mod service;
pub mod test_database_client;
pub mod test_dependencies;
pub mod test_http_client;
