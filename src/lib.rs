//! Request composition and response handling for a NetSuite REST client.
//!
//! The library never touches the network: it decides which URL and which
//! `Authorization` header a request carries, and what an HTTP status code
//! means for the operation that asked for it. The program around it sends
//! the requests and decodes the JSON bodies.
pub mod client;
pub mod command;
pub mod config;
pub mod error;
pub mod query;
pub mod records;

pub use client::{ApiRequest, NetSuiteClient};
pub use command::Command;
pub use config::{AppConfig, NetSuiteConfig};
pub use error::NetSuiteError;
pub use records::{Customer, CustomerResponse, EntityReference, Transaction, TransactionResponse};
