//! A client for the QPay V2 payment API that keeps its access token valid.
//!
//! The crate holds the decisions of the client and none of its input and
//! output: it says which request to send next and takes what came back.

pub mod auth;
pub mod client;
pub mod config;
pub mod ebarimt;
pub mod error;
pub mod http;
pub mod invoice;
pub mod models;
pub mod payment;
pub mod text;
pub mod token;

pub use client::QPayClient;
pub use config::QPayConfig;
pub use error::{is_qpay_error, QPayError};
