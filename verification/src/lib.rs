//! A verified client core for a payment-gateway REST API.
//!
//! The crate models the resilient request-execution layer of the client: an
//! exponential-backoff retry engine with transient/permanent failure
//! classification, a lazily populated bearer-token cache, and the mapping of
//! payment operations to fully specified HTTP request plans. The network
//! transport itself is left to the embedding program, which drives the
//! verified state machines here.

pub mod client;
pub mod config;
pub mod error;
pub mod http;
pub mod models;
pub mod repository;
pub mod token;

pub use client::FibClient;
pub use config::FibConfig;
pub use error::Error;
pub use error::NetworkCause;
pub use http::HttpClient;
pub use repository::FibPaymentRepository;
pub use repository::PaymentRepository;
pub use token::TokenCache;
pub use models::ApiError;
pub use models::ApiErrorResponse;
pub use models::CreatePaymentRequest;
pub use models::DecimalAmount;
pub use models::MonetaryValue;
pub use models::PaidBy;
pub use models::PaymentResponse;
pub use models::PaymentStatus;
pub use models::PaymentStatusResponse;
pub use models::RawPaymentStatus;
pub use models::TokenResponse;
