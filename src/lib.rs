//! A typed client library for a key-management HTTP API.
//!
//! The verified core covers route templating, the tri-state field model used
//! by partial-update bodies, the JSON bodies of requests, and the decoding
//! rules of the response envelope. Sending requests over the network is left
//! to the caller, which hands the response text back to the decoders.
pub mod encode;
pub mod envelope;
pub mod errors;
pub mod json;
pub mod models;
pub mod operations;
pub mod routes;
pub mod text;
pub mod undefined;

pub use envelope::Wrapped;
pub use errors::ErrorCode;
pub use errors::HttpError;
pub use undefined::UndefinedOr;
