//! The request and response records of the api's endpoints.
pub mod apis;
pub mod keys;
pub mod ratelimit;
pub mod refill;
