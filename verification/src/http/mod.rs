//! Fetching over HTTP with retries, exponential backoff and byte-range
//! resume.
//!
//! The policy is a set of pure decisions: each takes the state of a request
//! and what the network just did, and says what to do next. Whoever owns
//! the connection sends, sleeps and reads as told.

pub mod error;
pub mod fetch;
pub mod read;
pub mod request;
pub mod retry;
pub mod settings;
pub mod status;

pub use error::HttpError;
pub use fetch::{fetch_with_retries, sort_attempt, Attempt, FetchStep};
pub use read::{ReadOutcome, ReadStep, RetryRead};
pub use request::{build_request, Request};
pub use retry::RetryState;
pub use settings::{ClientSettings, HttpTransport};
pub use status::{parse_response, parse_status_err, HttpResult};
