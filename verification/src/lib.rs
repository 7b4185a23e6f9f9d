//! Client-side trust verification for signed content repositories: the
//! transport error model, the retrying HTTP fetch policy, and the rules that
//! decide whether fetched metadata may be trusted.

pub mod delegation;
pub mod error;
pub mod http;
pub mod loader;
pub mod paths;
pub mod policy;
pub mod repository;
pub mod root;
pub mod schema;
pub mod seqs;
pub mod text;
pub mod threshold;
pub mod transport;

pub use error::{Error, RoleType};
pub use http::{ClientSettings, HttpTransport, RetryRead};
pub use policy::{ExpirationEnforcement, Limits};
pub use repository::Repository;
pub use transport::{FilesystemTransport, Location, TransportError, TransportErrorKind};
