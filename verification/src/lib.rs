//! Endpoint configuration and resolution for an S3-compatible object store.

pub mod config;
pub mod endpoint;
pub mod error;
pub mod laws;
pub mod request;
pub mod uri;

pub use config::{AddressingStyle, EndpointConfig};
pub use endpoint::{Endpoint, Resolution, RuleOutcome};
pub use error::{EndpointError, InvalidUriError, RegionError, ResolverError};
pub use request::Parameter;
pub use uri::Uri;
