//! Presigned requests: a validated validity window, and a handle on the signed
//! request that can always be duplicated and turned into an outbound request.

pub mod clock;
pub mod config;
pub mod headers;
pub mod method;
pub mod request;
pub mod wire;

pub use config::ErrorKind;
pub use config::PresigningConfig;
pub use config::PresigningConfigBuilder;
pub use config::PresigningConfigError;
pub use request::PresignedRequest;
pub use request::PresignedRequestError;
