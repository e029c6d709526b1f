//! Connection-lifecycle core of a minimal HTTP server library.
//!
//! The crate provides the canonical HTTP value types (status code, header,
//! header field, method token, protocol version) together with a verified
//! model of the listener/shutdown protocol and of the split-stream
//! ownership rules that the rest of a server builds on.

pub mod common;
pub mod server;
pub mod stream;

pub use common::HTTPVersion;
pub use common::Header;
pub use common::HeaderField;
pub use common::Method;
pub use common::StatusCode;
pub use server::AcceptError;
pub use server::ShutdownError;
