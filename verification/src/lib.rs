//! Token-validation core for a sandboxed host boundary.
//!
//! The library decides, for a byte region handed over by a host, whether it
//! holds a validly signed, non-expired, correctly-audienced and
//! correctly-issued authentication token, and manages the buffers the host
//! fills. All decision logic is verified; the cryptographic signature check
//! and the UTF-8 decoding are performed by outside code behind narrow
//! trusted wrappers.

pub mod buffer;
pub mod claims;
pub mod verdict;
pub mod verify;

pub use buffer::BufferManager;
pub use claims::Claims;
pub use verdict::AuthResult;
pub use verify::verify_token;
pub use verify::verify_token_at;
