//! What the filesystem hands to its caller when an operation fails.

pub mod cause;
pub mod error;
pub mod error_metadata;
