//! The write path of a filesystem that presents an object store as a mount:
//! the lifecycle of one streaming upload, and the mapping of internal
//! failures onto POSIX error codes with their diagnostic context.

pub mod errno;
pub mod fs;
pub mod inode;
pub mod logging;
pub mod text;
pub mod upload;
