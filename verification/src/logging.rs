//! What the filesystem tells its log.

pub mod event_log;
