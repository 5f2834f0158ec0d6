//! Metadata operations: entries, grants, access requests, logs and the bin.

pub mod common;
pub mod entries;
pub mod filter;
pub mod grants;
pub mod listing;
pub mod notifications;
pub mod requests;

