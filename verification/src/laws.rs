//! What holds of the library as a whole, whatever the single functions are made
//! of: who may do what, what is read back of what is written, and what each
//! operation does to the entries, grants, uploads and sessions it is about.

pub mod access;
pub mod content;
pub mod delegated;
pub mod entries;
pub mod filtering;
pub mod identity;
pub mod organization;
pub mod reasons;
pub mod records;
pub mod refusals;
pub mod sharing;
