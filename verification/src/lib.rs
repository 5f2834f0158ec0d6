pub mod clock;
pub mod encoding;
pub mod error;
pub mod iam;
pub mod ids;
pub mod json;
pub mod laws;
pub mod model;
pub mod order;
pub mod postgres;
pub mod secret;
pub mod text;
