//! Shopify REST resource infrastructure with verified path resolution.
pub mod clients;
pub mod text;
pub mod json;
pub mod encoding;
pub mod rest;

pub use clients::HttpMethod;
