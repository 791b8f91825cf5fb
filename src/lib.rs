//! Construction and validation of signed tokens: claim ingestion, key material
//! resolution and the encode / decode pipelines around a signing library.

pub mod algorithms;
pub mod builder;
pub mod claims;
pub mod json;
pub mod keys;
pub mod numbers;
pub mod payload;
pub mod report;
pub mod text;
pub mod token;
