//! Reproducible compilation of deployed contracts: version resolution and
//! source normalization for explorer metadata records.

mod text;
pub mod error;
pub mod fetch;
pub mod normalize;
pub mod pipeline;
pub mod record;
pub mod version;
