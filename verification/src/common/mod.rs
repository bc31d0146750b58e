//! What every pipeline shares.

pub mod error;
