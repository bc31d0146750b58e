//! Ready-to-use pipelines.

pub mod common;
pub mod sequence_classification;
pub mod tokenizer;
