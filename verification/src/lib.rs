//! Sequence classification over interchangeable transformer architectures,
//! with its decisions verified: the choice of the classifier for a model
//! type, the batch that texts are turned into, and the labels decoded from
//! the probabilities of the classes.

pub mod common;
pub mod pipelines;

pub use common::error::{RustBertError, RustBertErrorView};
pub use pipelines::common::{ConfigKind, ConfigOption, ModelConfig, ModelType, TokenizerOption};
pub use pipelines::sequence_classification::{
    Device, ForwardCall, ForwardInput, Label, LabelView, OutputField, Score,
    SequenceClassificationConfig, SequenceClassificationModel, SequenceClassificationOption,
    TokenizedBatch, ONE_BITS,
};
pub use pipelines::tokenizer::{TokenizerKind, TruncationStrategy};
