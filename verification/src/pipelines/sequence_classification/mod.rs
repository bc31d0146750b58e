//! Sequence classification pipeline (e.g. sentiment analysis): which
//! classifier is built for a model type, how texts become a rectangular batch
//! of token ids, and how the class probabilities that come back are decoded
//! into labels.

pub mod batch;
pub mod classifier;
pub mod decode;
pub mod label;
pub mod laws;
pub mod model;

pub use batch::TokenizedBatch;
pub use classifier::{ForwardCall, ForwardInput, OutputField, SequenceClassificationOption};
pub use label::{Label, LabelView, Score, ONE_BITS};
pub use model::{Device, SequenceClassificationConfig, SequenceClassificationModel};
