//! Errors reported by the classification pipeline.

use vstd::prelude::*;

verus! {

/// What can go wrong while a pipeline is put together or a batch is prepared.
#[derive(Debug)]
pub enum RustBertError {
    /// The configuration supplied does not fit the requested architecture, or
    /// the architecture has no sequence classification head.
    InvalidConfigurationError(String),
    /// The tokenizer cannot serve the pipeline as it is set up.
    TokenizerError(String),
}

/// Mathematical value of a [`RustBertError`]: the variant and the characters
/// of its description.
pub enum RustBertErrorView {
    InvalidConfigurationError(Seq<char>),
    TokenizerError(Seq<char>),
}

impl View for RustBertError {
    type V = RustBertErrorView;

    open spec fn view(&self) -> RustBertErrorView {
        match self {
            RustBertError::InvalidConfigurationError(text) => {
                RustBertErrorView::InvalidConfigurationError(text@)
            },
            RustBertError::TokenizerError(text) => RustBertErrorView::TokenizerError(text@),
        }
    }
}

impl RustBertError {
    /// The human-readable description carried by the error.
    pub fn message(&self) -> (text: String)
        ensures
            self@ == (if self is InvalidConfigurationError {
                RustBertErrorView::InvalidConfigurationError(text@)
            } else {
                RustBertErrorView::TokenizerError(text@)
            }),
    {
        match self {
            RustBertError::InvalidConfigurationError(text) => text.clone(),
            RustBertError::TokenizerError(text) => text.clone(),
        }
    }

    /// Whether the error reports a configuration that does not fit.
    pub fn is_invalid_configuration(&self) -> (b: bool)
        ensures
            b == (self is InvalidConfigurationError),
    {
        match self {
            RustBertError::InvalidConfigurationError(_) => true,
            RustBertError::TokenizerError(_) => false,
        }
    }

    /// Whether the error reports a tokenizer that cannot serve the pipeline.
    pub fn is_tokenizer(&self) -> (b: bool)
        ensures
            b == (self is TokenizerError),
    {
        match self {
            RustBertError::InvalidConfigurationError(_) => false,
            RustBertError::TokenizerError(_) => true,
        }
    }
}

} // verus!
