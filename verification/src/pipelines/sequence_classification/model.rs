//! The sequence classification pipeline: its configuration, its
//! construction, the batch it prepares for the classifier, and the labels it
//! decodes from the probabilities that come back.

use crate::common::error::{RustBertError, RustBertErrorView};
use crate::pipelines::common::{ConfigOption, ModelType};
use crate::pipelines::sequence_classification::batch::{
    ids_view, lemma_row_max, missing_pad_message, padded_rows, row_max, TokenizedBatch,
};
use crate::pipelines::sequence_classification::classifier::{
    classifier_for, rejection_message, required_config, ForwardCall, SequenceClassificationOption,
};
use crate::pipelines::sequence_classification::decode::{
    decode_multi, decode_single, group_views, label_views, multi_decodable, multi_labels,
    output_view, single_decodable, single_labels,
};
use crate::pipelines::sequence_classification::label::{Label, Score};
use crate::pipelines::tokenizer::{texts_view, TokenizerOption, TruncationStrategy};
use std::collections::HashMap;
use vstd::prelude::*;

verus! {

/// Where the classifier is to run.
#[derive(Clone, Copy, Debug, PartialEq, Eq, Structural)]
pub enum Device {
    /// On the processor.
    Cpu,
    /// On the graphics card of the given index.
    Cuda(usize),
    /// On the first graphics card where the machine has one, else on the
    /// processor.
    CudaIfAvailable,
}

/// Configuration for a [`SequenceClassificationModel`]: the model to load,
/// where its files are to be had, how its tokenizer treats the text, and the
/// device to place the model on. `R` is whatever names a resource.
pub struct SequenceClassificationConfig<R> {
    /// Model type
    pub model_type: ModelType,
    /// Model weights resource
    pub model_resource: R,
    /// Config resource
    pub config_resource: R,
    /// Vocab resource
    pub vocab_resource: R,
    /// Merges resource
    pub merges_resource: Option<R>,
    /// Automatically lower case all input upon tokenization (assumes a
    /// lower-cased model)
    pub lower_case: bool,
    /// Flag indicating if the tokenizer should strip accents
    /// (normalization). Only used for BERT / ALBERT models
    pub strip_accents: Option<bool>,
    /// Flag indicating if the tokenizer should add a white space before each
    /// tokenized input (needed for some Roberta models)
    pub add_prefix_space: Option<bool>,
    /// Device to place the model on (default: the graphics card when
    /// available)
    pub device: Device,
}

impl<R> SequenceClassificationConfig<R> {
    /// Instantiate a new sequence classification configuration of the
    /// supplied type, to run on the graphics card where there is one.
    pub fn new(
        model_type: ModelType,
        model_resource: R,
        config_resource: R,
        vocab_resource: R,
        merges_resource: Option<R>,
        lower_case: bool,
        strip_accents: Option<bool>,
        add_prefix_space: Option<bool>,
    ) -> (config: SequenceClassificationConfig<R>)
        ensures
            config == (SequenceClassificationConfig {
                model_type,
                model_resource,
                config_resource,
                vocab_resource,
                merges_resource,
                lower_case,
                strip_accents,
                add_prefix_space,
                device: Device::CudaIfAvailable,
            }),
    {
        SequenceClassificationConfig {
            model_type,
            model_resource,
            config_resource,
            vocab_resource,
            merges_resource,
            lower_case,
            strip_accents,
            add_prefix_space,
            device: Device::CudaIfAvailable,
        }
    }
}

/// The longest input, in token ids, of a model whose configuration gives
/// `max_len` as its number of positions: that number as a `usize`, and no
/// bound where the configuration gives none.
pub open spec fn max_length_of(max_len: Option<i64>) -> usize {
    match max_len {
        Some(v) => v as usize,
        None => usize::MAX,
    }
}

/// The description of the error for a pipeline whose longest input leaves no
/// room for the special tokens of its tokenizer.
pub open spec fn short_length_message() -> Seq<char> {
    "The maximum length of the model leaves no room for the special tokens of the Tokenizer"@
}

/// The description of the error for a pipeline whose tokenizer has a
/// vocabulary that gives its unknown token no id.
pub open spec fn unknown_token_message() -> Seq<char> {
    "The vocabulary of the Tokenizer should contain its unknown token"@
}

/// Sequence classification model (e.g. sentiment analysis): a tokenizer, the
/// classifier that was chosen for the model type, and the texts of the labels.
pub struct SequenceClassificationModel {
    tokenizer: TokenizerOption,
    sequence_classifier: SequenceClassificationOption,
    label_mapping: HashMap<i64, String>,
    max_length: usize,
}

impl SequenceClassificationModel {
    /// The classifier of the pipeline.
    pub closed spec fn spec_sequence_classifier(&self) -> SequenceClassificationOption {
        self.sequence_classifier
    }

    /// The texts of the labels, by label id.
    pub closed spec fn labels(&self) -> Map<i64, String> {
        self.label_mapping@
    }

    /// The greatest number of token ids that a text is encoded to.
    pub closed spec fn spec_max_length(&self) -> usize {
        self.max_length
    }

    /// The tokenizer of the pipeline.
    pub closed spec fn spec_tokenizer(&self) -> TokenizerOption {
        self.tokenizer
    }

    /// The id of the tokenizer's padding token, if it has one.
    pub open spec fn spec_pad_id(&self) -> Option<i64> {
        self.spec_tokenizer().spec_get_pad_id()
    }

    /// Whether the pipeline can turn texts into a batch: its tokenizer has a
    /// padding id and knows its unknown token, and the longest input leaves
    /// room for the tokenizer's special tokens.
    pub open spec fn can_encode(&self) -> bool {
        &&& self.spec_pad_id() is Some
        &&& self.spec_max_length() >= self.spec_tokenizer().special_tokens()
        &&& self.spec_tokenizer().knows_unknown()
    }

    /// Whether `batch` is a batch that the pipeline prepares for the texts:
    /// it has one row for each text, all of one length, which is no more
    /// than the longest input of the model, and it is the padded form, with
    /// the tokenizer's padding id, of what the tokenizer encodes the texts to.
    pub open spec fn is_batch_of(&self, texts: Seq<Seq<char>>, batch: TokenizedBatch) -> bool {
        &&& batch@.len() == texts.len()
        &&& batch.spec_width() <= self.spec_max_length()
        &&& forall|i: int| 0 <= i < batch@.len() ==> (#[trigger] batch@[i]).len()
            == batch.spec_width()
        &&& texts.len() > 0 ==> exists|rows: Seq<Seq<i64>>|
            {
                &&& #[trigger] self.spec_tokenizer().is_encoding(
                    texts,
                    self.spec_max_length(),
                    rows,
                )
                &&& batch@ == padded_rows(rows, self.spec_pad_id().unwrap())
            }
    }

    /// The description of the error for texts that the pipeline cannot turn
    /// into a batch: the first of the three conditions that fails.
    pub open spec fn refusal_message(&self) -> Seq<char> {
        if self.spec_pad_id() is None {
            missing_pad_message()
        } else if self.spec_max_length() < self.spec_tokenizer().special_tokens() {
            short_length_message()
        } else {
            unknown_token_message()
        }
    }

    /// Build a new `SequenceClassificationModel` from its configuration, the
    /// tokenizer that was loaded for it and the model configuration that was
    /// read for it.
    ///
    /// Succeeds exactly when the model type of `config` has a sequence
    /// classification head and `model_config` is the configuration that the
    /// model type takes; no pipeline is returned otherwise. The pipeline
    /// runs the classifier of that model type with the tokenizer given, and
    /// takes its label texts and its longest input from `model_config`.
    pub fn new<R>(
        config: &SequenceClassificationConfig<R>,
        tokenizer: TokenizerOption,
        model_config: &ConfigOption,
    ) -> (r: Result<SequenceClassificationModel, RustBertError>)
        ensures
            r is Ok <==> required_config(config.model_type) == Some(model_config.kind()),
            r matches Err(e) ==> e@ == RustBertErrorView::InvalidConfigurationError(
                rejection_message(config.model_type),
            ),
            r matches Ok(model) ==> {
                &&& classifier_for(config.model_type) == Some(model.sequence_classifier())
                &&& model.labels() == model_config.spec_settings().id2label@
                &&& model.max_length() == max_length_of(
                    model_config.spec_settings().max_position_embeddings,
                )
                &&& model.spec_tokenizer() == tokenizer
            },
    {
        let max_length = match model_config.get_max_len() {
            Some(v) => #[verifier::truncate]
            (v as usize),
            None => usize::MAX,
        };
        let sequence_classifier = match SequenceClassificationOption::new(
            config.model_type,
            model_config,
        ) {
            Ok(sequence_classifier) => sequence_classifier,
            Err(e) => {
                return Err(e);
            },
        };
        let label_mapping = model_config.get_label_mapping().clone();
        Ok(SequenceClassificationModel { tokenizer, sequence_classifier, label_mapping, max_length })
    }

    /// The classifier of the pipeline.
    #[verifier::when_used_as_spec(spec_sequence_classifier)]
    pub fn sequence_classifier(&self) -> (classifier: SequenceClassificationOption)
        ensures
            classifier == self.spec_sequence_classifier(),
    {
        self.sequence_classifier
    }

    /// The texts of the labels, by label id.
    pub fn label_mapping(&self) -> (mapping: &HashMap<i64, String>)
        ensures
            mapping@ == self.labels(),
    {
        &self.label_mapping
    }

    /// The greatest number of token ids that a text is encoded to.
    #[verifier::when_used_as_spec(spec_max_length)]
    pub fn max_length(&self) -> (max_length: usize)
        ensures
            max_length == self.spec_max_length(),
    {
        self.max_length
    }

    /// The tokenizer of the pipeline.
    pub fn tokenizer(&self) -> (tokenizer: &TokenizerOption)
        ensures
            *tokenizer == self.spec_tokenizer(),
    {
        &self.tokenizer
    }

    /// The id of the tokenizer's padding token, if it has one.
    #[verifier::when_used_as_spec(spec_pad_id)]
    pub fn pad_id(&self) -> (pad_id: Option<i64>)
        ensures
            pad_id == self.spec_pad_id(),
    {
        self.tokenizer.get_pad_id()
    }

    /// Turns the texts into the batch that the classifier takes: the token
    /// ids that the tokenizer gives for each text, cut down longest-first to
    /// the longest input of the model, and padded with the padding id to the
    /// length of the longest row.
    ///
    /// No text gives the empty batch. Texts are refused where the tokenizer
    /// has no padding id, else where the longest input leaves no room for
    /// the tokenizer's special tokens, else where the tokenizer's vocabulary
    /// gives its unknown token no id.
    pub fn prepare_for_model(&self, input: &[&str]) -> (r: Result<TokenizedBatch, RustBertError>)
        ensures
            r is Ok <==> input.len() == 0 || self.can_encode(),
            r matches Err(e) ==> e@ == RustBertErrorView::TokenizerError(self.refusal_message()),
            r matches Ok(batch) ==> self.is_batch_of(texts_view(input@), batch),
    {
        if input.len() == 0 {
            return TokenizedBatch::from_token_ids(Vec::new(), None);
        }
        let pad = match self.tokenizer.get_pad_id() {
            Some(pad) => pad,
            None => {
                return Err(
                    RustBertError::TokenizerError(
                        "The Tokenizer used for sequence classification should contain a PAD id".to_owned(),
                    ),
                );
            },
        };
        if self.max_length < self.tokenizer.special_tokens() {
            return Err(
                RustBertError::TokenizerError(
                    "The maximum length of the model leaves no room for the special tokens of the Tokenizer".to_owned(),
                ),
            );
        }
        if !self.tokenizer.has_unknown_token() {
            return Err(
                RustBertError::TokenizerError(
                    "The vocabulary of the Tokenizer should contain its unknown token".to_owned(),
                ),
            );
        }
        let token_ids = self.tokenizer.encode_list(
            input,
            self.max_length,
            TruncationStrategy::LongestFirst,
            0,
        );
        let ghost rows = ids_view(token_ids@);
        let r = TokenizedBatch::from_token_ids(token_ids, Some(pad));
        proof {
            lemma_row_max(rows);
        }
        r
    }

    /// What the pipeline asks of its classifier for a list of texts: the
    /// forward call on the batch prepared from the texts, as token ids alone
    /// and not in training mode, routed to the pipeline's classifier.
    ///
    /// Fails as [`Self::prepare_for_model`] does: for texts where the
    /// tokenizer has no padding id, cannot fit its special tokens into the
    /// longest input, or does not know its unknown token.
    pub fn forward_request(&self, input: &[&str]) -> (r: Result<
        ForwardCall<TokenizedBatch>,
        RustBertError,
    >)
        ensures
            r is Ok <==> input.len() == 0 || self.can_encode(),
            r matches Err(e) ==> e@ == RustBertErrorView::TokenizerError(self.refusal_message()),
            r matches Ok(call) ==> {
                &&& call.input_ids matches Some(batch) && self.is_batch_of(
                    texts_view(input@),
                    batch,
                )
                &&& call == self.sequence_classifier().route(
                    call.input_ids,
                    None,
                    None,
                    None,
                    None,
                    false,
                )
            },
    {
        match self.prepare_for_model(input) {
            Ok(batch) => Ok(self.forward_call(batch)),
            Err(e) => Err(e),
        }
    }

    /// The forward call of the pipeline for a prepared batch: the token ids
    /// alone, routed to the pipeline's classifier, and never in training
    /// mode.
    pub fn forward_call<T>(&self, input_ids: T) -> (call: ForwardCall<T>)
        ensures
            call == self.sequence_classifier().route(
                Some(input_ids),
                None,
                None,
                None,
                None,
                false,
            ),
            !call.train,
    {
        self.sequence_classifier.forward_t(Some(input_ids), None, None, None, None, false)
    }

    /// Classify texts: decodes the probabilities that the classifier's
    /// softmax gave for a batch, one row per text and one entry per class,
    /// into one label per text, that of the most probable class, the lowest
    /// where several are most probable. `None` where a text has no class or
    /// the label mapping has no text for its most probable class.
    pub fn try_predict(&self, output: &Vec<Vec<Score>>) -> (r: Option<Vec<Label>>)
        ensures
            r is Some <==> single_decodable(self.labels(), output_view(output@)),
            r matches Some(labels) ==> label_views(labels@) == single_labels(
                self.labels(),
                output_view(output@),
            ),
    {
        decode_single(&self.label_mapping, output)
    }

    /// Classify texts: decodes the probabilities that the classifier's
    /// softmax gave for a batch, one row per text and one entry per class,
    /// into one label per text, in the order of the texts: that of the most
    /// probable class, the lowest where several are most probable.
    ///
    /// The label mapping must have a text for each class decoded, and each
    /// text a class.
    pub fn predict(&self, output: &Vec<Vec<Score>>) -> (labels: Vec<Label>)
        requires
            single_decodable(self.labels(), output_view(output@)),
        ensures
            label_views(labels@) == single_labels(self.labels(), output_view(output@)),
            labels.len() == output.len(),
            forall|i: int| 0 <= i < labels.len() ==> (#[trigger] labels[i]).sentence == i,
    {
        match decode_single(&self.label_mapping, output) {
            Some(labels) => {
                proof {
                    let views = label_views(labels@);
                    assert(views.len() == output.len());
                    assert forall|i: int| 0 <= i < labels.len() implies (#[trigger] labels[i]).sentence
                        == i by {
                        assert(views[i] == labels[i]@);
                    }
                }
                labels
            },
            None => vstd::pervasive::unreached(),
        }
    }

    /// Multi-label classification of texts: decodes the probabilities that
    /// the classifier's sigmoid gave for a batch into one group of labels per
    /// text: a label for each class whose probability is at least
    /// `threshold`, by ascending class. `None` where the label mapping has no
    /// text for such a class.
    pub fn try_predict_multilabel(&self, output: &Vec<Vec<Score>>, threshold: Score) -> (r: Option<
        Vec<Vec<Label>>,
    >)
        ensures
            r is Some <==> multi_decodable(self.labels(), output_view(output@), threshold@),
            r matches Some(groups) ==> group_views(groups@) == multi_labels(
                self.labels(),
                output_view(output@),
                threshold@,
            ),
    {
        decode_multi(&self.label_mapping, output, threshold)
    }

    /// Multi-label classification of texts: decodes the probabilities that
    /// the classifier's sigmoid gave for a batch into one group of labels per
    /// text, in the order of the texts: a label for each class whose
    /// probability is at least `threshold`, by ascending class. A text none of
    /// whose classes reaches the threshold has an empty group.
    ///
    /// The label mapping must have a text for each class decoded.
    pub fn predict_multilabel(&self, output: &Vec<Vec<Score>>, threshold: Score) -> (r: Result<
        Vec<Vec<Label>>,
        RustBertError,
    >)
        requires
            multi_decodable(self.labels(), output_view(output@), threshold@),
        ensures
            r is Ok,
            r matches Ok(groups) ==> {
                &&& group_views(groups@) == multi_labels(
                    self.labels(),
                    output_view(output@),
                    threshold@,
                )
                &&& groups.len() == output.len()
            },
    {
        match decode_multi(&self.label_mapping, output, threshold) {
            Some(groups) => {
                assert(group_views(groups@).len() == output.len());
                Ok(groups)
            },
            None => vstd::pervasive::unreached(),
        }
    }
}

} // verus!
