//! The closed set of sequence classifiers: which architecture is built for a
//! requested model type, and how a uniform forward call is routed to it.

use crate::common::error::{RustBertError, RustBertErrorView};
use crate::pipelines::common::{ConfigKind, ConfigOption, ModelType};
use vstd::prelude::*;

verus! {

/// The sequence classifier that a pipeline runs: one of the supported
/// architectures. The weights themselves live with the numeric back end; this
/// value names the architecture whose forward pass is to be called.
#[derive(Clone, Copy, Debug, PartialEq, Eq, Structural)]
pub enum SequenceClassificationOption {
    /// Bert for Sequence Classification
    Bert,
    /// DeBERTa for Sequence Classification
    Deberta,
    /// DeBERTa V2 for Sequence Classification
    DebertaV2,
    /// DistilBert for Sequence Classification
    DistilBert,
    /// MobileBert for Sequence Classification
    MobileBert,
    /// Roberta for Sequence Classification
    Roberta,
    /// XLMRoberta for Sequence Classification
    XLMRoberta,
    /// Albert for Sequence Classification
    Albert,
    /// XLNet for Sequence Classification
    XLNet,
    /// Bart for Sequence Classification
    Bart,
    /// Reformer for Sequence Classification
    Reformer,
    /// Longformer for Sequence Classification
    Longformer,
    /// FNet for Sequence Classification
    FNet,
}

/// The field of a back end's forward result that holds the class scores.
#[derive(Clone, Copy, Debug, PartialEq, Eq, Structural)]
pub enum OutputField {
    /// The result's `logits`.
    Logits,
    /// The result's `decoder_output`.
    DecoderOutput,
}

/// One parameter of an architecture's forward pass: the uniform input that
/// it is fed, or `Absent` for a parameter that the pipeline leaves empty.
#[derive(Clone, Copy, Debug, PartialEq, Eq, Structural)]
pub enum ForwardInput {
    InputIds,
    Mask,
    TokenTypeIds,
    PositionIds,
    InputEmbeds,
    Absent,
}

/// A forward call as the chosen architecture receives it: the inputs it
/// takes, `None` in the place of each one it has no parameter for, and the
/// field of its result to read.
pub struct ForwardCall<T> {
    pub input_ids: Option<T>,
    pub mask: Option<T>,
    pub token_type_ids: Option<T>,
    pub position_ids: Option<T>,
    pub input_embeds: Option<T>,
    pub train: bool,
    pub output: OutputField,
}

/// Whether `to` is what `convert` makes of `from`: nothing of nothing, and of
/// an input one of the values that `convert` can give for it.
pub open spec fn converted<T, U, F: Fn(T) -> U>(from: Option<T>, to: Option<U>, convert: F)
    -> bool {
    match (from, to) {
        (Some(input), Some(output)) => convert.ensures((input,), output),
        (None, None) => true,
        _ => false,
    }
}

impl<T> ForwardCall<T> {
    /// The same call on other values: each input that is present is turned
    /// into what `convert` makes of it, and nothing else changes.
    pub fn map<U, F: Fn(T) -> U>(self, convert: F) -> (call: ForwardCall<U>)
        requires
            forall|input: T| convert.requires((input,)),
        ensures
            converted(self.input_ids, call.input_ids, convert),
            converted(self.mask, call.mask, convert),
            converted(self.token_type_ids, call.token_type_ids, convert),
            converted(self.position_ids, call.position_ids, convert),
            converted(self.input_embeds, call.input_embeds, convert),
            call.train == self.train,
            call.output == self.output,
    {
        let input_ids = match self.input_ids {
            Some(input) => Some(convert(input)),
            None => None,
        };
        let mask = match self.mask {
            Some(input) => Some(convert(input)),
            None => None,
        };
        let token_type_ids = match self.token_type_ids {
            Some(input) => Some(convert(input)),
            None => None,
        };
        let position_ids = match self.position_ids {
            Some(input) => Some(convert(input)),
            None => None,
        };
        let input_embeds = match self.input_embeds {
            Some(input) => Some(convert(input)),
            None => None,
        };
        ForwardCall {
            input_ids,
            mask,
            token_type_ids,
            position_ids,
            input_embeds,
            train: self.train,
            output: self.output,
        }
    }
}

/// The configuration that a model type asks for, `None` where the model type
/// has no sequence classification head.
pub open spec fn required_config(model_type: ModelType) -> Option<ConfigKind> {
    match model_type {
        ModelType::Bert => Some(ConfigKind::Bert),
        ModelType::Deberta => Some(ConfigKind::Deberta),
        ModelType::DebertaV2 => Some(ConfigKind::DebertaV2),
        ModelType::DistilBert => Some(ConfigKind::DistilBert),
        ModelType::MobileBert => Some(ConfigKind::MobileBert),
        ModelType::Roberta => Some(ConfigKind::Bert),
        ModelType::XLMRoberta => Some(ConfigKind::Bert),
        ModelType::Albert => Some(ConfigKind::Albert),
        ModelType::XLNet => Some(ConfigKind::XLNet),
        ModelType::Bart => Some(ConfigKind::Bart),
        ModelType::Reformer => Some(ConfigKind::Reformer),
        ModelType::Longformer => Some(ConfigKind::Longformer),
        ModelType::FNet => Some(ConfigKind::FNet),
        _ => None,
    }
}

/// The classifier built for a model type, `None` where the model type has no
/// sequence classification head.
pub open spec fn classifier_for(model_type: ModelType) -> Option<SequenceClassificationOption> {
    match model_type {
        ModelType::Bert => Some(SequenceClassificationOption::Bert),
        ModelType::Deberta => Some(SequenceClassificationOption::Deberta),
        ModelType::DebertaV2 => Some(SequenceClassificationOption::DebertaV2),
        ModelType::DistilBert => Some(SequenceClassificationOption::DistilBert),
        ModelType::MobileBert => Some(SequenceClassificationOption::MobileBert),
        ModelType::Roberta => Some(SequenceClassificationOption::Roberta),
        ModelType::XLMRoberta => Some(SequenceClassificationOption::XLMRoberta),
        ModelType::Albert => Some(SequenceClassificationOption::Albert),
        ModelType::XLNet => Some(SequenceClassificationOption::XLNet),
        ModelType::Bart => Some(SequenceClassificationOption::Bart),
        ModelType::Reformer => Some(SequenceClassificationOption::Reformer),
        ModelType::Longformer => Some(SequenceClassificationOption::Longformer),
        ModelType::FNet => Some(SequenceClassificationOption::FNet),
        _ => None,
    }
}

/// The description carried by the error for a model type whose configuration
/// was refused: which configuration the model type takes, or that it has no
/// sequence classification head.
pub open spec fn rejection_message(model_type: ModelType) -> Seq<char> {
    match model_type {
        ModelType::Bert => "You can only supply a BertConfig for Bert!"@,
        ModelType::Deberta => "You can only supply a DebertaConfig for DeBERTa!"@,
        ModelType::DebertaV2 => "You can only supply a DebertaV2Config for DeBERTa V2!"@,
        ModelType::DistilBert => "You can only supply a DistilBertConfig for DistilBert!"@,
        ModelType::MobileBert => "You can only supply a MobileBertConfig for MobileBert!"@,
        ModelType::Roberta => "You can only supply a BertConfig for Roberta!"@,
        ModelType::XLMRoberta => "You can only supply a BertConfig for XLMRoberta!"@,
        ModelType::Albert => "You can only supply an AlbertConfig for Albert!"@,
        ModelType::XLNet => "You can only supply an XLNetConfig for XLNet!"@,
        ModelType::Bart => "You can only supply a BartConfig for Bart!"@,
        ModelType::Reformer => "You can only supply a ReformerConfig for Reformer!"@,
        ModelType::Longformer => "You can only supply a LongformerConfig for Longformer!"@,
        ModelType::FNet => "You can only supply a FNetConfig for FNet!"@,
        ModelType::Electra => "Sequence Classification not implemented for Electra!"@,
        ModelType::Marian => "Sequence Classification not implemented for Marian!"@,
        ModelType::T5 => "Sequence Classification not implemented for T5!"@,
        ModelType::GPT2 => "Sequence Classification not implemented for GPT2!"@,
        ModelType::OpenAiGpt => "Sequence Classification not implemented for OpenAiGpt!"@,
        ModelType::ProphetNet => "Sequence Classification not implemented for ProphetNet!"@,
        ModelType::Pegasus => "Sequence Classification not implemented for Pegasus!"@,
        ModelType::GPTNeo => "Sequence Classification not implemented for GPTNeo!"@,
        ModelType::MBart => "Sequence Classification not implemented for MBart!"@,
        ModelType::M2M100 => "Sequence Classification not implemented for M2M100!"@,
    }
}

/// The error for a model type whose configuration was refused.
fn rejection(model_type: ModelType) -> (e: RustBertError)
    ensures
        e@ == RustBertErrorView::InvalidConfigurationError(rejection_message(model_type)),
{
    let text = match model_type {
        ModelType::Bert => "You can only supply a BertConfig for Bert!",
        ModelType::Deberta => "You can only supply a DebertaConfig for DeBERTa!",
        ModelType::DebertaV2 => "You can only supply a DebertaV2Config for DeBERTa V2!",
        ModelType::DistilBert => "You can only supply a DistilBertConfig for DistilBert!",
        ModelType::MobileBert => "You can only supply a MobileBertConfig for MobileBert!",
        ModelType::Roberta => "You can only supply a BertConfig for Roberta!",
        ModelType::XLMRoberta => "You can only supply a BertConfig for XLMRoberta!",
        ModelType::Albert => "You can only supply an AlbertConfig for Albert!",
        ModelType::XLNet => "You can only supply an XLNetConfig for XLNet!",
        ModelType::Bart => "You can only supply a BartConfig for Bart!",
        ModelType::Reformer => "You can only supply a ReformerConfig for Reformer!",
        ModelType::Longformer => "You can only supply a LongformerConfig for Longformer!",
        ModelType::FNet => "You can only supply a FNetConfig for FNet!",
        ModelType::Electra => "Sequence Classification not implemented for Electra!",
        ModelType::Marian => "Sequence Classification not implemented for Marian!",
        ModelType::T5 => "Sequence Classification not implemented for T5!",
        ModelType::GPT2 => "Sequence Classification not implemented for GPT2!",
        ModelType::OpenAiGpt => "Sequence Classification not implemented for OpenAiGpt!",
        ModelType::ProphetNet => "Sequence Classification not implemented for ProphetNet!",
        ModelType::Pegasus => "Sequence Classification not implemented for Pegasus!",
        ModelType::GPTNeo => "Sequence Classification not implemented for GPTNeo!",
        ModelType::MBart => "Sequence Classification not implemented for MBart!",
        ModelType::M2M100 => "Sequence Classification not implemented for M2M100!",
    };
    RustBertError::InvalidConfigurationError(text.to_owned())
}

impl SequenceClassificationOption {
    /// Chooses the sequence classifier for the supplied model type.
    ///
    /// Succeeds exactly when the model type has a sequence classification
    /// head and `config` is the configuration that the model type takes. The
    /// classifier is then the one of that model type. Otherwise the error is
    /// an invalid configuration whose description is
    /// [`rejection_message`] of the model type.
    pub fn new(model_type: ModelType, config: &ConfigOption) -> (r: Result<Self, RustBertError>)
        ensures
            r is Ok <==> required_config(model_type) == Some(config.kind()),
            r matches Ok(classifier) ==> classifier_for(model_type) == Some(classifier),
            r matches Err(e) ==> e@ == RustBertErrorView::InvalidConfigurationError(
                rejection_message(model_type),
            ),
    {
        match model_type {
            ModelType::Bert => {
                if let ConfigOption::Bert(_) = config {
                    Ok(SequenceClassificationOption::Bert)
                } else {
                    Err(rejection(model_type))
                }
            },
            ModelType::Deberta => {
                if let ConfigOption::Deberta(_) = config {
                    Ok(SequenceClassificationOption::Deberta)
                } else {
                    Err(rejection(model_type))
                }
            },
            ModelType::DebertaV2 => {
                if let ConfigOption::DebertaV2(_) = config {
                    Ok(SequenceClassificationOption::DebertaV2)
                } else {
                    Err(rejection(model_type))
                }
            },
            ModelType::DistilBert => {
                if let ConfigOption::DistilBert(_) = config {
                    Ok(SequenceClassificationOption::DistilBert)
                } else {
                    Err(rejection(model_type))
                }
            },
            ModelType::MobileBert => {
                if let ConfigOption::MobileBert(_) = config {
                    Ok(SequenceClassificationOption::MobileBert)
                } else {
                    Err(rejection(model_type))
                }
            },
            ModelType::Roberta => {
                if let ConfigOption::Bert(_) = config {
                    Ok(SequenceClassificationOption::Roberta)
                } else {
                    Err(rejection(model_type))
                }
            },
            ModelType::XLMRoberta => {
                if let ConfigOption::Bert(_) = config {
                    Ok(SequenceClassificationOption::XLMRoberta)
                } else {
                    Err(rejection(model_type))
                }
            },
            ModelType::Albert => {
                if let ConfigOption::Albert(_) = config {
                    Ok(SequenceClassificationOption::Albert)
                } else {
                    Err(rejection(model_type))
                }
            },
            ModelType::XLNet => {
                if let ConfigOption::XLNet(_) = config {
                    Ok(SequenceClassificationOption::XLNet)
                } else {
                    Err(rejection(model_type))
                }
            },
            ModelType::Bart => {
                if let ConfigOption::Bart(_) = config {
                    Ok(SequenceClassificationOption::Bart)
                } else {
                    Err(rejection(model_type))
                }
            },
            ModelType::Reformer => {
                if let ConfigOption::Reformer(_) = config {
                    Ok(SequenceClassificationOption::Reformer)
                } else {
                    Err(rejection(model_type))
                }
            },
            ModelType::Longformer => {
                if let ConfigOption::Longformer(_) = config {
                    Ok(SequenceClassificationOption::Longformer)
                } else {
                    Err(rejection(model_type))
                }
            },
            ModelType::FNet => {
                if let ConfigOption::FNet(_) = config {
                    Ok(SequenceClassificationOption::FNet)
                } else {
                    Err(rejection(model_type))
                }
            },
            _ => Err(rejection(model_type)),
        }
    }

    /// The model type of this classifier.
    pub open spec fn spec_model_type(&self) -> ModelType {
        match self {
            Self::Bert => ModelType::Bert,
            Self::Deberta => ModelType::Deberta,
            Self::DebertaV2 => ModelType::DebertaV2,
            Self::Roberta => ModelType::Roberta,
            Self::XLMRoberta => ModelType::Roberta,
            Self::DistilBert => ModelType::DistilBert,
            Self::MobileBert => ModelType::MobileBert,
            Self::Albert => ModelType::Albert,
            Self::XLNet => ModelType::XLNet,
            Self::Bart => ModelType::Bart,
            Self::Reformer => ModelType::Reformer,
            Self::Longformer => ModelType::Longformer,
            Self::FNet => ModelType::FNet,
        }
    }

    /// Returns the `ModelType` for this classifier. An XLM-RoBERTa classifier
    /// reports the RoBERTa model type, whose architecture it shares.
    #[verifier::when_used_as_spec(spec_model_type)]
    pub fn model_type(&self) -> (model_type: ModelType)
        ensures
            model_type == self.spec_model_type(),
    {
        match *self {
            Self::Bert => ModelType::Bert,
            Self::Deberta => ModelType::Deberta,
            Self::DebertaV2 => ModelType::DebertaV2,
            Self::Roberta => ModelType::Roberta,
            Self::XLMRoberta => ModelType::Roberta,
            Self::DistilBert => ModelType::DistilBert,
            Self::MobileBert => ModelType::MobileBert,
            Self::Albert => ModelType::Albert,
            Self::XLNet => ModelType::XLNet,
            Self::Bart => ModelType::Bart,
            Self::Reformer => ModelType::Reformer,
            Self::Longformer => ModelType::Longformer,
            Self::FNet => ModelType::FNet,
        }
    }

    /// The parameters of the architecture's forward pass before the training
    /// flag, in their order, each with the uniform input that it is fed.
    pub open spec fn spec_parameters(&self) -> Seq<ForwardInput> {
        match self {
            Self::Bart => seq![
                ForwardInput::InputIds,
                ForwardInput::Mask,
                ForwardInput::Absent,
                ForwardInput::Absent,
                ForwardInput::Absent,
            ],
            Self::Bert | Self::Deberta | Self::DebertaV2 | Self::Roberta | Self::XLMRoberta
            | Self::Albert => seq![
                ForwardInput::InputIds,
                ForwardInput::Mask,
                ForwardInput::TokenTypeIds,
                ForwardInput::PositionIds,
                ForwardInput::InputEmbeds,
            ],
            Self::DistilBert => seq![
                ForwardInput::InputIds,
                ForwardInput::Mask,
                ForwardInput::InputEmbeds,
            ],
            Self::MobileBert => seq![
                ForwardInput::InputIds,
                ForwardInput::Absent,
                ForwardInput::Absent,
                ForwardInput::InputEmbeds,
                ForwardInput::Mask,
            ],
            Self::XLNet => seq![
                ForwardInput::InputIds,
                ForwardInput::Mask,
                ForwardInput::Absent,
                ForwardInput::Absent,
                ForwardInput::Absent,
                ForwardInput::TokenTypeIds,
                ForwardInput::InputEmbeds,
            ],
            Self::Reformer => seq![
                ForwardInput::InputIds,
                ForwardInput::Absent,
                ForwardInput::Absent,
                ForwardInput::Mask,
                ForwardInput::Absent,
            ],
            Self::Longformer => seq![
                ForwardInput::InputIds,
                ForwardInput::Mask,
                ForwardInput::Absent,
                ForwardInput::TokenTypeIds,
                ForwardInput::PositionIds,
                ForwardInput::InputEmbeds,
            ],
            Self::FNet => seq![
                ForwardInput::InputIds,
                ForwardInput::TokenTypeIds,
                ForwardInput::PositionIds,
                ForwardInput::InputEmbeds,
            ],
        }
    }

    /// The parameters of the architecture's forward pass before the training
    /// flag, in their order, each with the uniform input that it is fed.
    pub fn parameters(&self) -> (parameters: Vec<ForwardInput>)
        ensures
            parameters@ == self.spec_parameters(),
    {
        let parameters = match *self {
            Self::Bart => vec![
                ForwardInput::InputIds,
                ForwardInput::Mask,
                ForwardInput::Absent,
                ForwardInput::Absent,
                ForwardInput::Absent,
            ],
            Self::Bert | Self::Deberta | Self::DebertaV2 | Self::Roberta | Self::XLMRoberta
            | Self::Albert => vec![
                ForwardInput::InputIds,
                ForwardInput::Mask,
                ForwardInput::TokenTypeIds,
                ForwardInput::PositionIds,
                ForwardInput::InputEmbeds,
            ],
            Self::DistilBert => vec![
                ForwardInput::InputIds,
                ForwardInput::Mask,
                ForwardInput::InputEmbeds,
            ],
            Self::MobileBert => vec![
                ForwardInput::InputIds,
                ForwardInput::Absent,
                ForwardInput::Absent,
                ForwardInput::InputEmbeds,
                ForwardInput::Mask,
            ],
            Self::XLNet => vec![
                ForwardInput::InputIds,
                ForwardInput::Mask,
                ForwardInput::Absent,
                ForwardInput::Absent,
                ForwardInput::Absent,
                ForwardInput::TokenTypeIds,
                ForwardInput::InputEmbeds,
            ],
            Self::Reformer => vec![
                ForwardInput::InputIds,
                ForwardInput::Absent,
                ForwardInput::Absent,
                ForwardInput::Mask,
                ForwardInput::Absent,
            ],
            Self::Longformer => vec![
                ForwardInput::InputIds,
                ForwardInput::Mask,
                ForwardInput::Absent,
                ForwardInput::TokenTypeIds,
                ForwardInput::PositionIds,
                ForwardInput::InputEmbeds,
            ],
            Self::FNet => vec![
                ForwardInput::InputIds,
                ForwardInput::TokenTypeIds,
                ForwardInput::PositionIds,
                ForwardInput::InputEmbeds,
            ],
        };
        assert(parameters@ =~= self.spec_parameters());
        parameters
    }

    /// Whether the architecture's forward pass takes an attention mask.
    pub open spec fn takes_mask(&self) -> bool {
        !(self is FNet)
    }

    /// Whether the architecture's forward pass takes token type ids.
    pub open spec fn takes_token_type_ids(&self) -> bool {
        !(self is Bart || self is DistilBert || self is MobileBert || self is Reformer)
    }

    /// Whether the architecture's forward pass takes position ids.
    pub open spec fn takes_position_ids(&self) -> bool {
        !(self is Bart || self is DistilBert || self is MobileBert || self is XLNet
            || self is Reformer)
    }

    /// Whether the architecture's forward pass takes input embeddings in the
    /// place of token ids.
    pub open spec fn takes_input_embeds(&self) -> bool {
        !(self is Bart || self is Reformer)
    }

    /// The field of the architecture's forward result that holds the class
    /// scores.
    pub open spec fn output_field(&self) -> OutputField {
        if self is Bart {
            OutputField::DecoderOutput
        } else {
            OutputField::Logits
        }
    }

    /// The call that the architecture receives for a uniform forward call:
    /// the token ids and the training flag as they are, each other input where
    /// the architecture takes it and `None` where it does not, and the field
    /// that holds the class scores.
    pub open spec fn route<T>(
        &self,
        input_ids: Option<T>,
        mask: Option<T>,
        token_type_ids: Option<T>,
        position_ids: Option<T>,
        input_embeds: Option<T>,
        train: bool,
    ) -> ForwardCall<T> {
        ForwardCall {
            input_ids,
            mask: if self.takes_mask() {
                mask
            } else {
                None
            },
            token_type_ids: if self.takes_token_type_ids() {
                token_type_ids
            } else {
                None
            },
            position_ids: if self.takes_position_ids() {
                position_ids
            } else {
                None
            },
            input_embeds: if self.takes_input_embeds() {
                input_embeds
            } else {
                None
            },
            train,
            output: self.output_field(),
        }
    }

    /// Routes a uniform forward call to this classifier's architecture.
    ///
    /// A Bart classifier cannot run without token ids.
    pub fn forward_t<T>(
        &self,
        input_ids: Option<T>,
        mask: Option<T>,
        token_type_ids: Option<T>,
        position_ids: Option<T>,
        input_embeds: Option<T>,
        train: bool,
    ) -> (call: ForwardCall<T>)
        requires
            self is Bart ==> input_ids is Some,
        ensures
            call == self.route(input_ids, mask, token_type_ids, position_ids, input_embeds, train),
    {
        match *self {
            Self::Bart => ForwardCall {
                input_ids,
                mask,
                token_type_ids: None,
                position_ids: None,
                input_embeds: None,
                train,
                output: OutputField::DecoderOutput,
            },
            Self::Bert | Self::Deberta | Self::DebertaV2 | Self::Roberta | Self::XLMRoberta
            | Self::Albert | Self::Longformer => ForwardCall {
                input_ids,
                mask,
                token_type_ids,
                position_ids,
                input_embeds,
                train,
                output: OutputField::Logits,
            },
            Self::DistilBert | Self::MobileBert => ForwardCall {
                input_ids,
                mask,
                token_type_ids: None,
                position_ids: None,
                input_embeds,
                train,
                output: OutputField::Logits,
            },
            Self::XLNet => ForwardCall {
                input_ids,
                mask,
                token_type_ids,
                position_ids: None,
                input_embeds,
                train,
                output: OutputField::Logits,
            },
            Self::Reformer => ForwardCall {
                input_ids,
                mask,
                token_type_ids: None,
                position_ids: None,
                input_embeds: None,
                train,
                output: OutputField::Logits,
            },
            Self::FNet => ForwardCall {
                input_ids,
                mask: None,
                token_type_ids,
                position_ids,
                input_embeds,
                train,
                output: OutputField::Logits,
            },
        }
    }
}

} // verus!
