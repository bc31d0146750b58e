//! Architectures known to the pipelines and the configuration a model is
//! loaded with.

pub use crate::pipelines::tokenizer::TokenizerOption;
use crate::pipelines::sequence_classification::classifier::required_config;
use std::collections::HashMap;
use vstd::prelude::*;

verus! {

/// The transformer architectures that a pipeline can be asked for.
#[derive(Clone, Copy, Debug, PartialEq, Eq, Structural)]
pub enum ModelType {
    Bart,
    Bert,
    DistilBert,
    Deberta,
    DebertaV2,
    Roberta,
    XLMRoberta,
    Electra,
    Marian,
    MobileBert,
    T5,
    Albert,
    XLNet,
    GPT2,
    OpenAiGpt,
    Reformer,
    ProphetNet,
    Longformer,
    Pegasus,
    GPTNeo,
    MBart,
    M2M100,
    FNet,
}

/// The tag of a [`ConfigOption`]: the architecture whose hyperparameters it
/// holds.
#[derive(Clone, Copy, Debug, PartialEq, Eq, Structural)]
pub enum ConfigKind {
    Bart,
    Bert,
    DistilBert,
    Deberta,
    DebertaV2,
    Electra,
    Marian,
    MobileBert,
    OpenAiGpt,
    T5,
    Albert,
    XLNet,
    GPT2,
    Reformer,
    ProphetNet,
    Longformer,
    Pegasus,
    GPTNeo,
    MBart,
    M2M100,
    FNet,
}

/// What a pipeline reads from a model's configuration, whatever the
/// architecture.
pub struct ModelConfig {
    /// Longest input the model has positions for, where the architecture
    /// bounds it.
    pub max_position_embeddings: Option<i64>,
    /// Text of each label the model can emit, by label id.
    pub id2label: HashMap<i64, String>,
}

/// The configuration of one architecture. Exactly one variant is populated.
pub enum ConfigOption {
    Bart(ModelConfig),
    Bert(ModelConfig),
    DistilBert(ModelConfig),
    Deberta(ModelConfig),
    DebertaV2(ModelConfig),
    Electra(ModelConfig),
    Marian(ModelConfig),
    MobileBert(ModelConfig),
    OpenAiGpt(ModelConfig),
    T5(ModelConfig),
    Albert(ModelConfig),
    XLNet(ModelConfig),
    GPT2(ModelConfig),
    Reformer(ModelConfig),
    ProphetNet(ModelConfig),
    Longformer(ModelConfig),
    Pegasus(ModelConfig),
    GPTNeo(ModelConfig),
    MBart(ModelConfig),
    M2M100(ModelConfig),
    FNet(ModelConfig),
}

/// The kind of configuration that a model of the given type is loaded with.
/// The RoBERTa family shares the configuration of BERT.
pub open spec fn config_kind_of(model_type: ModelType) -> ConfigKind {
    match model_type {
        ModelType::Bart => ConfigKind::Bart,
        ModelType::Bert | ModelType::Roberta | ModelType::XLMRoberta => ConfigKind::Bert,
        ModelType::DistilBert => ConfigKind::DistilBert,
        ModelType::Deberta => ConfigKind::Deberta,
        ModelType::DebertaV2 => ConfigKind::DebertaV2,
        ModelType::Electra => ConfigKind::Electra,
        ModelType::Marian => ConfigKind::Marian,
        ModelType::MobileBert => ConfigKind::MobileBert,
        ModelType::T5 => ConfigKind::T5,
        ModelType::Albert => ConfigKind::Albert,
        ModelType::XLNet => ConfigKind::XLNet,
        ModelType::GPT2 => ConfigKind::GPT2,
        ModelType::OpenAiGpt => ConfigKind::OpenAiGpt,
        ModelType::Reformer => ConfigKind::Reformer,
        ModelType::ProphetNet => ConfigKind::ProphetNet,
        ModelType::Longformer => ConfigKind::Longformer,
        ModelType::Pegasus => ConfigKind::Pegasus,
        ModelType::GPTNeo => ConfigKind::GPTNeo,
        ModelType::MBart => ConfigKind::MBart,
        ModelType::M2M100 => ConfigKind::M2M100,
        ModelType::FNet => ConfigKind::FNet,
    }
}

impl ConfigOption {
    /// The configuration of a model of the given type that holds the given
    /// settings: of the kind that the model type is loaded with, which is the
    /// kind that its sequence classifier takes, where it has one.
    pub fn for_model_type(model_type: ModelType, settings: ModelConfig) -> (config: ConfigOption)
        ensures
            config.kind() == config_kind_of(model_type),
            config.spec_settings() == settings,
            required_config(model_type) matches Some(kind) ==> config.kind() == kind,
    {
        match model_type {
            ModelType::Bart => ConfigOption::Bart(settings),
            ModelType::Bert | ModelType::Roberta | ModelType::XLMRoberta => ConfigOption::Bert(
                settings,
            ),
            ModelType::DistilBert => ConfigOption::DistilBert(settings),
            ModelType::Deberta => ConfigOption::Deberta(settings),
            ModelType::DebertaV2 => ConfigOption::DebertaV2(settings),
            ModelType::Electra => ConfigOption::Electra(settings),
            ModelType::Marian => ConfigOption::Marian(settings),
            ModelType::MobileBert => ConfigOption::MobileBert(settings),
            ModelType::T5 => ConfigOption::T5(settings),
            ModelType::Albert => ConfigOption::Albert(settings),
            ModelType::XLNet => ConfigOption::XLNet(settings),
            ModelType::GPT2 => ConfigOption::GPT2(settings),
            ModelType::OpenAiGpt => ConfigOption::OpenAiGpt(settings),
            ModelType::Reformer => ConfigOption::Reformer(settings),
            ModelType::ProphetNet => ConfigOption::ProphetNet(settings),
            ModelType::Longformer => ConfigOption::Longformer(settings),
            ModelType::Pegasus => ConfigOption::Pegasus(settings),
            ModelType::GPTNeo => ConfigOption::GPTNeo(settings),
            ModelType::MBart => ConfigOption::MBart(settings),
            ModelType::M2M100 => ConfigOption::M2M100(settings),
            ModelType::FNet => ConfigOption::FNet(settings),
        }
    }

    /// The tag of this configuration.
    pub open spec fn spec_kind(&self) -> ConfigKind {
        match self {
            ConfigOption::Bart(_) => ConfigKind::Bart,
            ConfigOption::Bert(_) => ConfigKind::Bert,
            ConfigOption::DistilBert(_) => ConfigKind::DistilBert,
            ConfigOption::Deberta(_) => ConfigKind::Deberta,
            ConfigOption::DebertaV2(_) => ConfigKind::DebertaV2,
            ConfigOption::Electra(_) => ConfigKind::Electra,
            ConfigOption::Marian(_) => ConfigKind::Marian,
            ConfigOption::MobileBert(_) => ConfigKind::MobileBert,
            ConfigOption::OpenAiGpt(_) => ConfigKind::OpenAiGpt,
            ConfigOption::T5(_) => ConfigKind::T5,
            ConfigOption::Albert(_) => ConfigKind::Albert,
            ConfigOption::XLNet(_) => ConfigKind::XLNet,
            ConfigOption::GPT2(_) => ConfigKind::GPT2,
            ConfigOption::Reformer(_) => ConfigKind::Reformer,
            ConfigOption::ProphetNet(_) => ConfigKind::ProphetNet,
            ConfigOption::Longformer(_) => ConfigKind::Longformer,
            ConfigOption::Pegasus(_) => ConfigKind::Pegasus,
            ConfigOption::GPTNeo(_) => ConfigKind::GPTNeo,
            ConfigOption::MBart(_) => ConfigKind::MBart,
            ConfigOption::M2M100(_) => ConfigKind::M2M100,
            ConfigOption::FNet(_) => ConfigKind::FNet,
        }
    }

    /// The settings held by the populated variant.
    pub open spec fn spec_settings(&self) -> ModelConfig {
        match self {
            ConfigOption::Bart(c) => *c,
            ConfigOption::Bert(c) => *c,
            ConfigOption::DistilBert(c) => *c,
            ConfigOption::Deberta(c) => *c,
            ConfigOption::DebertaV2(c) => *c,
            ConfigOption::Electra(c) => *c,
            ConfigOption::Marian(c) => *c,
            ConfigOption::MobileBert(c) => *c,
            ConfigOption::OpenAiGpt(c) => *c,
            ConfigOption::T5(c) => *c,
            ConfigOption::Albert(c) => *c,
            ConfigOption::XLNet(c) => *c,
            ConfigOption::GPT2(c) => *c,
            ConfigOption::Reformer(c) => *c,
            ConfigOption::ProphetNet(c) => *c,
            ConfigOption::Longformer(c) => *c,
            ConfigOption::Pegasus(c) => *c,
            ConfigOption::GPTNeo(c) => *c,
            ConfigOption::MBart(c) => *c,
            ConfigOption::M2M100(c) => *c,
            ConfigOption::FNet(c) => *c,
        }
    }

    /// The tag of this configuration.
    #[verifier::when_used_as_spec(spec_kind)]
    pub fn kind(&self) -> (k: ConfigKind)
        ensures
            k == self.spec_kind(),
    {
        match self {
            ConfigOption::Bart(_) => ConfigKind::Bart,
            ConfigOption::Bert(_) => ConfigKind::Bert,
            ConfigOption::DistilBert(_) => ConfigKind::DistilBert,
            ConfigOption::Deberta(_) => ConfigKind::Deberta,
            ConfigOption::DebertaV2(_) => ConfigKind::DebertaV2,
            ConfigOption::Electra(_) => ConfigKind::Electra,
            ConfigOption::Marian(_) => ConfigKind::Marian,
            ConfigOption::MobileBert(_) => ConfigKind::MobileBert,
            ConfigOption::OpenAiGpt(_) => ConfigKind::OpenAiGpt,
            ConfigOption::T5(_) => ConfigKind::T5,
            ConfigOption::Albert(_) => ConfigKind::Albert,
            ConfigOption::XLNet(_) => ConfigKind::XLNet,
            ConfigOption::GPT2(_) => ConfigKind::GPT2,
            ConfigOption::Reformer(_) => ConfigKind::Reformer,
            ConfigOption::ProphetNet(_) => ConfigKind::ProphetNet,
            ConfigOption::Longformer(_) => ConfigKind::Longformer,
            ConfigOption::Pegasus(_) => ConfigKind::Pegasus,
            ConfigOption::GPTNeo(_) => ConfigKind::GPTNeo,
            ConfigOption::MBart(_) => ConfigKind::MBart,
            ConfigOption::M2M100(_) => ConfigKind::M2M100,
            ConfigOption::FNet(_) => ConfigKind::FNet,
        }
    }

    /// The settings held by the populated variant.
    pub fn settings(&self) -> (c: &ModelConfig)
        ensures
            *c == self.spec_settings(),
    {
        match self {
            ConfigOption::Bart(c) => c,
            ConfigOption::Bert(c) => c,
            ConfigOption::DistilBert(c) => c,
            ConfigOption::Deberta(c) => c,
            ConfigOption::DebertaV2(c) => c,
            ConfigOption::Electra(c) => c,
            ConfigOption::Marian(c) => c,
            ConfigOption::MobileBert(c) => c,
            ConfigOption::OpenAiGpt(c) => c,
            ConfigOption::T5(c) => c,
            ConfigOption::Albert(c) => c,
            ConfigOption::XLNet(c) => c,
            ConfigOption::GPT2(c) => c,
            ConfigOption::Reformer(c) => c,
            ConfigOption::ProphetNet(c) => c,
            ConfigOption::Longformer(c) => c,
            ConfigOption::Pegasus(c) => c,
            ConfigOption::GPTNeo(c) => c,
            ConfigOption::MBart(c) => c,
            ConfigOption::M2M100(c) => c,
            ConfigOption::FNet(c) => c,
        }
    }

    /// Longest input the model has positions for, if the configuration says.
    pub fn get_max_len(&self) -> (max_len: Option<i64>)
        ensures
            max_len == self.spec_settings().max_position_embeddings,
    {
        self.settings().max_position_embeddings
    }

    /// The label texts of the model, by label id.
    pub fn get_label_mapping(&self) -> (mapping: &HashMap<i64, String>)
        ensures
            *mapping == self.spec_settings().id2label,
    {
        &self.settings().id2label
    }
}

} // verus!
