use rust_tokenizers::tokenizer::{BertTokenizer, DeBERTaTokenizer, RobertaTokenizer};
use rust_tokenizers::vocab::{BertVocab, BpePairVocab, DeBERTaVocab, RobertaVocab};
use rust_bert::pipelines::tokenizer::tokenizer_kind;
use rust_bert::{
    ConfigOption, Device, ModelConfig, ModelType, OutputField, Score,
    SequenceClassificationConfig, SequenceClassificationModel, SequenceClassificationOption,
    TokenizerKind, TokenizerOption, TruncationStrategy,
};
use std::collections::HashMap;

const PAD: i64 = 40;
const CLS: i64 = 2;
const SEP: i64 = 3;

fn table(entries: &[(&str, i64)]) -> (HashMap<String, i64>, HashMap<i64, String>) {
    let mut values = HashMap::new();
    let mut indices = HashMap::new();
    for (token, id) in entries {
        values.insert(token.to_string(), *id);
        indices.insert(*id, token.to_string());
    }
    (values, indices)
}

fn bert_vocab(with_pad: bool) -> BertVocab {
    bert_vocab_with(with_pad, true)
}

fn bert_vocab_with(with_pad: bool, with_unknown: bool) -> BertVocab {
    let mut special = vec![("[CLS]", CLS), ("[SEP]", SEP), ("[MASK]", 4)];
    if with_unknown {
        special.push(("[UNK]", 1));
    }
    if with_pad {
        special.push(("[PAD]", PAD));
    }
    let mut all = special.clone();
    all.extend_from_slice(&[
        ("hello", 5),
        ("world", 6),
        ("good", 7),
        ("movie", 8),
        ("a", 9),
        ("very", 10),
        ("bad", 11),
        ("film", 12),
    ]);
    let (values, indices) = table(&all);
    let (special_values, special_indices) = table(&special);
    BertVocab { values, indices, unknown_value: "[UNK]", special_values, special_indices }
}

fn bert_tokenizer(with_pad: bool) -> TokenizerOption {
    TokenizerOption::Bert(BertTokenizer::from_existing_vocab(bert_vocab(with_pad), true, true))
}

fn roberta_tokenizer() -> TokenizerOption {
    let special = [("<unk>", 6), ("<s>", 8), ("</s>", 9), ("<pad>", 10), ("<mask>", 11)];
    let mut all = special.to_vec();
    all.extend_from_slice(&[
        ("t", 0),
        ("h", 1),
        ("a@@", 2),
        ("n", 3),
        ("\u{120}the", 4),
        ("\u{120}", 5),
        ("o@@", 7),
        ("\u{120}ear", 12),
        ("th", 13),
    ]);
    let (values, indices) = table(&all);
    let (special_values, special_indices) = table(&special);
    let vocab =
        RobertaVocab { values, indices, unknown_value: "<unk>", special_values, special_indices };
    let mut merges = HashMap::new();
    let pairs = [
        ("\u{120}", "t"),
        ("\u{120}", "n"),
        ("e", "e"),
        ("\u{120}t", "he"),
        ("h", "e"),
        ("t", "h"),
        ("t", "he"),
        ("\u{120}", "e"),
        ("\u{120}e", "a"),
        ("\u{120}ea", "r"),
    ];
    for (rank, (first, second)) in pairs.iter().enumerate() {
        merges.insert((first.to_string(), second.to_string()), rank as i64);
    }
    TokenizerOption::Roberta(RobertaTokenizer::from_existing_vocab_and_merges(
        vocab,
        BpePairVocab { values: merges },
        true,
        false,
    ))
}

fn sentiment(max_position_embeddings: Option<i64>) -> ModelConfig {
    let mut id2label = HashMap::new();
    id2label.insert(0, "NEGATIVE".to_string());
    id2label.insert(1, "POSITIVE".to_string());
    ModelConfig { max_position_embeddings, id2label }
}

fn config_for(model_type: ModelType) -> SequenceClassificationConfig<String> {
    SequenceClassificationConfig::new(
        model_type,
        "model.ot".to_string(),
        "config.json".to_string(),
        "vocab.txt".to_string(),
        None,
        true,
        None,
        None,
    )
}

fn model_with(
    tokenizer: TokenizerOption,
    max_position_embeddings: Option<i64>,
) -> SequenceClassificationModel {
    let built = SequenceClassificationModel::new(
        &config_for(ModelType::DistilBert),
        tokenizer,
        &ConfigOption::DistilBert(sentiment(max_position_embeddings)),
    );
    match built {
        Ok(model) => model,
        Err(error) => panic!("no pipeline: {}", error.message()),
    }
}

fn sentiment_model() -> SequenceClassificationModel {
    model_with(bert_tokenizer(true), Some(512))
}

fn score(probability: f64) -> Score {
    Score::from_bits(probability.to_bits()).unwrap()
}

fn softmax(logits: &[f64]) -> Vec<f64> {
    let exponentials: Vec<f64> = logits.iter().map(|x| x.exp()).collect();
    let sum: f64 = exponentials.iter().sum();
    exponentials.iter().map(|e| e / sum).collect()
}

fn sigmoid(logit: f64) -> f64 {
    1.0 / (1.0 + (-logit).exp())
}

#[test]
fn configuration_keeps_what_it_is_given() {
    let config = SequenceClassificationConfig::new(
        ModelType::Roberta,
        "weights",
        "settings",
        "vocabulary",
        Some("merges"),
        false,
        Some(true),
        Some(false),
    );
    assert_eq!(config.model_type, ModelType::Roberta);
    assert_eq!(config.model_resource, "weights");
    assert_eq!(config.config_resource, "settings");
    assert_eq!(config.vocab_resource, "vocabulary");
    assert_eq!(config.merges_resource, Some("merges"));
    assert!(!config.lower_case);
    assert_eq!(config.strip_accents, Some(true));
    assert_eq!(config.add_prefix_space, Some(false));
    assert_eq!(config.device, Device::CudaIfAvailable);
    let plain = config_for(ModelType::Bert);
    assert_eq!(plain.merges_resource, None);
    assert!(plain.lower_case);
    assert_eq!(plain.strip_accents, None);
    assert_eq!(plain.add_prefix_space, None);
}

#[test]
fn pipeline_is_built_for_a_matching_configuration() {
    let model = sentiment_model();
    assert_eq!(model.sequence_classifier(), SequenceClassificationOption::DistilBert);
    assert_eq!(model.sequence_classifier().model_type(), ModelType::DistilBert);
    assert_eq!(model.max_length(), 512);
    assert_eq!(model.pad_id(), Some(PAD));
    assert_eq!(model.label_mapping().len(), 2);
    assert_eq!(model.label_mapping().get(&0).unwrap(), "NEGATIVE");
    assert_eq!(model.label_mapping().get(&1).unwrap(), "POSITIVE");
}

#[test]
fn no_pipeline_is_built_for_a_configuration_of_another_kind() {
    let built = SequenceClassificationModel::new(
        &config_for(ModelType::DistilBert),
        bert_tokenizer(true),
        &ConfigOption::Bert(sentiment(Some(512))),
    );
    let error = match built {
        Ok(_) => panic!("a pipeline was built from a configuration of another kind"),
        Err(error) => error,
    };
    assert!(error.is_invalid_configuration());
    assert_eq!(error.message(), "You can only supply a DistilBertConfig for DistilBert!");
}

#[test]
fn no_pipeline_is_built_for_a_model_type_without_classification_head() {
    let built = SequenceClassificationModel::new(
        &config_for(ModelType::T5),
        bert_tokenizer(true),
        &ConfigOption::T5(sentiment(None)),
    );
    let error = match built {
        Ok(_) => panic!("a pipeline was built for a model type without classification head"),
        Err(error) => error,
    };
    assert!(error.is_invalid_configuration());
    assert_eq!(error.message(), "Sequence Classification not implemented for T5!");
}

#[test]
fn longest_input_is_unbounded_where_the_configuration_gives_none() {
    assert_eq!(model_with(bert_tokenizer(true), None).max_length(), usize::MAX);
    assert_eq!(model_with(bert_tokenizer(true), Some(128)).max_length(), 128);
    assert_eq!(model_with(bert_tokenizer(true), Some(0)).max_length(), 0);
    assert_eq!(model_with(bert_tokenizer(true), Some(-1)).max_length(), -1i64 as usize);
    assert_eq!(model_with(bert_tokenizer(true), Some(i64::MAX)).max_length(), i64::MAX as usize);
}

#[test]
fn texts_of_three_seven_and_two_ids_make_a_grid_of_three_by_seven() {
    let model = sentiment_model();
    let batch = match model.prepare_for_model(&["hello", "a very good movie hello", ""]) {
        Ok(batch) => batch,
        Err(error) => panic!("no batch: {}", error.message()),
    };
    assert_eq!(batch.num_rows(), 3);
    assert_eq!(batch.width(), 7);
    assert_eq!(
        batch.rows(),
        &vec![
            vec![CLS, 5, SEP, PAD, PAD, PAD, PAD],
            vec![CLS, 9, 10, 7, 8, 5, SEP],
            vec![CLS, SEP, PAD, PAD, PAD, PAD, PAD],
        ]
    );
}

#[test]
fn batch_has_one_row_for_each_text() {
    let model = sentiment_model();
    let texts = ["good movie", "bad film", "hello", "hello world", "a"];
    for n in 1..=texts.len() {
        let batch = match model.prepare_for_model(&texts[..n]) {
            Ok(batch) => batch,
            Err(error) => panic!("no batch: {}", error.message()),
        };
        assert_eq!(batch.num_rows(), n);
        for row in batch.rows() {
            assert_eq!(row.len(), batch.width());
        }
    }
}

#[test]
fn words_outside_the_vocabulary_are_encoded_as_unknown() {
    let model = sentiment_model();
    let batch = match model.prepare_for_model(&["Hello unseen WORLD"]) {
        Ok(batch) => batch,
        Err(error) => panic!("no batch: {}", error.message()),
    };
    assert_eq!(batch.rows(), &vec![vec![CLS, 5, 1, 6, SEP]]);
}

#[test]
fn texts_are_cut_down_to_the_longest_input() {
    let model = model_with(bert_tokenizer(true), Some(4));
    let batch = match model.prepare_for_model(&["a very good movie", "hello"]) {
        Ok(batch) => batch,
        Err(error) => panic!("no batch: {}", error.message()),
    };
    assert_eq!(batch.width(), 4);
    assert_eq!(batch.rows(), &vec![vec![CLS, 9, 10, SEP], vec![CLS, 5, SEP, PAD]]);
    let narrow = model_with(bert_tokenizer(true), Some(2));
    let batch = match narrow.prepare_for_model(&["a very good movie", "hello"]) {
        Ok(batch) => batch,
        Err(error) => panic!("no batch: {}", error.message()),
    };
    assert_eq!(batch.rows(), &vec![vec![CLS, SEP], vec![CLS, SEP]]);
}

#[test]
fn no_text_makes_the_empty_batch() {
    let model = sentiment_model();
    let batch = match model.prepare_for_model(&[]) {
        Ok(batch) => batch,
        Err(error) => panic!("no batch: {}", error.message()),
    };
    assert_eq!(batch.num_rows(), 0);
    assert_eq!(batch.width(), 0);
    let without_pad = model_with(bert_tokenizer(false), Some(1));
    assert!(without_pad.prepare_for_model(&[]).is_ok());
}

#[test]
fn texts_are_refused_where_the_tokenizer_has_no_padding_id() {
    let model = model_with(bert_tokenizer(false), Some(512));
    assert_eq!(model.pad_id(), None);
    let error = match model.prepare_for_model(&["hello", "hello world"]) {
        Ok(_) => panic!("a batch was built without a padding id"),
        Err(error) => error,
    };
    assert!(error.is_tokenizer());
    assert_eq!(
        error.message(),
        "The Tokenizer used for sequence classification should contain a PAD id"
    );
    assert!(model.prepare_for_model(&["hello"]).is_err());
}

#[test]
fn texts_are_refused_where_the_longest_input_has_no_room_for_special_tokens() {
    for max_length in [0, 1] {
        let model = model_with(bert_tokenizer(true), Some(max_length));
        let error = match model.prepare_for_model(&["hello"]) {
            Ok(_) => panic!("a batch was built without room for the special tokens"),
            Err(error) => error,
        };
        assert!(error.is_tokenizer());
        assert_eq!(
            error.message(),
            "The maximum length of the model leaves no room for the special tokens of the Tokenizer"
        );
    }
    let both = model_with(bert_tokenizer(false), Some(1));
    let error = match both.prepare_for_model(&["hello"]) {
        Ok(_) => panic!("a batch was built without a padding id"),
        Err(error) => error,
    };
    assert_eq!(
        error.message(),
        "The Tokenizer used for sequence classification should contain a PAD id"
    );
}

#[test]
fn roberta_tokenizer_pads_with_its_own_padding_id() {
    let built = SequenceClassificationModel::new(
        &config_for(ModelType::Roberta),
        roberta_tokenizer(),
        &ConfigOption::Bert(sentiment(Some(514))),
    );
    let model = match built {
        Ok(model) => model,
        Err(error) => panic!("no pipeline: {}", error.message()),
    };
    assert_eq!(model.sequence_classifier(), SequenceClassificationOption::Roberta);
    assert_eq!(model.pad_id(), Some(10));
    let batch = match model.prepare_for_model(&["The Earth", ""]) {
        Ok(batch) => batch,
        Err(error) => panic!("no batch: {}", error.message()),
    };
    assert_eq!(batch.rows(), &vec![vec![8, 6, 12, 13, 9], vec![8, 9, 10, 10, 10]]);
}

#[test]
fn pipeline_calls_its_classifier_with_token_ids_alone_and_not_in_training() {
    let call = sentiment_model().forward_call("batch");
    assert_eq!(call.input_ids, Some("batch"));
    assert_eq!(call.mask, None);
    assert_eq!(call.token_type_ids, None);
    assert_eq!(call.position_ids, None);
    assert_eq!(call.input_embeds, None);
    assert!(!call.train);
    assert_eq!(call.output, OutputField::Logits);
}

#[test]
fn sentiment_of_three_texts() {
    let model = sentiment_model();
    let texts = ["good movie", "bad film", "hello world"];
    let batch = match model.prepare_for_model(&texts) {
        Ok(batch) => batch,
        Err(error) => panic!("no batch: {}", error.message()),
    };
    assert_eq!(batch.num_rows(), 3);
    let logits = [[-2.0, 2.0], [3.0, -1.0], [-1.0, -1.0]];
    let distributions: Vec<Vec<f64>> = logits.iter().map(|row| softmax(row)).collect();
    let output: Vec<Vec<Score>> =
        distributions.iter().map(|row| row.iter().map(|p| score(*p)).collect()).collect();
    let labels = model.predict(&output);
    assert_eq!(labels.len(), texts.len());
    let expected = [("POSITIVE", 1i64), ("NEGATIVE", 0), ("NEGATIVE", 0)];
    for (sentence, (text, id)) in expected.iter().enumerate() {
        assert_eq!(labels[sentence].text, *text);
        assert_eq!(labels[sentence].id, *id);
        assert_eq!(labels[sentence].sentence, sentence);
        let greatest = distributions[sentence].iter().cloned().fold(0.0, f64::max);
        assert_eq!(f64::from_bits(labels[sentence].score.to_bits()), greatest);
        let sum: f64 = distributions[sentence].iter().sum();
        assert!((sum - 1.0).abs() < 1e-5);
    }
    assert!((f64::from_bits(labels[0].score.to_bits()) - 0.9820137900379085).abs() < 1e-12);
    assert!((f64::from_bits(labels[1].score.to_bits()) - 0.9820137900379085).abs() < 1e-12);
    assert_eq!(f64::from_bits(labels[2].score.to_bits()), 0.5);
    let tried = model.try_predict(&output).unwrap();
    assert_eq!(tried.len(), 3);
    assert_eq!(tried[0].id, 1);
}

#[test]
fn labels_of_three_texts_under_a_threshold() {
    let model = sentiment_model();
    let logits = [[-2.0, 2.0], [3.0, 1.0], [-1.0, -1.0]];
    let output: Vec<Vec<Score>> =
        logits.iter().map(|row| row.iter().map(|x| score(sigmoid(*x))).collect()).collect();
    let groups = model.predict_multilabel(&output, score(0.5)).unwrap();
    assert_eq!(groups.len(), 3);
    assert_eq!(groups[0].len(), 1);
    assert_eq!(groups[0][0].text, "POSITIVE");
    assert_eq!(groups[0][0].id, 1);
    assert_eq!(groups[0][0].sentence, 0);
    assert_eq!(f64::from_bits(groups[0][0].score.to_bits()), sigmoid(2.0));
    assert_eq!(groups[1].len(), 2);
    assert_eq!(groups[1][0].text, "NEGATIVE");
    assert_eq!(groups[1][1].text, "POSITIVE");
    assert_eq!(groups[1][0].sentence, 1);
    assert_eq!(groups[1][1].sentence, 1);
    assert_eq!(f64::from_bits(groups[1][0].score.to_bits()), sigmoid(3.0));
    assert_eq!(f64::from_bits(groups[1][1].score.to_bits()), sigmoid(1.0));
    assert!(groups[2].is_empty());
    let all = model.predict_multilabel(&output, score(0.0)).unwrap();
    assert_eq!(all.iter().map(|group| group.len()).collect::<Vec<usize>>(), vec![2, 2, 2]);
    let certain = model.predict_multilabel(&output, score(1.0)).unwrap();
    assert_eq!(certain.iter().map(|group| group.len()).collect::<Vec<usize>>(), vec![0, 0, 0]);
    let tried = model.try_predict_multilabel(&output, score(0.5)).unwrap();
    assert_eq!(tried.iter().map(|group| group.len()).collect::<Vec<usize>>(), vec![1, 2, 0]);
}

#[test]
fn classes_without_a_label_text_are_not_decoded() {
    let model = sentiment_model();
    let output = vec![vec![score(0.1), score(0.2), score(0.7)]];
    assert!(model.try_predict(&output).is_none());
    assert!(model.try_predict_multilabel(&output, score(0.5)).is_none());
    assert!(model.try_predict_multilabel(&output, score(0.75)).is_some());
    let within = vec![vec![score(0.6), score(0.3), score(0.1)]];
    assert_eq!(model.try_predict(&within).unwrap()[0].text, "NEGATIVE");
    assert!(model.try_predict(&vec![Vec::new()]).is_none());
}

#[test]
fn tokenizer_gives_the_id_of_its_padding_token() {
    assert_eq!(bert_tokenizer(true).get_pad_id(), Some(PAD));
    assert_eq!(bert_tokenizer(false).get_pad_id(), None);
    assert_eq!(roberta_tokenizer().get_pad_id(), Some(10));
}

#[test]
fn tokenizer_says_whether_it_knows_its_unknown_token() {
    assert!(bert_tokenizer(true).has_unknown_token());
    assert!(bert_tokenizer(false).has_unknown_token());
    assert!(roberta_tokenizer().has_unknown_token());
    let without = TokenizerOption::Bert(BertTokenizer::from_existing_vocab(
        bert_vocab_with(true, false),
        true,
        true,
    ));
    assert!(!without.has_unknown_token());
    assert_eq!(without.get_pad_id(), Some(PAD));
}

#[test]
fn texts_are_refused_where_the_vocabulary_lacks_the_unknown_token() {
    let tokenizer = TokenizerOption::Bert(BertTokenizer::from_existing_vocab(
        bert_vocab_with(true, false),
        true,
        true,
    ));
    let model = model_with(tokenizer, Some(512));
    let error = match model.prepare_for_model(&["hello unseen world", ""]) {
        Ok(_) => panic!("a batch was built without an unknown token"),
        Err(error) => error,
    };
    assert!(error.is_tokenizer());
    assert_eq!(
        error.message(),
        "The vocabulary of the Tokenizer should contain its unknown token"
    );
    assert!(model.prepare_for_model(&[]).is_ok());
    let short = TokenizerOption::Bert(BertTokenizer::from_existing_vocab(
        bert_vocab_with(true, false),
        true,
        true,
    ));
    let error = match model_with(short, Some(1)).prepare_for_model(&["hello"]) {
        Ok(_) => panic!("a batch was built without room for the special tokens"),
        Err(error) => error,
    };
    assert_eq!(
        error.message(),
        "The maximum length of the model leaves no room for the special tokens of the Tokenizer"
    );
}

#[test]
fn tokenizer_encodes_a_list_of_texts() {
    let tokenizer = bert_tokenizer(true);
    let texts = ["good movie", "a very bad film"];
    let rows = tokenizer.encode_list(&texts, 512, TruncationStrategy::LongestFirst, 0);
    assert_eq!(rows, vec![vec![CLS, 7, 8, SEP], vec![CLS, 9, 10, 11, 12, SEP]]);
    let cut = tokenizer.encode_list(&texts, 5, TruncationStrategy::LongestFirst, 0);
    assert_eq!(cut, vec![vec![CLS, 7, 8, SEP], vec![CLS, 9, 10, 11, SEP]]);
    let first = tokenizer.encode_list(&texts, 5, TruncationStrategy::OnlyFirst, 0);
    assert_eq!(first, cut);
    let strided = tokenizer.encode_list(&texts, 5, TruncationStrategy::LongestFirst, 2);
    assert_eq!(strided, cut);
    let none: [&str; 0] = [];
    assert!(tokenizer.encode_list(&none, 5, TruncationStrategy::LongestFirst, 0).is_empty());
}

#[test]
fn tokenizer_has_a_kind_and_a_number_of_special_tokens() {
    assert_eq!(bert_tokenizer(true).kind(), TokenizerKind::Bert);
    assert_eq!(roberta_tokenizer().kind(), TokenizerKind::Roberta);
    assert_eq!(bert_tokenizer(true).special_tokens(), 2);
    assert_eq!(roberta_tokenizer().special_tokens(), 2);
    assert_eq!(sentiment_model().tokenizer().kind(), TokenizerKind::Bert);
}

#[test]
fn each_model_type_has_the_tokenizer_it_is_trained_with() {
    let expected = vec![
        (ModelType::Bert, Some(TokenizerKind::Bert)),
        (ModelType::DistilBert, Some(TokenizerKind::Bert)),
        (ModelType::MobileBert, Some(TokenizerKind::Bert)),
        (ModelType::Deberta, Some(TokenizerKind::Deberta)),
        (ModelType::DebertaV2, Some(TokenizerKind::DebertaV2)),
        (ModelType::Roberta, Some(TokenizerKind::Roberta)),
        (ModelType::Bart, Some(TokenizerKind::Roberta)),
        (ModelType::Longformer, Some(TokenizerKind::Roberta)),
        (ModelType::XLMRoberta, Some(TokenizerKind::XLMRoberta)),
        (ModelType::Albert, Some(TokenizerKind::Albert)),
        (ModelType::XLNet, Some(TokenizerKind::XLNet)),
        (ModelType::Reformer, Some(TokenizerKind::Reformer)),
        (ModelType::FNet, Some(TokenizerKind::FNet)),
        (ModelType::Electra, None),
        (ModelType::Marian, None),
        (ModelType::T5, None),
        (ModelType::GPT2, None),
        (ModelType::OpenAiGpt, None),
        (ModelType::ProphetNet, None),
        (ModelType::Pegasus, None),
        (ModelType::GPTNeo, None),
        (ModelType::MBart, None),
        (ModelType::M2M100, None),
    ];
    for (model_type, kind) in expected {
        assert_eq!(tokenizer_kind(model_type), kind);
    }
}

fn deberta_tokenizer(with_unknown: bool) -> TokenizerOption {
    let mut special = vec![("[PAD]", 20), ("[CLS]", 21), ("[SEP]", 22), ("[MASK]", 24)];
    if with_unknown {
        special.push(("[UNK]", 23));
    }
    let mut all = special.clone();
    all.extend_from_slice(&[("t", 5), ("h", 6)]);
    let (values, indices) = table(&all);
    let (special_values, special_indices) = table(&special);
    let vocab =
        DeBERTaVocab { values, indices, unknown_value: "[UNK]", special_values, special_indices };
    TokenizerOption::Deberta(DeBERTaTokenizer::from_existing_vocab_and_merges(
        vocab,
        BpePairVocab { values: HashMap::new() },
        false,
    ))
}

#[test]
fn deberta_tokenizer_serves_a_pipeline() {
    let tokenizer = deberta_tokenizer(true);
    assert_eq!(tokenizer.kind(), TokenizerKind::Deberta);
    assert_eq!(tokenizer.get_pad_id(), Some(20));
    assert!(tokenizer.has_unknown_token());
    assert!(!deberta_tokenizer(false).has_unknown_token());
    let rows = tokenizer.encode_list(&["th", ""], 512, TruncationStrategy::LongestFirst, 0);
    assert_eq!(rows, vec![vec![21, 5, 6, 22], vec![21, 22]]);
    let built = SequenceClassificationModel::new(
        &config_for(ModelType::Deberta),
        tokenizer,
        &ConfigOption::Deberta(sentiment(Some(3))),
    );
    let model = match built {
        Ok(model) => model,
        Err(error) => panic!("no pipeline: {}", error.message()),
    };
    let batch = match model.prepare_for_model(&["th", ""]) {
        Ok(batch) => batch,
        Err(error) => panic!("no batch: {}", error.message()),
    };
    assert_eq!(batch.rows(), &vec![vec![21, 5, 22], vec![21, 22, 20]]);
}

#[test]
fn pipeline_asks_its_classifier_for_the_batch_of_the_texts() {
    let model = sentiment_model();
    let call = match model.forward_request(&["hello", "a very good movie hello", ""]) {
        Ok(call) => call,
        Err(error) => panic!("no request: {}", error.message()),
    };
    let batch = match call.input_ids {
        Some(batch) => batch,
        None => panic!("a request without token ids"),
    };
    assert_eq!(
        batch.rows(),
        &vec![
            vec![CLS, 5, SEP, PAD, PAD, PAD, PAD],
            vec![CLS, 9, 10, 7, 8, 5, SEP],
            vec![CLS, SEP, PAD, PAD, PAD, PAD, PAD],
        ]
    );
    assert!(call.mask.is_none());
    assert!(call.token_type_ids.is_none());
    assert!(call.position_ids.is_none());
    assert!(call.input_embeds.is_none());
    assert!(!call.train);
    assert_eq!(call.output, OutputField::Logits);
}

#[test]
fn no_request_is_made_where_the_tokenizer_has_no_padding_id() {
    let model = model_with(bert_tokenizer(false), Some(512));
    let error = match model.forward_request(&["hello"]) {
        Ok(_) => panic!("a request was made without a padding id"),
        Err(error) => error,
    };
    assert!(error.is_tokenizer());
    assert_eq!(
        error.message(),
        "The Tokenizer used for sequence classification should contain a PAD id"
    );
    let empty = match model.forward_request(&[]) {
        Ok(call) => call,
        Err(error) => panic!("no request: {}", error.message()),
    };
    assert_eq!(empty.input_ids.map(|batch| batch.num_rows()), Some(0));
}

#[test]
fn forward_call_is_converted_input_by_input() {
    let call = SequenceClassificationOption::Bert.forward_t(
        Some(1u8),
        Some(2),
        None,
        Some(4),
        None,
        true,
    );
    let converted = call.map(|input| u32::from(input) * 10);
    assert_eq!(converted.input_ids, Some(10));
    assert_eq!(converted.mask, Some(20));
    assert_eq!(converted.token_type_ids, None);
    assert_eq!(converted.position_ids, Some(40));
    assert_eq!(converted.input_embeds, None);
    assert!(converted.train);
    assert_eq!(converted.output, OutputField::Logits);
    let batch = sentiment_model().forward_call(7u8).map(|input| input + 1);
    assert_eq!(batch.input_ids, Some(8));
    assert_eq!(batch.mask, None);
}
