//! The tokenizers that serve the sequence classifiers, and what the pipeline
//! asks of them: the token ids of a list of texts, and the id of the padding
//! token.

use crate::pipelines::common::ModelType;
use crate::pipelines::sequence_classification::batch::ids_view;
use rust_tokenizers::tokenizer::{
    AlbertTokenizer, BertTokenizer, DeBERTaTokenizer, DeBERTaV2Tokenizer, FNetTokenizer,
    MultiThreadedTokenizer, ReformerTokenizer, RobertaTokenizer, XLMRobertaTokenizer,
    XLNetTokenizer,
};
use rust_tokenizers::vocab::{
    AlbertVocab, BertVocab, DeBERTaV2Vocab, DeBERTaVocab, FNetVocab, RobertaVocab, Vocab,
    XLMRobertaVocab, XLNetVocab,
};
use vstd::prelude::*;

verus! {
#[verifier::external_type_specification]
#[verifier::external_body]
pub struct ExBertTokenizer(BertTokenizer);

#[verifier::external_type_specification]
#[verifier::external_body]
pub struct ExDeBERTaTokenizer(DeBERTaTokenizer);

#[verifier::external_type_specification]
#[verifier::external_body]
pub struct ExDeBERTaV2Tokenizer(DeBERTaV2Tokenizer);

#[verifier::external_type_specification]
#[verifier::external_body]
pub struct ExRobertaTokenizer(RobertaTokenizer);

#[verifier::external_type_specification]
#[verifier::external_body]
pub struct ExXLMRobertaTokenizer(XLMRobertaTokenizer);

#[verifier::external_type_specification]
#[verifier::external_body]
pub struct ExAlbertTokenizer(AlbertTokenizer);

#[verifier::external_type_specification]
#[verifier::external_body]
pub struct ExXLNetTokenizer(XLNetTokenizer);

#[verifier::external_type_specification]
#[verifier::external_body]
pub struct ExReformerTokenizer(ReformerTokenizer);

#[verifier::external_type_specification]
#[verifier::external_body]
pub struct ExFNetTokenizer(FNetTokenizer);

#[verifier::external_type_specification]
#[verifier::external_body]
pub struct ExBertVocab(BertVocab);

#[verifier::external_type_specification]
#[verifier::external_body]
pub struct ExDeBERTaVocab(DeBERTaVocab);

#[verifier::external_type_specification]
#[verifier::external_body]
pub struct ExDeBERTaV2Vocab(DeBERTaV2Vocab);

#[verifier::external_type_specification]
#[verifier::external_body]
pub struct ExRobertaVocab(RobertaVocab);

#[verifier::external_type_specification]
#[verifier::external_body]
pub struct ExXLMRobertaVocab(XLMRobertaVocab);

#[verifier::external_type_specification]
#[verifier::external_body]
pub struct ExAlbertVocab(AlbertVocab);

#[verifier::external_type_specification]
#[verifier::external_body]
pub struct ExXLNetVocab(XLNetVocab);

#[verifier::external_type_specification]
#[verifier::external_body]
pub struct ExFNetVocab(FNetVocab);
/// How an encoding that is too long is cut down.
#[derive(Clone, Copy, Debug, PartialEq, Eq, Structural)]
pub enum TruncationStrategy {
    /// Truncate the longest sequence first
    LongestFirst,
    /// Truncate only the first sequence
    OnlyFirst,
    /// Truncate only the second sequence
    OnlySecond,
    /// Do not truncate the sequences
    DoNotTruncate,
}

/// The texts of a list, as sequences of characters.
pub open spec fn texts_view(texts: Seq<&str>) -> Seq<Seq<char>> {
    Seq::new(texts.len(), |i: int| texts[i]@)
}

/// The id that `map` gives to `token`, if it holds the token.
pub open spec fn id_in(map: Map<Seq<char>, i64>, token: Seq<char>) -> Option<i64> {
    if map.contains_key(token) {
        Some(map[token])
    } else {
        None
    }
}

/// Whether `pairs` are the entries of `map`: each pair is a token that the
/// map holds with the id that the map gives it, and each token of the map
/// has a pair.
pub open spec fn holds_pairs(map: Map<Seq<char>, i64>, pairs: Seq<(String, i64)>) -> bool {
    &&& forall|i: int|
        0 <= i < pairs.len() ==> map.contains_key((#[trigger] pairs[i]).0@) && map[pairs[i].0@]
            == pairs[i].1
    &&& forall|token: Seq<char>| #[trigger]
        map.contains_key(token) ==> exists|i: int|
            0 <= i < pairs.len() && (#[trigger] pairs[i]).0@ == token
}

/// Whether an encoding with this strategy cuts a single text down to the
/// length asked for.
pub open spec fn truncates_single_text(truncation_strategy: TruncationStrategy) -> bool {
    truncation_strategy is LongestFirst || truncation_strategy is OnlyFirst
}

/// Whether the vocabulary of the tokenizer gives an id to the token that it
/// uses for unknown words: the name of what [`bert_test_unknown`] returns.
pub uninterp spec fn bert_knows_unknown(tokenizer: BertTokenizer) -> bool;

/// What `Vocab::special_values` of the tokenizer's vocabulary holds: the id
/// of each special token, by token.
pub uninterp spec fn bert_special_values(tokenizer: BertTokenizer) -> Map<Seq<char>, i64>;

/// The token ids that `MultiThreadedTokenizer::encode_list` of the tokenizer
/// gives for the texts when each is encoded alone and cut down to `max_len`
/// ids: the name of what [`bert_encode`] returns.
pub uninterp spec fn bert_encoded(tokenizer: BertTokenizer, texts: Seq<Seq<char>>, max_len: usize) -> Seq<
    Seq<i64>,
>;

/// Whether `values` of the vocabulary of a BERT tokenizer (`Vocab::values`)
/// holds the vocabulary's `unknown_value`. Believed of it: the result is what
/// [`bert_knows_unknown`] names.
#[verifier::external_body]
fn bert_test_unknown(tokenizer: &BertTokenizer) -> (known: bool)
    ensures
        known == bert_knows_unknown(*tokenizer),
{
    let vocab = MultiThreadedTokenizer::vocab(tokenizer);
    vocab.values.contains_key(vocab.unknown_value)
}

/// `Vocab::special_values` of the vocabulary of a BERT tokenizer, handed out
/// as pairs of a special token and its id, in no particular order. Believed
/// of it: the pairs are the entries of what [`bert_special_values`] names.
#[verifier::external_body]
fn bert_special_pairs(tokenizer: &BertTokenizer) -> (pairs: Vec<(String, i64)>)
    ensures
        holds_pairs(bert_special_values(*tokenizer), pairs@),
{
    MultiThreadedTokenizer::vocab(tokenizer).special_values().iter().map(
        |(token, id)| (token.clone(), *id),
    ).collect()
}

/// `BertVocab::pad_value`: the padding token of a BERT vocabulary, which is
/// `[PAD]`.
pub assume_specification[ BertVocab::pad_value ]() -> (token: &'static str)
    ensures
        token@ == "[PAD]"@,
;

/// `MultiThreadedTokenizer::encode_list` of a BERT tokenizer, each encoding
/// reduced to its token ids.
///
/// Believed of it: the rows are what [`bert_encoded`] names, the same for
/// either strategy that truncates a single text and for every stride; there
/// is one row for each text, in the order of the texts, and no row is longer
/// than `max_len`.
///
/// The tokenizer adds two special tokens to the tokens of a text, and
/// the encoding fails where `max_len` leaves no room for them; it also fails
/// on a word outside the vocabulary where the vocabulary gives its unknown
/// token no id. Neither is admitted.
#[verifier::external_body]
fn bert_encode(
    tokenizer: &BertTokenizer,
    text_list: &[&str],
    max_len: usize,
    truncation_strategy: TruncationStrategy,
    stride: usize,
) -> (rows: Vec<Vec<i64>>)
    requires
        max_len >= 2,
        bert_knows_unknown(*tokenizer),
        truncates_single_text(truncation_strategy),
    ensures
        ids_view(rows@) == bert_encoded(*tokenizer, texts_view(text_list@), max_len),
        rows.len() == text_list.len(),
        forall|i: int| 0 <= i < rows.len() ==> (#[trigger] rows[i]).len() <= max_len,
{
    let strategy = match truncation_strategy {
        TruncationStrategy::LongestFirst => rust_tokenizers::tokenizer::TruncationStrategy::LongestFirst,
        TruncationStrategy::OnlyFirst => rust_tokenizers::tokenizer::TruncationStrategy::OnlyFirst,
        TruncationStrategy::OnlySecond => rust_tokenizers::tokenizer::TruncationStrategy::OnlySecond,
        TruncationStrategy::DoNotTruncate => rust_tokenizers::tokenizer::TruncationStrategy::DoNotTruncate,
    };
    MultiThreadedTokenizer::encode_list(tokenizer, text_list, max_len, &strategy, stride)
        .into_iter().map(|input| input.token_ids).collect()
}

/// Whether the vocabulary of the tokenizer gives an id to the token that it
/// uses for unknown words: the name of what [`deberta_test_unknown`] returns.
pub uninterp spec fn deberta_knows_unknown(tokenizer: DeBERTaTokenizer) -> bool;

/// What `Vocab::special_values` of the tokenizer's vocabulary holds: the id
/// of each special token, by token.
pub uninterp spec fn deberta_special_values(tokenizer: DeBERTaTokenizer) -> Map<Seq<char>, i64>;

/// Whether `values` of the vocabulary of a DeBERTa tokenizer (`Vocab::values`)
/// holds the vocabulary's `unknown_value`. Believed of it: the result is what
/// [`deberta_knows_unknown`] names.
#[verifier::external_body]
fn deberta_test_unknown(tokenizer: &DeBERTaTokenizer) -> (known: bool)
    ensures
        known == deberta_knows_unknown(*tokenizer),
{
    let vocab = MultiThreadedTokenizer::vocab(tokenizer);
    vocab.values.contains_key(vocab.unknown_value)
}

/// `Vocab::special_values` of the vocabulary of a DeBERTa tokenizer, handed out
/// as pairs of a special token and its id, in no particular order. Believed
/// of it: the pairs are the entries of what [`deberta_special_values`] names.
#[verifier::external_body]
fn deberta_special_pairs(tokenizer: &DeBERTaTokenizer) -> (pairs: Vec<(String, i64)>)
    ensures
        holds_pairs(deberta_special_values(*tokenizer), pairs@),
{
    MultiThreadedTokenizer::vocab(tokenizer).special_values().iter().map(
        |(token, id)| (token.clone(), *id),
    ).collect()
}

/// `DeBERTaVocab::pad_value`: the padding token of a DeBERTa vocabulary, which is
/// `[PAD]`.
pub assume_specification[ DeBERTaVocab::pad_value ]() -> (token: &'static str)
    ensures
        token@ == "[PAD]"@,
;

/// `MultiThreadedTokenizer::encode_list` of a DeBERTa tokenizer, each encoding
/// reduced to its token ids.
///
/// Believed of it: there is one row for each text, in the order of the
/// texts, and no row is longer than `max_len`. The ids are given no name:
/// where two merges have the same rank, which of them is applied first
/// depends on the order in which a freshly seeded hash set is walked, so
/// that two encodings of one text may differ.
///
/// The tokenizer adds two special tokens to the tokens of a text, and
/// the encoding fails where `max_len` leaves no room for them; it also fails
/// on a word outside the vocabulary where the vocabulary gives its unknown
/// token no id. Neither is admitted.
#[verifier::external_body]
fn deberta_encode(
    tokenizer: &DeBERTaTokenizer,
    text_list: &[&str],
    max_len: usize,
    truncation_strategy: TruncationStrategy,
    stride: usize,
) -> (rows: Vec<Vec<i64>>)
    requires
        max_len >= 2,
        deberta_knows_unknown(*tokenizer),
        truncates_single_text(truncation_strategy),
    ensures
        rows.len() == text_list.len(),
        forall|i: int| 0 <= i < rows.len() ==> (#[trigger] rows[i]).len() <= max_len,
{
    let strategy = match truncation_strategy {
        TruncationStrategy::LongestFirst => rust_tokenizers::tokenizer::TruncationStrategy::LongestFirst,
        TruncationStrategy::OnlyFirst => rust_tokenizers::tokenizer::TruncationStrategy::OnlyFirst,
        TruncationStrategy::OnlySecond => rust_tokenizers::tokenizer::TruncationStrategy::OnlySecond,
        TruncationStrategy::DoNotTruncate => rust_tokenizers::tokenizer::TruncationStrategy::DoNotTruncate,
    };
    MultiThreadedTokenizer::encode_list(tokenizer, text_list, max_len, &strategy, stride)
        .into_iter().map(|input| input.token_ids).collect()
}

/// Whether the vocabulary of the tokenizer gives an id to the token that it
/// uses for unknown words: the name of what [`deberta_v2_test_unknown`] returns.
pub uninterp spec fn deberta_v2_knows_unknown(tokenizer: DeBERTaV2Tokenizer) -> bool;

/// What `Vocab::special_values` of the tokenizer's vocabulary holds: the id
/// of each special token, by token.
pub uninterp spec fn deberta_v2_special_values(tokenizer: DeBERTaV2Tokenizer) -> Map<Seq<char>, i64>;

/// The token ids that `MultiThreadedTokenizer::encode_list` of the tokenizer
/// gives for the texts when each is encoded alone and cut down to `max_len`
/// ids: the name of what [`deberta_v2_encode`] returns.
pub uninterp spec fn deberta_v2_encoded(tokenizer: DeBERTaV2Tokenizer, texts: Seq<Seq<char>>, max_len: usize) -> Seq<
    Seq<i64>,
>;

/// Whether `values` of the vocabulary of a DeBERTa V2 tokenizer (`Vocab::values`)
/// holds the vocabulary's `unknown_value`. Believed of it: the result is what
/// [`deberta_v2_knows_unknown`] names.
#[verifier::external_body]
fn deberta_v2_test_unknown(tokenizer: &DeBERTaV2Tokenizer) -> (known: bool)
    ensures
        known == deberta_v2_knows_unknown(*tokenizer),
{
    let vocab = MultiThreadedTokenizer::vocab(tokenizer);
    vocab.values.contains_key(vocab.unknown_value)
}

/// `Vocab::special_values` of the vocabulary of a DeBERTa V2 tokenizer, handed out
/// as pairs of a special token and its id, in no particular order. Believed
/// of it: the pairs are the entries of what [`deberta_v2_special_values`] names.
#[verifier::external_body]
fn deberta_v2_special_pairs(tokenizer: &DeBERTaV2Tokenizer) -> (pairs: Vec<(String, i64)>)
    ensures
        holds_pairs(deberta_v2_special_values(*tokenizer), pairs@),
{
    MultiThreadedTokenizer::vocab(tokenizer).special_values().iter().map(
        |(token, id)| (token.clone(), *id),
    ).collect()
}

/// `DeBERTaV2Vocab::pad_value`: the padding token of a DeBERTa V2 vocabulary, which is
/// `[PAD]`.
pub assume_specification[ DeBERTaV2Vocab::pad_value ]() -> (token: &'static str)
    ensures
        token@ == "[PAD]"@,
;

/// `MultiThreadedTokenizer::encode_list` of a DeBERTa V2 tokenizer, each encoding
/// reduced to its token ids.
///
/// Believed of it: the rows are what [`deberta_v2_encoded`] names, the same for
/// either strategy that truncates a single text and for every stride; there
/// is one row for each text, in the order of the texts, and no row is longer
/// than `max_len`.
///
/// The tokenizer adds two special tokens to the tokens of a text, and
/// the encoding fails where `max_len` leaves no room for them; it also fails
/// on a word outside the vocabulary where the vocabulary gives its unknown
/// token no id. Neither is admitted.
#[verifier::external_body]
fn deberta_v2_encode(
    tokenizer: &DeBERTaV2Tokenizer,
    text_list: &[&str],
    max_len: usize,
    truncation_strategy: TruncationStrategy,
    stride: usize,
) -> (rows: Vec<Vec<i64>>)
    requires
        max_len >= 2,
        deberta_v2_knows_unknown(*tokenizer),
        truncates_single_text(truncation_strategy),
    ensures
        ids_view(rows@) == deberta_v2_encoded(*tokenizer, texts_view(text_list@), max_len),
        rows.len() == text_list.len(),
        forall|i: int| 0 <= i < rows.len() ==> (#[trigger] rows[i]).len() <= max_len,
{
    let strategy = match truncation_strategy {
        TruncationStrategy::LongestFirst => rust_tokenizers::tokenizer::TruncationStrategy::LongestFirst,
        TruncationStrategy::OnlyFirst => rust_tokenizers::tokenizer::TruncationStrategy::OnlyFirst,
        TruncationStrategy::OnlySecond => rust_tokenizers::tokenizer::TruncationStrategy::OnlySecond,
        TruncationStrategy::DoNotTruncate => rust_tokenizers::tokenizer::TruncationStrategy::DoNotTruncate,
    };
    MultiThreadedTokenizer::encode_list(tokenizer, text_list, max_len, &strategy, stride)
        .into_iter().map(|input| input.token_ids).collect()
}

/// Whether the vocabulary of the tokenizer gives an id to the token that it
/// uses for unknown words: the name of what [`roberta_test_unknown`] returns.
pub uninterp spec fn roberta_knows_unknown(tokenizer: RobertaTokenizer) -> bool;

/// What `Vocab::special_values` of the tokenizer's vocabulary holds: the id
/// of each special token, by token.
pub uninterp spec fn roberta_special_values(tokenizer: RobertaTokenizer) -> Map<Seq<char>, i64>;

/// Whether `values` of the vocabulary of a RoBERTa tokenizer (`Vocab::values`)
/// holds the vocabulary's `unknown_value`. Believed of it: the result is what
/// [`roberta_knows_unknown`] names.
#[verifier::external_body]
fn roberta_test_unknown(tokenizer: &RobertaTokenizer) -> (known: bool)
    ensures
        known == roberta_knows_unknown(*tokenizer),
{
    let vocab = MultiThreadedTokenizer::vocab(tokenizer);
    vocab.values.contains_key(vocab.unknown_value)
}

/// `Vocab::special_values` of the vocabulary of a RoBERTa tokenizer, handed out
/// as pairs of a special token and its id, in no particular order. Believed
/// of it: the pairs are the entries of what [`roberta_special_values`] names.
#[verifier::external_body]
fn roberta_special_pairs(tokenizer: &RobertaTokenizer) -> (pairs: Vec<(String, i64)>)
    ensures
        holds_pairs(roberta_special_values(*tokenizer), pairs@),
{
    MultiThreadedTokenizer::vocab(tokenizer).special_values().iter().map(
        |(token, id)| (token.clone(), *id),
    ).collect()
}

/// `RobertaVocab::pad_value`: the padding token of a RoBERTa vocabulary, which is
/// `<pad>`.
pub assume_specification[ RobertaVocab::pad_value ]() -> (token: &'static str)
    ensures
        token@ == "<pad>"@,
;

/// `MultiThreadedTokenizer::encode_list` of a RoBERTa tokenizer, each encoding
/// reduced to its token ids.
///
/// Believed of it: there is one row for each text, in the order of the
/// texts, and no row is longer than `max_len`. The ids are given no name:
/// where two merges have the same rank, which of them is applied first
/// depends on the order in which a freshly seeded hash set is walked, so
/// that two encodings of one text may differ.
///
/// The tokenizer adds two special tokens to the tokens of a text, and
/// the encoding fails where `max_len` leaves no room for them; it also fails
/// on a word outside the vocabulary where the vocabulary gives its unknown
/// token no id. Neither is admitted.
#[verifier::external_body]
fn roberta_encode(
    tokenizer: &RobertaTokenizer,
    text_list: &[&str],
    max_len: usize,
    truncation_strategy: TruncationStrategy,
    stride: usize,
) -> (rows: Vec<Vec<i64>>)
    requires
        max_len >= 2,
        roberta_knows_unknown(*tokenizer),
        truncates_single_text(truncation_strategy),
    ensures
        rows.len() == text_list.len(),
        forall|i: int| 0 <= i < rows.len() ==> (#[trigger] rows[i]).len() <= max_len,
{
    let strategy = match truncation_strategy {
        TruncationStrategy::LongestFirst => rust_tokenizers::tokenizer::TruncationStrategy::LongestFirst,
        TruncationStrategy::OnlyFirst => rust_tokenizers::tokenizer::TruncationStrategy::OnlyFirst,
        TruncationStrategy::OnlySecond => rust_tokenizers::tokenizer::TruncationStrategy::OnlySecond,
        TruncationStrategy::DoNotTruncate => rust_tokenizers::tokenizer::TruncationStrategy::DoNotTruncate,
    };
    MultiThreadedTokenizer::encode_list(tokenizer, text_list, max_len, &strategy, stride)
        .into_iter().map(|input| input.token_ids).collect()
}

/// Whether the vocabulary of the tokenizer gives an id to the token that it
/// uses for unknown words: the name of what [`xlm_roberta_test_unknown`] returns.
pub uninterp spec fn xlm_roberta_knows_unknown(tokenizer: XLMRobertaTokenizer) -> bool;

/// What `Vocab::special_values` of the tokenizer's vocabulary holds: the id
/// of each special token, by token.
pub uninterp spec fn xlm_roberta_special_values(tokenizer: XLMRobertaTokenizer) -> Map<Seq<char>, i64>;

/// The token ids that `MultiThreadedTokenizer::encode_list` of the tokenizer
/// gives for the texts when each is encoded alone and cut down to `max_len`
/// ids: the name of what [`xlm_roberta_encode`] returns.
pub uninterp spec fn xlm_roberta_encoded(tokenizer: XLMRobertaTokenizer, texts: Seq<Seq<char>>, max_len: usize) -> Seq<
    Seq<i64>,
>;

/// Whether `values` of the vocabulary of an XLM-RoBERTa tokenizer (`Vocab::values`)
/// holds the vocabulary's `unknown_value`. Believed of it: the result is what
/// [`xlm_roberta_knows_unknown`] names.
#[verifier::external_body]
fn xlm_roberta_test_unknown(tokenizer: &XLMRobertaTokenizer) -> (known: bool)
    ensures
        known == xlm_roberta_knows_unknown(*tokenizer),
{
    let vocab = MultiThreadedTokenizer::vocab(tokenizer);
    vocab.values.contains_key(vocab.unknown_value)
}

/// `Vocab::special_values` of the vocabulary of an XLM-RoBERTa tokenizer, handed out
/// as pairs of a special token and its id, in no particular order. Believed
/// of it: the pairs are the entries of what [`xlm_roberta_special_values`] names.
#[verifier::external_body]
fn xlm_roberta_special_pairs(tokenizer: &XLMRobertaTokenizer) -> (pairs: Vec<(String, i64)>)
    ensures
        holds_pairs(xlm_roberta_special_values(*tokenizer), pairs@),
{
    MultiThreadedTokenizer::vocab(tokenizer).special_values().iter().map(
        |(token, id)| (token.clone(), *id),
    ).collect()
}

/// `XLMRobertaVocab::pad_value`: the padding token of an XLM-RoBERTa vocabulary, which is
/// `<pad>`.
pub assume_specification[ XLMRobertaVocab::pad_value ]() -> (token: &'static str)
    ensures
        token@ == "<pad>"@,
;

/// `MultiThreadedTokenizer::encode_list` of an XLM-RoBERTa tokenizer, each encoding
/// reduced to its token ids.
///
/// Believed of it: the rows are what [`xlm_roberta_encoded`] names, the same for
/// either strategy that truncates a single text and for every stride; there
/// is one row for each text, in the order of the texts, and no row is longer
/// than `max_len`.
///
/// The tokenizer adds two special tokens to the tokens of a text, and
/// the encoding fails where `max_len` leaves no room for them; it also fails
/// on a word outside the vocabulary where the vocabulary gives its unknown
/// token no id. Neither is admitted.
#[verifier::external_body]
fn xlm_roberta_encode(
    tokenizer: &XLMRobertaTokenizer,
    text_list: &[&str],
    max_len: usize,
    truncation_strategy: TruncationStrategy,
    stride: usize,
) -> (rows: Vec<Vec<i64>>)
    requires
        max_len >= 2,
        xlm_roberta_knows_unknown(*tokenizer),
        truncates_single_text(truncation_strategy),
    ensures
        ids_view(rows@) == xlm_roberta_encoded(*tokenizer, texts_view(text_list@), max_len),
        rows.len() == text_list.len(),
        forall|i: int| 0 <= i < rows.len() ==> (#[trigger] rows[i]).len() <= max_len,
{
    let strategy = match truncation_strategy {
        TruncationStrategy::LongestFirst => rust_tokenizers::tokenizer::TruncationStrategy::LongestFirst,
        TruncationStrategy::OnlyFirst => rust_tokenizers::tokenizer::TruncationStrategy::OnlyFirst,
        TruncationStrategy::OnlySecond => rust_tokenizers::tokenizer::TruncationStrategy::OnlySecond,
        TruncationStrategy::DoNotTruncate => rust_tokenizers::tokenizer::TruncationStrategy::DoNotTruncate,
    };
    MultiThreadedTokenizer::encode_list(tokenizer, text_list, max_len, &strategy, stride)
        .into_iter().map(|input| input.token_ids).collect()
}

/// Whether the vocabulary of the tokenizer gives an id to the token that it
/// uses for unknown words: the name of what [`albert_test_unknown`] returns.
pub uninterp spec fn albert_knows_unknown(tokenizer: AlbertTokenizer) -> bool;

/// What `Vocab::special_values` of the tokenizer's vocabulary holds: the id
/// of each special token, by token.
pub uninterp spec fn albert_special_values(tokenizer: AlbertTokenizer) -> Map<Seq<char>, i64>;

/// The token ids that `MultiThreadedTokenizer::encode_list` of the tokenizer
/// gives for the texts when each is encoded alone and cut down to `max_len`
/// ids: the name of what [`albert_encode`] returns.
pub uninterp spec fn albert_encoded(tokenizer: AlbertTokenizer, texts: Seq<Seq<char>>, max_len: usize) -> Seq<
    Seq<i64>,
>;

/// Whether `values` of the vocabulary of an ALBERT tokenizer (`Vocab::values`)
/// holds the vocabulary's `unknown_value`. Believed of it: the result is what
/// [`albert_knows_unknown`] names.
#[verifier::external_body]
fn albert_test_unknown(tokenizer: &AlbertTokenizer) -> (known: bool)
    ensures
        known == albert_knows_unknown(*tokenizer),
{
    let vocab = MultiThreadedTokenizer::vocab(tokenizer);
    vocab.values.contains_key(vocab.unknown_value)
}

/// `Vocab::special_values` of the vocabulary of an ALBERT tokenizer, handed out
/// as pairs of a special token and its id, in no particular order. Believed
/// of it: the pairs are the entries of what [`albert_special_values`] names.
#[verifier::external_body]
fn albert_special_pairs(tokenizer: &AlbertTokenizer) -> (pairs: Vec<(String, i64)>)
    ensures
        holds_pairs(albert_special_values(*tokenizer), pairs@),
{
    MultiThreadedTokenizer::vocab(tokenizer).special_values().iter().map(
        |(token, id)| (token.clone(), *id),
    ).collect()
}

/// `AlbertVocab::pad_value`: the padding token of an ALBERT vocabulary, which is
/// `<pad>`.
pub assume_specification[ AlbertVocab::pad_value ]() -> (token: &'static str)
    ensures
        token@ == "<pad>"@,
;

/// `MultiThreadedTokenizer::encode_list` of an ALBERT tokenizer, each encoding
/// reduced to its token ids.
///
/// Believed of it: the rows are what [`albert_encoded`] names, the same for
/// either strategy that truncates a single text and for every stride; there
/// is one row for each text, in the order of the texts, and no row is longer
/// than `max_len`.
///
/// The tokenizer adds two special tokens to the tokens of a text, and
/// the encoding fails where `max_len` leaves no room for them; it also fails
/// on a word outside the vocabulary where the vocabulary gives its unknown
/// token no id. Neither is admitted.
#[verifier::external_body]
fn albert_encode(
    tokenizer: &AlbertTokenizer,
    text_list: &[&str],
    max_len: usize,
    truncation_strategy: TruncationStrategy,
    stride: usize,
) -> (rows: Vec<Vec<i64>>)
    requires
        max_len >= 2,
        albert_knows_unknown(*tokenizer),
        truncates_single_text(truncation_strategy),
    ensures
        ids_view(rows@) == albert_encoded(*tokenizer, texts_view(text_list@), max_len),
        rows.len() == text_list.len(),
        forall|i: int| 0 <= i < rows.len() ==> (#[trigger] rows[i]).len() <= max_len,
{
    let strategy = match truncation_strategy {
        TruncationStrategy::LongestFirst => rust_tokenizers::tokenizer::TruncationStrategy::LongestFirst,
        TruncationStrategy::OnlyFirst => rust_tokenizers::tokenizer::TruncationStrategy::OnlyFirst,
        TruncationStrategy::OnlySecond => rust_tokenizers::tokenizer::TruncationStrategy::OnlySecond,
        TruncationStrategy::DoNotTruncate => rust_tokenizers::tokenizer::TruncationStrategy::DoNotTruncate,
    };
    MultiThreadedTokenizer::encode_list(tokenizer, text_list, max_len, &strategy, stride)
        .into_iter().map(|input| input.token_ids).collect()
}

/// Whether the vocabulary of the tokenizer gives an id to the token that it
/// uses for unknown words: the name of what [`xlnet_test_unknown`] returns.
pub uninterp spec fn xlnet_knows_unknown(tokenizer: XLNetTokenizer) -> bool;

/// What `Vocab::special_values` of the tokenizer's vocabulary holds: the id
/// of each special token, by token.
pub uninterp spec fn xlnet_special_values(tokenizer: XLNetTokenizer) -> Map<Seq<char>, i64>;

/// The token ids that `MultiThreadedTokenizer::encode_list` of the tokenizer
/// gives for the texts when each is encoded alone and cut down to `max_len`
/// ids: the name of what [`xlnet_encode`] returns.
pub uninterp spec fn xlnet_encoded(tokenizer: XLNetTokenizer, texts: Seq<Seq<char>>, max_len: usize) -> Seq<
    Seq<i64>,
>;

/// Whether `values` of the vocabulary of an XLNet tokenizer (`Vocab::values`)
/// holds the vocabulary's `unknown_value`. Believed of it: the result is what
/// [`xlnet_knows_unknown`] names.
#[verifier::external_body]
fn xlnet_test_unknown(tokenizer: &XLNetTokenizer) -> (known: bool)
    ensures
        known == xlnet_knows_unknown(*tokenizer),
{
    let vocab = MultiThreadedTokenizer::vocab(tokenizer);
    vocab.values.contains_key(vocab.unknown_value)
}

/// `Vocab::special_values` of the vocabulary of an XLNet tokenizer, handed out
/// as pairs of a special token and its id, in no particular order. Believed
/// of it: the pairs are the entries of what [`xlnet_special_values`] names.
#[verifier::external_body]
fn xlnet_special_pairs(tokenizer: &XLNetTokenizer) -> (pairs: Vec<(String, i64)>)
    ensures
        holds_pairs(xlnet_special_values(*tokenizer), pairs@),
{
    MultiThreadedTokenizer::vocab(tokenizer).special_values().iter().map(
        |(token, id)| (token.clone(), *id),
    ).collect()
}

/// `XLNetVocab::pad_value`: the padding token of an XLNet vocabulary, which is
/// `<pad>`.
pub assume_specification[ XLNetVocab::pad_value ]() -> (token: &'static str)
    ensures
        token@ == "<pad>"@,
;

/// `MultiThreadedTokenizer::encode_list` of an XLNet tokenizer, each encoding
/// reduced to its token ids.
///
/// Believed of it: the rows are what [`xlnet_encoded`] names, the same for
/// either strategy that truncates a single text and for every stride; there
/// is one row for each text, in the order of the texts, and no row is longer
/// than `max_len`.
///
/// The tokenizer adds two special tokens to the tokens of a text, and
/// the encoding fails where `max_len` leaves no room for them; it also fails
/// on a word outside the vocabulary where the vocabulary gives its unknown
/// token no id. Neither is admitted.
#[verifier::external_body]
fn xlnet_encode(
    tokenizer: &XLNetTokenizer,
    text_list: &[&str],
    max_len: usize,
    truncation_strategy: TruncationStrategy,
    stride: usize,
) -> (rows: Vec<Vec<i64>>)
    requires
        max_len >= 2,
        xlnet_knows_unknown(*tokenizer),
        truncates_single_text(truncation_strategy),
    ensures
        ids_view(rows@) == xlnet_encoded(*tokenizer, texts_view(text_list@), max_len),
        rows.len() == text_list.len(),
        forall|i: int| 0 <= i < rows.len() ==> (#[trigger] rows[i]).len() <= max_len,
{
    let strategy = match truncation_strategy {
        TruncationStrategy::LongestFirst => rust_tokenizers::tokenizer::TruncationStrategy::LongestFirst,
        TruncationStrategy::OnlyFirst => rust_tokenizers::tokenizer::TruncationStrategy::OnlyFirst,
        TruncationStrategy::OnlySecond => rust_tokenizers::tokenizer::TruncationStrategy::OnlySecond,
        TruncationStrategy::DoNotTruncate => rust_tokenizers::tokenizer::TruncationStrategy::DoNotTruncate,
    };
    MultiThreadedTokenizer::encode_list(tokenizer, text_list, max_len, &strategy, stride)
        .into_iter().map(|input| input.token_ids).collect()
}

/// Whether the vocabulary of the tokenizer gives an id to the token that it
/// uses for unknown words: the name of what [`reformer_test_unknown`] returns.
pub uninterp spec fn reformer_knows_unknown(tokenizer: ReformerTokenizer) -> bool;

/// Whether `values` of the vocabulary of a Reformer tokenizer (`Vocab::values`)
/// holds the vocabulary's `unknown_value`. Believed of it: the result is what
/// [`reformer_knows_unknown`] names.
#[verifier::external_body]
fn reformer_test_unknown(tokenizer: &ReformerTokenizer) -> (known: bool)
    ensures
        known == reformer_knows_unknown(*tokenizer),
{
    let vocab = MultiThreadedTokenizer::vocab(tokenizer);
    vocab.values.contains_key(vocab.unknown_value)
}

/// `MultiThreadedTokenizer::encode_list` of a Reformer tokenizer, each encoding
/// reduced to its token ids.
///
/// Believed of it: there is one row for each text, in the order of the
/// texts, and no row is longer than `max_len`. The ids are given no name:
/// where two merges have the same rank, which of them is applied first
/// depends on the order in which a freshly seeded hash set is walked, so
/// that two encodings of one text may differ.
///
/// The tokenizer adds no special token. The encoding fails on a word
/// outside the vocabulary where the vocabulary gives its unknown token no
/// id, which is not admitted.
#[verifier::external_body]
fn reformer_encode(
    tokenizer: &ReformerTokenizer,
    text_list: &[&str],
    max_len: usize,
    truncation_strategy: TruncationStrategy,
    stride: usize,
) -> (rows: Vec<Vec<i64>>)
    requires
        reformer_knows_unknown(*tokenizer),
        truncates_single_text(truncation_strategy),
    ensures
        rows.len() == text_list.len(),
        forall|i: int| 0 <= i < rows.len() ==> (#[trigger] rows[i]).len() <= max_len,
{
    let strategy = match truncation_strategy {
        TruncationStrategy::LongestFirst => rust_tokenizers::tokenizer::TruncationStrategy::LongestFirst,
        TruncationStrategy::OnlyFirst => rust_tokenizers::tokenizer::TruncationStrategy::OnlyFirst,
        TruncationStrategy::OnlySecond => rust_tokenizers::tokenizer::TruncationStrategy::OnlySecond,
        TruncationStrategy::DoNotTruncate => rust_tokenizers::tokenizer::TruncationStrategy::DoNotTruncate,
    };
    MultiThreadedTokenizer::encode_list(tokenizer, text_list, max_len, &strategy, stride)
        .into_iter().map(|input| input.token_ids).collect()
}

/// Whether the vocabulary of the tokenizer gives an id to the token that it
/// uses for unknown words: the name of what [`fnet_test_unknown`] returns.
pub uninterp spec fn fnet_knows_unknown(tokenizer: FNetTokenizer) -> bool;

/// What `Vocab::special_values` of the tokenizer's vocabulary holds: the id
/// of each special token, by token.
pub uninterp spec fn fnet_special_values(tokenizer: FNetTokenizer) -> Map<Seq<char>, i64>;

/// The token ids that `MultiThreadedTokenizer::encode_list` of the tokenizer
/// gives for the texts when each is encoded alone and cut down to `max_len`
/// ids: the name of what [`fnet_encode`] returns.
pub uninterp spec fn fnet_encoded(tokenizer: FNetTokenizer, texts: Seq<Seq<char>>, max_len: usize) -> Seq<
    Seq<i64>,
>;

/// Whether `values` of the vocabulary of an FNet tokenizer (`Vocab::values`)
/// holds the vocabulary's `unknown_value`. Believed of it: the result is what
/// [`fnet_knows_unknown`] names.
#[verifier::external_body]
fn fnet_test_unknown(tokenizer: &FNetTokenizer) -> (known: bool)
    ensures
        known == fnet_knows_unknown(*tokenizer),
{
    let vocab = MultiThreadedTokenizer::vocab(tokenizer);
    vocab.values.contains_key(vocab.unknown_value)
}

/// `Vocab::special_values` of the vocabulary of an FNet tokenizer, handed out
/// as pairs of a special token and its id, in no particular order. Believed
/// of it: the pairs are the entries of what [`fnet_special_values`] names.
#[verifier::external_body]
fn fnet_special_pairs(tokenizer: &FNetTokenizer) -> (pairs: Vec<(String, i64)>)
    ensures
        holds_pairs(fnet_special_values(*tokenizer), pairs@),
{
    MultiThreadedTokenizer::vocab(tokenizer).special_values().iter().map(
        |(token, id)| (token.clone(), *id),
    ).collect()
}

/// `FNetVocab::pad_value`: the padding token of an FNet vocabulary, which is
/// `<pad>`.
pub assume_specification[ FNetVocab::pad_value ]() -> (token: &'static str)
    ensures
        token@ == "<pad>"@,
;

/// `MultiThreadedTokenizer::encode_list` of an FNet tokenizer, each encoding
/// reduced to its token ids.
///
/// Believed of it: the rows are what [`fnet_encoded`] names, the same for
/// either strategy that truncates a single text and for every stride; there
/// is one row for each text, in the order of the texts, and no row is longer
/// than `max_len`.
///
/// The tokenizer adds two special tokens to the tokens of a text, and
/// the encoding fails where `max_len` leaves no room for them; it also fails
/// on a word outside the vocabulary where the vocabulary gives its unknown
/// token no id. Neither is admitted.
#[verifier::external_body]
fn fnet_encode(
    tokenizer: &FNetTokenizer,
    text_list: &[&str],
    max_len: usize,
    truncation_strategy: TruncationStrategy,
    stride: usize,
) -> (rows: Vec<Vec<i64>>)
    requires
        max_len >= 2,
        fnet_knows_unknown(*tokenizer),
        truncates_single_text(truncation_strategy),
    ensures
        ids_view(rows@) == fnet_encoded(*tokenizer, texts_view(text_list@), max_len),
        rows.len() == text_list.len(),
        forall|i: int| 0 <= i < rows.len() ==> (#[trigger] rows[i]).len() <= max_len,
{
    let strategy = match truncation_strategy {
        TruncationStrategy::LongestFirst => rust_tokenizers::tokenizer::TruncationStrategy::LongestFirst,
        TruncationStrategy::OnlyFirst => rust_tokenizers::tokenizer::TruncationStrategy::OnlyFirst,
        TruncationStrategy::OnlySecond => rust_tokenizers::tokenizer::TruncationStrategy::OnlySecond,
        TruncationStrategy::DoNotTruncate => rust_tokenizers::tokenizer::TruncationStrategy::DoNotTruncate,
    };
    MultiThreadedTokenizer::encode_list(tokenizer, text_list, max_len, &strategy, stride)
        .into_iter().map(|input| input.token_ids).collect()
}

/// Whether the pair at position `i` of `values` is the first whose token is
/// `token`.
spec fn is_first_entry(values: Seq<(String, i64)>, token: Seq<char>, i: int) -> bool {
    &&& 0 <= i < values.len()
    &&& values[i].0@ == token
    &&& forall|k: int| 0 <= k < i ==> (#[trigger] values[k]).0@ != token
}

/// The id that `values` gives to `token`: that of the first pair whose token
/// is `token`, and none where no pair has that token.
fn id_of(values: &Vec<(String, i64)>, token: &str) -> (id: Option<i64>)
    ensures
        match id {
            Some(found) => exists|i: int|
                #[trigger] is_first_entry(values@, token@, i) && values[i].1 == found,
            None => forall|i: int| 0 <= i < values.len() ==> (#[trigger] values[i]).0@ != token@,
        },
{
    let wanted = token.to_owned();
    let mut i: usize = 0;
    while i < values.len()
        invariant
            0 <= i <= values.len(),
            wanted@ == token@,
            forall|k: int| 0 <= k < i ==> (#[trigger] values[k]).0@ != token@,
        decreases values.len() - i,
    {
        if values[i].0 == wanted {
            assert(is_first_entry(values@, token@, i as int));
            return Some(values[i].1);
        }
        i += 1;
    }
    None
}

/// The id that the map whose entries are `pairs` gives to `token`.
fn id_among(pairs: &Vec<(String, i64)>, token: &str, map: Ghost<Map<Seq<char>, i64>>) -> (id:
    Option<i64>)
    requires
        holds_pairs(map@, pairs@),
    ensures
        id == id_in(map@, token@),
{
    let id = id_of(pairs, token);
    proof {
        match id {
            Some(found) => {
                let i = choose|i: int|
                    #[trigger] is_first_entry(pairs@, token@, i) && pairs[i].1 == found;
                assert(map@.contains_key(pairs[i].0@));
            },
            None => {
                if map@.contains_key(token@) {
                    let i = choose|i: int| 0 <= i < pairs.len() && (#[trigger] pairs[i]).0@ == token@;
                    assert(pairs[i].0@ == token@);
                }
            },
        }
    }
    id
}

/// The kinds of tokenizer that the sequence classifiers are trained with.
#[derive(Clone, Copy, Debug, PartialEq, Eq, Structural)]
pub enum TokenizerKind {
    Bert,
    Deberta,
    DebertaV2,
    Roberta,
    XLMRoberta,
    Albert,
    XLNet,
    Reformer,
    FNet,
}

/// The kind of tokenizer that a model of the given type is trained with,
/// `None` where the model type has no sequence classification head.
pub open spec fn tokenizer_for(model_type: ModelType) -> Option<TokenizerKind> {
    match model_type {
        ModelType::Bert | ModelType::DistilBert | ModelType::MobileBert => Some(
            TokenizerKind::Bert,
        ),
        ModelType::Deberta => Some(TokenizerKind::Deberta),
        ModelType::DebertaV2 => Some(TokenizerKind::DebertaV2),
        ModelType::Roberta | ModelType::Bart | ModelType::Longformer => Some(
            TokenizerKind::Roberta,
        ),
        ModelType::XLMRoberta => Some(TokenizerKind::XLMRoberta),
        ModelType::Albert => Some(TokenizerKind::Albert),
        ModelType::XLNet => Some(TokenizerKind::XLNet),
        ModelType::Reformer => Some(TokenizerKind::Reformer),
        ModelType::FNet => Some(TokenizerKind::FNet),
        _ => None,
    }
}

/// The kind of tokenizer that a model of the given type is trained with,
/// `None` where the model type has no sequence classification head.
pub fn tokenizer_kind(model_type: ModelType) -> (kind: Option<TokenizerKind>)
    ensures
        kind == tokenizer_for(model_type),
{
    match model_type {
        ModelType::Bert | ModelType::DistilBert | ModelType::MobileBert => Some(
            TokenizerKind::Bert,
        ),
        ModelType::Deberta => Some(TokenizerKind::Deberta),
        ModelType::DebertaV2 => Some(TokenizerKind::DebertaV2),
        ModelType::Roberta | ModelType::Bart | ModelType::Longformer => Some(
            TokenizerKind::Roberta,
        ),
        ModelType::XLMRoberta => Some(TokenizerKind::XLMRoberta),
        ModelType::Albert => Some(TokenizerKind::Albert),
        ModelType::XLNet => Some(TokenizerKind::XLNet),
        ModelType::Reformer => Some(TokenizerKind::Reformer),
        ModelType::FNet => Some(TokenizerKind::FNet),
        _ => None,
    }
}

/// The tokenizer of a pipeline: one of the tokenizers that the sequence
/// classifiers are trained with.
pub enum TokenizerOption {
    /// Bert Tokenizer
    Bert(BertTokenizer),
    /// DeBERTa Tokenizer
    Deberta(DeBERTaTokenizer),
    /// DeBERTa V2 Tokenizer
    DebertaV2(DeBERTaV2Tokenizer),
    /// Roberta Tokenizer
    Roberta(RobertaTokenizer),
    /// XLMRoberta Tokenizer
    XLMRoberta(XLMRobertaTokenizer),
    /// Albert Tokenizer
    Albert(AlbertTokenizer),
    /// XLNet Tokenizer
    XLNet(XLNetTokenizer),
    /// Reformer Tokenizer
    Reformer(ReformerTokenizer),
    /// FNet Tokenizer
    FNet(FNetTokenizer),
}

impl TokenizerOption {
    /// The kind of this tokenizer.
    pub open spec fn spec_kind(&self) -> TokenizerKind {
        match self {
            Self::Bert(_) => TokenizerKind::Bert,
            Self::Deberta(_) => TokenizerKind::Deberta,
            Self::DebertaV2(_) => TokenizerKind::DebertaV2,
            Self::Roberta(_) => TokenizerKind::Roberta,
            Self::XLMRoberta(_) => TokenizerKind::XLMRoberta,
            Self::Albert(_) => TokenizerKind::Albert,
            Self::XLNet(_) => TokenizerKind::XLNet,
            Self::Reformer(_) => TokenizerKind::Reformer,
            Self::FNet(_) => TokenizerKind::FNet,
        }
    }

    /// Whether the vocabulary of the tokenizer gives an id to the token that
    /// it uses for unknown words.
    pub open spec fn knows_unknown(&self) -> bool {
        match self {
            Self::Bert(tokenizer) => bert_knows_unknown(*tokenizer),
            Self::Deberta(tokenizer) => deberta_knows_unknown(*tokenizer),
            Self::DebertaV2(tokenizer) => deberta_v2_knows_unknown(*tokenizer),
            Self::Roberta(tokenizer) => roberta_knows_unknown(*tokenizer),
            Self::XLMRoberta(tokenizer) => xlm_roberta_knows_unknown(*tokenizer),
            Self::Albert(tokenizer) => albert_knows_unknown(*tokenizer),
            Self::XLNet(tokenizer) => xlnet_knows_unknown(*tokenizer),
            Self::Reformer(tokenizer) => reformer_knows_unknown(*tokenizer),
            Self::FNet(tokenizer) => fnet_knows_unknown(*tokenizer),
        }
    }

    /// The ids of the special tokens of the tokenizer's vocabulary, by token.
    /// A Reformer tokenizer has none that the pipeline reads.
    pub open spec fn special_values(&self) -> Map<Seq<char>, i64> {
        match self {
            Self::Bert(tokenizer) => bert_special_values(*tokenizer),
            Self::Deberta(tokenizer) => deberta_special_values(*tokenizer),
            Self::DebertaV2(tokenizer) => deberta_v2_special_values(*tokenizer),
            Self::Roberta(tokenizer) => roberta_special_values(*tokenizer),
            Self::XLMRoberta(tokenizer) => xlm_roberta_special_values(*tokenizer),
            Self::Albert(tokenizer) => albert_special_values(*tokenizer),
            Self::XLNet(tokenizer) => xlnet_special_values(*tokenizer),
            Self::Reformer(_) => Map::empty(),
            Self::FNet(tokenizer) => fnet_special_values(*tokenizer),
        }
    }

    /// The padding token of the tokenizer's vocabulary, `None` for a Reformer
    /// tokenizer, which has no padding token.
    pub open spec fn pad_token(&self) -> Option<Seq<char>> {
        match self {
            Self::Bert(_) => Some("[PAD]"@),
            Self::Deberta(_) => Some("[PAD]"@),
            Self::DebertaV2(_) => Some("[PAD]"@),
            Self::Roberta(_) => Some("<pad>"@),
            Self::XLMRoberta(_) => Some("<pad>"@),
            Self::Albert(_) => Some("<pad>"@),
            Self::XLNet(_) => Some("<pad>"@),
            Self::Reformer(_) => None,
            Self::FNet(_) => Some("<pad>"@),
        }
    }

    /// The id of the tokenizer's padding token: the id that the special
    /// values of its vocabulary give to its padding token, `None` where they
    /// give it none or the tokenizer has no padding token.
    pub open spec fn spec_get_pad_id(&self) -> Option<i64> {
        match self.pad_token() {
            Some(token) => id_in(self.special_values(), token),
            None => None,
        }
    }

    /// The number of special tokens that the tokenizer puts around the tokens
    /// of a text.
    pub open spec fn spec_special_tokens(&self) -> usize {
        if self is Reformer {
            0
        } else {
            2
        }
    }

    /// Whether `rows` can be what the tokenizer encodes the texts to, one by
    /// one and cut down to `max_len` ids: there is one row for each text, no
    /// row is longer than `max_len`, and the rows are the ids that the
    /// tokenizer gives. A tokenizer that merges byte pairs by rank (RoBERTa,
    /// DeBERTa, Reformer) may encode one text in more than one way, and of
    /// its rows no more is said.
    pub open spec fn is_encoding(
        &self,
        texts: Seq<Seq<char>>,
        max_len: usize,
        rows: Seq<Seq<i64>>,
    ) -> bool {
        &&& rows.len() == texts.len()
        &&& forall|i: int| 0 <= i < rows.len() ==> (#[trigger] rows[i]).len() <= max_len
        &&& match self {
            Self::Bert(tokenizer) => rows == bert_encoded(*tokenizer, texts, max_len),
            Self::DebertaV2(tokenizer) => rows == deberta_v2_encoded(*tokenizer, texts, max_len),
            Self::XLMRoberta(tokenizer) => rows == xlm_roberta_encoded(
                *tokenizer,
                texts,
                max_len,
            ),
            Self::Albert(tokenizer) => rows == albert_encoded(*tokenizer, texts, max_len),
            Self::XLNet(tokenizer) => rows == xlnet_encoded(*tokenizer, texts, max_len),
            Self::FNet(tokenizer) => rows == fnet_encoded(*tokenizer, texts, max_len),
            Self::Roberta(_) | Self::Deberta(_) | Self::Reformer(_) => true,
        }
    }

    /// The kind of this tokenizer.
    #[verifier::when_used_as_spec(spec_kind)]
    pub fn kind(&self) -> (kind: TokenizerKind)
        ensures
            kind == self.spec_kind(),
    {
        match self {
            Self::Bert(_) => TokenizerKind::Bert,
            Self::Deberta(_) => TokenizerKind::Deberta,
            Self::DebertaV2(_) => TokenizerKind::DebertaV2,
            Self::Roberta(_) => TokenizerKind::Roberta,
            Self::XLMRoberta(_) => TokenizerKind::XLMRoberta,
            Self::Albert(_) => TokenizerKind::Albert,
            Self::XLNet(_) => TokenizerKind::XLNet,
            Self::Reformer(_) => TokenizerKind::Reformer,
            Self::FNet(_) => TokenizerKind::FNet,
        }
    }

    /// The number of special tokens that the tokenizer puts around the tokens
    /// of a text.
    #[verifier::when_used_as_spec(spec_special_tokens)]
    pub fn special_tokens(&self) -> (count: usize)
        ensures
            count == self.spec_special_tokens(),
    {
        match self {
            Self::Reformer(_) => 0,
            _ => 2,
        }
    }

    /// Whether the vocabulary of the tokenizer gives an id to the token that
    /// it uses for unknown words. A tokenizer whose vocabulary does not
    /// cannot encode a text.
    pub fn has_unknown_token(&self) -> (known: bool)
        ensures
            known == self.knows_unknown(),
    {
        match self {
            Self::Bert(tokenizer) => bert_test_unknown(tokenizer),
            Self::Deberta(tokenizer) => deberta_test_unknown(tokenizer),
            Self::DebertaV2(tokenizer) => deberta_v2_test_unknown(tokenizer),
            Self::Roberta(tokenizer) => roberta_test_unknown(tokenizer),
            Self::XLMRoberta(tokenizer) => xlm_roberta_test_unknown(tokenizer),
            Self::Albert(tokenizer) => albert_test_unknown(tokenizer),
            Self::XLNet(tokenizer) => xlnet_test_unknown(tokenizer),
            Self::Reformer(tokenizer) => reformer_test_unknown(tokenizer),
            Self::FNet(tokenizer) => fnet_test_unknown(tokenizer),
        }
    }

    /// The token ids of each text of the list, special tokens included, cut
    /// down to `max_len` ids where a text has more.
    ///
    /// The tokenizer must know its unknown token, `max_len` must leave room
    /// for its special tokens, and the strategy must be one that truncates a
    /// single text.
    pub fn encode_list(
        &self,
        text_list: &[&str],
        max_len: usize,
        truncation_strategy: TruncationStrategy,
        stride: usize,
    ) -> (rows: Vec<Vec<i64>>)
        requires
            self.knows_unknown(),
            max_len >= self.special_tokens(),
            truncates_single_text(truncation_strategy),
        ensures
            self.is_encoding(texts_view(text_list@), max_len, ids_view(rows@)),
            rows.len() == text_list.len(),
            forall|i: int| 0 <= i < rows.len() ==> (#[trigger] rows[i]).len() <= max_len,
    {
        match self {
            Self::Bert(tokenizer) => bert_encode(
                tokenizer,
                text_list,
                max_len,
                truncation_strategy,
                stride,
            ),
            Self::Deberta(tokenizer) => deberta_encode(
                tokenizer,
                text_list,
                max_len,
                truncation_strategy,
                stride,
            ),
            Self::DebertaV2(tokenizer) => deberta_v2_encode(
                tokenizer,
                text_list,
                max_len,
                truncation_strategy,
                stride,
            ),
            Self::Roberta(tokenizer) => roberta_encode(
                tokenizer,
                text_list,
                max_len,
                truncation_strategy,
                stride,
            ),
            Self::XLMRoberta(tokenizer) => xlm_roberta_encode(
                tokenizer,
                text_list,
                max_len,
                truncation_strategy,
                stride,
            ),
            Self::Albert(tokenizer) => albert_encode(
                tokenizer,
                text_list,
                max_len,
                truncation_strategy,
                stride,
            ),
            Self::XLNet(tokenizer) => xlnet_encode(
                tokenizer,
                text_list,
                max_len,
                truncation_strategy,
                stride,
            ),
            Self::Reformer(tokenizer) => reformer_encode(
                tokenizer,
                text_list,
                max_len,
                truncation_strategy,
                stride,
            ),
            Self::FNet(tokenizer) => fnet_encode(
                tokenizer,
                text_list,
                max_len,
                truncation_strategy,
                stride,
            ),
        }
    }

    /// The id of the tokenizer's padding token: the id that the special
    /// values of its vocabulary give to its padding token, `None` where they
    /// give it none, and for a Reformer tokenizer, which has no padding
    /// token.
    pub fn get_pad_id(&self) -> (pad_id: Option<i64>)
        ensures
            pad_id == self.spec_get_pad_id(),
            self is Reformer ==> pad_id is None,
    {
        match self {
            Self::Bert(tokenizer) => id_among(
                &bert_special_pairs(tokenizer),
                BertVocab::pad_value(),
                Ghost(bert_special_values(*tokenizer)),
            ),
            Self::Deberta(tokenizer) => id_among(
                &deberta_special_pairs(tokenizer),
                DeBERTaVocab::pad_value(),
                Ghost(deberta_special_values(*tokenizer)),
            ),
            Self::DebertaV2(tokenizer) => id_among(
                &deberta_v2_special_pairs(tokenizer),
                DeBERTaV2Vocab::pad_value(),
                Ghost(deberta_v2_special_values(*tokenizer)),
            ),
            Self::Roberta(tokenizer) => id_among(
                &roberta_special_pairs(tokenizer),
                RobertaVocab::pad_value(),
                Ghost(roberta_special_values(*tokenizer)),
            ),
            Self::XLMRoberta(tokenizer) => id_among(
                &xlm_roberta_special_pairs(tokenizer),
                XLMRobertaVocab::pad_value(),
                Ghost(xlm_roberta_special_values(*tokenizer)),
            ),
            Self::Albert(tokenizer) => id_among(
                &albert_special_pairs(tokenizer),
                AlbertVocab::pad_value(),
                Ghost(albert_special_values(*tokenizer)),
            ),
            Self::XLNet(tokenizer) => id_among(
                &xlnet_special_pairs(tokenizer),
                XLNetVocab::pad_value(),
                Ghost(xlnet_special_values(*tokenizer)),
            ),
            Self::Reformer(_) => None,
            Self::FNet(tokenizer) => id_among(
                &fnet_special_pairs(tokenizer),
                FNetVocab::pad_value(),
                Ghost(fnet_special_values(*tokenizer)),
            ),
        }
    }
}

} // verus!
