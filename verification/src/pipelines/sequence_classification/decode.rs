//! The two ways of decoding class probabilities into labels: one label per
//! text, the most probable class; or, per text, every class whose
//! probability reaches a threshold.

use crate::pipelines::sequence_classification::label::{Label, LabelView, Score};
use std::collections::HashMap;
use vstd::prelude::*;

verus! {

/// The probabilities of one text, as the numbers that order them.
pub open spec fn row_view(row: Seq<Score>) -> Seq<nat> {
    Seq::new(row.len(), |j: int| row[j]@)
}

/// The probabilities of a batch, one row per text, as the numbers that order
/// them.
pub open spec fn output_view(output: Seq<Vec<Score>>) -> Seq<Seq<nat>> {
    Seq::new(output.len(), |i: int| row_view(output[i]@))
}

/// The mathematical values of a sequence of labels.
pub open spec fn label_views(labels: Seq<Label>) -> Seq<LabelView> {
    Seq::new(labels.len(), |k: int| labels[k]@)
}

/// The mathematical values of a sequence of groups of labels.
pub open spec fn group_views(groups: Seq<Vec<Label>>) -> Seq<Seq<LabelView>> {
    Seq::new(groups.len(), |i: int| label_views(groups[i]@))
}

/// Whether `j` is the position of the greatest entry of `row`, and the lowest
/// such position where several entries are greatest.
pub open spec fn is_argmax(row: Seq<nat>, j: int) -> bool {
    &&& 0 <= j < row.len()
    &&& forall|k: int| 0 <= k < row.len() ==> #[trigger] row[k] <= row[j]
    &&& forall|k: int| 0 <= k < j ==> #[trigger] row[k] < row[j]
}

/// The position of the greatest entry of a row that is not empty, the lowest
/// where several entries are greatest.
pub open spec fn argmax(row: Seq<nat>) -> int {
    choose|j: int| is_argmax(row, j)
}

/// Whether the label mapping has a text for the class `id`.
pub open spec fn has_label(mapping: Map<i64, String>, id: int) -> bool {
    i64::MIN <= id <= i64::MAX && mapping.contains_key(id as i64)
}

/// The label of class `id` for the text at position `sentence`, whose
/// probabilities are `row`.
pub open spec fn label_of(mapping: Map<i64, String>, row: Seq<nat>, id: int, sentence: int)
    -> LabelView {
    LabelView { text: mapping[id as i64]@, score: row[id], id, sentence: sentence as nat }
}

/// The single labels of a batch: for each text the label of its most
/// probable class.
pub open spec fn single_labels(mapping: Map<i64, String>, output: Seq<Seq<nat>>) -> Seq<
    LabelView,
> {
    Seq::new(output.len(), |i: int| label_of(mapping, output[i], argmax(output[i]), i))
}

/// Whether every text of the batch has a most probable class, and the mapping
/// a text for it.
pub open spec fn single_decodable(mapping: Map<i64, String>, output: Seq<Seq<nat>>) -> bool {
    forall|i: int|
        0 <= i < output.len() ==> (#[trigger] output[i]).len() > 0 && has_label(
            mapping,
            argmax(output[i]),
        )
}

/// The classes among the first `n` of `row` whose probability reaches
/// `threshold`, in ascending order.
pub open spec fn selected(row: Seq<nat>, threshold: nat, n: nat) -> Seq<int>
    decreases n,
{
    if n == 0 {
        Seq::empty()
    } else {
        let before = selected(row, threshold, (n - 1) as nat);
        if row[n - 1] >= threshold {
            before.push(n - 1)
        } else {
            before
        }
    }
}

/// The labels of one text under a threshold: one for each class whose
/// probability reaches the threshold, by ascending class.
pub open spec fn label_group(
    mapping: Map<i64, String>,
    row: Seq<nat>,
    threshold: nat,
    sentence: int,
) -> Seq<LabelView> {
    let ids = selected(row, threshold, row.len());
    Seq::new(ids.len(), |k: int| label_of(mapping, row, ids[k], sentence))
}

/// The groups of labels of a batch under a threshold: one group for each
/// text, in the order of the texts.
pub open spec fn multi_labels(mapping: Map<i64, String>, output: Seq<Seq<nat>>, threshold: nat)
    -> Seq<Seq<LabelView>> {
    Seq::new(output.len(), |i: int| label_group(mapping, output[i], threshold, i))
}

/// Whether the mapping has a text for every class, of every text of the
/// batch, whose probability reaches the threshold.
pub open spec fn multi_decodable(
    mapping: Map<i64, String>,
    output: Seq<Seq<nat>>,
    threshold: nat,
) -> bool {
    forall|i: int, j: int|
        0 <= i < output.len() && 0 <= j < output[i].len() && #[trigger] output[i][j] >= threshold
            ==> has_label(mapping, j)
}

/// A row that is not empty has a most probable class, which is the one
/// that [`argmax`] names.
pub proof fn lemma_argmax_unique(row: Seq<nat>, j: int)
    requires
        is_argmax(row, j),
    ensures
        argmax(row) == j,
{
    let a = argmax(row);
    assert(is_argmax(row, a));
    if a < j {
        assert(row[a] < row[j]);
        assert(row[j] <= row[a]);
    } else if j < a {
        assert(row[j] < row[a]);
        assert(row[a] <= row[j]);
    }
}

/// Every class that [`selected`] lists is one of the first `n`, and its
/// probability reaches the threshold; every such class is listed; and the
/// list ascends.
pub proof fn lemma_selected(row: Seq<nat>, threshold: nat, n: nat)
    requires
        n <= row.len(),
    ensures
        selected(row, threshold, n).len() <= n,
        forall|k: int|
            0 <= k < selected(row, threshold, n).len() ==> {
                let id = #[trigger] selected(row, threshold, n)[k];
                0 <= id < n && row[id] >= threshold
            },
        forall|j: int|
            0 <= j < n && row[j] >= threshold ==> selected(row, threshold, n).contains(j),
        forall|k: int, l: int|
            0 <= k < l < selected(row, threshold, n).len() ==> selected(row, threshold, n)[k]
                < selected(row, threshold, n)[l],
    decreases n,
{
    if n > 0 {
        let before = selected(row, threshold, (n - 1) as nat);
        let now = selected(row, threshold, n);
        lemma_selected(row, threshold, (n - 1) as nat);
        assert forall|j: int| 0 <= j < n && row[j] >= threshold implies now.contains(j) by {
            if j < n - 1 {
                assert(before.contains(j));
                let k = choose|k: int| 0 <= k < before.len() && before[k] == j;
                assert(now[k] == j);
            } else {
                assert(now[now.len() - 1] == j);
            }
        }
    }
}

/// The position of the greatest probability of a row, the lowest where
/// several are greatest.
pub fn argmax_of(row: &Vec<Score>) -> (best: usize)
    requires
        row.len() > 0,
    ensures
        is_argmax(row_view(row@), best as int),
        best as int == argmax(row_view(row@)),
{
    let ghost numbers = row_view(row@);
    let mut best: usize = 0;
    let mut k: usize = 1;
    while k < row.len()
        invariant
            numbers == row_view(row@),
            0 <= best < k <= row.len(),
            forall|i: int| 0 <= i < k ==> #[trigger] numbers[i] <= numbers[best as int],
            forall|i: int| 0 <= i < best ==> #[trigger] numbers[i] < numbers[best as int],
        decreases row.len() - k,
    {
        if row[k].gt(&row[best]) {
            best = k;
        }
        k += 1;
    }
    proof {
        lemma_argmax_unique(numbers, best as int);
    }
    best
}

/// The text of the class at position `j`, where the mapping has one.
fn label_text(mapping: &HashMap<i64, String>, j: usize) -> (text: Option<String>)
    ensures
        text is Some <==> has_label(mapping@, j as int),
        text matches Some(t) ==> t@ == mapping@[j as i64]@,
{
    broadcast use vstd::std_specs::hash::group_hash_axioms;

    if j as u64 > 0x7FFF_FFFF_FFFF_FFFFu64 {
        return None;
    }
    let id: i64 = j as i64;
    match mapping.get(&id) {
        Some(text) => Some(text.clone()),
        None => None,
    }
}

/// Decodes each text's probabilities into the label of its most probable
/// class: `None` where a text has no class at all or the mapping has no text
/// for its most probable class, else the labels, one for each text and in the
/// order of the texts.
pub fn decode_single(mapping: &HashMap<i64, String>, output: &Vec<Vec<Score>>) -> (r: Option<
    Vec<Label>,
>)
    ensures
        r is Some <==> single_decodable(mapping@, output_view(output@)),
        r matches Some(labels) ==> label_views(labels@) == single_labels(
            mapping@,
            output_view(output@),
        ),
{
    let ghost rows = output_view(output@);
    let mut labels: Vec<Label> = Vec::new();
    let mut i: usize = 0;
    while i < output.len()
        invariant
            rows == output_view(output@),
            0 <= i <= output.len(),
            labels.len() == i,
            forall|k: int|
                0 <= k < i ==> (#[trigger] rows[k]).len() > 0 && has_label(
                    mapping@,
                    argmax(rows[k]),
                ),
            forall|k: int|
                0 <= k < i ==> (#[trigger] labels[k])@ == label_of(
                    mapping@,
                    rows[k],
                    argmax(rows[k]),
                    k,
                ),
        decreases output.len() - i,
    {
        let row = &output[i];
        if row.len() == 0 {
            assert(rows[i as int].len() == 0);
            return None;
        }
        let best = argmax_of(row);
        let text = match label_text(mapping, best) {
            Some(text) => text,
            None => {
                return None;
            },
        };
        labels.push(Label { text, score: row[best], id: best as i64, sentence: i });
        i += 1;
    }
    Some(labels)
}

/// Decodes one text's probabilities into its labels under a threshold:
/// `None` where the mapping has no text for a class that reaches the
/// threshold.
fn decode_group(
    mapping: &HashMap<i64, String>,
    row: &Vec<Score>,
    threshold: Score,
    sentence: usize,
) -> (r: Option<Vec<Label>>)
    ensures
        r is Some <==> forall|j: int|
            0 <= j < row.len() && #[trigger] row_view(row@)[j] >= threshold@ ==> has_label(
                mapping@,
                j,
            ),
        r matches Some(labels) ==> label_views(labels@) == label_group(
            mapping@,
            row_view(row@),
            threshold@,
            sentence as int,
        ),
{
    let ghost numbers = row_view(row@);
    let mut labels: Vec<Label> = Vec::new();
    let mut j: usize = 0;
    while j < row.len()
        invariant
            numbers == row_view(row@),
            0 <= j <= row.len(),
            forall|k: int|
                0 <= k < j && #[trigger] numbers[k] >= threshold@ ==> has_label(mapping@, k),
            labels.len() == selected(numbers, threshold@, j as nat).len(),
            forall|k: int|
                0 <= k < labels.len() ==> (#[trigger] labels[k])@ == label_of(
                    mapping@,
                    numbers,
                    selected(numbers, threshold@, j as nat)[k],
                    sentence as int,
                ),
        decreases row.len() - j,
    {
        if row[j].ge(&threshold) {
            let text = match label_text(mapping, j) {
                Some(text) => text,
                None => {
                    assert(numbers[j as int] >= threshold@);
                    return None;
                },
            };
            labels.push(Label { text, score: row[j], id: j as i64, sentence });
        }
        j += 1;
    }
    Some(labels)
}

/// Decodes each text's probabilities into the labels of the classes that
/// reach the threshold: `None` where the mapping has no text for such a
/// class, else one group for each text, in the order of the texts, each by
/// ascending class, and empty where no class reaches the threshold.
pub fn decode_multi(
    mapping: &HashMap<i64, String>,
    output: &Vec<Vec<Score>>,
    threshold: Score,
) -> (r: Option<Vec<Vec<Label>>>)
    ensures
        r is Some <==> multi_decodable(mapping@, output_view(output@), threshold@),
        r matches Some(groups) ==> group_views(groups@) == multi_labels(
            mapping@,
            output_view(output@),
            threshold@,
        ),
{
    let ghost rows = output_view(output@);
    let mut groups: Vec<Vec<Label>> = Vec::new();
    let mut i: usize = 0;
    while i < output.len()
        invariant
            rows == output_view(output@),
            0 <= i <= output.len(),
            groups.len() == i,
            forall|k: int, j: int|
                0 <= k < i && 0 <= j < rows[k].len() && #[trigger] rows[k][j] >= threshold@
                    ==> has_label(mapping@, j),
            forall|k: int|
                0 <= k < i ==> label_views((#[trigger] groups[k])@) == label_group(
                    mapping@,
                    rows[k],
                    threshold@,
                    k,
                ),
        decreases output.len() - i,
    {
        let row = &output[i];
        let group = match decode_group(mapping, row, threshold, i) {
            Some(group) => group,
            None => {
                proof {
                    let j = choose|j: int|
                        0 <= j < row.len() && #[trigger] row_view(row@)[j] >= threshold@
                            && !has_label(mapping@, j);
                    assert(rows[i as int][j] >= threshold@);
                }
                return None;
            },
        };
        groups.push(group);
        i += 1;
    }
    Some(groups)
}

} // verus!
