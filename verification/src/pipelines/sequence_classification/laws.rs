//! What holds of the batches and of the labels, whatever the texts and the
//! probabilities.

use crate::pipelines::sequence_classification::batch::{
    lemma_row_max, padded, padded_rows, row_max,
};
use crate::pipelines::sequence_classification::decode::{
    argmax, is_argmax, label_group, label_of, lemma_selected, multi_labels, selected,
    single_labels,
};
use crate::pipelines::sequence_classification::label::{LabelView, ONE_BITS};
use crate::pipelines::sequence_classification::classifier::{
    ForwardInput, SequenceClassificationOption,
};
use vstd::prelude::*;

verus! {

/// Whether a group of labels holds the label `label`.
pub open spec fn holds(group: Seq<LabelView>, label: LabelView) -> bool {
    exists|k: int| 0 <= k < group.len() && #[trigger] group[k] == label
}

/// Every row of a padded batch has the length of the longest row given; it
/// begins with the row it was made from, and holds the padding id in every
/// column behind.
pub proof fn law_batch_is_rectangular(rows: Seq<Seq<i64>>, pad: i64)
    ensures
        padded_rows(rows, pad).len() == rows.len(),
        forall|i: int|
            0 <= i < rows.len() ==> (#[trigger] padded_rows(rows, pad)[i]).len() == row_max(rows),
        forall|i: int, j: int|
            0 <= i < rows.len() && 0 <= j < rows[i].len() ==> #[trigger] padded_rows(
                rows,
                pad,
            )[i][j] == rows[i][j],
        forall|i: int, j: int|
            0 <= i < rows.len() && rows[i].len() <= j < row_max(rows) ==> #[trigger] padded_rows(
                rows,
                pad,
            )[i][j] == pad,
{
    lemma_row_max(rows);
    assert forall|i: int, j: int| 0 <= i < rows.len() && 0 <= j < rows[i].len() implies #[trigger] padded_rows(
        rows,
        pad,
    )[i][j] == rows[i][j] by {
        assert(rows[i].len() <= row_max(rows));
        assert(padded_rows(rows, pad)[i] == padded(rows[i], row_max(rows), pad));
    }
}

/// A row that is not empty has a most probable class.
pub proof fn law_argmax_exists(row: Seq<nat>)
    requires
        row.len() > 0,
    ensures
        is_argmax(row, argmax(row)),
    decreases row.len(),
{
    if row.len() == 1 {
        assert(is_argmax(row, 0));
    } else {
        let front = row.drop_last();
        law_argmax_exists(front);
        let before = argmax(front);
        let last = row.len() - 1;
        assert(forall|k: int| 0 <= k < front.len() ==> front[k] == row[k]);
        if row[last] > row[before] {
            assert forall|k: int| 0 <= k < row.len() implies #[trigger] row[k] <= row[last] by {
                if k < last {
                    assert(front[k] <= front[before]);
                }
            }
            assert forall|k: int| 0 <= k < last implies #[trigger] row[k] < row[last] by {
                assert(front[k] <= front[before]);
            }
            assert(is_argmax(row, last));
        } else {
            assert forall|k: int| 0 <= k < row.len() implies #[trigger] row[k] <= row[before] by {
                if k < last {
                    assert(front[k] <= front[before]);
                }
            }
            assert forall|k: int| 0 <= k < before implies #[trigger] row[k] < row[before] by {
                assert(front[k] < front[before]);
            }
            assert(is_argmax(row, before));
        }
    }
}

/// Single-label decoding gives one label for each text, and the labels name
/// the positions of their texts, in order.
pub proof fn law_one_label_per_text(mapping: Map<i64, String>, output: Seq<Seq<nat>>)
    ensures
        single_labels(mapping, output).len() == output.len(),
        forall|i: int|
            0 <= i < output.len() ==> (#[trigger] single_labels(mapping, output)[i]).sentence == i,
{
}

/// The score of a single label is the greatest probability of its text: it
/// is the probability of the label's class, no class of the text has a
/// greater one, no earlier class an equal one, and it is at most one.
pub proof fn law_score_is_greatest(mapping: Map<i64, String>, output: Seq<Seq<nat>>, i: int)
    requires
        0 <= i < output.len(),
        output[i].len() > 0,
        forall|j: int| 0 <= j < output[i].len() ==> #[trigger] output[i][j] <= ONE_BITS,
    ensures
        ({
            let label = single_labels(mapping, output)[i];
            &&& 0 <= label.id < output[i].len()
            &&& label.score == output[i][label.id]
            &&& label.score <= ONE_BITS
            &&& forall|j: int| 0 <= j < output[i].len() ==> #[trigger] output[i][j] <= label.score
            &&& forall|j: int| 0 <= j < label.id ==> #[trigger] output[i][j] < label.score
        }),
{
    law_argmax_exists(output[i]);
}

/// Multi-label decoding gives one group for each text, in the order of the
/// texts; the labels of a group name the position of its text, their classes
/// ascend, and the score of each is the probability of its class and
/// reaches the threshold.
pub proof fn law_one_group_per_text(
    mapping: Map<i64, String>,
    output: Seq<Seq<nat>>,
    threshold: nat,
)
    ensures
        multi_labels(mapping, output, threshold).len() == output.len(),
        forall|i: int, k: int|
            0 <= i < output.len() && 0 <= k < multi_labels(mapping, output, threshold)[i].len()
                ==> {
                let label = #[trigger] multi_labels(mapping, output, threshold)[i][k];
                &&& label.sentence == i
                &&& 0 <= label.id < output[i].len()
                &&& label.score == output[i][label.id]
                &&& label.score >= threshold
            },
        forall|i: int, k: int, l: int|
            0 <= i < output.len() && 0 <= k < l < multi_labels(mapping, output, threshold)[i].len()
                ==> (#[trigger] multi_labels(mapping, output, threshold)[i][k]).id
                < (#[trigger] multi_labels(mapping, output, threshold)[i][l]).id,
{
    assert forall|i: int| 0 <= i < output.len() implies {
        let group = #[trigger] multi_labels(mapping, output, threshold)[i];
        &&& forall|k: int|
            0 <= k < group.len() ==> {
                let label = #[trigger] group[k];
                &&& label.sentence == i
                &&& 0 <= label.id < output[i].len()
                &&& label.score == output[i][label.id]
                &&& label.score >= threshold
            }
        &&& forall|k: int, l: int|
            0 <= k < l < group.len() ==> (#[trigger] group[k]).id < (#[trigger] group[l]).id
    } by {
        lemma_selected(output[i], threshold, output[i].len());
        let ids = selected(output[i], threshold, output[i].len());
        let group = label_group(mapping, output[i], threshold, i);
        assert forall|k: int| 0 <= k < group.len() implies {
            let label = #[trigger] group[k];
            &&& label.sentence == i
            &&& 0 <= label.id < output[i].len()
            &&& label.score == output[i][label.id]
            &&& label.score >= threshold
        } by {
            let id = ids[k];
            assert(0 <= id < output[i].len());
        }
    }
}

/// Every class whose probability reaches the threshold has its label in the
/// group of its text.
pub proof fn law_group_is_complete(
    mapping: Map<i64, String>,
    row: Seq<nat>,
    threshold: nat,
    sentence: int,
    j: int,
)
    requires
        0 <= j < row.len(),
        row[j] >= threshold,
    ensures
        holds(
            label_group(mapping, row, threshold, sentence),
            label_of(mapping, row, j, sentence),
        ),
{
    lemma_selected(row, threshold, row.len());
    let ids = selected(row, threshold, row.len());
    assert(ids.contains(j));
    let k = choose|k: int| 0 <= k < ids.len() && ids[k] == j;
    assert(label_group(mapping, row, threshold, sentence)[k] == label_of(
        mapping,
        row,
        j,
        sentence,
    ));
}

/// Among the first `n` classes, a higher threshold selects no more than a
/// lower one, and none that the lower one does not select.
proof fn lemma_selected_monotonic(row: Seq<nat>, lower: nat, higher: nat, n: nat)
    requires
        lower <= higher,
        n <= row.len(),
    ensures
        selected(row, higher, n).len() <= selected(row, lower, n).len(),
        forall|k: int|
            0 <= k < selected(row, higher, n).len() ==> selected(row, lower, n).contains(
                #[trigger] selected(row, higher, n)[k],
            ),
    decreases n,
{
    if n > 0 {
        lemma_selected_monotonic(row, lower, higher, (n - 1) as nat);
        let high_before = selected(row, higher, (n - 1) as nat);
        let low_before = selected(row, lower, (n - 1) as nat);
        let high = selected(row, higher, n);
        let low = selected(row, lower, n);
        assert forall|k: int| 0 <= k < high.len() implies low.contains(#[trigger] high[k]) by {
            if k < high_before.len() {
                assert(high[k] == high_before[k]);
                assert(low_before.contains(high_before[k]));
                let l = choose|l: int| 0 <= l < low_before.len() && low_before[l] == high_before[k];
                assert(low[l] == high[k]);
            } else {
                assert(high[k] == n - 1);
                assert(low[low.len() - 1] == n - 1);
            }
        }
    }
}

/// Raising the threshold never gives a text more labels: under the higher
/// threshold each group is at most as long as under the lower, and holds no
/// label that the group under the lower threshold does not hold.
pub proof fn law_threshold_is_monotonic(
    mapping: Map<i64, String>,
    output: Seq<Seq<nat>>,
    lower: nat,
    higher: nat,
)
    requires
        lower <= higher,
    ensures
        forall|i: int|
            0 <= i < output.len() ==> (#[trigger] multi_labels(mapping, output, higher)[i]).len()
                <= multi_labels(mapping, output, lower)[i].len(),
        forall|i: int, k: int|
            0 <= i < output.len() && 0 <= k < multi_labels(mapping, output, higher)[i].len()
                ==> holds(
                multi_labels(mapping, output, lower)[i],
                #[trigger] multi_labels(mapping, output, higher)[i][k],
            ),
{
    assert forall|i: int| 0 <= i < output.len() implies (#[trigger] multi_labels(
        mapping,
        output,
        higher,
    )[i]).len() <= multi_labels(mapping, output, lower)[i].len() by {
        lemma_selected_monotonic(output[i], lower, higher, output[i].len());
    }
    assert forall|i: int, k: int|
        0 <= i < output.len() && 0 <= k < multi_labels(mapping, output, higher)[i].len() implies holds(
        multi_labels(mapping, output, lower)[i],
        #[trigger] multi_labels(mapping, output, higher)[i][k],
    ) by {
        lemma_selected_monotonic(output[i], lower, higher, output[i].len());
        let high = selected(output[i], higher, output[i].len());
        let low = selected(output[i], lower, output[i].len());
        assert(low.contains(high[k]));
        let l = choose|l: int| 0 <= l < low.len() && low[l] == high[k];
        assert(multi_labels(mapping, output, lower)[i][l] == multi_labels(
            mapping,
            output,
            higher,
        )[i][k]);
    }
}

/// Under the threshold zero the first `n` classes are all selected.
proof fn lemma_selected_all(row: Seq<nat>, n: nat)
    ensures
        selected(row, 0, n) == Seq::new(n, |j: int| j),
    decreases n,
{
    if n > 0 {
        lemma_selected_all(row, (n - 1) as nat);
    }
    assert(selected(row, 0, n) =~= Seq::new(n, |j: int| j));
}

/// Under the threshold zero every text has the full set of labels: one for
/// each class, the label at position `j` being that of class `j`.
pub proof fn law_threshold_zero_keeps_all(mapping: Map<i64, String>, output: Seq<Seq<nat>>)
    ensures
        forall|i: int|
            0 <= i < output.len() ==> (#[trigger] multi_labels(mapping, output, 0)[i]).len()
                == output[i].len(),
        forall|i: int, j: int|
            0 <= i < output.len() && 0 <= j < output[i].len() ==> (#[trigger] multi_labels(
                mapping,
                output,
                0,
            )[i][j]).id == j,
{
    assert forall|i: int| 0 <= i < output.len() implies {
        let group = #[trigger] multi_labels(mapping, output, 0)[i];
        &&& group.len() == output[i].len()
        &&& forall|j: int| 0 <= j < output[i].len() ==> (#[trigger] group[j]).id == j
    } by {
        lemma_selected_all(output[i], output[i].len());
    }
}

/// Under the threshold one, a text's group holds only classes whose
/// probability is exactly one: it is empty unless a class has that
/// probability.
pub proof fn law_threshold_one_keeps_certain(
    mapping: Map<i64, String>,
    output: Seq<Seq<nat>>,
    i: int,
)
    requires
        0 <= i < output.len(),
        forall|j: int| 0 <= j < output[i].len() ==> #[trigger] output[i][j] <= ONE_BITS,
    ensures
        forall|k: int|
            0 <= k < multi_labels(mapping, output, ONE_BITS as nat)[i].len() ==> (#[trigger] multi_labels(
                mapping,
                output,
                ONE_BITS as nat,
            )[i][k]).score == ONE_BITS,
        (forall|j: int| 0 <= j < output[i].len() ==> #[trigger] output[i][j] != ONE_BITS)
            ==> multi_labels(mapping, output, ONE_BITS as nat)[i].len() == 0,
{
    let row = output[i];
    let ids = selected(row, ONE_BITS as nat, row.len());
    let group = multi_labels(mapping, output, ONE_BITS as nat)[i];
    lemma_selected(row, ONE_BITS as nat, row.len());
    assert forall|k: int| 0 <= k < group.len() implies (#[trigger] group[k]).score == ONE_BITS by {
        let id = ids[k];
        assert(0 <= id < row.len() && row[id] >= ONE_BITS);
        assert(row[id] <= ONE_BITS);
    }
    if forall|j: int| 0 <= j < row.len() ==> #[trigger] row[j] != ONE_BITS {
        if group.len() > 0 {
            let id = ids[0];
            assert(0 <= id < row.len() && row[id] >= ONE_BITS);
            assert(row[id] <= ONE_BITS);
            assert(false);
        }
    }
}

/// The parameters of an architecture's forward pass hold the inputs that a
/// forward call is routed to, and no others: the token ids always, and each
/// other input exactly where the architecture takes it.
pub proof fn law_parameters_hold_what_is_routed(classifier: SequenceClassificationOption)
    ensures
        classifier.spec_parameters().contains(ForwardInput::InputIds),
        classifier.spec_parameters().contains(ForwardInput::Mask) <==> classifier.takes_mask(),
        classifier.spec_parameters().contains(ForwardInput::TokenTypeIds)
            <==> classifier.takes_token_type_ids(),
        classifier.spec_parameters().contains(ForwardInput::PositionIds)
            <==> classifier.takes_position_ids(),
        classifier.spec_parameters().contains(ForwardInput::InputEmbeds)
            <==> classifier.takes_input_embeds(),
        forall|i: int, j: int|
            0 <= i < j < classifier.spec_parameters().len()
                && classifier.spec_parameters()[i] == classifier.spec_parameters()[j]
                ==> classifier.spec_parameters()[i] == ForwardInput::Absent,
{
    let parameters = classifier.spec_parameters();
    assert(parameters[0] == ForwardInput::InputIds);
    match classifier {
        SequenceClassificationOption::Bart => {
            assert(parameters[1] == ForwardInput::Mask);
        },
        SequenceClassificationOption::DistilBert => {
            assert(parameters[1] == ForwardInput::Mask);
            assert(parameters[2] == ForwardInput::InputEmbeds);
        },
        SequenceClassificationOption::MobileBert => {
            assert(parameters[3] == ForwardInput::InputEmbeds);
            assert(parameters[4] == ForwardInput::Mask);
        },
        SequenceClassificationOption::XLNet => {
            assert(parameters[1] == ForwardInput::Mask);
            assert(parameters[5] == ForwardInput::TokenTypeIds);
            assert(parameters[6] == ForwardInput::InputEmbeds);
        },
        SequenceClassificationOption::Reformer => {
            assert(parameters[3] == ForwardInput::Mask);
        },
        SequenceClassificationOption::Longformer => {
            assert(parameters[1] == ForwardInput::Mask);
            assert(parameters[3] == ForwardInput::TokenTypeIds);
            assert(parameters[4] == ForwardInput::PositionIds);
            assert(parameters[5] == ForwardInput::InputEmbeds);
        },
        SequenceClassificationOption::FNet => {
            assert(parameters[1] == ForwardInput::TokenTypeIds);
            assert(parameters[2] == ForwardInput::PositionIds);
            assert(parameters[3] == ForwardInput::InputEmbeds);
        },
        _ => {
            assert(parameters[1] == ForwardInput::Mask);
            assert(parameters[2] == ForwardInput::TokenTypeIds);
            assert(parameters[3] == ForwardInput::PositionIds);
            assert(parameters[4] == ForwardInput::InputEmbeds);
        },
    }
}

} // verus!
