use rust_bert::pipelines::sequence_classification::decode::{argmax_of, decode_multi, decode_single};
use rust_bert::{Label, Score, ONE_BITS};
use std::collections::HashMap;

fn score(probability: f64) -> Score {
    Score::from_bits(probability.to_bits()).unwrap()
}

fn probability(score: Score) -> f64 {
    f64::from_bits(score.to_bits())
}

fn rows(probabilities: &[&[f64]]) -> Vec<Vec<Score>> {
    probabilities.iter().map(|row| row.iter().map(|p| score(*p)).collect()).collect()
}

fn mapping(texts: &[&str]) -> HashMap<i64, String> {
    let mut mapping = HashMap::new();
    for (id, text) in texts.iter().enumerate() {
        mapping.insert(id as i64, text.to_string());
    }
    mapping
}

fn ids(group: &[Label]) -> Vec<i64> {
    group.iter().map(|label| label.id).collect()
}

#[test]
fn bit_patterns_order_as_probabilities_do() {
    let samples = [0.0, 1e-300, 1e-9, 0.1, 0.25, 0.5, 0.5000000000000001, 0.75, 0.999, 1.0];
    for a in samples {
        for b in samples {
            assert_eq!(score(a).ge(&score(b)), a >= b);
            assert_eq!(score(a).gt(&score(b)), a > b);
            assert_eq!(score(a).to_bits() == score(b).to_bits(), a == b);
        }
    }
}

#[test]
fn score_keeps_its_probability() {
    for p in [0.0, 0.3, 0.9986, 1.0] {
        assert_eq!(probability(score(p)), p);
    }
    assert_eq!(Score::zero().to_bits(), 0.0f64.to_bits());
    assert_eq!(Score::one().to_bits(), 1.0f64.to_bits());
    assert_eq!(ONE_BITS, 1.0f64.to_bits());
    assert_eq!(probability(Score::zero()), 0.0);
    assert_eq!(probability(Score::one()), 1.0);
}

#[test]
fn values_that_are_no_probabilities_are_no_scores() {
    assert!(Score::from_bits(1.0000000000000002f64.to_bits()).is_none());
    assert!(Score::from_bits(2.5f64.to_bits()).is_none());
    assert!(Score::from_bits((-0.5f64).to_bits()).is_none());
    assert!(Score::from_bits((-0.0f64).to_bits()).is_none());
    assert!(Score::from_bits(f64::NAN.to_bits()).is_none());
    assert!(Score::from_bits(f64::INFINITY.to_bits()).is_none());
    assert!(Score::from_bits(f64::NEG_INFINITY.to_bits()).is_none());
    assert!(Score::from_bits(ONE_BITS + 1).is_none());
    assert!(Score::from_bits(u64::MAX).is_none());
    assert!(Score::from_bits(ONE_BITS).is_some());
    assert!(Score::from_bits(0).is_some());
}

#[test]
fn argmax_is_the_first_of_the_greatest() {
    assert_eq!(argmax_of(&rows(&[&[0.2, 0.7, 0.1]])[0]), 1);
    assert_eq!(argmax_of(&rows(&[&[0.9]])[0]), 0);
    assert_eq!(argmax_of(&rows(&[&[0.1, 0.2, 0.7]])[0]), 2);
    assert_eq!(argmax_of(&rows(&[&[0.4, 0.4, 0.2]])[0]), 0);
    assert_eq!(argmax_of(&rows(&[&[0.2, 0.4, 0.4]])[0]), 1);
    assert_eq!(argmax_of(&rows(&[&[0.0, 0.0]])[0]), 0);
}

#[test]
fn single_decoding_gives_one_label_per_text_in_order() {
    let mapping = mapping(&["a", "b", "c"]);
    let output = rows(&[&[0.2, 0.7, 0.1], &[0.6, 0.3, 0.1], &[0.1, 0.1, 0.8], &[0.5, 0.5, 0.0]]);
    let labels = decode_single(&mapping, &output).unwrap();
    assert_eq!(labels.len(), 4);
    let expected = [(1, "b", 0.7), (0, "a", 0.6), (2, "c", 0.8), (0, "a", 0.5)];
    for (sentence, (id, text, p)) in expected.iter().enumerate() {
        assert_eq!(labels[sentence].sentence, sentence);
        assert_eq!(labels[sentence].id, *id);
        assert_eq!(labels[sentence].text, *text);
        assert_eq!(probability(labels[sentence].score), *p);
    }
}

#[test]
fn single_score_is_the_greatest_of_its_row_and_at_most_one() {
    let mapping = mapping(&["a", "b", "c", "d"]);
    let table: [&[f64]; 3] = [&[0.1, 0.2, 0.3, 0.4], &[1.0, 0.0, 0.0, 0.0], &[0.25, 0.25, 0.25, 0.25]];
    let labels = decode_single(&mapping, &rows(&table)).unwrap();
    for (i, row) in table.iter().enumerate() {
        let greatest = row.iter().cloned().fold(0.0, f64::max);
        assert_eq!(probability(labels[i].score), greatest);
        assert!(probability(labels[i].score) >= 0.0);
        assert!(probability(labels[i].score) <= 1.0);
        assert_eq!(row[labels[i].id as usize], greatest);
    }
}

#[test]
fn single_decoding_of_no_text_gives_no_label() {
    let labels = decode_single(&mapping(&["a"]), &Vec::new()).unwrap();
    assert!(labels.is_empty());
}

#[test]
fn single_decoding_wants_a_text_for_the_class() {
    let output = rows(&[&[0.9, 0.1], &[0.2, 0.8]]);
    assert!(decode_single(&mapping(&["only"]), &output).is_none());
    assert!(decode_single(&mapping(&["only"]), &rows(&[&[0.9, 0.1]])).is_some());
}

#[test]
fn single_decoding_wants_a_class_for_each_text() {
    let output: Vec<Vec<Score>> = vec![vec![score(0.5), score(0.5)], Vec::new()];
    assert!(decode_single(&mapping(&["a", "b"]), &output).is_none());
}

#[test]
fn multi_decoding_keeps_the_classes_that_reach_the_threshold() {
    let mapping = mapping(&["a", "b", "c"]);
    let output = rows(&[&[0.9, 0.2, 0.6], &[0.1, 0.5, 0.49]]);
    let groups = decode_multi(&mapping, &output, score(0.5)).unwrap();
    assert_eq!(groups.len(), 2);
    assert_eq!(ids(&groups[0]), vec![0, 2]);
    assert_eq!(ids(&groups[1]), vec![1]);
    assert_eq!(groups[0][0].text, "a");
    assert_eq!(groups[0][1].text, "c");
    assert_eq!(groups[1][0].text, "b");
    assert_eq!(probability(groups[0][0].score), 0.9);
    assert_eq!(probability(groups[0][1].score), 0.6);
    assert_eq!(probability(groups[1][0].score), 0.5);
    for (sentence, group) in groups.iter().enumerate() {
        for label in group {
            assert_eq!(label.sentence, sentence);
            assert!(probability(label.score) >= 0.5);
        }
    }
}

#[test]
fn every_text_has_a_group_even_an_empty_one() {
    let mapping = mapping(&["a", "b"]);
    let output = rows(&[&[0.1, 0.2], &[0.3, 0.1], &[0.9, 0.8], &[0.0, 0.0], &[0.4, 0.7]]);
    let groups = decode_multi(&mapping, &output, score(0.5)).unwrap();
    assert_eq!(groups.len(), 5);
    assert!(groups[0].is_empty());
    assert!(groups[1].is_empty());
    assert_eq!(ids(&groups[2]), vec![0, 1]);
    assert!(groups[3].is_empty());
    assert_eq!(ids(&groups[4]), vec![1]);
    assert_eq!(groups[4][0].sentence, 4);
    let none = decode_multi(&mapping, &rows(&[&[0.1, 0.2], &[0.3, 0.1]]), score(0.5)).unwrap();
    assert_eq!(none.len(), 2);
    assert!(none[0].is_empty() && none[1].is_empty());
}

#[test]
fn raising_the_threshold_never_adds_a_label() {
    let mapping = mapping(&["a", "b", "c", "d"]);
    let output = rows(&[&[0.05, 0.35, 0.65, 0.95], &[0.5, 0.5, 0.1, 1.0], &[0.0, 0.2, 0.2, 0.7]]);
    let thresholds = [0.0, 0.1, 0.2, 0.35, 0.5, 0.65, 0.7, 0.95, 1.0];
    for (n, lower) in thresholds.iter().enumerate() {
        for higher in &thresholds[n..] {
            let low = decode_multi(&mapping, &output, score(*lower)).unwrap();
            let high = decode_multi(&mapping, &output, score(*higher)).unwrap();
            for i in 0..output.len() {
                assert!(high[i].len() <= low[i].len());
                for id in ids(&high[i]) {
                    assert!(ids(&low[i]).contains(&id));
                }
            }
        }
    }
}

#[test]
fn threshold_zero_keeps_every_class() {
    let mapping = mapping(&["a", "b", "c"]);
    let output = rows(&[&[0.0, 0.3, 1.0], &[0.2, 0.0, 0.0]]);
    let groups = decode_multi(&mapping, &output, score(0.0)).unwrap();
    assert_eq!(ids(&groups[0]), vec![0, 1, 2]);
    assert_eq!(ids(&groups[1]), vec![0, 1, 2]);
    let same = decode_multi(&mapping, &output, Score::zero()).unwrap();
    assert_eq!(ids(&same[0]), vec![0, 1, 2]);
}

#[test]
fn threshold_one_keeps_only_what_is_certain() {
    let mapping = mapping(&["a", "b", "c"]);
    let output = rows(&[&[0.999999, 0.3, 0.9999999999999999], &[0.2, 1.0, 0.0]]);
    let groups = decode_multi(&mapping, &output, score(1.0)).unwrap();
    assert!(groups[0].is_empty());
    assert_eq!(ids(&groups[1]), vec![1]);
    assert_eq!(probability(groups[1][0].score), 1.0);
    let same = decode_multi(&mapping, &output, Score::one()).unwrap();
    assert!(same[0].is_empty());
    assert_eq!(ids(&same[1]), vec![1]);
}

#[test]
fn multi_decoding_wants_a_text_for_each_class_kept() {
    let output = rows(&[&[0.9, 0.1], &[0.2, 0.8]]);
    assert!(decode_multi(&mapping(&["only"]), &output, score(0.5)).is_none());
    assert!(decode_multi(&mapping(&["only"]), &output, score(0.85)).is_some());
    let kept = decode_multi(&mapping(&["only"]), &output, score(0.85)).unwrap();
    assert_eq!(ids(&kept[0]), vec![0]);
    assert!(kept[1].is_empty());
}

#[test]
fn multi_decoding_of_no_text_gives_no_group() {
    let groups = decode_multi(&mapping(&["a"]), &Vec::new(), score(0.5)).unwrap();
    assert!(groups.is_empty());
}

#[test]
fn a_text_without_classes_has_an_empty_group() {
    let output: Vec<Vec<Score>> = vec![Vec::new(), vec![score(0.6)]];
    let groups = decode_multi(&mapping(&["a"]), &output, score(0.5)).unwrap();
    assert_eq!(groups.len(), 2);
    assert!(groups[0].is_empty());
    assert_eq!(ids(&groups[1]), vec![0]);
}
