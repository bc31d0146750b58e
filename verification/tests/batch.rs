use rust_bert::{RustBertError, TokenizedBatch};

#[test]
fn rows_of_three_seven_and_two_ids_make_a_grid_of_three_by_seven() {
    let token_ids = vec![vec![11, 12, 13], vec![21, 22, 23, 24, 25, 26, 27], vec![31, 32]];
    let batch = TokenizedBatch::from_token_ids(token_ids, Some(0)).unwrap();
    assert_eq!(batch.num_rows(), 3);
    assert_eq!(batch.width(), 7);
    assert_eq!(
        batch.rows(),
        &vec![
            vec![11, 12, 13, 0, 0, 0, 0],
            vec![21, 22, 23, 24, 25, 26, 27],
            vec![31, 32, 0, 0, 0, 0, 0],
        ]
    );
}

#[test]
fn padding_uses_the_padding_id_given() {
    let batch = TokenizedBatch::from_token_ids(vec![vec![], vec![5, 6]], Some(-7)).unwrap();
    assert_eq!(batch.rows(), &vec![vec![-7, -7], vec![5, 6]]);
    assert_eq!(batch.width(), 2);
}

#[test]
fn rows_of_one_length_are_not_padded() {
    let batch = TokenizedBatch::from_token_ids(vec![vec![1, 2], vec![3, 4]], Some(9)).unwrap();
    assert_eq!(batch.rows(), &vec![vec![1, 2], vec![3, 4]]);
}

#[test]
fn a_single_row_is_kept() {
    let batch = TokenizedBatch::from_token_ids(vec![vec![4, 5, 6]], Some(0)).unwrap();
    assert_eq!(batch.num_rows(), 1);
    assert_eq!(batch.width(), 3);
    assert_eq!(batch.rows(), &vec![vec![4, 5, 6]]);
}

#[test]
fn rows_without_ids_make_a_grid_without_columns() {
    let batch = TokenizedBatch::from_token_ids(vec![vec![], vec![]], Some(0)).unwrap();
    assert_eq!(batch.num_rows(), 2);
    assert_eq!(batch.width(), 0);
    assert_eq!(batch.rows(), &vec![Vec::<i64>::new(), Vec::<i64>::new()]);
}

#[test]
fn no_rows_make_the_empty_batch() {
    let batch = TokenizedBatch::from_token_ids(Vec::new(), Some(0)).unwrap();
    assert_eq!(batch.num_rows(), 0);
    assert_eq!(batch.width(), 0);
    assert!(batch.rows().is_empty());
}

#[test]
fn no_rows_need_no_padding_id() {
    let batch = TokenizedBatch::from_token_ids(Vec::new(), None).unwrap();
    assert_eq!(batch.num_rows(), 0);
    assert_eq!(batch.width(), 0);
}

#[test]
fn rows_without_a_padding_id_are_refused() {
    let refused = TokenizedBatch::from_token_ids(vec![vec![1, 2, 3]], None);
    let error = match refused {
        Ok(_) => panic!("a batch was built without a padding id"),
        Err(error) => error,
    };
    assert!(error.is_tokenizer());
    assert!(!error.is_invalid_configuration());
    assert!(matches!(error, RustBertError::TokenizerError(_)));
    assert_eq!(
        error.message(),
        "The Tokenizer used for sequence classification should contain a PAD id"
    );
}

#[test]
fn rows_of_one_length_without_a_padding_id_are_refused_too() {
    let refused = TokenizedBatch::from_token_ids(vec![vec![1], vec![2]], None);
    assert!(refused.is_err());
}
