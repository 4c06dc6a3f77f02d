use vote_perceptron::dataset::{build_dataset, fits, Dataset, RESULTS, VOTE_DIM};

fn literal() -> Dataset {
    Dataset {
        train_votes: vec![15, 10, 10, 15, 5, 12, 30, 20, 16, 12, 13, 25, 6, 14, 31, 21],
        train_results: vec![1, 0, 0, 1, 1, 0, 0, 1],
        test_votes: vec![13, 9, 8, 14, 3, 10],
        test_results: vec![1, 0, 0],
    }
}

#[test]
fn constants_have_their_values() {
    assert_eq!(VOTE_DIM, 2);
    assert_eq!(RESULTS, 1);
}

#[test]
fn build_dataset_holds_the_literal_rows() {
    let d = build_dataset();
    let l = literal();
    assert_eq!(d.train_votes, l.train_votes);
    assert_eq!(d.train_results, l.train_results);
    assert_eq!(d.test_votes, l.test_votes);
    assert_eq!(d.test_results, l.test_results);
}

#[test]
fn build_dataset_is_valid() {
    assert!(build_dataset().is_valid());
}

#[test]
fn rows_times_width_is_buffer_length() {
    let d = build_dataset();
    assert_eq!(d.train_rows(), 8);
    assert_eq!(d.train_rows() * VOTE_DIM, d.train_votes.len());
    assert_eq!(d.train_results.len(), d.train_rows());
    assert_eq!(d.test_rows(), 3);
    assert_eq!(d.test_rows() * VOTE_DIM, d.test_votes.len());
    assert_eq!(d.test_results.len(), d.test_rows());
}

#[test]
fn rows_round_down_on_a_ragged_buffer() {
    let mut d = literal();
    d.train_votes.push(7);
    assert_eq!(d.train_rows(), 8);
    d.test_votes.pop();
    assert_eq!(d.test_rows(), 2);
}

#[test]
fn clone_keeps_every_field() {
    let d = build_dataset();
    let c = d.clone();
    assert_eq!(c.train_votes, d.train_votes);
    assert_eq!(c.train_results, d.train_results);
    assert_eq!(c.test_votes, d.test_votes);
    assert_eq!(c.test_results, d.test_results);
}

#[test]
fn empty_dataset_is_valid() {
    let d = Dataset {
        train_votes: vec![],
        train_results: vec![],
        test_votes: vec![],
        test_results: vec![],
    };
    assert!(d.is_valid());
    assert_eq!(d.train_rows(), 0);
    assert_eq!(d.test_rows(), 0);
}

#[test]
fn odd_number_of_votes_is_invalid() {
    let mut d = literal();
    d.train_votes.push(3);
    assert!(!d.is_valid());
    let mut d = literal();
    d.test_votes.pop();
    assert!(!d.is_valid());
}

#[test]
fn missing_result_is_invalid() {
    let mut d = literal();
    d.train_results.pop();
    assert!(!d.is_valid());
    let mut d = literal();
    d.test_results.push(0);
    assert!(!d.is_valid());
}

#[test]
fn unknown_class_is_invalid() {
    let mut d = literal();
    d.train_results[3] = 2;
    assert!(!d.is_valid());
    let mut d = literal();
    d.test_results[2] = 7;
    assert!(!d.is_valid());
}

#[test]
fn fits_looks_at_lengths_and_classes() {
    assert!(fits(&vec![], &vec![]));
    assert!(fits(&vec![1, 2], &vec![0]));
    assert!(fits(&vec![1, 2, 3, 4], &vec![1, 0]));
    assert!(!fits(&vec![1, 2, 3], &vec![1]));
    assert!(!fits(&vec![1, 2, 3, 4], &vec![1]));
    assert!(!fits(&vec![1, 2], &vec![1, 0]));
    assert!(!fits(&vec![1, 2], &vec![2]));
    assert!(!fits(&vec![], &vec![0]));
}
