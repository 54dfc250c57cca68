use rollup::model::{Args, Commit, PullRequest, User};
use rollup::select::select;
use std::collections::HashSet;

fn pull(number: u64) -> PullRequest {
    PullRequest {
        number,
        title: format!("pull {}", number),
        head: Commit {
            user: User { login: String::from("author") },
            repo: None,
            sha: String::from("0123456789012345678901234567890123456789"),
            ref_: String::from("branch"),
        },
        body: None,
    }
}

fn numbers(pulls: &[PullRequest]) -> Vec<u64> {
    pulls.iter().map(|p| p.number).collect()
}

fn set(numbers: &[u64]) -> HashSet<u64> {
    numbers.iter().copied().collect()
}

#[test]
fn select_keeps_approved_in_order() {
    let chosen = select(&set(&[5, 2, 9]), vec![pull(1), pull(2), pull(5), pull(7), pull(9)], 0);
    assert_eq!(numbers(&chosen), vec![2, 5, 9]);
}

#[test]
fn select_drops_what_is_below_the_threshold() {
    let chosen = select(&set(&[2, 5, 9]), vec![pull(1), pull(2), pull(5), pull(7), pull(9)], 5);
    assert_eq!(numbers(&chosen), vec![5, 9]);
}

#[test]
fn select_threshold_is_inclusive() {
    let chosen = select(&set(&[4, 5, 6]), vec![pull(4), pull(5), pull(6)], 5);
    assert_eq!(numbers(&chosen), vec![5, 6]);
    let chosen = select(&set(&[4, 5, 6]), vec![pull(4), pull(5), pull(6)], 7);
    assert!(chosen.is_empty());
}

#[test]
fn select_keeps_the_order_of_the_list_not_of_the_numbers() {
    let chosen = select(&set(&[1, 2, 3]), vec![pull(3), pull(1), pull(2)], 0);
    assert_eq!(numbers(&chosen), vec![3, 1, 2]);
}

#[test]
fn select_neither_adds_nor_removes_duplicates() {
    let chosen = select(&set(&[3]), vec![pull(3), pull(4), pull(3)], 0);
    assert_eq!(numbers(&chosen), vec![3, 3]);
}

#[test]
fn select_of_nothing_is_nothing() {
    assert!(select(&set(&[1]), Vec::new(), 0).is_empty());
    assert!(select(&set(&[]), vec![pull(1), pull(2)], 0).is_empty());
}

#[test]
fn select_keeps_the_whole_record() {
    let mut first = pull(8);
    first.title = String::from("a title");
    first.body = Some(String::from("words"));
    let chosen = select(&set(&[8]), vec![first], 0);
    assert_eq!(chosen.len(), 1);
    assert_eq!(chosen[0].title, "a title");
    assert_eq!(chosen[0].body.as_deref(), Some("words"));
    assert_eq!(chosen[0].head.ref_, "branch");
}

#[test]
fn threshold_defaults_to_zero() {
    let args = Args { arg_repository: String::from("rust-lang/rust"), flag_min: None };
    assert_eq!(args.threshold(), 0);
    let args = Args { arg_repository: String::from("rust-lang/rust"), flag_min: Some(17) };
    assert_eq!(args.threshold(), 17);
}
