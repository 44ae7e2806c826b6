use rsvelte_profile::cost::{summarize, timed_first, Summary};

#[test]
fn one_sample_is_all_three() {
    assert_eq!(summarize(&vec![7]), Summary { min: 7, median: 7, max: 7 });
}

#[test]
fn samples_are_put_in_order() {
    assert_eq!(summarize(&vec![5, 1, 9]), Summary { min: 1, median: 5, max: 9 });
    assert_eq!(summarize(&vec![4, 1, 3, 2]), Summary { min: 1, median: 3, max: 4 });
    assert_eq!(summarize(&vec![2, 2, 1, 2, 2]), Summary { min: 1, median: 2, max: 2 });
}

#[test]
fn rounds_alternate() {
    let order: Vec<bool> = (0..4).map(timed_first).collect();
    assert_eq!(order, vec![true, false, true, false]);
}
