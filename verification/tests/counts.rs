use speculare_server::counts::{count_distinct, first_count};

fn names(v: &[&str]) -> Vec<String> {
    v.iter().map(|s| s.to_string()).collect()
}

#[test]
fn distinct_names_are_counted_once() {
    assert_eq!(count_distinct(&names(&["sda", "sdb", "sda", "nvme0", "sdb"])), 3);
    assert_eq!(count_distinct(&names(&[])), 0);
    assert_eq!(count_distinct(&names(&["eth0"])), 1);
}

#[test]
fn count_matches_sort_and_dedup() {
    let v = names(&["b", "a", "c", "a", "b", "b", "d"]);
    let mut sorted = v.clone();
    sorted.sort();
    sorted.dedup();
    assert_eq!(count_distinct(&v), sorted.len());
}

#[test]
fn first_count_or_zero() {
    assert_eq!(first_count(&vec![]), 0);
    assert_eq!(first_count(&vec![7, 9]), 7);
}
