use pathignore::code::{aggregate_stats, is_hidden, Count};

#[test]
fn hidden_names_start_with_a_dot() {
    assert!(is_hidden(".git"));
    assert!(is_hidden(".gitignore"));
    assert!(!is_hidden("src"));
    assert!(!is_hidden(""));
}

#[test]
fn merge_adds_field_by_field() {
    let mut a = Count { code: 1, comment: 2, blank: 3, lines: 6 };
    let b = Count { code: 10, comment: 20, blank: 30, lines: 60 };
    a.merge(&b);
    assert_eq!(a, Count { code: 11, comment: 22, blank: 33, lines: 66 });
}

#[test]
fn merge_saturates_instead_of_overflowing() {
    let mut a = Count { code: u32::MAX - 1, comment: 0, blank: 0, lines: u32::MAX };
    let b = Count { code: 5, comment: 1, blank: 0, lines: 1 };
    a.merge(&b);
    assert_eq!(a.code, u32::MAX);
    assert_eq!(a.comment, 1);
    assert_eq!(a.blank, 0);
    assert_eq!(a.lines, u32::MAX);
}

#[test]
fn aggregate_groups_by_language_in_first_seen_order() {
    let c = |code: u32| Count { code, comment: 0, blank: 0, lines: code };
    let pairs = vec![
        ("Rust".to_string(), c(10)),
        ("JSON".to_string(), c(3)),
        ("Rust".to_string(), c(5)),
    ];
    let agg = aggregate_stats(&pairs).unwrap();
    assert_eq!(agg.len(), 2);
    assert_eq!(agg[0].0, "Rust");
    assert_eq!(agg[0].1, c(15));
    assert_eq!(agg[1].0, "JSON");
    assert_eq!(agg[1].1, c(3));
}

#[test]
fn aggregate_of_nothing_is_none() {
    assert!(aggregate_stats(&Vec::new()).is_none());
    assert!(Count::zero() == Count { code: 0, comment: 0, blank: 0, lines: 0 });
}
