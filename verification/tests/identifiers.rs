use todo_auth::utils::sequence_id::{decimal_string, SequenceId};

#[test]
fn decimal_string_of_single_digits() {
    assert_eq!(decimal_string(0), "0");
    assert_eq!(decimal_string(7), "7");
    assert_eq!(decimal_string(9), "9");
}

#[test]
fn decimal_string_of_longer_numbers() {
    assert_eq!(decimal_string(10), "10");
    assert_eq!(decimal_string(101), "101");
    assert_eq!(decimal_string(12345), "12345");
    assert_eq!(decimal_string(u64::MAX), "18446744073709551615");
}

#[test]
fn decimal_string_agrees_with_std() {
    let mut n: u64 = 1;
    while n < 1_000_000_000_000 {
        assert_eq!(decimal_string(n), n.to_string());
        assert_eq!(decimal_string(n - 1), (n - 1).to_string());
        n *= 7;
    }
}

#[test]
fn fresh_identifiers_count_up_from_zero() {
    let mut ids = SequenceId::new();
    assert_eq!(ids.fresh(), Some("0".to_owned()));
    assert_eq!(ids.fresh(), Some("1".to_owned()));
    assert_eq!(ids.fresh(), Some("2".to_owned()));
}

#[test]
fn fresh_identifiers_never_repeat() {
    let mut ids = SequenceId::new();
    let mut seen: Vec<String> = Vec::new();
    for _ in 0..250 {
        let id = ids.fresh().expect("the counter is far from used up");
        assert!(!seen.contains(&id));
        seen.push(id);
    }
}

#[test]
fn counter_that_is_used_up_gives_nothing() {
    let mut ids = SequenceId::starting_at(u64::MAX - 2);
    assert_eq!(ids.fresh(), Some("18446744073709551613".to_owned()));
    assert_eq!(ids.fresh(), Some("18446744073709551614".to_owned()));
    assert_eq!(ids.fresh(), None);
    assert_eq!(ids.fresh(), None);
}
