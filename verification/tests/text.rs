use sqlx_datadog::text::{extend, join};

#[test]
fn join_puts_the_separator_between_neighbours() {
    let parts = vec!["a".to_string(), "b".to_string(), "c".to_string()];
    assert_eq!(join(&parts, ", "), "a, b, c");
}

#[test]
fn join_of_one_part_is_the_part() {
    assert_eq!(join(&vec!["a".to_string()], ", "), "a");
}

#[test]
fn join_of_nothing_is_empty() {
    assert_eq!(join(&vec![], ", "), "");
}

#[test]
fn join_keeps_empty_parts() {
    let parts = vec!["".to_string(), "b".to_string(), "".to_string()];
    assert_eq!(join(&parts, "-"), "-b-");
}

#[test]
fn extend_puts_copies_behind() {
    let mut texts = vec!["a".to_string()];
    let more = vec!["b".to_string(), "c".to_string()];
    extend(&mut texts, &more);
    assert_eq!(texts, vec!["a".to_string(), "b".to_string(), "c".to_string()]);
    extend(&mut texts, &vec![]);
    assert_eq!(texts.len(), 3);
    assert_eq!(more.len(), 2);
}
