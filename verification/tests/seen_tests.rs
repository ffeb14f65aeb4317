use release_linear_ticket_update::seen::{emit_fresh, SeenSet};

fn strings(items: &[&str]) -> Vec<String> {
    items.iter().map(|s| s.to_string()).collect()
}

#[test]
fn a_new_set_is_empty() {
    let seen = SeenSet::new();
    assert_eq!(seen.len(), 0);
    assert!(!seen.contains("1"));
}

#[test]
fn insert_tells_whether_the_identifier_was_new() {
    let mut seen = SeenSet::new();
    assert!(seen.insert("ABC-1"));
    assert!(!seen.insert("ABC-1"));
    assert!(seen.insert("ABC-2"));
    assert!(!seen.insert("ABC-1"));
    assert_eq!(seen.len(), 2);
    assert!(seen.contains("ABC-1"));
    assert!(seen.contains("ABC-2"));
    assert!(!seen.contains("ABC-3"));
    assert!(!seen.contains("abc-1"));
}

#[test]
fn each_identifier_is_emitted_once() {
    let mut seen = SeenSet::new();
    let found = strings(&["7", "7", "7", "7"]);
    assert_eq!(emit_fresh(&found, &mut seen), strings(&["7"]));
    assert_eq!(emit_fresh(&found, &mut seen), Vec::<String>::new());
    assert_eq!(seen.len(), 1);
}

#[test]
fn emission_follows_the_order_of_discovery() {
    let mut seen = SeenSet::new();
    let found = strings(&["9", "3", "9", "5", "3", "1"]);
    assert_eq!(emit_fresh(&found, &mut seen), strings(&["9", "3", "5", "1"]));
}

#[test]
fn what_was_seen_before_is_not_emitted_again() {
    let mut seen = SeenSet::new();
    assert_eq!(emit_fresh(&strings(&["a", "b"]), &mut seen), strings(&["a", "b"]));
    assert_eq!(emit_fresh(&strings(&["b", "c", "a", "d"]), &mut seen), strings(&["c", "d"]));
    assert_eq!(emit_fresh(&strings(&[]), &mut seen), Vec::<String>::new());
    assert_eq!(seen.len(), 4);
}
