use phantom_id::generate::generate_batch;
use phantom_id::text::{join_lines, text_equals};

#[test]
fn equal_texts() {
    assert!(text_equals("", ""));
    assert!(text_equals("samsung", "samsung"));
    assert!(text_equals("\u{e9}t\u{e9}", "\u{e9}t\u{e9}"));
}

#[test]
fn unequal_texts() {
    assert!(!text_equals("samsung", "Samsung"));
    assert!(!text_equals("samsung", "samsun"));
    assert!(!text_equals("", "a"));
    assert!(!text_equals("att", "atT"));
    assert!(!text_equals("e", "\u{e9}"));
}

#[test]
fn no_lines() {
    assert_eq!(join_lines(&vec![]), "");
}

#[test]
fn one_line() {
    assert_eq!(join_lines(&vec![String::from("490154203237518")]), "490154203237518");
}

#[test]
fn several_lines() {
    let lines = vec![String::from("a"), String::from(""), String::from("bc")];
    assert_eq!(join_lines(&lines), "a\n\nbc");
}

#[test]
fn batch_reads_back_line_by_line() {
    let batch = generate_batch(7);
    let written = join_lines(&batch);
    let read: Vec<String> = written.lines().map(String::from).collect();
    assert_eq!(read, batch);
    assert!(!written.ends_with('\n'));
}
