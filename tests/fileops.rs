use fast_finder::text::decimal_string;
use fast_finder::trash_name;

#[test]
fn trash_name_keeps_extension() {
    assert_eq!(trash_name("report", 1, Some("pdf")), "report 1.pdf");
    assert_eq!(trash_name("archive.tar", 12, Some("gz")), "archive.tar 12.gz");
}

#[test]
fn trash_name_without_extension() {
    assert_eq!(trash_name("Makefile", 3, None), "Makefile 3");
}

#[test]
fn decimal_numerals() {
    assert_eq!(decimal_string(0), "0");
    assert_eq!(decimal_string(7), "7");
    assert_eq!(decimal_string(10), "10");
    assert_eq!(decimal_string(1_234_567_890), "1234567890");
    assert_eq!(decimal_string(u64::MAX), u64::MAX.to_string());
}

use fast_finder::{FileOp, FileOpResult};
use fast_finder::fileops::join_texts;

#[test]
fn move_without_errors() {
    let r = FileOpResult::tally(FileOp::Move, 3, &Vec::new());
    assert!(r.success);
    assert_eq!(r.message, "Moved 3 files");
    assert_eq!(r.affected_count, 3);
}

#[test]
fn move_with_errors_lists_them() {
    let errors = vec!["/a: denied".to_string(), "/b: missing".to_string()];
    let r = FileOpResult::tally(FileOp::Move, 1, &errors);
    assert!(!r.success);
    assert_eq!(r.message, "Moved 1 files, 2 errors: /a: denied; /b: missing");
    assert_eq!(r.affected_count, 1);
}

#[test]
fn copy_messages() {
    assert_eq!(FileOpResult::tally(FileOp::Copy, 12, &Vec::new()).message, "Copied 12 files");
    let r = FileOpResult::tally(FileOp::Copy, 0, &vec!["x".to_string()]);
    assert!(!r.success);
    assert_eq!(r.message, "Copied 0 files, 1 errors");
}

#[test]
fn trash_messages() {
    assert_eq!(FileOpResult::tally(FileOp::Trash, 2, &Vec::new()).message, "Moved 2 items to Trash");
    let r = FileOpResult::tally(FileOp::Trash, 4, &vec!["x".to_string(), "y".to_string(), "z".to_string()]);
    assert_eq!(r.message, "Trashed 4 items, 3 errors");
    assert_eq!(r.affected_count, 4);
}

#[test]
fn joining_error_texts() {
    assert_eq!(join_texts(&Vec::new(), "; "), "");
    assert_eq!(join_texts(&vec!["a".to_string()], "; "), "a");
    assert_eq!(join_texts(&vec!["a".to_string(), "b".to_string(), "c".to_string()], "; "), "a; b; c");
}
