use fast_finder::{get_best_date, get_file_kind, DateKind};

#[test]
fn folder_kind_ignores_extension() {
    assert_eq!(get_file_kind("/home/u/Documents/archive.zip", true), "Folder");
}

#[test]
fn known_extensions_have_labels() {
    assert_eq!(get_file_kind("/home/u/report.pdf", false), "PDF Document");
    assert_eq!(get_file_kind("/home/u/letter.docx", false), "Word Document");
    assert_eq!(get_file_kind("/home/u/budget.xlsx", false), "Excel Spreadsheet");
    assert_eq!(get_file_kind("/home/u/main.rs", false), "Rust Source");
    assert_eq!(get_file_kind("/home/u/util.hpp", false), "C++ Source");
    assert_eq!(get_file_kind("/home/u/photo.jpeg", false), "JPEG Image");
    assert_eq!(get_file_kind("/home/u/Tool.app", false), "Application");
}

#[test]
fn uppercase_extension_uses_lowercase_table() {
    assert_eq!(get_file_kind("/home/u/SCAN.PDF", false), "PDF Document");
    assert_eq!(get_file_kind("/home/u/Notes.Md", false), "Markdown");
}

#[test]
fn unknown_extension_is_named_in_uppercase() {
    assert_eq!(get_file_kind("/home/u/data.xyz", false), "XYZ File");
    assert_eq!(get_file_kind("/home/u/backup.tar.gz", false), "GZ File");
}

#[test]
fn no_extension_is_a_document() {
    assert_eq!(get_file_kind("/home/u/Makefile", false), "Document");
    assert_eq!(get_file_kind("/home/u/.bashrc", false), "Document");
}

#[test]
fn later_creation_wins() {
    assert_eq!(get_best_date(1_000, 2_000), (2_000, DateKind::Created));
}

#[test]
fn later_modification_wins() {
    assert_eq!(get_best_date(3_000, 2_000), (3_000, DateKind::Modified));
}

#[test]
fn equal_times_count_as_modified() {
    assert_eq!(get_best_date(5_000, 5_000), (5_000, DateKind::Modified));
    assert_eq!(get_best_date(0, 0), (0, DateKind::Modified));
}

#[test]
fn unavailable_creation_time_falls_back_to_modification() {
    assert_eq!(get_best_date(1_700_000_000, 0), (1_700_000_000, DateKind::Modified));
}

#[test]
fn date_kind_labels() {
    assert_eq!(DateKind::Modified.label(), "Modified");
    assert_eq!(DateKind::Created.label(), "Created");
    assert_eq!(DateKind::Unknown.label(), "Unknown");
}
