use fast_finder::{name_matches, search_hit, EntryStat, SearchSession, WalkEntry, WalkSignal, RESULT_LIMIT, SEARCH_CAP};

fn file(name: &str, modified: i64, created: i64) -> WalkEntry {
    WalkEntry {
        name: name.to_string(),
        path: format!("/home/u/{}", name),
        type_is_dir: false,
        stat: Some(EntryStat { is_dir: false, size: 42, modified, created }),
    }
}

#[test]
fn empty_query_starts_no_search() {
    assert!(SearchSession::start(String::new()).is_none());
}

#[test]
fn whitespace_query_starts_no_search() {
    assert!(SearchSession::start("   ".to_string()).is_none());
    assert!(SearchSession::start(" \t\n ".to_string()).is_none());
    assert!(SearchSession::start("\u{3000}".to_string()).is_none());
}

#[test]
fn query_with_text_starts_a_search() {
    assert!(SearchSession::start(" a ".to_string()).is_some());
}

#[test]
fn rpt_matches_report_and_airport() {
    let mut s = SearchSession::start("rpt".to_string()).unwrap();
    assert_eq!(s.offer(&file("report.pdf", 10, 0)), WalkSignal::Continue);
    assert_eq!(s.offer(&file("airport.txt", 10, 0)), WalkSignal::Continue);
    assert_eq!(s.offer(&file("zzz.md", 10, 0)), WalkSignal::Continue);
    let r = s.finish();
    assert_eq!(r.len(), 2);
    assert!(r.len() <= 50);
    let mut names: Vec<String> = r.iter().map(|x| x.file_name.clone()).collect();
    names.sort();
    assert_eq!(names, vec!["airport.txt".to_string(), "report.pdf".to_string()]);
    assert!(r[0].score >= r[1].score);
}

#[test]
fn hit_describes_the_entry() {
    let e = file("report.pdf", 100, 250);
    let h = search_hit(&e, "rpt").unwrap();
    assert_eq!(h.file_name, "report.pdf");
    assert_eq!(h.file_path, "/home/u/report.pdf");
    assert_eq!(h.file_size, 42);
    assert!(!h.is_folder);
    assert!(h.score > 0);
    assert_eq!(h.date_value, 250);
    assert_eq!(h.date_kind, "Created");
    assert_eq!(h.file_kind, "PDF Document");
}

#[test]
fn hit_without_metadata_has_unknown_date() {
    let e = WalkEntry {
        name: "Reports".to_string(),
        path: "/home/u/Reports".to_string(),
        type_is_dir: true,
        stat: None,
    };
    let h = search_hit(&e, "rpt").unwrap();
    assert!(h.is_folder);
    assert_eq!(h.file_size, 0);
    assert_eq!(h.date_value, 0);
    assert_eq!(h.date_kind, "Unknown");
    assert_eq!(h.file_kind, "Folder");
}

#[test]
fn folder_hit_has_size_zero() {
    let e = WalkEntry {
        name: "Reports".to_string(),
        path: "/home/u/Reports".to_string(),
        type_is_dir: true,
        stat: Some(EntryStat { is_dir: true, size: 4096, modified: 8, created: 2 }),
    };
    let h = search_hit(&e, "rpt").unwrap();
    assert!(h.is_folder);
    assert_eq!(h.file_size, 0);
    assert_eq!(h.date_value, 8);
    assert_eq!(h.date_kind, "Modified");
}

#[test]
fn non_subsequence_does_not_match() {
    assert!(search_hit(&file("notes.txt", 0, 0), "rpt").is_none());
}

#[test]
fn smart_case_lowercase_query_ignores_case() {
    assert!(search_hit(&file("REPORT.PDF", 0, 0), "rpt").is_some());
}

#[test]
fn smart_case_uppercase_query_respects_case() {
    assert!(search_hit(&file("report.pdf", 0, 0), "RPT").is_none());
    assert!(search_hit(&file("REPORT.PDF", 0, 0), "RPT").is_some());
}

#[test]
fn results_are_sorted_and_capped() {
    let mut s = SearchSession::start("a".to_string()).unwrap();
    let names = ["a", "xa", "xxxxxxa", "ab", "xxa", "a_b"];
    for i in 0..120 {
        let n = format!("{}{}", names[i % names.len()], i);
        assert_eq!(s.offer(&file(&n, 0, 0)), WalkSignal::Continue);
    }
    let r = s.finish();
    assert_eq!(r.len(), RESULT_LIMIT);
    for w in r.windows(2) {
        assert!(w[0].score >= w[1].score);
    }
}

#[test]
fn collection_stops_at_the_cap() {
    let mut s = SearchSession::start("doc".to_string()).unwrap();
    for i in 0..SEARCH_CAP {
        assert_eq!(s.offer(&file(&format!("doc{}.txt", i), 0, 0)), WalkSignal::Continue);
    }
    assert_eq!(s.offer(&file("doc_more.txt", 0, 0)), WalkSignal::Quit);
    assert_eq!(s.offer(&file("unrelated.txt", 0, 0)), WalkSignal::Continue);
    let r = s.finish();
    assert_eq!(r.len(), 50);
    assert!(r.iter().all(|x| x.file_name != "doc_more.txt"));
}

#[test]
fn few_matches_are_all_returned() {
    let mut s = SearchSession::start("note".to_string()).unwrap();
    s.offer(&file("notes.txt", 0, 0));
    let r = s.finish();
    assert_eq!(r.len(), 1);
    assert_eq!(r[0].file_name, "notes.txt");
}

#[test]
fn name_match_follows_the_matcher() {
    assert!(name_matches("report.pdf", "rpt"));
    assert!(name_matches("airport.txt", "rpt"));
    assert!(!name_matches("notes.txt", "rpt"));
    assert!(!name_matches("report.pdf", "RPT"));
}
