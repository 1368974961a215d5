//! Tests of the collection operations, text helpers, number rendering,
//! staging decisions and error descriptions.
use warn_scraper::error::ScraperError;
use warn_scraper::notice::{NoticeCollection, NoticeCollector, NoticeRecord};
use warn_scraper::numfmt::int_to_string;
use warn_scraper::staging::{get_path_to_file_downloaded, is_xlsx, DirectoryEntry};
use warn_scraper::textutil::{construct_full_url, contains_str, ends_with_str, find_first, general_parse, trim_str};

fn record_named(name: &str) -> NoticeRecord {
    let mut r = NoticeRecord::new();
    r.firm_name = Some(name.to_string());
    r
}

fn names_of(c: &NoticeCollection) -> Vec<String> {
    c.notices.iter().map(|r| r.firm_name.clone().unwrap_or_default()).collect()
}

#[test]
fn merge_concatenates_in_order() {
    let a = NoticeCollector::to_notices_from_vec(vec![record_named("a1"), record_named("a2")]);
    let b = NoticeCollector::to_notices_from_vec(vec![record_named("b1")]);
    let merged = NoticeCollector::reduce_notices(&a, &b);
    assert_eq!(names_of(&merged), vec!["a1", "a2", "b1"]);
    // neither input is consumed
    assert_eq!(a.len(), 2);
    assert_eq!(b.len(), 1);
}

#[test]
fn merge_is_commutative_as_multiset() {
    let a = NoticeCollector::to_notices_from_vec(vec![record_named("a1"), record_named("a2")]);
    let b = NoticeCollector::to_notices_from_vec(vec![record_named("b1")]);
    let ab = names_of(&NoticeCollector::reduce_notices(&a, &b));
    let ba = names_of(&NoticeCollector::reduce_notices(&b, &a));
    let mut ab_sorted = ab.clone();
    ab_sorted.sort();
    let mut ba_sorted = ba.clone();
    ba_sorted.sort();
    assert_eq!(ab_sorted, ba_sorted);
    assert_ne!(ab, ba);
}

#[test]
fn merge_is_associative() {
    let a = NoticeCollector::to_notices_from_vec(vec![record_named("a1")]);
    let b = NoticeCollector::to_notices_from_vec(vec![record_named("b1")]);
    let c = NoticeCollector::to_notices_from_vec(vec![record_named("c1")]);
    let left = NoticeCollector::reduce_notices(&NoticeCollector::reduce_notices(&a, &b), &c);
    let right = NoticeCollector::reduce_notices(&a, &NoticeCollector::reduce_notices(&b, &c));
    assert_eq!(names_of(&left), names_of(&right));
}

#[test]
fn to_notices_wraps_one_record() {
    let one = NoticeCollector::to_notices(record_named("only"));
    assert_eq!(names_of(&one), vec!["only"]);
}

#[test]
fn search_ignores_case_both_ways() {
    let all = NoticeCollector::to_notices_from_vec(vec![
        record_named("ACME Corp"),
        record_named("Widget Works"),
        record_named("acme subsidiary"),
    ]);
    let hits = NoticeCollector::search_notices_for_company(&all, "aCmE");
    assert_eq!(names_of(&hits), vec!["ACME Corp", "acme subsidiary"]);
}

#[test]
fn search_without_firm_name_matches_only_empty_key() {
    let mut nameless = NoticeRecord::new();
    nameless.firm_locations = Some("Boston".to_string());
    let all = NoticeCollector::to_notices_from_vec(vec![nameless]);
    assert_eq!(NoticeCollector::search_notices_for_company(&all, "acme").len(), 0);
    assert_eq!(NoticeCollector::search_notices_for_company(&all, "").len(), 1);
}

#[test]
fn url_join_drops_doubled_slash() {
    assert_eq!(
        construct_full_url("https://example.com/", "/a/b"),
        "https://example.com/a/b"
    );
}

#[test]
fn url_join_inserts_missing_slash() {
    assert_eq!(construct_full_url("https://example.com", "a/b"), "https://example.com/a/b");
}

#[test]
fn find_first_reports_first_occurrence() {
    assert_eq!(find_first("abcabc", "bc"), Some(1));
    assert_eq!(find_first("abcabc", "zz"), None);
    assert_eq!(find_first("abc", ""), Some(0));
}

#[test]
fn contains_and_ends_with() {
    assert!(contains_str("Company: Acme", "Company:"));
    assert!(!contains_str("Firm: Acme", "Company:"));
    assert!(ends_with_str("report.xlsx", ".xlsx"));
    assert!(!ends_with_str("report.zip", ".xlsx"));
}

#[test]
fn trim_removes_surrounding_whitespace() {
    assert_eq!(trim_str("  a b\t\n"), "a b");
    assert_eq!(trim_str("ab"), "ab");
    assert_eq!(trim_str(" \t "), "");
}

#[test]
fn general_parse_takes_text_after_first_marker() {
    assert_eq!(
        general_parse("  Company: Acme Corp  ", "Company:"),
        Some("Acme Corp".to_string())
    );
    assert_eq!(general_parse("no marker here", "Company:"), None);
}

#[test]
fn int_to_string_exact_values() {
    assert_eq!(int_to_string(0), "0");
    assert_eq!(int_to_string(407), "407");
    assert_eq!(int_to_string(-25), "-25");
    assert_eq!(int_to_string(i64::MAX), "9223372036854775807");
    assert_eq!(int_to_string(i64::MIN), "-9223372036854775808");
}

#[test]
fn is_xlsx_checks_the_extension() {
    assert!(is_xlsx("report.xlsx", "xlsx"));
    assert!(!is_xlsx("report.zip", "xlsx"));
    assert!(!is_xlsx(".xlsx", "xlsx"));
    assert!(!is_xlsx("xlsx", "xlsx"));
}

#[test]
fn latest_spreadsheet_wins_and_ties_go_to_the_last() {
    let entries = vec![
        DirectoryEntry { file_name: "old.xlsx".to_string(), modified: 10 },
        DirectoryEntry { file_name: "noise.zip".to_string(), modified: 99 },
        DirectoryEntry { file_name: "new.xlsx".to_string(), modified: 20 },
        DirectoryEntry { file_name: "tied.xlsx".to_string(), modified: 20 },
    ];
    assert_eq!(get_path_to_file_downloaded(&entries, "xlsx"), Some(3));
}

#[test]
fn no_matching_spreadsheet_yields_nothing() {
    let entries = vec![DirectoryEntry { file_name: "noise.zip".to_string(), modified: 99 }];
    assert_eq!(get_path_to_file_downloaded(&entries, "xlsx"), None);
    assert_eq!(get_path_to_file_downloaded(&Vec::new(), "xlsx"), None);
}

#[test]
fn error_descriptions_name_the_failure() {
    let e = ScraperError::Parsing("bad".to_string());
    assert_eq!(e.describe(), "parsing the markup document failed: bad");
    let io = ScraperError::Io("socket".to_string());
    assert_eq!(io.describe(), "input/output failure: socket");
    let d = ScraperError::Downloading("curl".to_string());
    assert_eq!(d.describe(), "downloading the report failed: curl");
}
