//! Tests of the markup model, the paragraph parser, the page navigator,
//! the spreadsheet parser and the assembled pipeline.
use warn_scraper::dates::from_days_since_1900;
use warn_scraper::error::ScraperError;
use warn_scraper::markup::{element_text_to_string, MarkupElement, MarkupNode, ScraperSiblingElement};
use warn_scraper::notice::NoticeCollector;
use warn_scraper::paragraph::NoticeParagraphParser;
use warn_scraper::scraper::ScraperAdapter;
use warn_scraper::spreadsheet::{
    check_for_value, convert_date, parse_worksheet, CellValue, YearToDateParser,
};

fn el(tag: &str, href: Option<&str>, children: Vec<MarkupNode>) -> MarkupElement {
    MarkupElement { tag: tag.to_string(), href: href.map(|h| h.to_string()), children }
}

fn elem(tag: &str, href: Option<&str>, children: Vec<MarkupNode>) -> MarkupNode {
    MarkupNode::Element(el(tag, href, children))
}

fn text(t: &str) -> MarkupNode {
    MarkupNode::Text(t.to_string())
}

fn line(t: &str) -> MarkupNode {
    elem("span", None, vec![text(t)])
}

const HEADING_MARKER: &str = "submitted WARN notices this past week";
const REPORT_MARKER: &str = "WARN Report for the week ending";

/// A document with one matching heading, a two-layer container, three
/// notice paragraphs (two complete, one with only a company line) and one
/// year-to-date link sibling.
fn synthetic_document() -> MarkupElement {
    let p1 = elem(
        "p",
        None,
        vec![
            line("Company: Acme Corp"),
            line("Company location(s): Boston, MA"),
            line("Affected employees: 100"),
            line("Effective Date: 2024-02-01"),
        ],
    );
    let p2 = elem(
        "p",
        None,
        vec![
            line("Company: Widget Works"),
            line("Company location(s): Lowell, MA"),
            line("Affected employees: 35"),
            line("Effective Date: 2024-03-15"),
        ],
    );
    let p3 = elem("p", None, vec![line("Company: Lone Firm LLC")]);
    let ytd = elem(
        "p",
        None,
        vec![elem(
            "a",
            Some("/doc/warn-report/download"),
            vec![text("WARN Report for the week ending 12/29/23")],
        )],
    );
    let inner = elem("div", None, vec![text("\n"), p1, text("\n"), p2, p3, ytd]);
    let container = elem("div", None, vec![inner]);
    let heading = elem(
        "h2",
        None,
        vec![text("Companies that submitted WARN notices this past week")],
    );
    let section = elem("section", None, vec![heading, text("\n"), container]);
    el("body", None, vec![section])
}

#[test]
fn element_text_flattens_the_subtree() {
    let e = el(
        "p",
        None,
        vec![text("A"), elem("b", None, vec![text("B"), elem("i", None, vec![text("C")])]), text("D")],
    );
    assert_eq!(element_text_to_string(&e), "ABCD");
}

#[test]
fn sibling_cursor_skips_text_nodes() {
    let nodes = vec![text("x"), elem("a", None, vec![]), text("y"), elem("b", None, vec![])];
    let mut cursor = ScraperSiblingElement::new(&nodes, 0);
    assert_eq!(cursor.next().unwrap().tag, "a");
    assert_eq!(cursor.next().unwrap().tag, "b");
    assert!(cursor.next().is_none());
}

#[test]
fn paragraph_parser_fills_every_marked_field() {
    let children = vec![
        line("Company: Acme Corp"),
        line("Company location(s): Boston, MA"),
        line("Affected employees: 100"),
        line("Effective Date: 2024-02-01"),
    ];
    let parser = NoticeParagraphParser::new(ScraperSiblingElement::new(&children, 0));
    let record = parser.parse_notice();
    assert_eq!(record.firm_name, Some("Acme Corp".to_string()));
    assert_eq!(record.firm_locations, Some("Boston, MA".to_string()));
    assert_eq!(record.affected_employees, Some("100".to_string()));
    assert_eq!(record.effective_date, Some("2024-02-01".to_string()));
    assert_eq!(record.date_received, None);
}

#[test]
fn paragraph_parser_leaves_unmarked_fields_absent() {
    let children = vec![line("Company: Lone Firm LLC"), line("Filed under general notices")];
    let parser = NoticeParagraphParser::new(ScraperSiblingElement::new(&children, 0));
    let record = parser.parse_notice();
    assert_eq!(record.firm_name, Some("Lone Firm LLC".to_string()));
    assert_eq!(record.firm_locations, None);
    assert_eq!(record.affected_employees, None);
    assert_eq!(record.effective_date, None);
}

#[test]
fn paragraph_parser_gives_first_marker_priority() {
    let children = vec![line("Company: X Affected employees: 5")];
    let parser = NoticeParagraphParser::new(ScraperSiblingElement::new(&children, 0));
    let record = parser.parse_notice();
    assert_eq!(record.firm_name, Some("X Affected employees: 5".to_string()));
    assert_eq!(record.affected_employees, None);
}

#[test]
fn paragraph_parser_lets_a_later_line_overwrite() {
    let children = vec![line("Company: First"), line("Company: Second")];
    let parser = NoticeParagraphParser::new(ScraperSiblingElement::new(&children, 0));
    let record = parser.parse_notice();
    assert_eq!(record.firm_name, Some("Second".to_string()));
}

#[test]
fn paragraph_with_no_markers_yields_empty_record() {
    let children = vec![line("nothing recognizable"), line("still nothing")];
    let parser = NoticeParagraphParser::new(ScraperSiblingElement::new(&children, 0));
    let record = parser.parse_notice();
    assert_eq!(record.firm_name, None);
    assert_eq!(record.firm_locations, None);
    assert_eq!(record.affected_employees, None);
    assert_eq!(record.effective_date, None);
    assert_eq!(record.date_received, None);
}

#[test]
fn navigator_extracts_the_weeks_notices() {
    let adapter = ScraperAdapter::new(synthetic_document(), "https://www.mass.gov".to_string());
    let week = adapter.get_week_notices(HEADING_MARKER).unwrap();
    assert_eq!(week.len(), 3);
    assert_eq!(week.notices[0].firm_name, Some("Acme Corp".to_string()));
    assert_eq!(week.notices[1].firm_name, Some("Widget Works".to_string()));
    assert_eq!(week.notices[2].firm_name, Some("Lone Firm LLC".to_string()));
    assert_eq!(week.notices[2].firm_locations, None);
}

#[test]
fn navigator_resolves_the_report_link() {
    let adapter = ScraperAdapter::new(synthetic_document(), "https://www.mass.gov".to_string());
    let link = adapter
        .get_report_reference(HEADING_MARKER, REPORT_MARKER, "/tmp/WARN_Reports/")
        .unwrap();
    assert_eq!(link.url, "https://www.mass.gov/doc/warn-report/download");
    assert_eq!(link.year, "23");
    assert_eq!(link.target_path, "/tmp/WARN_Reports/WARN_report_2023.xlsx");
}

#[test]
fn navigator_rejects_a_document_without_the_heading() {
    let document = el("body", None, vec![elem("section", None, vec![elem("h2", None, vec![text("other")])])]);
    let adapter = ScraperAdapter::new(document, "https://www.mass.gov".to_string());
    let r = adapter.get_week_notices(HEADING_MARKER);
    assert!(matches!(r, Err(ScraperError::Parsing(_))));
}

#[test]
fn navigator_rejects_ambiguous_headings() {
    let heading = || elem("h2", None, vec![text(HEADING_MARKER)]);
    let filler = || elem("div", None, vec![]);
    let document = el(
        "body",
        None,
        vec![elem("section", None, vec![heading(), filler(), heading(), filler()])],
    );
    let adapter = ScraperAdapter::new(document, "https://www.mass.gov".to_string());
    assert!(matches!(adapter.get_week_notices(HEADING_MARKER), Err(ScraperError::Parsing(_))));
}

#[test]
fn navigator_rejects_a_heading_without_sibling() {
    let document = el(
        "body",
        None,
        vec![elem("section", None, vec![elem("h2", None, vec![text(HEADING_MARKER)])])],
    );
    let adapter = ScraperAdapter::new(document, "https://www.mass.gov".to_string());
    assert!(matches!(adapter.get_week_notices(HEADING_MARKER), Err(ScraperError::Parsing(_))));
}

#[test]
fn navigator_rejects_a_report_link_without_href() {
    let inner = elem(
        "div",
        None,
        vec![elem("p", None, vec![elem("a", None, vec![text("WARN Report for the week ending 12/29/23")])])],
    );
    let container = elem("div", None, vec![inner]);
    let document = el(
        "body",
        None,
        vec![elem("section", None, vec![elem("h2", None, vec![text(HEADING_MARKER)]), container])],
    );
    let adapter = ScraperAdapter::new(document, "https://www.mass.gov".to_string());
    let r = adapter.get_report_reference(HEADING_MARKER, REPORT_MARKER, "/tmp/");
    assert!(matches!(r, Err(ScraperError::Parsing(_))));
}

#[test]
fn navigator_rejects_malformed_year_text() {
    let inner = elem(
        "div",
        None,
        vec![elem(
            "p",
            None,
            vec![elem("a", Some("/x"), vec![text("WARN Report for the week ending soon")])],
        )],
    );
    let container = elem("div", None, vec![inner]);
    let document = el(
        "body",
        None,
        vec![elem("section", None, vec![elem("h2", None, vec![text(HEADING_MARKER)]), container])],
    );
    let adapter = ScraperAdapter::new(document, "https://www.mass.gov".to_string());
    let r = adapter.get_report_reference(HEADING_MARKER, REPORT_MARKER, "/tmp/");
    assert!(matches!(r, Err(ScraperError::Parsing(_))));
}

#[test]
fn navigator_rejects_an_empty_container() {
    let container = elem("div", None, vec![text("nothing nested")]);
    let document = el(
        "body",
        None,
        vec![elem("section", None, vec![elem("h2", None, vec![text(HEADING_MARKER)]), container])],
    );
    let adapter = ScraperAdapter::new(document, "https://www.mass.gov".to_string());
    assert!(matches!(adapter.get_week_notices(HEADING_MARKER), Err(ScraperError::Parsing(_))));
}

#[test]
fn navigator_rejects_a_page_without_the_report_link() {
    let inner = elem("div", None, vec![elem("p", None, vec![line("Company: Acme")])]);
    let container = elem("div", None, vec![inner]);
    let document = el(
        "body",
        None,
        vec![elem("section", None, vec![elem("h2", None, vec![text(HEADING_MARKER)]), container])],
    );
    let adapter = ScraperAdapter::new(document, "https://www.mass.gov".to_string());
    let r = adapter.get_report_reference(HEADING_MARKER, REPORT_MARKER, "/tmp/");
    assert!(matches!(r, Err(ScraperError::Parsing(_))));
}

#[test]
fn day_count_decoding_follows_the_legacy_scheme() {
    assert_eq!(from_days_since_1900(61), Some("1900-03-01".to_string()));
    assert_eq!(from_days_since_1900(2), Some("1900-01-01".to_string()));
    assert_eq!(from_days_since_1900(0), Some("1899-12-30".to_string()));
    assert_eq!(from_days_since_1900(i64::MAX), None);
    assert_eq!(from_days_since_1900(i64::MIN), None);
}

#[test]
fn cell_values_normalize_to_text() {
    assert_eq!(check_for_value(&CellValue::Int(42)), Some("42".to_string()));
    assert_eq!(check_for_value(&CellValue::Int(-3)), Some("-3".to_string()));
    assert_eq!(
        check_for_value(&CellValue::Number { rendered: "1.5".to_string(), whole: 1 }),
        Some("1.5".to_string())
    );
    assert_eq!(check_for_value(&CellValue::Text("kept".to_string())), Some("kept".to_string()));
    assert_eq!(check_for_value(&CellValue::Bool(true)), None);
    assert_eq!(check_for_value(&CellValue::Empty), None);
    assert_eq!(check_for_value(&CellValue::CellError("#REF!".to_string())), None);
}

#[test]
fn date_cells_decode_or_pass_through() {
    assert_eq!(convert_date(&CellValue::Int(61)).unwrap(), Some("1900-03-01".to_string()));
    assert_eq!(
        convert_date(&CellValue::Number { rendered: "61.25".to_string(), whole: 61 }).unwrap(),
        Some("1900-03-01".to_string())
    );
    assert_eq!(
        convert_date(&CellValue::Text("01/05/2024".to_string())).unwrap(),
        Some("01/05/2024".to_string())
    );
    assert_eq!(convert_date(&CellValue::Empty).unwrap(), None);
    assert_eq!(convert_date(&CellValue::Bool(false)).unwrap(), None);
    let out_of_range = convert_date(&CellValue::Int(i64::MAX));
    assert!(matches!(out_of_range, Err(ScraperError::SpreadsheetParsing(_))));
}

fn header_rows() -> Vec<Vec<CellValue>> {
    vec![Vec::new(), Vec::new(), Vec::new()]
}

#[test]
fn worksheet_rows_decode_and_empty_rows_are_dropped() {
    let mut rows = header_rows();
    rows.push(vec![
        CellValue::Int(45000),
        CellValue::Text("Acme".to_string()),
        CellValue::Text("Boston".to_string()),
        CellValue::Int(45100),
        CellValue::Int(25),
    ]);
    rows.push(vec![CellValue::Empty, CellValue::Empty, CellValue::Empty]);
    rows.push(vec![
        CellValue::Empty,
        CellValue::Empty,
        CellValue::Empty,
        CellValue::Empty,
        CellValue::Text("7".to_string()),
    ]);
    let parsed = parse_worksheet(&rows).unwrap();
    assert_eq!(parsed.len(), 2);
    assert_eq!(parsed.notices[0].firm_name, Some("Acme".to_string()));
    assert_eq!(parsed.notices[0].affected_employees, Some("25".to_string()));
    assert_eq!(parsed.notices[0].date_received, Some(from_days_since_1900(45000).unwrap()));
    assert_eq!(parsed.notices[1].affected_employees, Some("7".to_string()));
    assert_eq!(parsed.notices[1].firm_name, None);
}

#[test]
fn worksheet_shorter_than_the_header_block_fails() {
    let rows = vec![Vec::new(), Vec::new()];
    assert!(matches!(parse_worksheet(&rows), Err(ScraperError::SpreadsheetParsing(_))));
}

#[test]
fn workbook_without_sheets_is_a_merging_failure() {
    let parser = YearToDateParser::new(Vec::new());
    assert!(matches!(parser.parse_for_notices(), Err(ScraperError::MergingNotices(_))));
}

#[test]
fn workbook_merges_sheets_in_order() {
    let mut sheet1 = header_rows();
    sheet1.push(vec![
        CellValue::Text("01/05/2024".to_string()),
        CellValue::Text("Acme".to_string()),
    ]);
    let mut sheet2 = header_rows();
    sheet2.push(vec![
        CellValue::Empty,
        CellValue::Text("Widget".to_string()),
    ]);
    let parser = YearToDateParser::new(vec![sheet1, sheet2]);
    let all = parser.parse_for_notices().unwrap();
    assert_eq!(all.len(), 2);
    assert_eq!(all.notices[0].firm_name, Some("Acme".to_string()));
    assert_eq!(all.notices[1].firm_name, Some("Widget".to_string()));
}

#[test]
fn pipeline_combines_week_and_year_to_date() {
    let adapter = ScraperAdapter::new(synthetic_document(), "https://www.mass.gov".to_string());
    let week = adapter.get_week_notices(HEADING_MARKER).unwrap();
    let mut sheet = header_rows();
    sheet.push(vec![
        CellValue::Int(45000),
        CellValue::Text("Historic Inc".to_string()),
    ]);
    sheet.push(vec![
        CellValue::Int(45001),
        CellValue::Text("Bygone LLC".to_string()),
    ]);
    let year_to_date = YearToDateParser::new(vec![sheet]).parse_for_notices().unwrap();
    let combined = NoticeCollector::reduce_notices(&week, &year_to_date);
    assert_eq!(week.len(), 3);
    assert_eq!(combined.len(), week.len() + year_to_date.len());
    assert_eq!(combined.notices[0].firm_name, Some("Acme Corp".to_string()));
    assert_eq!(combined.notices[3].firm_name, Some("Historic Inc".to_string()));
}
