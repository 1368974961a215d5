//! Classification of the lines of one notice paragraph into typed fields.
//!
//! Each sub-element of a paragraph carries one line of text.  A line is
//! matched against four fixed markers in a fixed priority order; the first
//! marker that occurs in the line decides which field the line fills, and
//! the field's value is everything after the first occurrence of the
//! marker, trimmed.  Lines matching no marker are ignored, and a later line
//! for the same field overwrites an earlier one.
use vstd::prelude::*;
use vstd::string::*;

use crate::markup::{element_text, MarkupElement, ScraperSiblingElement};
use crate::notice::{NoticeRecord, NoticeRecordView};
use crate::textutil::{contains_seq, general_parse, line_value};

verus! {

/// The marker that identifies a notice paragraph and its firm-name line.
pub open spec fn company_marker() -> Seq<char> {
    "Company:"@
}

/// The marker of the locations line.
pub open spec fn location_marker() -> Seq<char> {
    "Company location(s):"@
}

/// The marker of the affected-employees line.
pub open spec fn affected_marker() -> Seq<char> {
    "Affected employees:"@
}

/// The marker of the effective-date line.
pub open spec fn effective_marker() -> Seq<char> {
    "Effective Date:"@
}

/// The firm-name marker as text, for looking lines and paragraphs up.
pub fn individual_notice_prefix() -> (r: &'static str)
    ensures
        r@ == company_marker(),
{
    "Company:"
}

fn location_prefix() -> (r: &'static str)
    ensures
        r@ == location_marker(),
{
    "Company location(s):"
}

fn affected_prefix() -> (r: &'static str)
    ensures
        r@ == affected_marker(),
{
    "Affected employees:"
}

fn effective_prefix() -> (r: &'static str)
    ensures
        r@ == effective_marker(),
{
    "Effective Date:"
}

/// One line applied to a record: the first marker that occurs in the line,
/// in priority order, decides the field; the line's value replaces that
/// field and every other field is kept.
pub open spec fn apply_line(r: NoticeRecordView, t: Seq<char>) -> NoticeRecordView {
    if contains_seq(t, company_marker()) {
        NoticeRecordView { firm_name: Some(line_value(t, company_marker())), ..r }
    } else if contains_seq(t, location_marker()) {
        NoticeRecordView { firm_locations: Some(line_value(t, location_marker())), ..r }
    } else if contains_seq(t, affected_marker()) {
        NoticeRecordView { affected_employees: Some(line_value(t, affected_marker())), ..r }
    } else if contains_seq(t, effective_marker()) {
        NoticeRecordView { effective_date: Some(line_value(t, effective_marker())), ..r }
    } else {
        r
    }
}

/// The record parsed from a paragraph's line texts: every line applied in
/// order to the record with all fields absent.
pub open spec fn parse_paragraph_text(ts: Seq<Seq<char>>) -> NoticeRecordView
    decreases ts.len(),
{
    if ts.len() == 0 {
        NoticeRecordView::empty()
    } else {
        apply_line(parse_paragraph_text(ts.drop_last()), ts.last())
    }
}

/// Parses the sub-elements of one notice paragraph into a record.
pub struct NoticeParagraphParser<'a> {
    notice_paragraph_first_sibling: ScraperSiblingElement<'a>,
}

impl<'a> NoticeParagraphParser<'a> {
    /// The flattened texts of the paragraph's sub-elements, in order.
    pub closed spec fn texts(self) -> Seq<Seq<char>> {
        self.notice_paragraph_first_sibling.remaining().map_values(
            |e: MarkupElement| element_text(e),
        )
    }

    /// A parser over the sub-elements yielded by the given traversal.
    pub fn new(notice_paragraph_first_sibling: ScraperSiblingElement<'a>) -> (r:
        NoticeParagraphParser<'a>)
        ensures
            r.texts() == notice_paragraph_first_sibling.remaining().map_values(
                |e: MarkupElement| element_text(e),
            ),
    {
        NoticeParagraphParser { notice_paragraph_first_sibling }
    }

    /// The record the paragraph describes.  Exactly the fields whose
    /// markers occur in some line are present; a missing marker is not an
    /// error, it leaves its field absent.
    #[verifier::loop_isolation(false)]
    pub fn parse_notice(&self) -> (r: NoticeRecord)
        ensures
            r@ == parse_paragraph_text(self.texts()),
    {
        let mut cursor = self.notice_paragraph_first_sibling.duplicate();
        let mut record = NoticeRecord::new();
        let ghost mut processed: Seq<Seq<char>> = Seq::empty();
        proof {
            assert(processed + cursor.remaining().map_values(|e: MarkupElement| element_text(e))
                =~= self.texts());
        }
        loop
            invariant
                record@ == parse_paragraph_text(processed),
                self.texts() == processed + cursor.remaining().map_values(
                    |e: MarkupElement| element_text(e),
                ),
            decreases cursor.remaining().len(),
        {
            let ghost prev_remaining = cursor.remaining();
            let next = cursor.next();
            match next {
                None => {
                    proof {
                        assert(prev_remaining.map_values(|e: MarkupElement| element_text(e))
                            =~= Seq::<Seq<char>>::empty());
                        assert(self.texts() =~= processed);
                    }
                    return record;
                },
                Some(el) => {
                    let text = crate::markup::element_text_to_string(el);
                    let ghost t = element_text(*el);
                    let ghost prev_rv = record@;
                    let company = general_parse(text.as_str(), individual_notice_prefix());
                    match company {
                        Some(v) => {
                            record.firm_name = Some(v);
                        },
                        None => {
                            let location = general_parse(text.as_str(), location_prefix());
                            match location {
                                Some(v) => {
                                    record.firm_locations = Some(v);
                                },
                                None => {
                                    let affected = general_parse(text.as_str(), affected_prefix());
                                    match affected {
                                        Some(v) => {
                                            record.affected_employees = Some(v);
                                        },
                                        None => {
                                            let effective = general_parse(
                                                text.as_str(),
                                                effective_prefix(),
                                            );
                                            match effective {
                                                Some(v) => {
                                                    record.effective_date = Some(v);
                                                },
                                                None => {},
                                            }
                                        },
                                    }
                                },
                            }
                        },
                    }
                    proof {
                        assert(record@ == apply_line(prev_rv, t));
                        let mapper = |e: MarkupElement| element_text(e);
                        assert(prev_remaining.map_values(mapper) =~= seq![t]
                            + cursor.remaining().map_values(mapper));
                        assert(processed.push(t) + cursor.remaining().map_values(mapper)
                            =~= processed + prev_remaining.map_values(mapper));
                        assert(processed.push(t).drop_last() =~= processed);
                        assert(parse_paragraph_text(processed.push(t)) == apply_line(
                            parse_paragraph_text(processed),
                            t,
                        ));
                        processed = processed.push(t);
                    }
                },
            }
        }
    }
}

} // verus!
