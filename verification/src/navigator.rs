//! Location of the notice section inside a markup document.
//!
//! The navigator finds the single heading that announces the weekly notice
//! list, takes the heading's next sibling as the notices container, unwraps
//! the container's two structural layers, and splits the resulting sibling
//! stream into the current week's notice paragraphs and the year-to-date
//! report link.  Marker phrases, the base URL and the staging directory are
//! configuration handed in by the caller, never constants baked in here.
use vstd::prelude::*;
use vstd::string::*;

use crate::error::ScraperError;
use crate::markup::{
    element_children, element_text, element_text_to_string, elements_from, MarkupElement,
    MarkupNode, ScraperSiblingElement,
};
use crate::notice::{NoticeCollection, NoticeRecord, NoticeRecordView};
use crate::paragraph::{company_marker, individual_notice_prefix, NoticeParagraphParser};
use crate::textutil::{contains_seq, contains_str, url_join};

verus! {

/// The element following position `j` at one tree level, if any.
pub open spec fn next_element_at(ns: Seq<MarkupNode>, j: int) -> Option<MarkupElement> {
    if elements_from(ns, j).len() > 0 {
        Some(elements_from(ns, j)[0])
    } else {
        None
    }
}

/// Whether `e` is a heading match: an `h2` element directly under a
/// `section` element whose flattened text contains the marker phrase.
pub open spec fn is_heading_match(parent_tag: Seq<char>, e: MarkupElement, marker: Seq<char>) -> bool {
    parent_tag == "section"@ && e.tag@ == "h2"@ && contains_seq(element_text(e), marker)
}

/// Every heading match in the subtree rooted at `e`, in document order;
/// each match contributes its next element sibling (the candidate notices
/// container), or nothing-found when the heading is the last element of its
/// level.
pub open spec fn heading_hits(e: MarkupElement, marker: Seq<char>) -> Seq<Option<MarkupElement>>
    decreases e,
{
    heading_hits_from(e.tag@, e.children@, 0, marker)
}

/// The heading matches contributed by `ns[i..]` (children of an element
/// tagged `parent_tag`) and by their subtrees.
pub open spec fn heading_hits_from(
    parent_tag: Seq<char>,
    ns: Seq<MarkupNode>,
    i: int,
    marker: Seq<char>,
) -> Seq<Option<MarkupElement>>
    decreases ns, ns.len() - i,
{
    if 0 <= i < ns.len() {
        match ns[i] {
            MarkupNode::Text(_) => heading_hits_from(parent_tag, ns, i + 1, marker),
            MarkupNode::Element(c) => (if is_heading_match(parent_tag, c, marker) {
                seq![next_element_at(ns, i + 1)]
            } else {
                Seq::empty()
            }) + heading_hits(c, marker) + heading_hits_from(parent_tag, ns, i + 1, marker),
        }
    } else {
        Seq::empty()
    }
}

/// The owned values behind a collected list of hit references.
pub open spec fn deref_hits(s: Seq<Option<&MarkupElement>>) -> Seq<Option<MarkupElement>>
    decreases s.len(),
{
    if s.len() == 0 {
        Seq::empty()
    } else {
        deref_hits(s.drop_last()).push(
            match s.last() {
                Some(p) => Some(*p),
                None => None,
            },
        )
    }
}

#[verifier::loop_isolation(false)]
fn collect_heading_hits<'a>(
    element: &'a MarkupElement,
    marker: &str,
    acc: &mut Vec<Option<&'a MarkupElement>>,
)
    ensures
        deref_hits(final(acc)@) == deref_hits(old(acc)@) + heading_hits(*element, marker@),
    decreases *element,
{
    let section_tag: String = "section".to_owned();
    let h2_tag: String = "h2".to_owned();
    proof {
        reveal_strlit("section");
        reveal_strlit("h2");
    }
    let is_section = element.tag == section_tag;
    let cs: &'a Vec<MarkupNode> = &element.children;
    let mut i: usize = 0;
    while i < cs.len()
        invariant
            i <= cs@.len(),
            deref_hits(acc@) + heading_hits_from(element.tag@, cs@, i as int, marker@) == deref_hits(
                old(acc)@,
            ) + heading_hits_from(element.tag@, cs@, 0, marker@),
        decreases cs@.len() - i,
    {
        let ghost entry_hits = deref_hits(acc@);
        let node: &'a MarkupNode = &cs[i];
        match node {
            MarkupNode::Text(_) => {},
            MarkupNode::Element(c) => {
                proof {
                    assert(*node == MarkupNode::Element(*c));
                    assert(decreases_to!(MarkupNode::Element(*c) => *c));
                    assert(decreases_to!(*element => element.children));
                    assert(decreases_to!(element.children => element.children@));
                    assert(decreases_to!(element.children@ => element.children@[i as int]));
                    assert(decreases_to!(*element => *c));
                }
                let is_match = if is_section {
                    let text = element_text_to_string(c);
                    c.tag == h2_tag && contains_str(text.as_str(), marker)
                } else {
                    false
                };
                proof {
                    assert(is_match == is_heading_match(element.tag@, *c, marker@));
                }
                let ghost own: Seq<Option<MarkupElement>> = if is_match {
                    seq![next_element_at(cs@, i + 1)]
                } else {
                    Seq::empty()
                };
                if is_match {
                    let mut sibling_cursor = ScraperSiblingElement::new(cs, i + 1);
                    let nxt = sibling_cursor.next();
                    let ghost pre = acc@;
                    acc.push(nxt);
                    proof {
                        assert(acc@.drop_last() =~= pre);
                        assert(acc@.last() == nxt);
                        assert(deref_hits(acc@) =~= entry_hits + own);
                    }
                } else {
                    proof {
                        assert(deref_hits(acc@) + own =~= entry_hits);
                    }
                }
                let ghost mid_hits = deref_hits(acc@);
                collect_heading_hits(c, marker, acc);
                proof {
                    assert(deref_hits(acc@) =~= mid_hits + heading_hits(*c, marker@));
                    assert(heading_hits_from(element.tag@, cs@, i as int, marker@) == own
                        + heading_hits(*c, marker@) + heading_hits_from(
                        element.tag@,
                        cs@,
                        i + 1,
                        marker@,
                    ));
                    assert(deref_hits(acc@) + heading_hits_from(element.tag@, cs@, i + 1, marker@)
                        =~= entry_hits + heading_hits_from(element.tag@, cs@, i as int, marker@));
                }
            },
        }
        i += 1;
    }
}

/// The notices container: the element that follows the unique matching
/// heading.  Zero matching headings, several matching headings, and a
/// matching heading without a following sibling element are each a parsing
/// failure, never a silent pick.
pub fn get_submit_notice_reference<'a>(
    document: &'a MarkupElement,
    heading_marker: &str,
) -> (r: Result<&'a MarkupElement, ScraperError>)
    ensures
        match r {
            Ok(el) => heading_hits(*document, heading_marker@) =~= seq![Some(*el)],
            Err(e) => (heading_hits(*document, heading_marker@).len() != 1 || heading_hits(
                *document,
                heading_marker@,
            )[0] is None) && e is Parsing,
        },
{
    let mut hits: Vec<Option<&'a MarkupElement>> = Vec::new();
    proof {
        assert(deref_hits(hits@) =~= Seq::<Option<MarkupElement>>::empty());
        assert(deref_hits(hits@) + heading_hits(*document, heading_marker@) =~= heading_hits(
            *document,
            heading_marker@,
        ));
    }
    collect_heading_hits(document, heading_marker, &mut hits);
    let ghost spec_hits = heading_hits(*document, heading_marker@);
    proof {
        assert(deref_hits(hits@) =~= spec_hits);
        assert(deref_hits(hits@).len() == hits@.len()) by {
            lemma_deref_hits_len(hits@);
        }
    }
    if hits.len() != 1 {
        let msg = if hits.len() == 0 {
            "found no heading that matches the weekly notice marker"
        } else {
            "found multiple headings that match the weekly notice marker"
        };
        return Err(ScraperError::Parsing(msg.to_owned()));
    }
    let hit: &Option<&'a MarkupElement> = &hits[0];
    proof {
        assert(deref_hits(hits@).drop_last() =~= deref_hits(hits@.drop_last()));
        assert(hits@.drop_last().len() == 0);
        assert(spec_hits[0] == (match hits@[0] {
            Some(p) => Some(*p),
            None => None,
        }));
    }
    match hit {
        Some(el) => {
            proof {
                assert(spec_hits =~= seq![Some(**el)]);
            }
            Ok(*el)
        },
        None => Err(
            ScraperError::Parsing("no sibling element follows the weekly notice heading".to_owned()),
        ),
    }
}

proof fn lemma_deref_hits_len(s: Seq<Option<&MarkupElement>>)
    ensures
        deref_hits(s).len() == s.len(),
    decreases s.len(),
{
    if s.len() > 0 {
        lemma_deref_hits_len(s.drop_last());
    }
}

/// The two structural wrapper layers around the notice list unwrap
/// cleanly: the container has an element child, and so does that child.
pub open spec fn container_unwraps(container: MarkupElement) -> bool {
    element_children(container).len() > 0 && element_children(
        element_children(container)[0],
    ).len() > 0
}

/// The sibling elements of the true notice level: the element children of
/// the container's first element child.
pub open spec fn inner_siblings(container: MarkupElement) -> Seq<MarkupElement> {
    element_children(element_children(container)[0])
}

/// Strips the two empty wrapper layers between the notices container and
/// the notice list, and hands back a traversal positioned at the list's
/// first element.  A layer without an element child is a parsing failure.
pub fn get_notices_first_child<'a>(notice_section_parent: &'a MarkupElement) -> (r: Result<
    ScraperSiblingElement<'a>,
    ScraperError,
>)
    ensures
        match r {
            Ok(c) => container_unwraps(*notice_section_parent) && c.remaining() == inner_siblings(
                *notice_section_parent,
            ),
            Err(e) => !container_unwraps(*notice_section_parent) && e is Parsing,
        },
{
    let mut outer = ScraperSiblingElement::new(&notice_section_parent.children, 0);
    let first = outer.next();
    match first {
        None => Err(
            ScraperError::Parsing("the notices container has no child element".to_owned()),
        ),
        Some(c1) => {
            let mut probe = ScraperSiblingElement::new(&c1.children, 0);
            let second = probe.next();
            match second {
                None => Err(
                    ScraperError::Parsing(
                        "the inner wrapper around the notice list has no child element".to_owned(),
                    ),
                ),
                Some(_) => Ok(ScraperSiblingElement::new(&c1.children, 0)),
            }
        },
    }
}

/// Whether a sibling element is a notice paragraph of the current week:
/// its text carries the firm-name marker and it has at least one
/// sub-element to parse.
pub open spec fn is_notice_paragraph(e: MarkupElement) -> bool {
    contains_seq(element_text(e), company_marker()) && element_children(e).len() > 0
}

/// The record parsed from one notice paragraph's sub-elements.
pub open spec fn paragraph_record(e: MarkupElement) -> NoticeRecordView {
    crate::paragraph::parse_paragraph_text(
        element_children(e).map_values(|e: MarkupElement| element_text(e)),
    )
}

/// The records of the current week, in order: one per sibling that is a
/// notice paragraph.
pub open spec fn week_records(es: Seq<MarkupElement>) -> Seq<NoticeRecordView>
    decreases es.len(),
{
    if es.len() == 0 {
        Seq::empty()
    } else {
        let rest = week_records(es.drop_last());
        if is_notice_paragraph(es.last()) {
            rest.push(paragraph_record(es.last()))
        } else {
            rest
        }
    }
}

/// Parses every notice paragraph among the given siblings into a record,
/// in order; siblings without the firm-name marker, and paragraphs without
/// sub-elements, contribute nothing.
#[verifier::loop_isolation(false)]
pub fn get_notices_from_section(notice_section_first_sibling: ScraperSiblingElement) -> (r:
    NoticeCollection)
    ensures
        r@ == week_records(notice_section_first_sibling.remaining()),
{
    let ghost es = notice_section_first_sibling.remaining();
    let mut cursor = notice_section_first_sibling;
    let mut out: Vec<NoticeRecord> = Vec::new();
    let ghost mut k: int = 0;
    proof {
        assert(es.subrange(0, 0) =~= Seq::<MarkupElement>::empty());
        assert(cursor.remaining() =~= es.subrange(0, es.len() as int));
    }
    loop
        invariant
            0 <= k <= es.len(),
            cursor.remaining() == es.subrange(k, es.len() as int),
            out@.map_values(|r: NoticeRecord| r@) == week_records(es.subrange(0, k)),
        decreases es.len() - k,
    {
        let ghost prev_remaining = cursor.remaining();
        let next = cursor.next();
        match next {
            None => {
                proof {
                    assert(k == es.len());
                    assert(es.subrange(0, k) =~= es);
                }
                return crate::notice::NoticeCollector::to_notices_from_vec(out);
            },
            Some(el) => {
                proof {
                    assert(*el == es[k]);
                    assert(prev_remaining.drop_first() =~= es.subrange(k + 1, es.len() as int));
                }
                let text = element_text_to_string(el);
                let has_marker = contains_str(text.as_str(), individual_notice_prefix());
                let para_cursor = ScraperSiblingElement::new(&el.children, 0);
                let mut probe = para_cursor.duplicate();
                let has_child = match probe.next() {
                    Some(_) => true,
                    None => false,
                };
                proof {
                    assert((has_marker && has_child) == is_notice_paragraph(es[k]));
                }
                let ghost prev_out = out@;
                if has_marker && has_child {
                    let parser = NoticeParagraphParser::new(para_cursor);
                    let record = parser.parse_notice();
                    proof {
                        assert(record@ == paragraph_record(es[k]));
                    }
                    out.push(record);
                    proof {
                        let f = |r: NoticeRecord| r@;
                        assert(out@.drop_last() =~= prev_out);
                        assert forall|j: int| 0 <= j < out@.len() implies out@.map_values(f)[j]
                            == week_records(es.subrange(0, k)).push(paragraph_record(es[k]))[j] by {
                            assert(out@.map_values(f)[j] == out@[j]@);
                            if j < prev_out.len() {
                                assert(out@[j] == prev_out[j]);
                                assert(prev_out.map_values(f)[j] == prev_out[j]@);
                            }
                        }
                        assert(out@.map_values(f) =~= week_records(es.subrange(0, k)).push(
                            paragraph_record(es[k]),
                        ));
                    }
                }
                proof {
                    assert(es.subrange(0, k + 1).drop_last() =~= es.subrange(0, k));
                    assert(es.subrange(0, k + 1).last() == es[k]);
                    assert(out@.map_values(|r: NoticeRecord| r@) =~= week_records(
                        es.subrange(0, k + 1),
                    ));
                    k = k + 1;
                }
            },
        }
    }
}

/// Keeps a sibling's first element child when that child's text carries
/// the year-to-date report marker; everything else yields nothing.
pub fn is_yearly_report_element<'a>(
    notice_element_child: Option<&'a MarkupElement>,
    report_marker: &str,
) -> (r: Option<&'a MarkupElement>)
    ensures
        match notice_element_child {
            None => r is None,
            Some(c) => {
                if contains_seq(element_text(*c), report_marker@) {
                    r == Some(c)
                } else {
                    r is None
                }
            },
        },
{
    match notice_element_child {
        None => None,
        Some(notice_child) => {
            let child_text = element_text_to_string(notice_child);
            if contains_str(child_text.as_str(), report_marker) {
                Some(notice_child)
            } else {
                None
            }
        },
    }
}

/// The year-to-date report candidates among the given siblings, in order:
/// each sibling's first element child whose text carries the report
/// marker.
pub open spec fn report_candidates(es: Seq<MarkupElement>, marker: Seq<char>) -> Seq<MarkupElement>
    decreases es.len(),
{
    if es.len() == 0 {
        Seq::empty()
    } else {
        let rest = report_candidates(es.drop_first(), marker);
        if element_children(es[0]).len() > 0 && contains_seq(
            element_text(element_children(es[0])[0]),
            marker,
        ) {
            seq![element_children(es[0])[0]] + rest
        } else {
            rest
        }
    }
}

/// The first year-to-date report candidate among the siblings; no
/// candidate at all is a parsing failure.
#[verifier::loop_isolation(false)]
pub fn flatten_yearly_report<'a>(
    notice_section_first_sibling: ScraperSiblingElement<'a>,
    report_marker: &str,
) -> (r: Result<&'a MarkupElement, ScraperError>)
    ensures
        match r {
            Ok(el) => report_candidates(notice_section_first_sibling.remaining(), report_marker@).len()
                > 0 && *el == report_candidates(
                notice_section_first_sibling.remaining(),
                report_marker@,
            )[0],
            Err(e) => report_candidates(notice_section_first_sibling.remaining(), report_marker@).len()
                == 0 && e is Parsing,
        },
{
    let ghost es = notice_section_first_sibling.remaining();
    let mut cursor = notice_section_first_sibling;
    proof {
        assert(cursor.remaining() =~= es.subrange(0, es.len() as int));
    }
    let ghost mut k: int = 0;
    loop
        invariant
            0 <= k <= es.len(),
            cursor.remaining() == es.subrange(k, es.len() as int),
            report_candidates(es, report_marker@) == report_candidates(
                es.subrange(k, es.len() as int),
                report_marker@,
            ),
        decreases es.len() - k,
    {
        let ghost prev_remaining = cursor.remaining();
        let next = cursor.next();
        match next {
            None => {
                proof {
                    assert(k == es.len());
                }
                return Err(
                    ScraperError::Parsing(
                        "no sibling carries the year-to-date report marker".to_owned(),
                    ),
                );
            },
            Some(el) => {
                proof {
                    assert(*el == es[k]);
                    assert(prev_remaining.drop_first() =~= es.subrange(k + 1, es.len() as int));
                }
                let mut probe = ScraperSiblingElement::new(&el.children, 0);
                let first_child = probe.next();
                let candidate = is_yearly_report_element(first_child, report_marker);
                proof {
                    assert(prev_remaining[0] == es[k]);
                    assert(prev_remaining.drop_first() =~= es.subrange(k + 1, es.len() as int));
                }
                match candidate {
                    Some(c) => {
                        proof {
                            assert(element_children(es[k]).len() > 0 && *c == element_children(
                                es[k],
                            )[0]);
                            assert(report_candidates(prev_remaining, report_marker@) == seq![*c]
                                + report_candidates(
                                es.subrange(k + 1, es.len() as int),
                                report_marker@,
                            ));
                        }
                        return Ok(c);
                    },
                    None => {
                        proof {
                            assert(report_candidates(prev_remaining, report_marker@)
                                == report_candidates(
                                es.subrange(k + 1, es.len() as int),
                                report_marker@,
                            ));
                            k = k + 1;
                        }
                    },
                }
            },
        }
    }
}

/// A decimal digit.
pub open spec fn is_digit_char(c: char) -> bool {
    '0' <= c && c <= '9'
}

/// The report link's display text ends in a two-digit year.
pub open spec fn year_text_ok(t: Seq<char>) -> bool {
    t.len() >= 2 && is_digit_char(t[t.len() - 2]) && is_digit_char(t[t.len() - 1])
}

/// The two-digit year suffix of the report link's display text.
pub open spec fn year_suffix(t: Seq<char>) -> Seq<char> {
    t.subrange(t.len() - 2, t.len() as int)
}

/// The two-digit year at the end of the report element's text.  Text that
/// does not end in two decimal digits is malformed and reported as a
/// parsing failure, never passed on silently.
pub fn get_year_from_yearly_report_element(yearly_report_element: &MarkupElement) -> (r: Result<
    String,
    ScraperError,
>)
    ensures
        match r {
            Ok(y) => year_text_ok(element_text(*yearly_report_element)) && y@ == year_suffix(
                element_text(*yearly_report_element),
            ),
            Err(e) => !year_text_ok(element_text(*yearly_report_element)) && e is Parsing,
        },
{
    let full_text = element_text_to_string(yearly_report_element);
    let n = full_text.as_str().unicode_len();
    if n < 2 {
        return Err(
            ScraperError::Parsing(
                "the report link text is too short to end in a two-digit year".to_owned(),
            ),
        );
    }
    let tens = full_text.as_str().get_char(n - 2);
    let ones = full_text.as_str().get_char(n - 1);
    if !(tens >= '0' && tens <= '9' && ones >= '0' && ones <= '9') {
        return Err(
            ScraperError::Parsing("the report link text does not end in a two-digit year".to_owned()),
        );
    }
    let year = full_text.as_str().substring_char(n - 2, n);
    Ok(year.to_owned())
}

/// The deterministic staging file name for the report of one two-digit
/// year, inside the given staging directory.
pub open spec fn download_filename(dir: Seq<char>, year: Seq<char>) -> Seq<char> {
    dir + "WARN_report_20"@ + year + ".xlsx"@
}

/// The deterministic path the downloaded report is moved to.
pub fn create_download_filename(download_directory: &str, year: &str) -> (r: String)
    ensures
        r@ == download_filename(download_directory@, year@),
{
    let r = download_directory.to_owned().concat("WARN_report_20").concat(year).concat(".xlsx");
    proof {
        assert(r@ =~= download_filename(download_directory@, year@));
    }
    r
}

/// Everything the download step needs about the year-to-date report: the
/// resolved URL, the two-digit year, and the staging path the file will be
/// moved to.
pub struct YearlyReportLink {
    pub url: String,
    pub year: String,
    pub target_path: String,
}

/// The first report candidate carries a hyperlink and a well-formed year.
pub open spec fn report_link_ok(es: Seq<MarkupElement>, marker: Seq<char>) -> bool {
    let cands = report_candidates(es, marker);
    cands.len() > 0 && cands[0].href is Some && year_text_ok(element_text(cands[0]))
}

/// Finds the year-to-date report link among the siblings and resolves it:
/// the first candidate's hyperlink joined onto the base URL, its two-digit
/// year, and the staging path derived from that year.  A missing
/// candidate, a candidate without a hyperlink, and malformed year text are
/// each a parsing failure.
pub fn get_report_link(
    base_url: &str,
    notice_section_first_sibling: ScraperSiblingElement,
    report_marker: &str,
    download_directory: &str,
) -> (r: Result<YearlyReportLink, ScraperError>)
    ensures
        ({
            let cands = report_candidates(notice_section_first_sibling.remaining(), report_marker@);
            match r {
                Ok(link) => report_link_ok(
                    notice_section_first_sibling.remaining(),
                    report_marker@,
                ) && link.url@ == url_join(base_url@, cands[0].href->Some_0@) && link.year@
                    == year_suffix(element_text(cands[0])) && link.target_path@ == download_filename(
                    download_directory@,
                    year_suffix(element_text(cands[0])),
                ),
                Err(e) => !report_link_ok(
                    notice_section_first_sibling.remaining(),
                    report_marker@,
                ) && e is Parsing,
            }
        }),
{
    let element = flatten_yearly_report(notice_section_first_sibling, report_marker)?;
    let href: &String = match &element.href {
        Some(h) => h,
        None => {
            return Err(
                ScraperError::Parsing("the year-to-date report element has no hyperlink".to_owned()),
            );
        },
    };
    let year = get_year_from_yearly_report_element(element)?;
    let url = crate::textutil::construct_full_url(base_url, href.as_str());
    let target_path = create_download_filename(download_directory, year.as_str());
    Ok(YearlyReportLink { url, year, target_path })
}

} // verus!
