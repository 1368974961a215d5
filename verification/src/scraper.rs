//! The adapter that drives one parsed listing page.
//!
//! It owns the document model and the configured base URL, and exposes the
//! two extractions the pipeline needs: the current week's notice records,
//! and the resolved year-to-date report link.  Fetching the page, running
//! the download and reading the workbook are the surrounding binary's work.
use vstd::prelude::*;
use vstd::string::*;

use crate::error::ScraperError;
use crate::markup::{element_text, MarkupElement, ScraperSiblingElement};
use crate::navigator::{
    container_unwraps, download_filename, get_notices_first_child, get_notices_from_section,
    get_report_link, get_submit_notice_reference, heading_hits, inner_siblings, report_candidates,
    report_link_ok, week_records, year_suffix, YearlyReportLink,
};
use crate::notice::NoticeCollection;
use crate::textutil::url_join;

verus! {

/// Exactly one heading matches, and a sibling element follows it.
pub open spec fn located_container(doc: MarkupElement, heading_marker: Seq<char>) -> bool {
    heading_hits(doc, heading_marker).len() == 1 && heading_hits(doc, heading_marker)[0] is Some
}

/// The notices container: the element after the unique matching heading.
pub open spec fn the_container(doc: MarkupElement, heading_marker: Seq<char>) -> MarkupElement {
    heading_hits(doc, heading_marker)[0]->Some_0
}

/// The document locates a unique heading and both wrapper layers unwrap.
pub open spec fn document_unwraps(doc: MarkupElement, heading_marker: Seq<char>) -> bool {
    located_container(doc, heading_marker) && container_unwraps(the_container(doc, heading_marker))
}

/// The sibling elements of the notice level of the document.
pub open spec fn notice_siblings(doc: MarkupElement, heading_marker: Seq<char>) -> Seq<
    MarkupElement,
> {
    inner_siblings(the_container(doc, heading_marker))
}

/// Drives extraction over one parsed listing page.
pub struct ScraperAdapter {
    /// The document model of the listing page.
    pub document: MarkupElement,
    /// The base URL that site-relative hyperlinks are resolved against.
    pub base_url: String,
}

impl ScraperAdapter {
    /// An adapter over an already parsed document.
    pub fn new(document: MarkupElement, base_url: String) -> (r: ScraperAdapter)
        ensures
            r.document == document,
            r.base_url == base_url,
    {
        ScraperAdapter { document, base_url }
    }

    fn locate<'a>(&'a self, heading_marker: &str) -> (r: Result<
        ScraperSiblingElement<'a>,
        ScraperError,
    >)
        ensures
            match r {
                Ok(c) => document_unwraps(self.document, heading_marker@) && c.remaining()
                    == notice_siblings(self.document, heading_marker@),
                Err(e) => !document_unwraps(self.document, heading_marker@) && e is Parsing,
            },
    {
        let container = get_submit_notice_reference(&self.document, heading_marker)?;
        let cursor = get_notices_first_child(container)?;
        Ok(cursor)
    }

    /// The current week's notice records: one per notice paragraph under
    /// the unique matching heading.  A document whose structure does not
    /// match the assumed shape is a parsing failure.
    pub fn get_week_notices(&self, heading_marker: &str) -> (r: Result<
        NoticeCollection,
        ScraperError,
    >)
        ensures
            match r {
                Ok(c) => document_unwraps(self.document, heading_marker@) && c@ == week_records(
                    notice_siblings(self.document, heading_marker@),
                ),
                Err(e) => !document_unwraps(self.document, heading_marker@) && e is Parsing,
            },
    {
        let cursor = self.locate(heading_marker)?;
        Ok(get_notices_from_section(cursor))
    }

    /// The resolved year-to-date report link of the page: URL, two-digit
    /// year and staging path.  Structure violations, a missing hyperlink
    /// and malformed year text are each a parsing failure.
    pub fn get_report_reference(
        &self,
        heading_marker: &str,
        report_marker: &str,
        download_directory: &str,
    ) -> (r: Result<YearlyReportLink, ScraperError>)
        ensures
            ({
                let es = notice_siblings(self.document, heading_marker@);
                let cands = report_candidates(es, report_marker@);
                match r {
                    Ok(link) => document_unwraps(self.document, heading_marker@) && report_link_ok(
                        es,
                        report_marker@,
                    ) && link.url@ == url_join(self.base_url@, cands[0].href->Some_0@)
                        && link.year@ == year_suffix(element_text(cands[0])) && link.target_path@
                        == download_filename(
                        download_directory@,
                        year_suffix(element_text(cands[0])),
                    ),
                    Err(e) => (!document_unwraps(self.document, heading_marker@) || !report_link_ok(
                        es,
                        report_marker@,
                    )) && e is Parsing,
                }
            }),
    {
        let cursor = self.locate(heading_marker)?;
        get_report_link(self.base_url.as_str(), cursor, report_marker, download_directory)
    }
}

} // verus!
