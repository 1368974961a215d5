//! The error type shared by every fallible operation of the library.
use vstd::prelude::*;

verus! {

/// One failure of the extraction pipeline.  Each variant carries a free-text
/// message for display; contracts speak only of the variant, never of the
/// message.
#[derive(Debug)]
pub enum ScraperError {
    /// The markup document violates a structural assumption (wrong heading
    /// count, missing child element, missing attribute, malformed year text).
    Parsing(String),
    /// A spreadsheet could not be decoded (row-count underflow, or a date
    /// cell whose day count lies outside the supported calendar range).
    SpreadsheetParsing(String),
    /// The external retrieval mechanism or a file-system move failed.
    Downloading(String),
    /// A reduction over collections was asked of an empty input.
    MergingNotices(String),
    /// A transport or file-system failure passed through from the caller.
    Io(String),
}

pub type ScraperResult<T> = Result<T, ScraperError>;

/// The text `describe` renders for an error: a label for the variant,
/// then the message.
pub open spec fn describe_text(e: ScraperError) -> Seq<char> {
    match e {
        ScraperError::Parsing(m) => "parsing the markup document failed: "@ + m@,
        ScraperError::SpreadsheetParsing(m) => "parsing the spreadsheet failed: "@ + m@,
        ScraperError::Downloading(m) => "downloading the report failed: "@ + m@,
        ScraperError::MergingNotices(m) => "merging notice collections failed: "@ + m@,
        ScraperError::Io(m) => "input/output failure: "@ + m@,
    }
}

impl ScraperError {
    /// A short human-readable account of the failure, with its message.
    pub fn describe(&self) -> (r: String)
        ensures
            r@ == describe_text(*self),
            r@.len() > 0,
    {
        let (label, msg): (&str, &String) = match self {
            ScraperError::Parsing(m) => ("parsing the markup document failed: ", m),
            ScraperError::SpreadsheetParsing(m) => ("parsing the spreadsheet failed: ", m),
            ScraperError::Downloading(m) => ("downloading the report failed: ", m),
            ScraperError::MergingNotices(m) => ("merging notice collections failed: ", m),
            ScraperError::Io(m) => ("input/output failure: ", m),
        };
        proof {
            reveal_strlit("parsing the markup document failed: ");
            reveal_strlit("parsing the spreadsheet failed: ");
            reveal_strlit("downloading the report failed: ");
            reveal_strlit("merging notice collections failed: ");
            reveal_strlit("input/output failure: ");
        }
        let mut out = String::new();
        out.append(label);
        out.append(msg.as_str());
        out
    }
}

} // verus!
