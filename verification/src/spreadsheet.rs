//! Conversion of a staged workbook into notice records.
//!
//! The workbook is modelled as plain values: every sheet is a table of
//! typed cells, read by the surrounding binary from whatever spreadsheet
//! reader it uses.  Rows 0 to 2 are headers; data begins at
//! `START_ROW_NUMBER`.  Each data row contributes one record unless every
//! decoded field is absent, in which case the row is discarded.
use vstd::prelude::*;
use vstd::string::*;

use crate::dates::{civil_date_text, day_count_in_range, from_days_since_1900};
use crate::error::ScraperError;
use crate::notice::{opt_view, NoticeCollection, NoticeCollector, NoticeRecord, NoticeRecordView};
use crate::numfmt::{int_text, int_to_string};

verus! {

/// The first data row of every sheet; rows before it are headers.
pub const START_ROW_NUMBER: usize = 3;

/// One typed spreadsheet cell.
pub enum CellValue {
    /// An empty cell.
    Empty,
    /// A boolean cell.
    Bool(bool),
    /// An error-typed cell, with the reader's description of the error.
    CellError(String),
    /// An integer cell.
    Int(i64),
    /// A floating-point cell, as plain values: its decimal text and its
    /// whole part (the truncation toward zero), both produced at the
    /// boundary that reads the workbook.
    Number { rendered: String, whole: i64 },
    /// A string cell.
    Text(String),
}

/// The rows of one sheet.
pub type SheetRows = Vec<Vec<CellValue>>;

/// A cell normalized to text: boolean, empty and error cells are absent;
/// integer and floating-point cells take their decimal form; string cells
/// pass through unchanged.
pub open spec fn cell_text(c: CellValue) -> Option<Seq<char>> {
    match c {
        CellValue::Empty => None,
        CellValue::Bool(_) => None,
        CellValue::CellError(_) => None,
        CellValue::Int(v) => Some(int_text(v as int)),
        CellValue::Number { rendered, whole } => Some(rendered@),
        CellValue::Text(s) => Some(s@),
    }
}

/// A cell decoded as a date: strings pass through, integer and
/// floating-point cells are day counts under the legacy encoding, every
/// other cell is absent.  A day count outside the decoder's range fails.
pub open spec fn cell_date(c: CellValue) -> Result<Option<Seq<char>>, ()> {
    match c {
        CellValue::Empty => Ok(None),
        CellValue::Bool(_) => Ok(None),
        CellValue::CellError(_) => Ok(None),
        CellValue::Int(v) => if day_count_in_range(v as int) {
            Ok(Some(civil_date_text(v - 2)))
        } else {
            Err(())
        },
        CellValue::Number { rendered, whole } => if day_count_in_range(whole as int) {
            Ok(Some(civil_date_text(whole - 2)))
        } else {
            Err(())
        },
        CellValue::Text(s) => Ok(Some(s@)),
    }
}

/// The cell of a row at column `j`, absent when the row is shorter.
pub open spec fn cell_at(row: Seq<CellValue>, j: int) -> CellValue {
    if 0 <= j < row.len() {
        row[j]
    } else {
        CellValue::Empty
    }
}

/// Both date columns of the row decode.
pub open spec fn row_decodes(row: Seq<CellValue>) -> bool {
    cell_date(cell_at(row, 0)) is Ok && cell_date(cell_at(row, 3)) is Ok
}

/// The record a data row stands for: received date, firm name, locations,
/// effective date and affected employees, in that column order.
pub open spec fn row_record(row: Seq<CellValue>) -> NoticeRecordView {
    NoticeRecordView {
        firm_name: cell_text(cell_at(row, 1)),
        firm_locations: cell_text(cell_at(row, 2)),
        affected_employees: cell_text(cell_at(row, 4)),
        effective_date: cell_date(cell_at(row, 3))->Ok_0,
        date_received: cell_date(cell_at(row, 0))->Ok_0,
    }
}

/// A sheet parses cleanly: it has its header rows, and every data row's
/// date cells decode.
pub open spec fn sheet_ok(rows: Seq<Seq<CellValue>>) -> bool {
    rows.len() >= START_ROW_NUMBER && forall|j: int|
        START_ROW_NUMBER <= j < rows.len() ==> row_decodes(#[trigger] rows[j])
}

/// The records of the data rows `rows[i..]`, in order, with rows whose
/// fields are all absent discarded.
pub open spec fn rows_records(rows: Seq<Seq<CellValue>>, i: int) -> Seq<NoticeRecordView>
    decreases rows.len() - i,
{
    if 0 <= i < rows.len() {
        let rest = rows_records(rows, i + 1);
        if row_record(rows[i]).is_all_absent() {
            rest
        } else {
            seq![row_record(rows[i])] + rest
        }
    } else {
        Seq::empty()
    }
}

/// The mathematical value of a sheet: its rows as cell sequences.
pub open spec fn rows_view(rs: Seq<Vec<CellValue>>) -> Seq<Seq<CellValue>> {
    rs.map_values(|r: Vec<CellValue>| r@)
}

/// A cell normalized to text, exactly as `cell_text` states it.
pub fn check_for_value(data: &CellValue) -> (r: Option<String>)
    ensures
        opt_view(r) == cell_text(*data),
{
    match data {
        CellValue::Empty => None,
        CellValue::Bool(_) => None,
        CellValue::CellError(_) => None,
        CellValue::Int(value) => Some(int_to_string(*value)),
        CellValue::Number { rendered, whole } => Some(rendered.clone()),
        CellValue::Text(value) => Some(value.clone()),
    }
}

/// A cell decoded as a date, exactly as `cell_date` states it; a day
/// count outside the decoder's range is a spreadsheet failure.
pub fn convert_date(date_value: &CellValue) -> (r: Result<Option<String>, ScraperError>)
    ensures
        match cell_date(*date_value) {
            Ok(o) => r is Ok && opt_view(r->Ok_0) == o,
            Err(_) => r is Err && r->Err_0 is SpreadsheetParsing,
        },
{
    match date_value {
        CellValue::Empty => Ok(None),
        CellValue::Bool(_) => Ok(None),
        CellValue::CellError(_) => Ok(None),
        CellValue::Int(value) => match from_days_since_1900(*value) {
            Some(s) => Ok(Some(s)),
            None => Err(
                ScraperError::SpreadsheetParsing(
                    "a date cell's day count lies outside the supported calendar range".to_owned(),
                ),
            ),
        },
        CellValue::Number { rendered, whole } => match from_days_since_1900(*whole) {
            Some(s) => Ok(Some(s)),
            None => Err(
                ScraperError::SpreadsheetParsing(
                    "a date cell's day count lies outside the supported calendar range".to_owned(),
                ),
            ),
        },
        CellValue::Text(value) => Ok(Some(value.clone())),
    }
}

/// Every field of the record is absent.
pub fn are_no_fields_present(notice: &NoticeRecord) -> (b: bool)
    ensures
        b == notice@.is_all_absent(),
{
    notice.firm_name.is_none() && notice.firm_locations.is_none()
        && notice.affected_employees.is_none() && notice.effective_date.is_none()
        && notice.date_received.is_none()
}

fn field_text(row: &Vec<CellValue>, j: usize) -> (r: Option<String>)
    ensures
        opt_view(r) == cell_text(cell_at(row@, j as int)),
{
    if j < row.len() {
        check_for_value(&row[j])
    } else {
        None
    }
}

fn field_date(row: &Vec<CellValue>, j: usize) -> (r: Result<Option<String>, ScraperError>)
    ensures
        match cell_date(cell_at(row@, j as int)) {
            Ok(o) => r is Ok && opt_view(r->Ok_0) == o,
            Err(_) => r is Err && r->Err_0 is SpreadsheetParsing,
        },
{
    if j < row.len() {
        convert_date(&row[j])
    } else {
        Ok(None)
    }
}

/// Parses the data rows of one sheet, in order.  A sheet without its
/// three header rows, and a data row whose date cells do not decode, are
/// spreadsheet failures; rows with every field absent are discarded.
#[verifier::loop_isolation(false)]
pub fn parse_worksheet(rows: &Vec<Vec<CellValue>>) -> (r: Result<NoticeCollection, ScraperError>)
    ensures
        match r {
            Ok(c) => sheet_ok(rows_view(rows@)) && c@ == rows_records(
                rows_view(rows@),
                START_ROW_NUMBER as int,
            ),
            Err(e) => !sheet_ok(rows_view(rows@)) && e is SpreadsheetParsing,
        },
{
    let ghost rv = rows_view(rows@);
    proof {
        assert(rv.len() == rows@.len());
    }
    if rows.len() < START_ROW_NUMBER {
        return Err(
            ScraperError::SpreadsheetParsing(
                "the sheet has fewer rows than the header block".to_owned(),
            ),
        );
    }
    let mut out: Vec<NoticeRecord> = Vec::new();
    let mut i: usize = START_ROW_NUMBER;
    while i < rows.len()
        invariant
            START_ROW_NUMBER <= i <= rows@.len(),
            forall|j: int| START_ROW_NUMBER <= j < i ==> row_decodes(#[trigger] rv[j]),
            out@.map_values(|r: NoticeRecord| r@) + rows_records(rv, i as int) == rows_records(
                rv,
                START_ROW_NUMBER as int,
            ),
        decreases rows@.len() - i,
    {
        let row: &Vec<CellValue> = &rows[i];
        proof {
            assert(rv[i as int] == row@);
        }
        let date_received = match field_date(row, 0) {
            Ok(o) => o,
            Err(e) => {
                proof {
                    assert(!row_decodes(rv[i as int]));
                }
                return Err(e);
            },
        };
        let effective_date = match field_date(row, 3) {
            Ok(o) => o,
            Err(e) => {
                proof {
                    assert(!row_decodes(rv[i as int]));
                }
                return Err(e);
            },
        };
        let notice = NoticeRecord {
            firm_name: field_text(row, 1),
            firm_locations: field_text(row, 2),
            affected_employees: field_text(row, 4),
            effective_date,
            date_received,
        };
        proof {
            assert(notice@ == row_record(rv[i as int]));
        }
        let ghost prev_out = out@;
        if !are_no_fields_present(&notice) {
            out.push(notice);
            proof {
                let f = |r: NoticeRecord| r@;
                assert(out@.drop_last() =~= prev_out);
                assert forall|j: int| 0 <= j < out@.len() implies out@.map_values(f)[j] == (
                prev_out.map_values(f) + seq![row_record(rv[i as int])])[j] by {
                    assert(out@.map_values(f)[j] == out@[j]@);
                    if j < prev_out.len() {
                        assert(out@[j] == prev_out[j]);
                        assert(prev_out.map_values(f)[j] == prev_out[j]@);
                    }
                }
                assert(out@.map_values(f) =~= prev_out.map_values(f) + seq![
                    row_record(rv[i as int]),
                ]);
                assert(out@.map_values(f) + rows_records(rv, i + 1) =~= prev_out.map_values(f) + (
                seq![row_record(rv[i as int])] + rows_records(rv, i + 1)));
            }
        }
        proof {
            assert(out@.map_values(|r: NoticeRecord| r@) + rows_records(rv, i + 1)
                =~= rows_records(rv, START_ROW_NUMBER as int));
        }
        i += 1;
    }
    proof {
        assert(out@.map_values(|r: NoticeRecord| r@) =~= rows_records(rv, START_ROW_NUMBER as int));
    }
    Ok(NoticeCollector::to_notices_from_vec(out))
}

/// No record in a sheet's parse output has every field absent, and every
/// data row with at least one present field contributes its record to the
/// output.  Together with `parse_worksheet`'s contract this holds of the
/// collection the parser returns.
pub proof fn lemma_rows_records_membership(rows: Seq<Seq<CellValue>>, i: int)
    requires
        0 <= i,
    ensures
        forall|k: int|
            0 <= k < rows_records(rows, i).len() ==> !(#[trigger] rows_records(rows, i)[
            k]).is_all_absent(),
        forall|j: int|
            i <= j < rows.len() && !row_record(#[trigger] rows[j]).is_all_absent()
                ==> rows_records(rows, i).contains(row_record(rows[j])),
    decreases rows.len() - i,
{
    if 0 <= i < rows.len() {
        lemma_rows_records_membership(rows, i + 1);
        let rest = rows_records(rows, i + 1);
        let whole = rows_records(rows, i);
        if !row_record(rows[i]).is_all_absent() {
            assert(whole == seq![row_record(rows[i])] + rest);
            assert(whole[0] == row_record(rows[i]));
            assert forall|j: int|
                i <= j < rows.len() && !row_record(#[trigger] rows[j]).is_all_absent() implies whole
                .contains(row_record(rows[j])) by {
                if j == i {
                    assert(whole[0] == row_record(rows[j]));
                } else {
                    assert(rest.contains(row_record(rows[j])));
                    let k = choose|k: int|
                        0 <= k < rest.len() && rest[k] == row_record(rows[j]);
                    assert(whole[k + 1] == row_record(rows[j]));
                }
            }
        } else {
            assert forall|j: int|
                i <= j < rows.len() && !row_record(#[trigger] rows[j]).is_all_absent() implies whole
                .contains(row_record(rows[j])) by {
                assert(j != i);
                assert(rest.contains(row_record(rows[j])));
            }
        }
    }
}

/// A workbook parses cleanly: it has at least one sheet and every sheet
/// parses cleanly.
pub open spec fn workbook_ok(ws: Seq<Seq<Seq<CellValue>>>) -> bool {
    ws.len() > 0 && forall|j: int| 0 <= j < ws.len() ==> sheet_ok(#[trigger] ws[j])
}

/// The records of the sheets `ws[i..]`, each sheet's data rows in order.
pub open spec fn workbook_records(ws: Seq<Seq<Seq<CellValue>>>, i: int) -> Seq<NoticeRecordView>
    decreases ws.len() - i,
{
    if 0 <= i < ws.len() {
        rows_records(ws[i], START_ROW_NUMBER as int) + workbook_records(ws, i + 1)
    } else {
        Seq::empty()
    }
}

/// The mathematical value of a workbook: its sheets' rows.
pub open spec fn workbook_view(ws: Seq<Vec<Vec<CellValue>>>) -> Seq<Seq<Seq<CellValue>>> {
    ws.map_values(|s: Vec<Vec<CellValue>>| rows_view(s@))
}

/// Converts every sheet of a staged workbook into one collection.
pub struct YearToDateParser {
    /// The sheets of the workbook, as the boundary read them.
    pub workbook: Vec<SheetRows>,
}

impl YearToDateParser {
    /// A parser over an already read workbook.
    pub fn new(workbook: Vec<SheetRows>) -> (r: YearToDateParser)
        ensures
            r.workbook == workbook,
    {
        YearToDateParser { workbook }
    }

    /// Parses every sheet and merges the per-sheet collections in sheet
    /// order.  A workbook with no sheets at all is a merging failure; a
    /// sheet that does not parse cleanly is a spreadsheet failure.
    #[verifier::loop_isolation(false)]
    pub fn parse_for_notices(&self) -> (r: Result<NoticeCollection, ScraperError>)
        ensures
            match r {
                Ok(c) => workbook_ok(workbook_view(self.workbook@)) && c@ == workbook_records(
                    workbook_view(self.workbook@),
                    0,
                ),
                Err(e) => !workbook_ok(workbook_view(self.workbook@)) && if self.workbook@.len()
                    == 0 {
                    e is MergingNotices
                } else {
                    e is SpreadsheetParsing
                },
            },
    {
        let ghost wv = workbook_view(self.workbook@);
        proof {
            assert(wv.len() == self.workbook@.len());
        }
        if self.workbook.len() == 0 {
            return Err(
                ScraperError::MergingNotices(
                    "no sheets to merge after parsing the workbook".to_owned(),
                ),
            );
        }
        let mut combined = NoticeCollection::new();
        let mut i: usize = 0;
        while i < self.workbook.len()
            invariant
                i <= self.workbook@.len(),
                forall|j: int| 0 <= j < i ==> sheet_ok(#[trigger] wv[j]),
                combined@ + workbook_records(wv, i as int) == workbook_records(wv, 0),
            decreases self.workbook@.len() - i,
        {
            proof {
                assert(wv[i as int] == rows_view(self.workbook@[i as int]@));
            }
            let sheet_notices = match parse_worksheet(&self.workbook[i]) {
                Ok(c) => c,
                Err(e) => {
                    proof {
                        assert(!sheet_ok(wv[i as int]));
                    }
                    return Err(e);
                },
            };
            let merged = NoticeCollector::reduce_notices(&combined, &sheet_notices);
            combined = merged;
            proof {
                assert(combined@ + workbook_records(wv, i + 1) =~= workbook_records(wv, 0));
            }
            i += 1;
        }
        proof {
            assert(combined@ =~= workbook_records(wv, 0));
        }
        Ok(combined)
    }
}

} // verus!
