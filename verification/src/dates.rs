//! Decoding of the legacy spreadsheet date encoding.
//!
//! A date cell may carry a count of days relative to 1900-01-01.  Two days
//! must be subtracted from the count before adding it to that epoch: one
//! for the encoding's fictitious leap day of 1900, one for its convention
//! of numbering the epoch day itself.  The calendar arithmetic and the
//! rendering of the resulting date are delegated to an outside calendar
//! library; everything around them is verified.
use vstd::prelude::*;

verus! {

/// The lowest day offset from 1900-01-01 the decoder accepts.
pub const MIN_DAY_OFFSET: i64 = -1000000;

/// The highest day offset from 1900-01-01 the decoder accepts.
pub const MAX_DAY_OFFSET: i64 = 1000000;

/// The calendar date `day_offset` days after 1900-01-01, rendered as text;
/// a function of the offset alone.
pub uninterp spec fn civil_date_text(day_offset: int) -> Seq<char>;

/// A raw day count whose corrected offset the decoder accepts.
pub open spec fn day_count_in_range(raw: int) -> bool {
    MIN_DAY_OFFSET <= raw - 2 <= MAX_DAY_OFFSET
}

/// Relies on chrono's `NaiveDate`: 1900-01-01 plus `day_offset` days,
/// rendered with `NaiveDate`'s ISO 8601 display.  The offset bound keeps
/// the result far inside chrono's supported calendar range, so neither the
/// delta construction nor the checked addition can fail.
#[verifier::external_body]
fn render_date_from_epoch_offset(day_offset: i64) -> (r: String)
    requires
        MIN_DAY_OFFSET <= day_offset <= MAX_DAY_OFFSET,
    ensures
        r@ == civil_date_text(day_offset as int),
{
    let epoch = chrono::NaiveDate::from_ymd_opt(1900, 1, 1).unwrap();
    let date = epoch.checked_add_signed(chrono::TimeDelta::days(day_offset)).unwrap();
    date.to_string()
}

/// The date a raw legacy day count stands for, as text: the count, minus
/// the two-day correction, added to 1900-01-01.  A count outside the
/// supported range yields nothing instead of a date.
pub fn from_days_since_1900(raw_days_since_1900: i64) -> (r: Option<String>)
    ensures
        match r {
            Some(s) => day_count_in_range(raw_days_since_1900 as int) && s@ == civil_date_text(
                raw_days_since_1900 - 2,
            ),
            None => !day_count_in_range(raw_days_since_1900 as int),
        },
{
    if raw_days_since_1900 >= MIN_DAY_OFFSET + 2 && raw_days_since_1900 <= MAX_DAY_OFFSET + 2 {
        Some(render_date_from_epoch_offset(raw_days_since_1900 - 2))
    } else {
        None
    }
}

} // verus!
