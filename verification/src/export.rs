//! Report rendering.
//!
//! The exported CSV has a fixed header and one row per record, the visit
//! time rendered as an RFC 3339 string in UTC. This module builds the cell
//! text of every row; writing the bytes to disk is the caller's affair.

use vstd::prelude::*;
use crate::record::RecordModel;
use crate::record::VisitRecord;
use crate::record::browser_label;

verus! {

/// The RFC 3339 rendering, in UTC, of the instant `micros` microseconds
/// after the Unix epoch.
pub uninterp spec fn rfc3339_of(micros: int) -> Seq<char>;

/// The first microsecond the renderer accepts: 00:00:00 on January 1 of
/// year -262143, the earliest day of its proleptic Gregorian calendar.
pub const RFC3339_MIN_MICROS: i64 = -8_334_601_228_800_000_000;

/// The last microsecond the renderer accepts: the end of December 31 of
/// year 262142, the latest day of its proleptic Gregorian calendar.
pub const RFC3339_MAX_MICROS: i64 = 8_210_266_876_799_999_999;

/// Whether an instant can be rendered: its microsecond count must land on
/// a day of the renderer's calendar.
pub open spec fn renderable(micros: int) -> bool {
    RFC3339_MIN_MICROS <= micros <= RFC3339_MAX_MICROS
}

/// Relies on chrono's `DateTime::<Utc>::from_timestamp_micros` and
/// `DateTime::to_rfc3339`: together they render a microsecond count since
/// the Unix epoch as an RFC 3339 string in UTC, a function of the count
/// alone. `from_timestamp_micros` succeeds exactly when the count's day
/// lies within `NaiveDate`'s years -262143 through 262142; the bounds above
/// are that range of days, read off `DateTime::from_timestamp` and
/// `NaiveDate::from_num_days_from_ce_opt`, in microseconds.
#[verifier::external_body]
fn format_rfc3339_micros(micros: i64) -> (r: Option<String>)
    ensures
        r is Some <==> renderable(micros as int),
        r matches Some(s) ==> s@ == rfc3339_of(micros as int),
{
    match chrono::DateTime::<chrono::Utc>::from_timestamp_micros(micros) {
        Some(d) => Some(d.to_rfc3339()),
        None => None,
    }
}

/// A record whose visit time cannot be rendered, identified by its position
/// in the aggregate. Such an instant lies outside the renderer's range of
/// dates; reporting it beats writing a wrong report.
#[derive(Clone, Copy, PartialEq, Eq, Structural, Debug)]
pub struct ExportError {
    pub row: usize,
}

/// The fixed column names of the report's header row.
pub open spec fn header_model() -> Seq<Seq<char>> {
    seq!["Timestamp"@, "URL"@, "Title"@, "History File"@, "Browser"@]
}

/// The report row of one record: rendered visit time, then the textual
/// fields verbatim.
pub open spec fn row_model(m: RecordModel) -> Seq<Seq<char>> {
    seq![rfc3339_of(m.micros), m.url, m.title, m.source_path, browser_label(m.browser)]
}

/// Builds the report's header row.
pub fn header_row() -> (r: Vec<String>)
    ensures
        r@.map_values(|s: String| s@) == header_model(),
{
    let mut v: Vec<String> = Vec::new();
    v.push(String::from_str("Timestamp"));
    v.push(String::from_str("URL"));
    v.push(String::from_str("Title"));
    v.push(String::from_str("History File"));
    v.push(String::from_str("Browser"));
    proof {
        assert(v@.map_values(|s: String| s@) =~= header_model());
    }
    v
}

/// Builds the report row of one record. Succeeds exactly when the visit
/// time is renderable.
pub fn record_to_row(rec: &VisitRecord) -> (r: Option<Vec<String>>)
    ensures
        r is Some <==> renderable(rec@.micros),
        r matches Some(row) ==> row@.map_values(|s: String| s@) == row_model(rec@),
{
    let ts = match format_rfc3339_micros(rec.visit_time.micros) {
        Some(ts) => ts,
        None => {
            return None;
        },
    };
    let mut row: Vec<String> = Vec::new();
    row.push(ts);
    row.push(rec.url.clone());
    row.push(rec.title.clone());
    row.push(rec.source_path.clone());
    row.push(String::from_str(rec.browser.label()));
    proof {
        assert(row@.map_values(|s: String| s@) =~= row_model(rec@));
    }
    Some(row)
}

/// The name of the report file written for a run stamped `stamp`.
pub open spec fn report_file_name_model(stamp: Seq<char>) -> Seq<char> {
    "browser_history_"@ + stamp + ".csv"@
}

/// Builds the report's file name around the run's timestamp text.
pub fn report_file_name(stamp: &str) -> (r: String)
    ensures
        r@ == report_file_name_model(stamp@),
{
    let mut s = String::from_str("browser_history_");
    s.append(stamp);
    s.append(".csv");
    proof {
        assert(s@ =~= report_file_name_model(stamp@));
    }
    s
}

/// Builds the full report: the header, then one row per record, in the
/// given order. Succeeds exactly when every visit time is renderable;
/// otherwise it fails naming the first record whose visit time is not.
pub fn render_rows(records: &Vec<VisitRecord>) -> (r: Result<Vec<Vec<String>>, ExportError>)
    ensures
        r is Ok <==> (forall|i: int|
            0 <= i < records@.len() ==> renderable((#[trigger] records@[i])@.micros)),
        r matches Ok(rows) ==> {
            &&& rows@.len() == records@.len() + 1
            &&& rows@[0]@.map_values(|s: String| s@) == header_model()
            &&& forall|i: int|
                0 <= i < records@.len() ==> rows@[i + 1]@.map_values(|s: String| s@) == row_model(
                    (#[trigger] records@[i])@,
                )
        },
        r matches Err(e) ==> {
            &&& e.row < records@.len()
            &&& !renderable(records@[e.row as int]@.micros)
            &&& forall|j: int| 0 <= j < e.row ==> renderable((#[trigger] records@[j])@.micros)
        },
{
    let mut rows: Vec<Vec<String>> = Vec::new();
    rows.push(header_row());
    let mut i: usize = 0;
    while i < records.len()
        invariant
            i <= records@.len(),
            rows@.len() == i + 1,
            rows@[0]@.map_values(|s: String| s@) == header_model(),
            forall|j: int| 0 <= j < i ==> renderable((#[trigger] records@[j])@.micros),
            forall|j: int|
                0 <= j < i ==> rows@[j + 1]@.map_values(|s: String| s@) == row_model(
                    (#[trigger] records@[j])@,
                ),
        decreases records@.len() - i,
    {
        match record_to_row(&records[i]) {
            Some(row) => {
                rows.push(row);
            },
            None => {
                return Err(ExportError { row: i });
            },
        }
        i = i + 1;
    }
    Ok(rows)
}

} // verus!
