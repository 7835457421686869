//! Per-browser row mapping.
//!
//! A source reader hands this module the rows it fetched from one history
//! database; each function below turns them into visit records under the
//! browser's conventions: Chrome requires url, title and timestamp to be
//! present; Firefox drops internal pseudo-URLs and substitutes the url for a
//! missing title; Safari substitutes the empty string for a missing title.
//! A single malformed row aborts the whole read for that file: the policy is
//! all-or-nothing per source database.

use vstd::prelude::*;
use crate::record::Browser;
use crate::record::record_wf;
use crate::record::RecordModel;
use crate::record::VisitRecord;
use crate::time::UtcInstant;
use crate::time::chrome_to_utc;
use crate::time::chrome_utc_micros;
use crate::time::firefox_to_utc;
use crate::time::firefox_utc_micros;
use crate::time::fits_i64;
use crate::time::safari_to_utc;
use crate::time::safari_utc_micros;

verus! {

/// One row as fetched from a history database's join of its pages and
/// visits tables. A column is `None` where the stored value was absent
/// (SQL NULL) or not of the expected type.
pub struct RawRow {
    /// The visited URL.
    pub url: Option<String>,
    /// The page title.
    pub title: Option<String>,
    /// The raw visit time: microseconds since the browser's epoch for
    /// Chrome and Firefox, whole seconds since the browser's epoch for
    /// Safari (truncated before it reaches this module).
    pub visit_time: Option<i64>,
}

/// Why a row was rejected.
#[derive(Clone, Copy, PartialEq, Eq, Structural, Debug)]
pub enum RowErrorKind {
    MissingUrl,
    MissingTitle,
    MissingTime,
    TimeOutOfRange,
}

/// A malformed row, identified by its position in the fetched sequence.
/// One such row aborts the read of its whole source file.
#[derive(Clone, Copy, PartialEq, Eq, Structural, Debug)]
pub struct RowError {
    pub row: usize,
    pub kind: RowErrorKind,
}

/// Whether a URL uses one of Firefox's internal pseudo-schemes,
/// `about:` or `place:`.
pub open spec fn is_internal_url(u: Seq<char>) -> bool {
    u.len() >= 6 && (u.subrange(0, 6) == "about:"@ || u.subrange(0, 6) == "place:"@)
}

/// Decides `is_internal_url` on a URL.
pub fn url_is_internal(u: &str) -> (b: bool)
    ensures
        b == is_internal_url(u@),
{
    let n = u.unicode_len();
    if n < 6 {
        return false;
    }
    let c0 = u.get_char(0);
    let c1 = u.get_char(1);
    let c2 = u.get_char(2);
    let c3 = u.get_char(3);
    let c4 = u.get_char(4);
    let c5 = u.get_char(5);
    let about = c0 == 'a' && c1 == 'b' && c2 == 'o' && c3 == 'u' && c4 == 't' && c5 == ':';
    let place = c0 == 'p' && c1 == 'l' && c2 == 'a' && c3 == 'c' && c4 == 'e' && c5 == ':';
    proof {
        reveal_strlit("about:");
        reveal_strlit("place:");
        let s = u@.subrange(0, 6);
        assert(s.len() == 6);
        assert(s[0] == u@[0] && s[1] == u@[1] && s[2] == u@[2] && s[3] == u@[3] && s[4] == u@[4]
            && s[5] == u@[5]);
        assert("about:"@.len() == 6 && "about:"@[0] == 'a' && "about:"@[1] == 'b'
            && "about:"@[2] == 'o' && "about:"@[3] == 'u' && "about:"@[4] == 't'
            && "about:"@[5] == ':');
        assert("place:"@.len() == 6 && "place:"@[0] == 'p' && "place:"@[1] == 'l'
            && "place:"@[2] == 'a' && "place:"@[3] == 'c' && "place:"@[4] == 'e'
            && "place:"@[5] == ':');
        if about {
            assert(s =~= "about:"@);
        }
        if place {
            assert(s =~= "place:"@);
        }
        if s == "about:"@ {
            assert(about);
        }
        if s == "place:"@ {
            assert(place);
        }
    }
    about || place
}

/// A Chrome row is usable when url, title and timestamp are all present and
/// the converted instant is representable.
pub open spec fn chrome_row_ok(r: RawRow) -> bool {
    &&& r.url is Some
    &&& r.title is Some
    &&& r.visit_time is Some
    &&& fits_i64(chrome_utc_micros(r.visit_time->Some_0 as int))
}

/// The first defect of an unusable Chrome row.
pub open spec fn chrome_row_error_kind(r: RawRow) -> RowErrorKind {
    if r.url is None {
        RowErrorKind::MissingUrl
    } else if r.title is None {
        RowErrorKind::MissingTitle
    } else if r.visit_time is None {
        RowErrorKind::MissingTime
    } else {
        RowErrorKind::TimeOutOfRange
    }
}

/// The record a usable Chrome row maps to.
pub open spec fn chrome_row_model(r: RawRow, path: Seq<char>) -> RecordModel {
    RecordModel {
        url: r.url->Some_0@,
        title: r.title->Some_0@,
        micros: chrome_utc_micros(r.visit_time->Some_0 as int),
        source_path: path,
        browser: Browser::Chrome,
    }
}

/// The full Chrome mapping over a row sequence, in order.
pub open spec fn chrome_records_model(rows: Seq<RawRow>, path: Seq<char>) -> Seq<RecordModel>
    decreases rows.len(),
{
    if rows.len() == 0 {
        Seq::empty()
    } else {
        chrome_records_model(rows.drop_last(), path).push(chrome_row_model(rows.last(), path))
    }
}

/// Whether the Firefox reader keeps a row: its url must be present and must
/// not use an internal pseudo-scheme.
pub open spec fn firefox_keeps(r: RawRow) -> bool {
    r.url is Some && !is_internal_url(r.url->Some_0@)
}

/// A Firefox row is usable when its url is present and, if the row is kept,
/// its timestamp is present too. A missing title is not a defect: the url
/// stands in for it.
pub open spec fn firefox_row_ok(r: RawRow) -> bool {
    r.url is Some && (firefox_keeps(r) ==> r.visit_time is Some)
}

/// The first defect of an unusable Firefox row.
pub open spec fn firefox_row_error_kind(r: RawRow) -> RowErrorKind {
    if r.url is None {
        RowErrorKind::MissingUrl
    } else {
        RowErrorKind::MissingTime
    }
}

/// The record a kept Firefox row maps to: a missing title defaults to the
/// row's own url.
pub open spec fn firefox_row_model(r: RawRow, path: Seq<char>) -> RecordModel {
    RecordModel {
        url: r.url->Some_0@,
        title: if r.title is Some {
            r.title->Some_0@
        } else {
            r.url->Some_0@
        },
        micros: firefox_utc_micros(r.visit_time->Some_0 as int),
        source_path: path,
        browser: Browser::Firefox,
    }
}

/// The full Firefox mapping over a row sequence: kept rows in order,
/// internal pseudo-URL rows dropped.
pub open spec fn firefox_records_model(rows: Seq<RawRow>, path: Seq<char>) -> Seq<RecordModel>
    decreases rows.len(),
{
    if rows.len() == 0 {
        Seq::empty()
    } else {
        let prefix = firefox_records_model(rows.drop_last(), path);
        if firefox_keeps(rows.last()) {
            prefix.push(firefox_row_model(rows.last(), path))
        } else {
            prefix
        }
    }
}

/// A Safari row is usable when url and timestamp are present and the
/// converted instant is representable. A missing title is not a defect.
pub open spec fn safari_row_ok(r: RawRow) -> bool {
    &&& r.url is Some
    &&& r.visit_time is Some
    &&& fits_i64(safari_utc_micros(r.visit_time->Some_0 as int))
}

/// The first defect of an unusable Safari row.
pub open spec fn safari_row_error_kind(r: RawRow) -> RowErrorKind {
    if r.url is None {
        RowErrorKind::MissingUrl
    } else if r.visit_time is None {
        RowErrorKind::MissingTime
    } else {
        RowErrorKind::TimeOutOfRange
    }
}

/// The record a usable Safari row maps to: a missing title defaults to the
/// empty string.
pub open spec fn safari_row_model(r: RawRow, path: Seq<char>) -> RecordModel {
    RecordModel {
        url: r.url->Some_0@,
        title: if r.title is Some {
            r.title->Some_0@
        } else {
            Seq::empty()
        },
        micros: safari_utc_micros(r.visit_time->Some_0 as int),
        source_path: path,
        browser: Browser::Safari,
    }
}

/// The full Safari mapping over a row sequence, in order.
pub open spec fn safari_records_model(rows: Seq<RawRow>, path: Seq<char>) -> Seq<RecordModel>
    decreases rows.len(),
{
    if rows.len() == 0 {
        Seq::empty()
    } else {
        safari_records_model(rows.drop_last(), path).push(safari_row_model(rows.last(), path))
    }
}

/// Maps the rows of one Chrome history database to visit records. Succeeds
/// exactly when every row is usable; the first malformed row aborts the
/// whole read.
pub fn chrome_rows_to_records(rows: Vec<RawRow>, source_path: &str) -> (r: Result<
    Vec<VisitRecord>,
    RowError,
>)
    ensures
        r is Ok <==> (forall|i: int| 0 <= i < rows@.len() ==> chrome_row_ok(rows@[i])),
        r matches Ok(recs) ==> recs@.map_values(|v: VisitRecord| v@) == chrome_records_model(
            rows@,
            source_path@,
        ),
        r matches Err(e) ==> {
            &&& e.row < rows@.len()
            &&& !chrome_row_ok(rows@[e.row as int])
            &&& forall|j: int| 0 <= j < e.row ==> chrome_row_ok(rows@[j])
            &&& e.kind == chrome_row_error_kind(rows@[e.row as int])
        },
{
    let ghost all = rows@;
    let mut remaining = rows;
    assert(all.len() == remaining.len());
    let mut out: Vec<VisitRecord> = Vec::new();
    let mut i: usize = 0;
    while remaining.len() > 0
        invariant
            all == rows@,
            all.len() <= usize::MAX,
            i + remaining@.len() == all.len(),
            remaining@ == all.subrange(i as int, all.len() as int),
            out@.map_values(|v: VisitRecord| v@) == chrome_records_model(
                all.subrange(0, i as int),
                source_path@,
            ),
            forall|j: int| 0 <= j < i ==> chrome_row_ok(all[j]),
        decreases remaining@.len(),
    {
        let row = remaining.remove(0);
        assert(row == all[i as int]);
        assert(i < all.len());
        let RawRow { url, title, visit_time } = row;
        let u = match url {
            Some(u) => u,
            None => {
                assert(!chrome_row_ok(all[i as int]));
                return Err(RowError { row: i, kind: RowErrorKind::MissingUrl });
            },
        };
        let t = match title {
            Some(t) => t,
            None => {
                assert(!chrome_row_ok(all[i as int]));
                return Err(RowError { row: i, kind: RowErrorKind::MissingTitle });
            },
        };
        let raw = match visit_time {
            Some(raw) => raw,
            None => {
                assert(!chrome_row_ok(all[i as int]));
                return Err(RowError { row: i, kind: RowErrorKind::MissingTime });
            },
        };
        let instant = match chrome_to_utc(raw) {
            Some(instant) => instant,
            None => {
                assert(!chrome_row_ok(all[i as int]));
                return Err(RowError { row: i, kind: RowErrorKind::TimeOutOfRange });
            },
        };
        let rec = VisitRecord {
            url: u,
            title: t,
            visit_time: instant,
            source_path: String::from_str(source_path),
            browser: Browser::Chrome,
        };
        out.push(rec);
        i = i + 1;
        proof {
            assert(all.subrange(0, i as int).drop_last() =~= all.subrange(0, i - 1));
            assert(all.subrange(0, i as int).last() == all[i - 1]);
            assert(out@.map_values(|v: VisitRecord| v@) =~= chrome_records_model(
                all.subrange(0, i as int),
                source_path@,
            ));
            assert(remaining@ =~= all.subrange(i as int, all.len() as int));
        }
    }
    proof {
        assert(all.subrange(0, all.len() as int) =~= all);
    }
    Ok(out)
}

/// Maps the rows of one Firefox history database to visit records: internal
/// pseudo-URL rows are dropped, a missing title defaults to the url.
/// Succeeds exactly when every row is usable; the first malformed row aborts
/// the whole read.
pub fn firefox_rows_to_records(rows: Vec<RawRow>, source_path: &str) -> (r: Result<
    Vec<VisitRecord>,
    RowError,
>)
    ensures
        r is Ok <==> (forall|i: int| 0 <= i < rows@.len() ==> firefox_row_ok(rows@[i])),
        r matches Ok(recs) ==> recs@.map_values(|v: VisitRecord| v@) == firefox_records_model(
            rows@,
            source_path@,
        ),
        r matches Err(e) ==> {
            &&& e.row < rows@.len()
            &&& !firefox_row_ok(rows@[e.row as int])
            &&& forall|j: int| 0 <= j < e.row ==> firefox_row_ok(rows@[j])
            &&& e.kind == firefox_row_error_kind(rows@[e.row as int])
        },
{
    let ghost all = rows@;
    let mut remaining = rows;
    assert(all.len() == remaining.len());
    let mut out: Vec<VisitRecord> = Vec::new();
    let mut i: usize = 0;
    while remaining.len() > 0
        invariant
            all == rows@,
            all.len() <= usize::MAX,
            i + remaining@.len() == all.len(),
            remaining@ == all.subrange(i as int, all.len() as int),
            out@.map_values(|v: VisitRecord| v@) == firefox_records_model(
                all.subrange(0, i as int),
                source_path@,
            ),
            forall|j: int| 0 <= j < i ==> firefox_row_ok(all[j]),
        decreases remaining@.len(),
    {
        let row = remaining.remove(0);
        assert(row == all[i as int]);
        assert(i < all.len());
        let RawRow { url, title, visit_time } = row;
        let u = match url {
            Some(u) => u,
            None => {
                assert(!firefox_row_ok(all[i as int]));
                return Err(RowError { row: i, kind: RowErrorKind::MissingUrl });
            },
        };
        if url_is_internal(u.as_str()) {
            i = i + 1;
            proof {
                assert(all.subrange(0, i as int).drop_last() =~= all.subrange(0, i - 1));
                assert(all.subrange(0, i as int).last() == all[i - 1]);
                assert(out@.map_values(|v: VisitRecord| v@) =~= firefox_records_model(
                    all.subrange(0, i as int),
                    source_path@,
                ));
                assert(remaining@ =~= all.subrange(i as int, all.len() as int));
            }
            continue;
        }
        let raw = match visit_time {
            Some(raw) => raw,
            None => {
                assert(!firefox_row_ok(all[i as int]));
                return Err(RowError { row: i, kind: RowErrorKind::MissingTime });
            },
        };
        let instant = firefox_to_utc(raw);
        let t = match title {
            Some(t) => t,
            None => u.clone(),
        };
        let rec = VisitRecord {
            url: u,
            title: t,
            visit_time: instant,
            source_path: String::from_str(source_path),
            browser: Browser::Firefox,
        };
        out.push(rec);
        i = i + 1;
        proof {
            assert(all.subrange(0, i as int).drop_last() =~= all.subrange(0, i - 1));
            assert(all.subrange(0, i as int).last() == all[i - 1]);
            assert(out@.map_values(|v: VisitRecord| v@) =~= firefox_records_model(
                all.subrange(0, i as int),
                source_path@,
            ));
            assert(remaining@ =~= all.subrange(i as int, all.len() as int));
        }
    }
    proof {
        assert(all.subrange(0, all.len() as int) =~= all);
    }
    Ok(out)
}

/// Maps the rows of one Safari history database to visit records: a missing
/// title defaults to the empty string. Succeeds exactly when every row is
/// usable; the first malformed row aborts the whole read.
pub fn safari_rows_to_records(rows: Vec<RawRow>, source_path: &str) -> (r: Result<
    Vec<VisitRecord>,
    RowError,
>)
    ensures
        r is Ok <==> (forall|i: int| 0 <= i < rows@.len() ==> safari_row_ok(rows@[i])),
        r matches Ok(recs) ==> recs@.map_values(|v: VisitRecord| v@) == safari_records_model(
            rows@,
            source_path@,
        ),
        r matches Err(e) ==> {
            &&& e.row < rows@.len()
            &&& !safari_row_ok(rows@[e.row as int])
            &&& forall|j: int| 0 <= j < e.row ==> safari_row_ok(rows@[j])
            &&& e.kind == safari_row_error_kind(rows@[e.row as int])
        },
{
    let ghost all = rows@;
    let mut remaining = rows;
    assert(all.len() == remaining.len());
    let mut out: Vec<VisitRecord> = Vec::new();
    let mut i: usize = 0;
    while remaining.len() > 0
        invariant
            all == rows@,
            all.len() <= usize::MAX,
            i + remaining@.len() == all.len(),
            remaining@ == all.subrange(i as int, all.len() as int),
            out@.map_values(|v: VisitRecord| v@) == safari_records_model(
                all.subrange(0, i as int),
                source_path@,
            ),
            forall|j: int| 0 <= j < i ==> safari_row_ok(all[j]),
        decreases remaining@.len(),
    {
        let row = remaining.remove(0);
        assert(row == all[i as int]);
        assert(i < all.len());
        let RawRow { url, title, visit_time } = row;
        let u = match url {
            Some(u) => u,
            None => {
                assert(!safari_row_ok(all[i as int]));
                return Err(RowError { row: i, kind: RowErrorKind::MissingUrl });
            },
        };
        let raw = match visit_time {
            Some(raw) => raw,
            None => {
                assert(!safari_row_ok(all[i as int]));
                return Err(RowError { row: i, kind: RowErrorKind::MissingTime });
            },
        };
        let instant = match safari_to_utc(raw) {
            Some(instant) => instant,
            None => {
                assert(!safari_row_ok(all[i as int]));
                return Err(RowError { row: i, kind: RowErrorKind::TimeOutOfRange });
            },
        };
        let t = match title {
            Some(t) => t,
            None => String::new(),
        };
        let rec = VisitRecord {
            url: u,
            title: t,
            visit_time: instant,
            source_path: String::from_str(source_path),
            browser: Browser::Safari,
        };
        out.push(rec);
        i = i + 1;
        proof {
            assert(all.subrange(0, i as int).drop_last() =~= all.subrange(0, i - 1));
            assert(all.subrange(0, i as int).last() == all[i - 1]);
            assert(out@.map_values(|v: VisitRecord| v@) =~= safari_records_model(
                all.subrange(0, i as int),
                source_path@,
            ));
            assert(remaining@ =~= all.subrange(i as int, all.len() as int));
        }
    }
    proof {
        assert(all.subrange(0, all.len() as int) =~= all);
    }
    Ok(out)
}

/// Every record the Chrome mapping produces carries the Chrome tag and the
/// source path it was read from; with a non-empty path every record is
/// well formed.
pub proof fn lemma_chrome_provenance(rows: Seq<RawRow>, path: Seq<char>)
    ensures
        forall|i: int|
            0 <= i < chrome_records_model(rows, path).len() ==> {
                &&& (#[trigger] chrome_records_model(rows, path)[i]).source_path == path
                &&& chrome_records_model(rows, path)[i].browser == Browser::Chrome
                &&& path.len() > 0 ==> record_wf(chrome_records_model(rows, path)[i])
            },
    decreases rows.len(),
{
    if rows.len() > 0 {
        lemma_chrome_provenance(rows.drop_last(), path);
    }
}

/// Every record the Firefox mapping produces carries the Firefox tag and
/// the source path it was read from; with a non-empty path every record is
/// well formed.
pub proof fn lemma_firefox_provenance(rows: Seq<RawRow>, path: Seq<char>)
    ensures
        forall|i: int|
            0 <= i < firefox_records_model(rows, path).len() ==> {
                &&& (#[trigger] firefox_records_model(rows, path)[i]).source_path == path
                &&& firefox_records_model(rows, path)[i].browser == Browser::Firefox
                &&& path.len() > 0 ==> record_wf(firefox_records_model(rows, path)[i])
            },
    decreases rows.len(),
{
    if rows.len() > 0 {
        lemma_firefox_provenance(rows.drop_last(), path);
    }
}

/// Every record the Safari mapping produces carries the Safari tag and the
/// source path it was read from; with a non-empty path every record is
/// well formed.
pub proof fn lemma_safari_provenance(rows: Seq<RawRow>, path: Seq<char>)
    ensures
        forall|i: int|
            0 <= i < safari_records_model(rows, path).len() ==> {
                &&& (#[trigger] safari_records_model(rows, path)[i]).source_path == path
                &&& safari_records_model(rows, path)[i].browser == Browser::Safari
                &&& path.len() > 0 ==> record_wf(safari_records_model(rows, path)[i])
            },
    decreases rows.len(),
{
    if rows.len() > 0 {
        lemma_safari_provenance(rows.drop_last(), path);
    }
}

/// A Firefox row without a title yields a record whose title is its own url.
pub proof fn lemma_firefox_title_default(r: RawRow, path: Seq<char>)
    requires
        r.title is None,
    ensures
        firefox_row_model(r, path).title == firefox_row_model(r, path).url,
{
}

/// A Safari row without a title yields a record whose title is empty.
pub proof fn lemma_safari_title_default(r: RawRow, path: Seq<char>)
    requires
        r.title is None,
    ensures
        safari_row_model(r, path).title == Seq::<char>::empty(),
{
}

/// No record the Firefox mapping produces carries an internal pseudo-URL,
/// whatever rows the underlying table held.
pub proof fn lemma_firefox_excludes_internal(rows: Seq<RawRow>, path: Seq<char>)
    ensures
        forall|i: int|
            0 <= i < firefox_records_model(rows, path).len() ==> !is_internal_url(
                #[trigger] firefox_records_model(rows, path)[i].url,
            ),
    decreases rows.len(),
{
    if rows.len() > 0 {
        lemma_firefox_excludes_internal(rows.drop_last(), path);
    }
}

} // verus!
