//! The domain entity: one browsing-history visit.

use vstd::prelude::*;
use crate::time::UtcInstant;

verus! {

/// The browser whose database a record came from.
#[derive(Clone, Copy, PartialEq, Eq, Structural, Debug)]
pub enum Browser {
    Chrome,
    Firefox,
    Safari,
}

/// The fixed display label of each browser tag.
pub open spec fn browser_label(b: Browser) -> Seq<char> {
    match b {
        Browser::Chrome => "Chrome"@,
        Browser::Firefox => "Firefox"@,
        Browser::Safari => "Safari"@,
    }
}

impl Browser {
    /// The display label, as used in the exported report.
    pub fn label(&self) -> (r: &'static str)
        ensures
            r@ == browser_label(*self),
    {
        match self {
            Browser::Chrome => "Chrome",
            Browser::Firefox => "Firefox",
            Browser::Safari => "Safari",
        }
    }
}

/// One materialized browsing-history entry. Immutable once constructed:
/// records are only collected and sorted, never updated.
#[derive(Debug)]
pub struct VisitRecord {
    /// The visited resource identifier, verbatim from the source database.
    pub url: String,
    /// The page title; may be empty depending on the source schema.
    pub title: String,
    /// Absolute UTC instant of the visit, derived by the source's epoch
    /// conversion.
    pub visit_time: UtcInstant,
    /// Filesystem path of the originating database, for provenance.
    pub source_path: String,
    /// Which browser's converter and query produced this record.
    pub browser: Browser,
}

/// The mathematical content of a `VisitRecord`.
pub struct RecordModel {
    pub url: Seq<char>,
    pub title: Seq<char>,
    pub micros: int,
    pub source_path: Seq<char>,
    pub browser: Browser,
}

impl View for VisitRecord {
    type V = RecordModel;

    open spec fn view(&self) -> RecordModel {
        RecordModel {
            url: self.url@,
            title: self.title@,
            micros: self.visit_time.micros as int,
            source_path: self.source_path@,
            browser: self.browser,
        }
    }
}

/// A well-formed record carries a non-empty provenance path.
pub open spec fn record_wf(m: RecordModel) -> bool {
    m.source_path.len() > 0
}

} // verus!
