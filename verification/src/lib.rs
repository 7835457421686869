//! Extraction, normalization and ordering of browser visit history.
//!
//! Chrome, Firefox and Safari each store visited URLs in a SQLite database,
//! with timestamps counted from three different epochs in two different
//! units. This library holds the logic of a one-shot export of that history:
//! converting each browser's raw timestamps to one common UTC
//! representation, mapping fetched rows to visit records under each
//! browser's conventions, merging the records of many sources while
//! tolerating per-file failures, ordering them newest first, and rendering
//! the rows of the final CSV report. Walking profile directories, querying
//! the databases and writing the report file are left to the caller, which
//! hands this library plain values and takes plain values back.

use vstd::prelude::*;

mod aggregate;
mod discover;
mod export;
mod reader;
mod record;
mod time;

pub use aggregate::SourceError;
pub use aggregate::aggregate_run;
pub use aggregate::merge_source_results;
pub use aggregate::merged_failures;
pub use aggregate::merged_records;
pub use aggregate::should_export;
pub use aggregate::sort_visits_desc;
pub use aggregate::sorted_by_time_desc;
pub use discover::WalkEntry;
pub use discover::candidates_model;
pub use discover::chrome_profile_root;
pub use discover::chrome_profile_root_model;
pub use discover::firefox_profile_root;
pub use discover::firefox_profile_root_model;
pub use discover::history_db_name;
pub use discover::matches_history_db_name;
pub use discover::safari_history_path;
pub use discover::safari_history_path_model;
pub use discover::select_candidate_paths;
pub use export::ExportError;
pub use export::RFC3339_MAX_MICROS;
pub use export::RFC3339_MIN_MICROS;
pub use export::header_model;
pub use export::header_row;
pub use export::record_to_row;
pub use export::render_rows;
pub use export::renderable;
pub use export::report_file_name;
pub use export::report_file_name_model;
pub use export::rfc3339_of;
pub use export::row_model;
pub use reader::RawRow;
pub use reader::RowError;
pub use reader::RowErrorKind;
pub use reader::chrome_records_model;
pub use reader::chrome_row_error_kind;
pub use reader::chrome_row_model;
pub use reader::chrome_row_ok;
pub use reader::chrome_rows_to_records;
pub use reader::firefox_keeps;
pub use reader::firefox_records_model;
pub use reader::firefox_row_error_kind;
pub use reader::firefox_row_model;
pub use reader::firefox_row_ok;
pub use reader::firefox_rows_to_records;
pub use reader::is_internal_url;
pub use reader::lemma_chrome_provenance;
pub use reader::lemma_firefox_excludes_internal;
pub use reader::lemma_firefox_provenance;
pub use reader::lemma_firefox_title_default;
pub use reader::lemma_safari_provenance;
pub use reader::lemma_safari_title_default;
pub use reader::safari_records_model;
pub use reader::safari_row_error_kind;
pub use reader::safari_row_model;
pub use reader::safari_row_ok;
pub use reader::safari_rows_to_records;
pub use reader::url_is_internal;
pub use record::Browser;
pub use record::RecordModel;
pub use record::VisitRecord;
pub use record::browser_label;
pub use record::record_wf;
pub use time::CHROME_EPOCH_OFFSET_MICROS;
pub use time::MICROS_PER_SEC;
pub use time::SAFARI_EPOCH_OFFSET_SECS;
pub use time::SECS_PER_DAY;
pub use time::UtcInstant;
pub use time::chrome_to_utc;
pub use time::chrome_utc_micros;
pub use time::firefox_to_utc;
pub use time::firefox_utc_micros;
pub use time::fits_i64;
pub use time::gregorian_days_from_1601;
pub use time::is_leap_year;
pub use time::leap_years_before;
pub use time::lemma_chrome_monotonic;
pub use time::lemma_chrome_offset_matches_calendar;
pub use time::lemma_firefox_monotonic;
pub use time::lemma_leap_count_step;
pub use time::lemma_safari_monotonic;
pub use time::lemma_safari_offset_matches_calendar;
pub use time::safari_to_utc;
pub use time::safari_utc_micros;
