use browser_history::Browser;
use browser_history::RawRow;
use browser_history::RowError;
use browser_history::RowErrorKind;
use browser_history::chrome_rows_to_records;
use browser_history::firefox_rows_to_records;
use browser_history::safari_rows_to_records;
use browser_history::url_is_internal;

fn row(url: Option<&str>, title: Option<&str>, visit_time: Option<i64>) -> RawRow {
    RawRow {
        url: url.map(|s| s.to_string()),
        title: title.map(|s| s.to_string()),
        visit_time,
    }
}

#[test]
fn chrome_maps_rows_in_order() {
    let rows = vec![
        row(Some("https://a.example"), Some("A"), Some(11_644_473_600_000_000)),
        row(Some("https://b.example"), Some("B"), Some(11_644_473_601_000_000)),
    ];
    let recs = chrome_rows_to_records(rows, "/p/History").unwrap();
    assert_eq!(recs.len(), 2);
    assert_eq!(recs[0].url, "https://a.example");
    assert_eq!(recs[0].title, "A");
    assert_eq!(recs[0].visit_time.micros, 0);
    assert_eq!(recs[0].source_path, "/p/History");
    assert_eq!(recs[0].browser, Browser::Chrome);
    assert_eq!(recs[1].url, "https://b.example");
    assert_eq!(recs[1].visit_time.micros, 1_000_000);
}

#[test]
fn chrome_missing_url_aborts_read() {
    let rows = vec![row(None, Some("A"), Some(0))];
    let err = chrome_rows_to_records(rows, "/p/History").unwrap_err();
    assert_eq!(err, RowError { row: 0, kind: RowErrorKind::MissingUrl });
}

#[test]
fn chrome_missing_title_aborts_read() {
    let rows = vec![
        row(Some("https://a.example"), Some("A"), Some(0)),
        row(Some("https://b.example"), None, Some(0)),
    ];
    let err = chrome_rows_to_records(rows, "/p/History").unwrap_err();
    assert_eq!(err, RowError { row: 1, kind: RowErrorKind::MissingTitle });
}

#[test]
fn chrome_missing_time_aborts_read() {
    let rows = vec![row(Some("https://a.example"), Some("A"), None)];
    let err = chrome_rows_to_records(rows, "/p/History").unwrap_err();
    assert_eq!(err, RowError { row: 0, kind: RowErrorKind::MissingTime });
}

#[test]
fn chrome_overflow_aborts_read() {
    let rows = vec![row(Some("https://a.example"), Some("A"), Some(i64::MIN))];
    let err = chrome_rows_to_records(rows, "/p/History").unwrap_err();
    assert_eq!(err, RowError { row: 0, kind: RowErrorKind::TimeOutOfRange });
}

#[test]
fn internal_url_detection() {
    assert!(url_is_internal("about:blank"));
    assert!(url_is_internal("place:query"));
    assert!(url_is_internal("about:"));
    assert!(!url_is_internal("about"));
    assert!(!url_is_internal(""));
    assert!(!url_is_internal("https://example.org/about:blank"));
}

#[test]
fn firefox_filters_internal_urls() {
    let rows = vec![
        row(Some("about:blank"), Some("New tab"), Some(10)),
        row(Some("https://a.example"), Some("A"), Some(20)),
        row(Some("place:query"), Some("Query"), Some(30)),
        row(Some("https://b.example"), Some("B"), Some(40)),
    ];
    let recs = firefox_rows_to_records(rows, "/p/places.sqlite").unwrap();
    assert_eq!(recs.len(), 2);
    assert_eq!(recs[0].url, "https://a.example");
    assert_eq!(recs[1].url, "https://b.example");
    for r in &recs {
        assert!(!url_is_internal(&r.url));
        assert_eq!(r.browser, Browser::Firefox);
    }
}

#[test]
fn firefox_null_title_defaults_to_url() {
    let rows = vec![row(Some("https://a.example"), None, Some(7))];
    let recs = firefox_rows_to_records(rows, "/p/places.sqlite").unwrap();
    assert_eq!(recs[0].title, "https://a.example");
    assert_eq!(recs[0].visit_time.micros, 7);
}

#[test]
fn firefox_missing_time_on_kept_row_aborts() {
    let rows = vec![
        row(Some("https://a.example"), Some("A"), Some(1)),
        row(Some("https://b.example"), Some("B"), None),
    ];
    let err = firefox_rows_to_records(rows, "/p/places.sqlite").unwrap_err();
    assert_eq!(err, RowError { row: 1, kind: RowErrorKind::MissingTime });
}

#[test]
fn firefox_dropped_row_cannot_abort() {
    let rows = vec![
        row(Some("about:blank"), None, None),
        row(Some("https://a.example"), Some("A"), Some(1)),
    ];
    let recs = firefox_rows_to_records(rows, "/p/places.sqlite").unwrap();
    assert_eq!(recs.len(), 1);
    assert_eq!(recs[0].url, "https://a.example");
}

#[test]
fn firefox_missing_url_aborts() {
    let rows = vec![row(None, Some("A"), Some(1))];
    let err = firefox_rows_to_records(rows, "/p/places.sqlite").unwrap_err();
    assert_eq!(err, RowError { row: 0, kind: RowErrorKind::MissingUrl });
}

#[test]
fn safari_null_title_defaults_to_empty() {
    let rows = vec![row(Some("https://a.example"), None, Some(0))];
    let recs = safari_rows_to_records(rows, "/p/History.db").unwrap();
    assert_eq!(recs[0].title, "");
    assert_eq!(recs[0].visit_time.micros, 978_307_200_000_000);
    assert_eq!(recs[0].browser, Browser::Safari);
}

#[test]
fn safari_present_title_is_kept() {
    let rows = vec![row(Some("https://a.example"), Some("A"), Some(0))];
    let recs = safari_rows_to_records(rows, "/p/History.db").unwrap();
    assert_eq!(recs[0].title, "A");
}

#[test]
fn safari_overflow_aborts_read() {
    let rows = vec![row(Some("https://a.example"), None, Some(i64::MAX))];
    let err = safari_rows_to_records(rows, "/p/History.db").unwrap_err();
    assert_eq!(err, RowError { row: 0, kind: RowErrorKind::TimeOutOfRange });
}

#[test]
fn safari_missing_url_aborts_read() {
    let rows = vec![row(None, None, Some(0))];
    let err = safari_rows_to_records(rows, "/p/History.db").unwrap_err();
    assert_eq!(err, RowError { row: 0, kind: RowErrorKind::MissingUrl });
}
