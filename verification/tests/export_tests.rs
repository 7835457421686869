use browser_history::Browser;
use browser_history::UtcInstant;
use browser_history::VisitRecord;
use browser_history::header_row;
use browser_history::record_to_row;
use browser_history::render_rows;

fn rec(url: &str, title: &str, micros: i64, browser: Browser) -> VisitRecord {
    VisitRecord {
        url: url.to_string(),
        title: title.to_string(),
        visit_time: UtcInstant { micros },
        source_path: "/p/db".to_string(),
        browser,
    }
}

#[test]
fn header_has_the_five_fixed_columns() {
    assert_eq!(
        header_row(),
        vec![
            "Timestamp".to_string(),
            "URL".to_string(),
            "Title".to_string(),
            "History File".to_string(),
            "Browser".to_string(),
        ]
    );
}

#[test]
fn row_renders_unix_epoch_as_rfc3339() {
    let row = record_to_row(&rec("https://a.example", "A", 0, Browser::Chrome)).unwrap();
    assert_eq!(row[0], "1970-01-01T00:00:00+00:00");
    assert_eq!(row[1], "https://a.example");
    assert_eq!(row[2], "A");
    assert_eq!(row[3], "/p/db");
    assert_eq!(row[4], "Chrome");
}

#[test]
fn browser_labels_render() {
    let f = record_to_row(&rec("u", "t", 0, Browser::Firefox)).unwrap();
    assert_eq!(f[4], "Firefox");
    let s = record_to_row(&rec("u", "t", 0, Browser::Safari)).unwrap();
    assert_eq!(s[4], "Safari");
}

#[test]
fn timestamp_round_trips_through_rfc3339() {
    let samples: Vec<i64> = vec![
        0,
        1_662_921_288_000_000,
        1_662_921_288_123_456,
        -2_208_936_075_000_000,
        978_307_200_000_000,
    ];
    for micros in samples {
        let row = record_to_row(&rec("u", "t", micros, Browser::Chrome)).unwrap();
        let parsed = chrono::DateTime::parse_from_rfc3339(&row[0]).unwrap();
        // Exact to the microsecond, and in particular to the second.
        assert_eq!(parsed.timestamp_micros(), micros);
        assert_eq!(parsed.timestamp(), micros.div_euclid(1_000_000));
    }
}

#[test]
fn report_keeps_record_order_after_header() {
    let records = vec![
        rec("https://b.example", "B", 2_000_000, Browser::Firefox),
        rec("https://a.example", "A", 1_000_000, Browser::Chrome),
    ];
    let rows = render_rows(&records).unwrap();
    assert_eq!(rows.len(), 3);
    assert_eq!(rows[0][0], "Timestamp");
    assert_eq!(rows[1][1], "https://b.example");
    assert_eq!(rows[2][1], "https://a.example");
    assert_eq!(rows[1][0], "1970-01-01T00:00:02+00:00");
}

#[test]
fn rendering_succeeds_exactly_on_the_calendar_range() {
    let min = browser_history::RFC3339_MIN_MICROS;
    let max = browser_history::RFC3339_MAX_MICROS;
    assert!(record_to_row(&rec("u", "t", min, Browser::Chrome)).is_some());
    assert!(record_to_row(&rec("u", "t", max, Browser::Chrome)).is_some());
    assert!(record_to_row(&rec("u", "t", min - 1, Browser::Chrome)).is_none());
    assert!(record_to_row(&rec("u", "t", max + 1, Browser::Chrome)).is_none());
    assert!(record_to_row(&rec("u", "t", i64::MIN, Browser::Chrome)).is_none());
    assert!(record_to_row(&rec("u", "t", i64::MAX, Browser::Chrome)).is_none());
}

#[test]
fn render_fails_naming_the_first_unrenderable_record() {
    let records = vec![
        rec("a", "A", 0, Browser::Chrome),
        rec("b", "B", browser_history::RFC3339_MAX_MICROS + 1, Browser::Firefox),
        rec("c", "C", 1, Browser::Safari),
    ];
    let err = render_rows(&records).unwrap_err();
    assert_eq!(err.row, 1);
}

#[test]
fn report_file_name_wraps_the_stamp() {
    assert_eq!(
        browser_history::report_file_name("2024-01-02_03-04-05"),
        "browser_history_2024-01-02_03-04-05.csv"
    );
}

#[test]
fn report_of_no_records_is_just_the_header() {
    let records: Vec<VisitRecord> = vec![];
    let rows = render_rows(&records).unwrap();
    assert_eq!(rows.len(), 1);
}
