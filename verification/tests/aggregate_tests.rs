use browser_history::Browser;
use browser_history::SourceError;
use browser_history::UtcInstant;
use browser_history::VisitRecord;
use browser_history::merge_source_results;
use browser_history::should_export;
use browser_history::sort_visits_desc;

fn rec(url: &str, micros: i64, browser: Browser) -> VisitRecord {
    VisitRecord {
        url: url.to_string(),
        title: String::new(),
        visit_time: UtcInstant { micros },
        source_path: "/p".to_string(),
        browser,
    }
}

#[test]
fn sort_orders_newest_first() {
    let records = vec![
        rec("u5", 5, Browser::Chrome),
        rec("u3", 3, Browser::Firefox),
        rec("u9", 9, Browser::Safari),
        rec("u1", 1, Browser::Chrome),
    ];
    let sorted = sort_visits_desc(records);
    let times: Vec<i64> = sorted.iter().map(|r| r.visit_time.micros).collect();
    assert_eq!(times, vec![9, 5, 3, 1]);
}

#[test]
fn sort_keeps_every_record() {
    let records = vec![
        rec("a", 2, Browser::Chrome),
        rec("b", 2, Browser::Firefox),
        rec("c", 1, Browser::Safari),
    ];
    let sorted = sort_visits_desc(records);
    assert_eq!(sorted.len(), 3);
    let mut urls: Vec<String> = sorted.iter().map(|r| r.url.clone()).collect();
    urls.sort();
    assert_eq!(urls, vec!["a".to_string(), "b".to_string(), "c".to_string()]);
    assert!(sorted[0].visit_time.micros >= sorted[1].visit_time.micros);
    assert!(sorted[1].visit_time.micros >= sorted[2].visit_time.micros);
}

#[test]
fn merge_keeps_successes_and_collects_failures() {
    let results = vec![
        Ok(vec![rec("a", 1, Browser::Chrome)]),
        Err(SourceError {
            browser: Browser::Chrome,
            path: "/bad/History".to_string(),
            detail: "not a database".to_string(),
        }),
        Ok(vec![rec("b", 2, Browser::Firefox), rec("c", 3, Browser::Firefox)]),
    ];
    let (records, failures) = merge_source_results(results);
    let urls: Vec<String> = records.iter().map(|r| r.url.clone()).collect();
    assert_eq!(
        urls,
        vec!["a".to_string(), "b".to_string(), "c".to_string()]
    );
    assert_eq!(failures.len(), 1);
    assert_eq!(failures[0].path, "/bad/History");
}

#[test]
fn one_bad_file_does_not_abort_the_run() {
    // One valid but empty database, one unreadable file: the run goes on
    // with zero records and one reported failure.
    let results: Vec<Result<Vec<VisitRecord>, SourceError>> = vec![
        Ok(vec![]),
        Err(SourceError {
            browser: Browser::Chrome,
            path: "/garbage/History".to_string(),
            detail: "file is not a database".to_string(),
        }),
    ];
    let (records, failures) = merge_source_results(results);
    assert_eq!(records.len(), 0);
    assert_eq!(failures.len(), 1);
    assert_eq!(failures[0].path, "/garbage/History");
}

#[test]
fn aggregate_run_merges_and_orders() {
    let results = vec![
        Ok(vec![rec("u5", 5, Browser::Chrome)]),
        Ok(vec![rec("u3", 3, Browser::Firefox)]),
        Err(SourceError {
            browser: Browser::Firefox,
            path: "/bad".to_string(),
            detail: "unreadable".to_string(),
        }),
        Ok(vec![rec("u9", 9, Browser::Safari), rec("u1", 1, Browser::Safari)]),
    ];
    let (records, failures) = browser_history::aggregate_run(results);
    let times: Vec<i64> = records.iter().map(|r| r.visit_time.micros).collect();
    assert_eq!(times, vec![9, 5, 3, 1]);
    assert_eq!(failures.len(), 1);
}

#[test]
fn empty_aggregate_is_not_exported() {
    let none: Vec<VisitRecord> = vec![];
    assert!(!should_export(&none));
    let some = vec![rec("a", 1, Browser::Chrome)];
    assert!(should_export(&some));
}
