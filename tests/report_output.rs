use website_checker::record::{CheckResult, Timestamp};
use website_checker::report::{decimal_text, render_report, report_row, status_text, timestamp_text};
use website_checker::retry::CheckOutcome;

#[test]
fn decimal_values() {
    assert_eq!(decimal_text(0), "0");
    assert_eq!(decimal_text(7), "7");
    assert_eq!(decimal_text(404), "404");
    assert_eq!(decimal_text(65535), "65535");
}

#[test]
fn status_texts() {
    assert_eq!(status_text(&CheckOutcome::Success { status_code: 200 }), "200");
    assert_eq!(
        status_text(&CheckOutcome::Failure { message: "Request failed: timeout".to_string() }),
        "Request failed: timeout"
    );
}

#[test]
fn timestamps_in_rfc3339() {
    assert_eq!(timestamp_text(Timestamp::new(0, 0).unwrap()), "1970-01-01T00:00:00+00:00");
    assert_eq!(timestamp_text(Timestamp::new(1_431_648_000, 0).unwrap()), "2015-05-15T00:00:00+00:00");
    assert_eq!(timestamp_text(Timestamp::new(1, 500_000_000).unwrap()), "1970-01-01T00:00:01.500+00:00");
}

#[test]
fn row_of_result() {
    let r = CheckResult {
        url: "http://a.example".to_string(),
        outcome: CheckOutcome::Success { status_code: 301 },
        elapsed_ms: 85,
        timestamp: Timestamp::new(0, 0).unwrap(),
    };
    let row = report_row(&r);
    assert_eq!(row.url, "http://a.example");
    assert_eq!(row.status, "301");
    assert_eq!(row.response_time_ms, 85);
    assert_eq!(row.timestamp, "1970-01-01T00:00:00+00:00");
}

#[test]
fn report_is_json_array_of_four_fields() {
    let results = vec![
        CheckResult {
            url: "http://up.example".to_string(),
            outcome: CheckOutcome::Success { status_code: 200 },
            elapsed_ms: 31,
            timestamp: Timestamp::new(1_700_000_000, 0).unwrap(),
        },
        CheckResult {
            url: "http://down.example".to_string(),
            outcome: CheckOutcome::Failure { message: "Request failed: \"refused\"".to_string() },
            elapsed_ms: 4002,
            timestamp: Timestamp::new(1_700_000_001, 0).unwrap(),
        },
    ];
    let text = render_report(&results);
    let v: serde_json::Value = serde_json::from_str(&text).unwrap();
    let items = v.as_array().unwrap();
    assert_eq!(items.len(), 2);
    for item in items {
        let obj = item.as_object().unwrap();
        assert_eq!(obj.len(), 4);
        for key in ["url", "status", "response_time_ms", "timestamp"] {
            assert!(obj.contains_key(key));
        }
    }
    assert_eq!(items[0]["url"], "http://up.example");
    assert_eq!(items[0]["status"], "200");
    assert!(items[0]["status"].as_str().unwrap().chars().all(|c| c.is_ascii_digit()));
    assert_eq!(items[0]["response_time_ms"], 31);
    assert_eq!(items[0]["timestamp"], "2023-11-14T22:13:20+00:00");
    assert_eq!(items[1]["status"], "Request failed: \"refused\"");
    assert_eq!(items[1]["response_time_ms"], 4002);
    assert!(text.contains('\n'));
}

#[test]
fn empty_report() {
    assert_eq!(render_report(&Vec::new()), "[]");
}
