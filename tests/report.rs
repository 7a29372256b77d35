use ark_scanner::report::{AttemptAction, CacheLogger, ReportAttempts, ReportSummary, summarize_attempts};

#[test]
fn report_retries_until_success() {
    let summary = summarize_attempts(3, &vec![false, false, true]);
    assert_eq!(summary, ReportSummary { attempts: 3, failure_callbacks: 2, delivered: true });
}

#[test]
fn report_gives_up_after_limit() {
    let summary = summarize_attempts(3, &vec![false; 10]);
    assert_eq!(summary, ReportSummary { attempts: 3, failure_callbacks: 3, delivered: false });
    let next = ReportAttempts::new(3);
    assert_eq!(next.next_action(), AttemptAction::Send);
    assert_eq!(summarize_attempts(3, &vec![false; 10]), summary);
}

#[test]
fn report_first_attempt_success() {
    let summary = summarize_attempts(5, &vec![true, false]);
    assert_eq!(summary, ReportSummary { attempts: 1, failure_callbacks: 0, delivered: true });
}

#[test]
fn report_with_no_retries_sends_nothing() {
    let summary = summarize_attempts(0, &vec![true]);
    assert_eq!(summary, ReportSummary { attempts: 0, failure_callbacks: 0, delivered: false });
}

#[test]
fn report_success_past_limit_is_not_reached() {
    let summary = summarize_attempts(2, &vec![false, false, true]);
    assert_eq!(summary, ReportSummary { attempts: 2, failure_callbacks: 2, delivered: false });
}

#[test]
fn attempts_state_machine() {
    let mut s = ReportAttempts::new(2);
    assert_eq!(s.next_action(), AttemptAction::Send);
    assert!(s.record(false));
    assert_eq!(s.failures, 1);
    assert_eq!(s.next_action(), AttemptAction::Send);
    assert!(!s.record(true));
    assert!(s.delivered);
    assert_eq!(s.next_action(), AttemptAction::Done);
}

#[test]
fn sink_choice() {
    let api = CacheLogger::new(Some("http://example.test/logs".to_string()), Some("k".to_string()), Some(3));
    match api {
        CacheLogger::Api { url, api_key, max_retries } => {
            assert_eq!(url, "http://example.test/logs");
            assert_eq!(api_key, Some("k".to_string()));
            assert_eq!(max_retries, 3);
        }
        CacheLogger::Local => panic!("expected the http sink"),
    }
    assert!(matches!(CacheLogger::new(Some("http://x".to_string()), None, None), CacheLogger::Local));
    assert!(matches!(CacheLogger::new(None, None, Some(3)), CacheLogger::Local));
}
