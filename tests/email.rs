use channel_builder::email::{registration_html, registration_text, SendOutcome, StatusReport};

#[test]
fn email_report_counts_and_text() {
    let mut r = StatusReport::new();
    r.record_send(SendOutcome::Sent);
    r.record_send(SendOutcome::Sent);
    r.record_send(SendOutcome::BadAddress);
    r.record_send(SendOutcome::BadMessage);
    r.record_send(SendOutcome::SendFailed);
    let answered = r.record_status_report();
    assert_eq!(1, answered.status_report);
    assert_eq!(
        "Email status report:\n  Successes: 2\n  Fails:\n    Parsing addrs: 1\n    Building message: 1\n    Sending: 1\n  Status Reports: 1",
        r.summary()
    );
}

#[test]
fn email_counters_saturate() {
    let mut r = StatusReport::new();
    r.successes = u32::MAX;
    r.record_send(SendOutcome::Sent);
    assert_eq!(u32::MAX, r.successes);
}

#[test]
fn registration_bodies() {
    let text = registration_text("http://localhost:8080", "ABC");
    assert!(text.contains("http://localhost:8080/validate.html?val_code=ABC - if you did not"));
    assert!(text.starts_with("Welcome to Running Stream"));
    let html = registration_html("http://x", "K1");
    assert!(html.contains("<a href=\"http://x/validate.html?val_code=K1\">"));
    assert!(html.ends_with("delete this email.</p>"));
}
