use http_fuzzer::ITERATIONS;
use http_fuzzer::input::Method;
use http_fuzzer::report::Outcome;
use http_fuzzer::report::report_lines;
use http_fuzzer::report::response_text_or_placeholder;
use http_fuzzer::report::u64_to_dec;
use http_fuzzer::should_continue;

#[test]
fn u64_to_dec_renders_exact_decimal_strings() {
    assert_eq!(u64_to_dec(0), "0");
    assert_eq!(u64_to_dec(7), "7");
    assert_eq!(u64_to_dec(10), "10");
    assert_eq!(u64_to_dec(100), "100");
    assert_eq!(u64_to_dec(203), "203");
    assert_eq!(u64_to_dec(u64::MAX), "18446744073709551615");
}

#[test]
fn successful_get_without_body_reports_status_and_response() {
    let outcome = Outcome::Success { status: 200, body: String::from("ok") };
    let lines = report_lines(1, Method::Get, &None, &outcome);
    assert_eq!(
        lines,
        vec![
            "=== Iteration 1 ===".to_string(),
            "Method: GET".to_string(),
            "Status: 200".to_string(),
            "Response: ok".to_string(),
        ]
    );
}

#[test]
fn unreachable_target_reports_error_and_loop_moves_on() {
    let outcome = Outcome::Failure { error: String::from("connection refused") };
    let lines = report_lines(1, Method::Post, &None, &outcome);
    assert_eq!(
        lines,
        vec![
            "=== Iteration 1 ===".to_string(),
            "Method: POST".to_string(),
            "Request error: connection refused".to_string(),
        ]
    );
    // The failure does not stop the run: the next iteration's block opens
    // with the next iteration header.
    let next = report_lines(2, Method::Get, &None, &outcome);
    assert_eq!(next[0], "=== Iteration 2 ===");
}

#[test]
fn generated_body_is_echoed_before_the_outcome() {
    let outcome = Outcome::Success { status: 404, body: String::from("missing") };
    let body = Some(String::from("abcDE123"));
    let lines = report_lines(3, Method::Put, &body, &outcome);
    assert_eq!(
        lines,
        vec![
            "=== Iteration 3 ===".to_string(),
            "Method: PUT".to_string(),
            "Body: abcDE123".to_string(),
            "Status: 404".to_string(),
            "Response: missing".to_string(),
        ]
    );
}

#[test]
fn undecodable_response_body_becomes_the_placeholder() {
    assert_eq!(response_text_or_placeholder(Some(String::from("fine"))), "fine");
    assert_eq!(response_text_or_placeholder(None), "<error>");
}

#[test]
fn failures_never_cut_the_run_short() {
    // Simulate a full run in which every dispatch fails: the loop still
    // performs every iteration and reports each failure.
    let mut blocks = Vec::new();
    let mut done = 0usize;
    while should_continue(done) {
        let outcome = Outcome::Failure { error: String::from("connection refused") };
        blocks.push(report_lines((done + 1) as u64, Method::Get, &None, &outcome));
        done += 1;
    }
    assert_eq!(ITERATIONS, 100);
    assert_eq!(blocks.len(), 100);
    for (i, block) in blocks.iter().enumerate() {
        assert_eq!(block[0], format!("=== Iteration {} ===", i + 1));
        assert_eq!(block.last().unwrap(), "Request error: connection refused");
    }
}
