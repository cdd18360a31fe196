use roblox_bridge::relay::{
    body_read_failed_message, classify_response, execute_url, handshake_request, probe_address,
    request_failed_message, require_payload,
};
use roblox_bridge::scan::{
    scan_outcomes, scan_probe_port, scan_result, scan_start, scan_step, ProbeOutcome, ScanState,
    END_PORT, START_PORT,
};
use roblox_bridge::text::u16_dec;

fn no_server() -> ProbeOutcome {
    ProbeOutcome::ConnectFailed {
        error: String::from("Connection refused (os error 111)"),
    }
}

fn secret_response() -> ProbeOutcome {
    ProbeOutcome::Responded {
        body: String::from("HTTP/1.1 200 OK\r\n\r\nhello 0xdeadbeef world"),
    }
}

fn range_size() -> usize {
    (END_PORT - START_PORT + 1) as usize
}

#[test]
fn range_bounds_are_fixed() {
    assert_eq!(START_PORT, 6969);
    assert_eq!(END_PORT, 7069);
    assert_eq!(range_size(), 101);
}

#[test]
fn probed_ports_stay_in_range() {
    // Walk the whole range with failing probes: every port the scanner asks
    // for must lie inside [START_PORT, END_PORT].
    let mut state = scan_start();
    let mut probes = 0usize;
    while let Some(port) = scan_probe_port(&state) {
        assert!((START_PORT..=END_PORT).contains(&port));
        probes += 1;
        state = scan_step(state, no_server());
    }
    assert_eq!(probes, range_size());
}

#[test]
fn single_match_is_found_and_used() {
    let mut outcomes = Vec::new();
    for port in START_PORT..=END_PORT {
        if port == 7000 {
            outcomes.push(secret_response());
        } else {
            outcomes.push(no_server());
        }
    }
    let state = scan_outcomes(outcomes);
    match scan_result(state) {
        Ok(port) => assert_eq!(port, 7000),
        Err(e) => panic!("scan failed: {}", e),
    }
}

#[test]
fn no_match_reports_range_and_last_error() {
    let outcomes: Vec<ProbeOutcome> = (0..range_size()).map(|_| no_server()).collect();
    let state = scan_outcomes(outcomes);
    match scan_result(state) {
        Ok(port) => panic!("unexpected port {}", port),
        Err(e) => {
            assert_eq!(
                e,
                "Could not locate HTTP server on ports 6969-7069. \
                 Last error: Connection refused (os error 111)"
            );
            assert!(e.contains("6969"));
            assert!(e.contains("7069"));
        }
    }
}

#[test]
fn lowest_matching_port_wins() {
    let mut outcomes = Vec::new();
    for port in START_PORT..=END_PORT {
        if port == 6979 || port == 7019 {
            outcomes.push(secret_response());
        } else {
            outcomes.push(no_server());
        }
    }
    let state = scan_outcomes(outcomes);
    assert_eq!(scan_result(state), Ok(6979));
}

#[test]
fn response_without_token_is_skipped() {
    let mut state = scan_start();
    state = scan_step(
        state,
        ProbeOutcome::Responded {
            body: String::from("HTTP/1.1 200 OK\r\n\r\nnothing to see"),
        },
    );
    assert_eq!(scan_probe_port(&state), Some(START_PORT + 1));
}

#[test]
fn write_and_read_failures_are_recorded() {
    let mut outcomes: Vec<ProbeOutcome> = (0..range_size() - 1).map(|_| no_server()).collect();
    outcomes.push(ProbeOutcome::WriteFailed);
    let state = scan_outcomes(outcomes);
    match scan_result(state) {
        Err(e) => assert!(e.ends_with("Last error: Failed to write request to server.")),
        Ok(_) => panic!("scan should fail"),
    }

    let mut outcomes: Vec<ProbeOutcome> = (0..range_size() - 1).map(|_| no_server()).collect();
    outcomes.push(ProbeOutcome::ReadFailed);
    let state = scan_outcomes(outcomes);
    match scan_result(state) {
        Err(e) => assert!(e.ends_with("Last error: Failed to read response from server.")),
        Ok(_) => panic!("scan should fail"),
    }
}

#[test]
fn unmatched_response_keeps_previous_error() {
    // A response that lacks the token leaves the last-error record alone.
    let mut state = scan_start();
    for _ in 0..(range_size() - 1) {
        state = scan_step(state, no_server());
    }
    state = scan_step(
        state,
        ProbeOutcome::Responded {
            body: String::from("not the one"),
        },
    );
    match state {
        ScanState::Failed { message } => assert!(
            message.ends_with("Last error: Connection refused (os error 111)"),
            "got: {}",
            message
        ),
        _ => panic!("scan should have finished"),
    }
}

#[test]
fn success_response_yields_body() {
    let r = classify_response(200, String::from("B"));
    assert_eq!(r, Ok(String::from("B")));
    let r = classify_response(204, String::from(""));
    assert_eq!(r, Ok(String::from("")));
}

#[test]
fn error_status_yields_http_error() {
    let r = classify_response(500, String::from("X"));
    assert_eq!(r, Err(String::from("HTTP 500: X")));
    let r = classify_response(404, String::from("missing"));
    assert_eq!(r, Err(String::from("HTTP 404: missing")));
    // An unreadable body degrades to the empty string, not a failure.
    let r = classify_response(502, String::from(""));
    assert_eq!(r, Err(String::from("HTTP 502: ")));
    let r = classify_response(199, String::from("early"));
    assert_eq!(r, Err(String::from("HTTP 199: early")));
    let r = classify_response(300, String::from("moved"));
    assert_eq!(r, Err(String::from("HTTP 300: moved")));
}

#[test]
fn missing_payload_is_rejected() {
    match require_payload(None) {
        Err(e) => assert_eq!(e, "No valid script to execute."),
        Ok(_) => panic!("missing payload must be rejected"),
    }
    assert_eq!(
        require_payload(Some(String::from("print(1)"))),
        Ok(String::from("print(1)"))
    );
}

#[test]
fn wire_strings_are_exact() {
    assert_eq!(probe_address(6969), "127.0.0.1:6969");
    assert_eq!(
        handshake_request(6969),
        "GET /secret HTTP/1.1\r\nHost: 127.0.0.1:6969\r\nConnection: close\r\n\r\n"
    );
    assert_eq!(execute_url(7000), "http://127.0.0.1:7000/execute");
    assert_eq!(
        request_failed_message("connection reset"),
        "HTTP request failed: connection reset"
    );
    assert_eq!(
        body_read_failed_message("truncated"),
        "Failed to read response body: truncated"
    );
}

#[test]
fn decimal_formatting_is_exact() {
    assert_eq!(u16_dec(0), "0");
    assert_eq!(u16_dec(7), "7");
    assert_eq!(u16_dec(10), "10");
    assert_eq!(u16_dec(6969), "6969");
    assert_eq!(u16_dec(65535), "65535");
}
