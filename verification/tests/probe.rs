use rbar::probe::{interpret, status_url, Info, Reply};
use rbar::state::{ProbeError, ProbeResult};

fn payload(status: &str) -> Reply {
    Reply::Payload(Info { status: status.to_string() })
}

#[test]
fn url_names_port_and_path() {
    assert_eq!(status_url("alpha"), "http://alpha:8114/status");
    assert_eq!(status_url("10.0.0.7"), "http://10.0.0.7:8114/status");
}

#[test]
fn url_of_empty_address() {
    assert_eq!(status_url(""), "http://:8114/status");
}

#[test]
fn url_keeps_the_address_as_written() {
    assert_eq!(status_url("Höst.example"), "http://Höst.example:8114/status");
}

#[test]
fn running_status_is_a_running_service() {
    assert_eq!(
        interpret(&payload("running")),
        Ok(ProbeResult { reachable: true, service_running: true })
    );
}

#[test]
fn any_other_status_is_a_service_that_does_not_run() {
    for status in ["stopped", "", "Running", "running ", " running", "runnin", "RUNNING", "ok"] {
        assert_eq!(
            interpret(&payload(status)),
            Ok(ProbeResult { reachable: true, service_running: false }),
            "status {status:?}"
        );
    }
}

#[test]
fn silence_is_unreachable() {
    assert_eq!(interpret(&Reply::Silent), Err(ProbeError::Unreachable));
}

#[test]
fn unreadable_body_is_an_invalid_response() {
    assert_eq!(interpret(&Reply::Unreadable), Err(ProbeError::InvalidResponse));
}

#[test]
fn info_tells_whether_the_service_runs() {
    assert!(Info { status: "running".to_string() }.is_running());
    assert!(!Info { status: "stopped".to_string() }.is_running());
    assert!(!Info { status: String::new() }.is_running());
}
