use torbridge::messages::{
    get_internal_error_msg, get_tor_failed_start_msg, get_tor_started_msg, is_start_tor_action,
    request_log_line, resource_error_body, response_log_line, ReqMessage,
};

#[test]
fn default_request_is_an_empty_get() {
    let msg: ReqMessage = Default::default();
    assert_eq!(msg.id, String::new());
    assert_eq!(msg.url, String::new());
    assert_eq!(msg.method, String::from("GET"));
    assert!(msg.body.is_none());
    assert!(msg.params.is_none());
    assert!(msg.headers.is_none());
    assert!(msg.action.is_none());
    assert!(msg.certificate.is_none());
}

#[test]
fn sentinel_replies_carry_internal_marker() {
    let started = get_tor_started_msg();
    assert_eq!(started.id, String::from("status"));
    assert_eq!(started.status, 100);
    assert_eq!(started.body, String::from("tor_started"));
    assert_eq!(started.headers, vec![(String::from("X-Alby-Internal"), String::from("true"))]);
    let failed = get_tor_failed_start_msg();
    assert_eq!(failed.id, String::from("status"));
    assert_eq!(failed.status, 502);
    assert_eq!(failed.body, String::from("Can not launch Tor"));
    assert_eq!(failed.headers, vec![(String::from("X-Alby-Internal"), String::from("true"))]);
}

#[test]
fn internal_error_echoes_id() {
    let r = get_internal_error_msg(String::from("14"), String::from("boom"));
    assert_eq!(r.id, String::from("14"));
    assert_eq!(r.status, 500);
    assert_eq!(r.body, String::from("boom"));
    assert_eq!(r.headers, vec![(String::from("X-Alby-Internal"), String::from("true"))]);
}

#[test]
fn control_action_recognition() {
    assert!(is_start_tor_action(&Some(String::from("startTor"))));
    assert!(!is_start_tor_action(&Some(String::from("starttor"))));
    assert!(!is_start_tor_action(&None));
}

#[test]
fn error_body_wraps_detail() {
    assert_eq!(
        resource_error_body("connection refused"),
        String::from("Can not get response from resource: connection refused")
    );
}

#[test]
fn body_is_redacted_outside_debug_mode() {
    let mut msg: ReqMessage = Default::default();
    msg.id = String::from("14");
    msg.url = String::from("https://github.com");
    msg.body = Some(String::from("pa_zz_word"));
    let quiet = request_log_line(&msg, false);
    assert!(!quiet.contains("pa_zz_word"));
    assert_eq!(quiet, String::from("message received: 14"));
    let verbose = request_log_line(&msg, true);
    assert!(verbose.contains("pa_zz_word"));
    assert!(verbose.contains("https://github.com"));
}

#[test]
fn response_line_is_redacted_outside_debug_mode() {
    let quiet = response_log_line("14", 200, "secret_payload", false);
    assert!(!quiet.contains("secret_payload"));
    assert_eq!(quiet, String::from("[14] server response status: 200"));
    let verbose = response_log_line("14", 200, "secret_payload", true);
    assert!(verbose.contains("secret_payload"));
}
