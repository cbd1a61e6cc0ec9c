use torbridge::config::{
    config_from_options, get_lock_file_path, get_logfile_path, get_tor_dir_path, get_tor_password,
    get_tor_port, get_tor_username, new_identity,
};
use torbridge::cli::CliOptions;
use torbridge::messages::ReqMessage;
use torbridge::requests::{
    bad_url_error, build_client, classify_url, decode_certificate, degrade_headers, host_is_onion,
    parse_method, plan_client, req_error_text, response_to_msg, route_request_step, socks_url,
    CertSource, HttpMethod, ReqError, Route, RoutePlan,
};
use torbridge::state::{is_tor_ready, is_tor_started, new_state, set_tor_is_ready};
use torbridge::tor::{supervisor_reply, tor_launch_config, TorOutcome};

const DER_CERT: &str = "MIICJjCCAc2gAwIBAgIQHRYicyiRtp-G-uZNJtaGnTAKBggqhkjOPQQDAjA5MR8wHQYDVQQKExZsbmQgYXV0b2dlbmVyYXRlZCBjZXJ0MRYwFAYDVQQDEw1saW9vcHRpLmxvY2FsMB4XDTIxMTAyMTExMDYwMloXDTIyMTIxNjExMDYwMlowOTEfMB0GA1UEChMWbG5kIGF1dG9nZW5lcmF0ZWQgY2VydDEWMBQGA1UEAxMNbGlvb3B0aS5sb2NhbDBZMBMGByqGSM49AgEGCCqGSM49AwEHA0IABMuzk_4We3TjwXwe-gTAqM8unTW9Vdu5MDPlnN7ii7-Nfk_oadIJLd_6MUGUjIpsjr1AcBg5iY-wDLPYjA-xAtejgbYwgbMwDgYDVR0PAQH_BAQDAgKkMBMGA1UdJQQMMAoGCCsGAQUFBwMBMA8GA1UdEwEB_wQFMAMBAf8wHQYDVR0OBBYEFGpUZqHMoSMF_pY_wWbCeql_Tap0MFwGA1UdEQRVMFOCCWxvY2FsaG9zdIINbGlvb3B0aS5sb2NhbIIEdW5peIIKdW5peHBhY2tldIIHYnVmY29ubocEfwAAAYcQAAAAAAAAAAAAAAAAAAAAAYcEChUVCTAKBggqhkjOPQQDAgNHADBEAiAllMVRefoE_jA6u5yqA5vlD0wBL1P2cTjwmeKlkJPlwgIgFa_BAAroLE1HGNZkj5I2fAvYWIegE5c_LHXoWbzKgtw";

#[test]
fn onion_suffix_decides_the_route() {
    assert!(host_is_onion("facebookwkhpilnemxj7asaniu7vnjjbiltxjqhye3mhbshg7kx5tfyd.onion"));
    assert!(!host_is_onion("github.com"));
    assert!(!host_is_onion("onion"));
    assert!(!host_is_onion("not-onion.example"));
}

#[test]
fn classification_of_destinations() {
    assert_eq!(classify_url("https://github.com"), Some(Route::Direct));
    assert_eq!(
        classify_url("https://facebookwkhpilnemxj7asaniu7vnjjbiltxjqhye3mhbshg7kx5tfyd.onion"),
        Some(Route::Proxied)
    );
    assert_eq!(
        classify_url("https://wqskhzt3oiz76dgqbqh27j3qw5aeaui3jxyexzuwxqa5czzo24i3z3ad.onion:8080"),
        Some(Route::Proxied)
    );
    assert_eq!(classify_url("not a url"), None);
    assert_eq!(classify_url("https://127.0.0.1:8080"), Some(Route::Direct));
}

#[test]
fn route_step_drives_the_proxy_state() {
    let mut st = new_state(false);
    let direct = route_request_step(&mut st, "https://github.com");
    assert_eq!(direct, RoutePlan::SendNow { route: Route::Direct });
    assert!(!is_tor_started(&st));

    let first = route_request_step(&mut st, "https://example.onion");
    assert_eq!(first, RoutePlan::AwaitProxy { launch: true });
    assert!(is_tor_started(&st));

    let second = route_request_step(&mut st, "https://example.onion");
    assert_eq!(second, RoutePlan::AwaitProxy { launch: false });

    set_tor_is_ready(&mut st, true);
    let third = route_request_step(&mut st, "https://example.onion");
    assert_eq!(third, RoutePlan::SendNow { route: Route::Proxied });
    assert!(is_tor_ready(&st));

    let bad = route_request_step(&mut st, ":::");
    assert_eq!(bad, RoutePlan::BadUrl);
}

#[test]
fn urlsafe_der_cert_is_taken_on_the_der_path() {
    let decoded = decode_certificate(DER_CERT).expect("certificate material should be accepted");
    assert_eq!(decoded.source, CertSource::UrlSafeDer);
}

#[test]
fn pem_cert_is_taken_on_the_pem_fallback() {
    let der = base64::decode_config(DER_CERT, base64::URL_SAFE).expect("literal should decode");
    let body = base64::encode(&der);
    let mut pem = String::from("-----BEGIN CERTIFICATE-----\n");
    pem.push_str(&body);
    pem.push_str("\n-----END CERTIFICATE-----\n");
    let decoded = decode_certificate(&pem).expect("pem material should be accepted");
    assert_eq!(decoded.source, CertSource::Pem);
}

#[test]
fn plan_reflects_route_and_certificate() {
    let ident = new_identity(4242);
    let plan = plan_client(Route::Proxied, &None, &ident);
    assert!(plan.proxied);
    assert!(plan.cert.is_none());
    assert!(plan.accept_invalid_certs);
    assert_eq!(plan.timeout_secs, 75);
    assert_eq!(plan.socks_port, ident.port);
    assert_eq!(plan.socks_username, ident.username);
    assert_eq!(plan.socks_password, ident.password);

    let plan = plan_client(Route::Direct, &None, &ident);
    assert!(!plan.proxied);
    assert!(!plan.accept_invalid_certs);

    let plan = plan_client(Route::Proxied, &Some(String::from(DER_CERT)), &ident);
    assert!(plan.cert.is_some());
    assert!(!plan.accept_invalid_certs);
}

#[test]
fn clients_can_be_built_for_both_routes() {
    let ident = new_identity(4242);
    let direct = build_client(plan_client(Route::Direct, &None, &ident));
    assert!(direct.is_ok());
    let proxied = build_client(plan_client(Route::Proxied, &Some(String::from(DER_CERT)), &ident));
    assert!(proxied.is_ok());
}

#[test]
fn socks_endpoint_rendering() {
    assert_eq!(socks_url(19051), String::from("socks5h://127.0.0.1:19051"));
    assert_eq!(socks_url(29050), String::from("socks5h://127.0.0.1:29050"));
}

#[test]
fn reply_echoes_the_request_id() {
    let mut msg: ReqMessage = Default::default();
    msg.id = String::from("10");
    let headers = vec![(String::from("content-type"), String::from("text/plain"))];
    let reply = response_to_msg(msg.id, 200, headers.clone(), String::from("hello"));
    assert_eq!(reply.id, String::from("10"));
    assert_eq!(reply.status, 200);
    assert_eq!(reply.headers, headers);
    assert_eq!(reply.body, String::from("hello"));
}

#[test]
fn bad_url_error_names_the_request() {
    let e = bad_url_error("13");
    assert_eq!(req_error_text(&e), String::from("[13] Can not parse URL"));
    assert!(matches!(e, ReqError::Message(_)));
}

#[test]
fn identity_invariants_hold() {
    let ident = new_identity(31337);
    assert!(ident.port >= 19050 && ident.port <= 29050);
    assert_eq!(ident.username.len(), 10);
    assert!(ident.username.chars().all(|c| c.is_ascii_alphanumeric()));
    assert_eq!(ident.password.len(), 10);
    assert!(ident.password.chars().all(|c| c.is_ascii_alphanumeric()));
    assert_eq!(ident.pid, 31337);
    assert_eq!(get_tor_port(&ident), ident.port);
    assert_eq!(get_tor_username(&ident), ident.username);
    assert_eq!(get_tor_password(&ident), ident.password);
}

#[test]
fn config_paths_and_lock_file_name() {
    let opts = CliOptions { log_file: Some(String::from("/tmp/bridge.log")), tor_dir: None };
    let cfg = config_from_options(opts, String::from("/tmp/default.log"), String::from("/tmp/tor"));
    assert_eq!(get_logfile_path(&cfg), String::from("/tmp/bridge.log"));
    assert_eq!(get_tor_dir_path(&cfg), String::from("/tmp/tor"));
    assert_eq!(get_lock_file_path(&cfg), String::from("/tmp/bridge.log.process"));
}

#[test]
fn launch_config_carries_the_identity() {
    let opts = CliOptions { log_file: None, tor_dir: None };
    let cfg = config_from_options(opts, String::from("/tmp/a.log"), String::from("/tmp/tordir"));
    let ident = new_identity(1);
    let lc = tor_launch_config(&cfg, &ident);
    assert_eq!(lc.data_dir, String::from("/tmp/tordir"));
    assert_eq!(lc.control_port, 0);
    assert_eq!(lc.log_file, String::from("/tmp/a.log"));
    assert!(lc.quiet);
    assert_eq!(lc.socks_port, ident.port);
    assert_eq!(lc.socks_username, ident.username);
    assert_eq!(lc.socks_password, ident.password);
}

#[test]
fn unparseable_headers_degrade_to_empty_with_a_log_line() {
    let kept = degrade_headers(Some(5i32), 0i32, "9");
    assert_eq!(kept, (5, None));
    let dropped = degrade_headers(None::<i32>, 0i32, "9");
    assert_eq!(dropped, (0, Some(String::from("[9] headers were not parsed"))));
}

#[test]
fn unknown_methods_degrade_to_options() {
    assert_eq!(parse_method("GET"), HttpMethod::Get);
    assert_eq!(parse_method("POST"), HttpMethod::Post);
    assert_eq!(parse_method("PUT"), HttpMethod::Put);
    assert_eq!(parse_method("DELETE"), HttpMethod::Delete);
    assert_eq!(parse_method("get"), HttpMethod::Options);
    assert_eq!(parse_method("PATCH"), HttpMethod::Options);
}

#[test]
fn supervisor_mirrors_the_exit_code() {
    let (msg, code) = supervisor_reply(&TorOutcome::Exited(3));
    assert_eq!(msg.id, String::from("status"));
    assert_eq!(msg.status, 3);
    assert_eq!(msg.body, String::from("terminate"));
    assert_eq!(code, 3);
    assert_eq!(
        msg.headers,
        vec![
            (String::from("X-Alby-internal"), String::from("true")),
            (
                String::from("X-Alby-description"),
                String::from("Tor thread was terminated")
            )
        ]
    );

    let (msg, code) = supervisor_reply(&TorOutcome::SpawnFailed);
    assert_eq!(msg.status, 502);
    assert_eq!(msg.body, String::from("error"));
    assert_eq!(code, 1);
}
