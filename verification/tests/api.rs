use print_agent::api::{
    ack_result, default_poll, error_from, fetch_next_result, heartbeat_result, is_https, is_success,
    refusal_message, reported_host, truncate, user_agent, ApiError, Endpoint, HeartbeatData, HeartbeatResponse,
    Method, PrintApi, Reply, ERROR_BODY_LIMIT, REQUEST_TIMEOUT_SECS,
};
use reqwest::header::{HeaderMap, HeaderValue};

fn api() -> PrintApi {
    PrintApi::new("https://api.lesscommerce.io/", "lpa_live_secret").unwrap()
}

fn value<'a>(headers: &'a HeaderMap, name: &str) -> Option<&'a str> {
    headers.get(name).map(|v| v.to_str().unwrap())
}

fn reply<T>(status: u16, payload: Option<T>, text: Option<&str>) -> Reply<T> {
    Reply { status, headers: HeaderMap::new(), payload, text: text.map(|s| s.to_string()) }
}

fn job_reply(status: u16, headers: &[(&'static str, &str)], bytes: Option<Vec<u8>>) -> Reply<Vec<u8>> {
    let mut map = HeaderMap::new();
    for (name, value) in headers {
        map.insert(*name, HeaderValue::from_str(value).unwrap());
    }
    Reply { status, headers: map, payload: bytes, text: None }
}

fn heartbeat_data() -> HeartbeatResponse {
    HeartbeatResponse {
        data: HeartbeatData {
            printer_uuid: "p-1".to_string(),
            name: "Warehouse".to_string(),
            is_default: true,
            poll_interval_seconds: 7,
        },
    }
}

#[test]
fn constants_of_the_protocol() {
    assert_eq!(default_poll(), 5);
    assert_eq!(REQUEST_TIMEOUT_SECS, 30);
    assert_eq!(ERROR_BODY_LIMIT, 400);
    assert_eq!(user_agent("0.2.0"), "lesscommerce-print-agent/0.2.0");
    assert_eq!(reported_host(Some("box".to_string())), "box");
    assert_eq!(reported_host(None), "unknown");
}

#[test]
fn heartbeat_request() {
    let request = api().heartbeat("0.2.0", "Zebra ZD220", "box");
    assert_eq!(request.method, Method::Post);
    assert_eq!(request.url, "https://api.lesscommerce.io/api/print/heartbeat");
    assert_eq!(value(&request.headers, "authorization"), Some("Bearer lpa_live_secret"));
    assert_eq!(
        value(&request.headers, "accept"),
        Some("application/json, application/pdf, application/octet-stream")
    );
    assert_eq!(value(&request.headers, "content-type"), Some("application/json"));
    assert_eq!(request.headers.len(), 3);
    assert_eq!(request.body.agent_version, "0.2.0");
    assert_eq!(request.body.system_printer, "Zebra ZD220");
    assert_eq!(request.body.host, "box");
}

#[test]
fn fetch_request_has_no_content_type() {
    let request = api().fetch_next();
    assert_eq!(request.method, Method::Get);
    assert_eq!(request.url, "https://api.lesscommerce.io/api/print/jobs/next");
    assert_eq!(value(&request.headers, "authorization"), Some("Bearer lpa_live_secret"));
    assert_eq!(value(&request.headers, "content-type"), None);
    assert_eq!(request.headers.len(), 2);
}

#[test]
fn acknowledgements() {
    let request = api().ack_printed("job-1", 1234);
    assert_eq!(request.method, Method::Post);
    assert_eq!(request.url, "https://api.lesscommerce.io/api/print/jobs/job-1/ack");
    assert_eq!(request.body.status, "printed");
    assert_eq!(request.body.error, None);
    assert_eq!(request.body.duration_ms, Some(1234));
    assert_eq!(value(&request.headers, "content-type"), Some("application/json"));

    let request = api().ack_failed("job-2", "out of paper");
    assert_eq!(request.url, "https://api.lesscommerce.io/api/print/jobs/job-2/ack");
    assert_eq!(request.body.status, "failed");
    assert_eq!(request.body.error, Some("out of paper"));
    assert_eq!(request.body.duration_ms, None);
}

#[test]
fn trailing_slashes_of_the_address_do_not_count() {
    let expected = "https://x/api/print/jobs/next";
    assert_eq!(PrintApi::new("https://x", "t").unwrap().fetch_next().url, expected);
    assert_eq!(PrintApi::new("https://x/", "t").unwrap().fetch_next().url, expected);
    assert_eq!(PrintApi::new("https://x///", "t").unwrap().fetch_next().url, expected);
}

#[test]
fn token_goes_over_https_alone() {
    for address in ["http://api.example", "http://https://x", "HTTP://x", "ftp://x", "x", "", "/"] {
        let error = PrintApi::new(address, "t").err().unwrap();
        assert!(matches!(error, ApiError::NotHttps));
        assert_eq!(error.message(), "The server address is not an HTTPS address");
    }
    let spellings = [
        "https://x",
        "HTTPS://x",
        "HttpS://x//",
        " \thttps://x",
        "https:/x",
        "https:x",
        "https:\\x",
        "ht\ttps:/\n/x",
        "https:///x/",
    ];
    for address in spellings {
        let api = PrintApi::new(address, "t").unwrap();
        let base = address.trim_end_matches('/');
        assert_eq!(api.heartbeat("1", "p", "h").url, format!("{base}/api/print/heartbeat"));
        let url = reqwest::Url::parse(&api.fetch_next().url).unwrap();
        assert_eq!(url.as_str(), "https://x/api/print/jobs/next");
        assert_eq!(reqwest::Url::parse(&api.ack_printed("j", 1).url).unwrap().scheme(), "https");
        assert_eq!(reqwest::Url::parse(&api.ack_failed("j", "e").url).unwrap().scheme(), "https");
    }
}

#[test]
fn scheme_of_https() {
    assert!(is_https(&Some("https".to_string())));
    assert!(!is_https(&Some("http".to_string())));
    assert!(!is_https(&Some("HTTPS".to_string())));
    assert!(!is_https(&None));
}

#[test]
fn token_that_no_header_can_hold_goes_unsent() {
    let request = PrintApi::new("https://x", "a\nb").unwrap().heartbeat("1", "p", "h");
    assert!(request.headers.get("authorization").is_none());
    assert_eq!(request.headers.len(), 2);
    let request = PrintApi::new("https://x", "żeton").unwrap().fetch_next();
    assert_eq!(request.headers.get("authorization").unwrap().as_bytes(), "Bearer żeton".as_bytes());
}

#[test]
fn statuses_of_success() {
    assert!(!is_success(199));
    assert!(is_success(200));
    assert!(is_success(204));
    assert!(is_success(299));
    assert!(!is_success(300));
}

#[test]
fn answered_heartbeat() {
    let data = heartbeat_result(Some(reply(200, Some(heartbeat_data()), None))).unwrap();
    assert_eq!(data.printer_uuid, "p-1");
    assert_eq!(data.name, "Warehouse");
    assert!(data.is_default);
    assert_eq!(data.poll_interval_seconds, 7);
}

#[test]
fn failed_heartbeats() {
    let error = heartbeat_result(None).unwrap_err();
    assert!(matches!(error, ApiError::Transport(Endpoint::Heartbeat)));
    assert_eq!(error.message(), "Heartbeat transport error");

    let error = heartbeat_result(Some(reply(200, None, None))).unwrap_err();
    assert!(matches!(error, ApiError::Decode));
    assert_eq!(error.message(), "Heartbeat decode error");

    let refused = reply(401, Some(heartbeat_data()), Some("{\"message\":\"bad token\"}"));
    let error = heartbeat_result(Some(refused)).unwrap_err();
    assert!(matches!(error, ApiError::Http(_)));
    assert_eq!(error.message(), "HTTP 401 Unauthorized: {\"message\":\"bad token\"}");
}

#[test]
fn refusals_show_the_status_and_the_body() {
    assert_eq!(
        error_from(503, Some("busy".to_string())).message(),
        "HTTP 503 Service Unavailable: busy"
    );
    assert_eq!(error_from(404, None).message(), "HTTP 404 Not Found: ");
    assert_eq!(error_from(599, None).message(), "HTTP 599 <unknown status code>: ");
    assert_eq!(refusal_message("418 teapot", "short"), "HTTP 418 teapot: short");
    let long = "x".repeat(401);
    let expected = format!("HTTP 500 Internal Server Error: {}…", "x".repeat(400));
    assert_eq!(error_from(500, Some(long)).message(), expected);
}

#[test]
fn empty_queue_is_no_job() {
    assert!(fetch_next_result(Some(job_reply(204, &[("x-print-job-uuid", "u")], None)))
        .unwrap()
        .is_none());
}

#[test]
fn claimed_job() {
    let headers = [
        ("x-print-job-uuid", "0123456789"),
        ("x-print-job-format", "ZPL"),
        ("x-print-job-tracking", "TRK1"),
    ];
    let job = fetch_next_result(Some(job_reply(200, &headers, Some(vec![0, 255, 7]))))
        .unwrap()
        .unwrap();
    assert_eq!(job.uuid, "0123456789");
    assert_eq!(job.format, "ZPL");
    assert_eq!(job.tracking, "TRK1");
    assert_eq!(job.bytes, vec![0, 255, 7]);
}

#[test]
fn job_is_a_pdf_unless_the_server_says_otherwise() {
    let job = fetch_next_result(Some(job_reply(200, &[("x-print-job-uuid", "u")], Some(vec![1]))))
        .unwrap()
        .unwrap();
    assert_eq!(job.format, "pdf");
    assert_eq!(job.tracking, "");
}

#[test]
fn failed_claims() {
    let error = fetch_next_result(None).unwrap_err();
    assert!(matches!(error, ApiError::Transport(Endpoint::FetchNext)));
    assert_eq!(error.message(), "fetch_next transport error");

    let error = fetch_next_result(Some(job_reply(200, &[], Some(vec![1])))).unwrap_err();
    assert!(matches!(error, ApiError::MissingUuid));
    assert_eq!(error.message(), "Server returned a job body but no X-Print-Job-Uuid header");
    let error = fetch_next_result(Some(job_reply(200, &[("x-print-job-uuid", "")], None))).unwrap_err();
    assert!(matches!(error, ApiError::MissingUuid));

    let error = fetch_next_result(Some(job_reply(200, &[("x-print-job-uuid", "u")], None))).unwrap_err();
    assert!(matches!(error, ApiError::Body));
    assert_eq!(error.message(), "fetch_next: failed to read body");

    let error = fetch_next_result(Some(reply(401, None, Some("no")))).unwrap_err();
    assert_eq!(error.message(), "HTTP 401 Unauthorized: no");
}

#[test]
fn acknowledgement_replies() {
    assert!(ack_result(Some(reply(200, Some(()), None))).is_ok());
    assert!(ack_result(Some(reply(204, None, None))).is_ok());
    let error = ack_result(None).unwrap_err();
    assert!(matches!(error, ApiError::Transport(Endpoint::Ack)));
    assert_eq!(error.message(), "ack transport error");
    let error = ack_result(Some(reply(409, None, Some("gone")))).unwrap_err();
    assert_eq!(error.message(), "HTTP 409 Conflict: gone");
    assert_eq!(ApiError::Client.message(), "Failed to build HTTP client");
}

#[test]
fn truncation_counts_bytes() {
    assert_eq!(truncate("abc", 3), "abc");
    assert_eq!(truncate("abcd", 3), "abc…");
    assert_eq!(truncate("żółw", 4), "żó…");
    assert_eq!(truncate("", 0), "");
    assert_eq!(truncate("x", 0), "…");
}
