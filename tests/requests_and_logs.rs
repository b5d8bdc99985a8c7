use rio_fastly::access_log::{action_answer_usable, api_call, copy_headers, log_record};
use rio_fastly::configuration::{
    configuration_fallback, Configuration, ConfigurationError, ConfigurationFallback,
};
use rio_fastly::headers::{
    collect_headers, contains_text_ignore_case, equals_ignore_case, find_header, remove_header,
    str_equal, Header,
};
use rio_fastly::logging::{FastlyLog, LoggerSettings};
use rio_fastly::proxy::ResponseParts;
use rio_fastly::request::CanonicalRequest;

fn header(name: &str, value: &str) -> Header {
    Header { name: name.to_string(), value: value.to_string() }
}

fn s(v: &str) -> Option<String> {
    Some(v.to_string())
}

fn request(remote_addr: Option<String>) -> CanonicalRequest {
    CanonicalRequest::new("https://example.com/a".to_string(), "GET".to_string(), remote_addr, &vec![])
}

#[test]
fn no_log_record_when_declined() {
    let response = ResponseParts { status: 200, headers: vec![header("a", "b")], body: vec![] };
    assert!(log_record(false, &request(s("10.0.0.1")), &response, 1700000000).is_none());
}

#[test]
fn log_record_describes_final_response() {
    let response = ResponseParts { status: 301, headers: vec![header("location", "/new")], body: vec![] };
    let rec = log_record(true, &request(s("10.0.0.1")), &response, 1700000000).unwrap();
    assert_eq!(rec.status, 301);
    assert_eq!(rec.response_headers, vec![header("location", "/new")]);
    assert_eq!(rec.proxy, "redirectionio-fastly:dev");
    assert_eq!(rec.timestamp, 1700000000);
    assert_eq!(rec.client_ip, "10.0.0.1");
    let rec = log_record(true, &request(None), &response, 5).unwrap();
    assert_eq!(rec.client_ip, "");
}

#[test]
fn canonical_request_drops_pseudo_and_binary_headers() {
    let raw = vec![
        (":authority".to_string(), s("example.com")),
        ("accept".to_string(), s("text/html")),
        ("x-bin".to_string(), None),
        ("accept".to_string(), s("*/*")),
    ];
    let r = CanonicalRequest::new("/p?q=1".to_string(), "POST".to_string(), None, &raw);
    assert_eq!(r.headers, vec![header("accept", "text/html"), header("accept", "*/*")]);
    assert_eq!(r.method, "POST");
    assert_eq!(r.url, "/p?q=1");
    assert_eq!(r.remote_addr, None);
}

#[test]
fn non_text_header_values_dropped() {
    let raw = vec![
        ("content-type".to_string(), s("text/html")),
        ("x-bad".to_string(), None),
        (":status".to_string(), s("200")),
    ];
    assert_eq!(collect_headers(&raw), vec![header("content-type", "text/html"), header(":status", "200")]);
    assert_eq!(collect_headers(&vec![]), vec![]);
}

#[test]
fn header_lookup_and_removal() {
    let hs = vec![header("Content-Encoding", "gzip"), header("x", "1"), header("content-encoding", "br")];
    assert_eq!(find_header(&hs, "content-encoding"), s("gzip"));
    assert_eq!(find_header(&hs, "missing"), None);
    assert_eq!(remove_header(hs, "CONTENT-ENCODING"), vec![header("x", "1")]);
    assert_eq!(copy_headers(&vec![header("a", "b")]), vec![header("a", "b")]);
}

#[test]
fn text_comparisons() {
    assert!(equals_ignore_case("Content-Type", "content-TYPE"));
    assert!(!equals_ignore_case("content-type", "content-typ"));
    assert!(contains_text_ignore_case("text/html; charset=UTF-8", "utf-8"));
    assert!(contains_text_ignore_case("abc", ""));
    assert!(!contains_text_ignore_case("", "gzip"));
    assert!(!contains_text_ignore_case("utf8", "utf-8"));
    assert!(str_equal("true", "true"));
    assert!(!str_equal("True", "true"));
}

#[test]
fn api_call_targets_endpoint() {
    let call = api_call("tok123", "my-instance", "log");
    assert_eq!(call.url, "https://agent.redirection.io/tok123/log");
    assert_eq!(
        call.headers,
        vec![header("User-Agent", "fastly-worker/dev"), header("x-redirectionio-instance-name", "my-instance")]
    );
    assert_eq!(api_call("t", "i", "action").url, "https://agent.redirection.io/t/action");
    assert!(action_answer_usable(200));
    assert!(!action_answer_usable(204));
    assert!(!action_answer_usable(500));
}

#[test]
fn configuration_complete() {
    let c = Configuration::new(s("origin"), s("tok"), s("inst"), s("true")).unwrap();
    assert_eq!(c.backend_name, "origin");
    assert_eq!(c.token, "tok");
    assert_eq!(c.instance_name, "inst");
    assert!(c.add_rule_ids_header);
    let c = Configuration::new(s("origin"), s("tok"), s("inst"), s("yes")).unwrap();
    assert!(!c.add_rule_ids_header);
    let c = Configuration::new(s("origin"), s("tok"), s("inst"), None).unwrap();
    assert!(!c.add_rule_ids_header);
}

#[test]
fn configuration_missing_settings() {
    assert_eq!(
        Configuration::new(None, s("tok"), s("inst"), None).err(),
        Some(ConfigurationError::MissingBackendName)
    );
    assert_eq!(
        Configuration::new(s("o"), None, None, None).err(),
        Some(ConfigurationError::MissingToken("o".to_string()))
    );
    assert_eq!(
        Configuration::new(s("o"), s("t"), None, None).err(),
        Some(ConfigurationError::MissingInstanceName("o".to_string()))
    );
}

#[test]
fn configuration_fallbacks() {
    match configuration_fallback(&ConfigurationError::MissingBackendName) {
        ConfigurationFallback::ErrorPage(m) => {
            assert_eq!(m, "Fastly worker configuration error: missing \"backend_name\".\n")
        }
        _ => panic!("without a backend an error page is sent"),
    }
    match configuration_fallback(&ConfigurationError::MissingToken("o".to_string())) {
        ConfigurationFallback::Forward(b, m) => {
            assert_eq!(b, "o");
            assert_eq!(m, "Fastly worker configuration error: missing \"token\".\n");
        }
        _ => panic!("with a backend the request is forwarded"),
    }
    let e = ConfigurationError::MissingAddRuleIdsHeader("o".to_string());
    assert_eq!(e.message(), "missing \"add_rule_ids_header\"");
    assert_eq!(e.backend_name(), s("o"));
    assert_eq!(ConfigurationError::MissingInstanceName("b".to_string()).message(), "missing \"instance name\"");
}

#[test]
fn diagnostic_context() {
    let given = vec![("status".to_string(), "500".to_string()), ("url".to_string(), "old".to_string())];
    let log = FastlyLog::new(
        "boom".to_string(),
        Some(given),
        "https://e.com/".to_string(),
        "GET".to_string(),
        "2024-01-01".to_string(),
        "ERROR".to_string(),
    );
    assert_eq!(log.message, "boom");
    let keys: Vec<&str> = log.context.iter().map(|(k, _)| k.as_str()).collect();
    assert_eq!(keys, vec!["status", "url", "method", "date", "level"]);
    assert_eq!(log.context[1].1, "https://e.com/");
    let plain = FastlyLog::new("m".to_string(), None, "u".to_string(), "m".to_string(), "d".to_string(), "l".to_string());
    assert_eq!(plain.context.len(), 4);
}

#[test]
fn logger_settings_defaults() {
    let l = LoggerSettings::new(None, None);
    assert!(!l.has_logger);
    assert_eq!(l.log_endpoint, "");
    assert_eq!(l.log_level, "warn");
    let l = LoggerSettings::new(s("logs"), s("debug"));
    assert!(l.has_logger);
    assert_eq!(l.log_endpoint, "logs");
    assert_eq!(l.log_level, "debug");
}
