use access_log_parser::{parse, AccessLogError, HttpVersion, IpAddr, LogEntry, LogType, RequestResult};

#[test]
fn parse_common_log() {
    let entry = parse(
        LogType::CommonLog,
        r#"127.0.0.1 - - [15/Mar/2019:03:17:05 +0000] "GET / HTTP/1.1" 200 612"#,
    );
    assert!(entry.is_ok(), "{:?}", entry.err().unwrap());
}

#[test]
fn parse_combined_log() {
    let entry = parse(
        LogType::CombinedLog,
        r#"127.0.0.1 - - [15/Mar/2019:03:17:05 +0000] "GET / HTTP/1.1" 200 612 "http://www.example.com/foo" "foo user agent""#,
    );
    assert!(entry.is_ok(), "{:?}", entry.err().unwrap());
}

#[test]
fn parse_cloud_controller() {
    let entry = parse(
        LogType::CloudControllerLog,
        r#"api.system_domain.local - [01/Feb/2019:20:45:02 +0000] "GET /v2/spaces/a91c3fa8-e67d-40dd-9d6b-d01aefe5062a/summary HTTP/1.1" 200 53188 "-" "cf_exporter/" 172.26.28.115, 172.26.31.254, 172.26.30.2 vcap_request_id:49d47ebe-a54f-4f84-66a7-f1262800588b::67ee0d7f-08bd-401f-a46c-24d7501a5f92 response_time:0.252"#,
    );
    assert!(entry.is_ok(), "{:?}", entry.err().unwrap());
}

#[test]
fn parse_gorouter() {
    let entry = parse(
        LogType::GorouterLog,
        r#"test.app_domain.example.com - [2019-01-28T22:15:08.622+0000] "PUT /eureka/apps/SERVICE-REGISTRY/service-registry:-1532850760?status=UP&lastDirtyTimestamp=1547950465746 HTTP/1.1" 404 0 116 "-" "Java-EurekaClient/v1.7.0" "10.224.20.205:23150" "-" x_forwarded_for:"10.179.113.63" x_forwarded_proto:"https" vcap_request_id:"762147e9-ecb8-41b2-4acd-2adc68122486" response_time:0.000119524 app_id:"-" app_index:"-" x_b3_traceid:"59ece3a70be6b6db" x_b3_spanid:"59ece3a70be6b6db" x_b3_parentspanid:"-""#,
    );
    assert!(entry.is_ok(), "{:?}", entry.err().unwrap());
}

#[test]
fn parse_error() {
    let entry = parse(LogType::CommonLog, "foo bar");
    assert!(entry.is_err());
    assert_eq!(
        entry.unwrap_err(),
        AccessLogError::ParseError { msg: "0: at line 1, in MapRes:\nfoo bar\n^\n\n1: at line 1, in ip:\nfoo bar\n^\n\n2: at line 1, in common_log:\nfoo bar\n^\n\n".into() }
    );
}

#[test]
fn common_scenario_fields() {
    let entry = parse(
        LogType::CommonLog,
        r#"127.0.0.1 - - [15/Mar/2019:03:17:05 +0000] "GET / HTTP/1.1" 200 612"#,
    )
    .unwrap();
    match entry {
        LogEntry::CommonLog(e) => {
            assert_eq!(e.ip, IpAddr::V4(127, 0, 0, 1));
            assert_eq!(e.identd_user, None);
            assert_eq!(e.user, None);
            assert_eq!(e.status_code, 200);
            assert_eq!(e.bytes, 612);
            match e.request {
                RequestResult::Valid { method, path, version } => {
                    assert_eq!(method, "GET");
                    assert_eq!(path, "/");
                    assert_eq!(version, HttpVersion::Http11);
                },
                _ => panic!("invalid request: {:?}", e.request),
            }
        },
        _ => panic!("wrong record variant"),
    }
}

#[test]
fn gorouter_with_dash_status_decodes_418() {
    let entry = parse(
        LogType::GorouterLog,
        r#"doppler.example.com:4443 - [2019-01-28T18:35:38.720+0000] "GET /x HTTP/1.1" "-" 0 0 "-" "c" "10.224.16.82:44768" "-" x_forwarded_for:"-" x_forwarded_proto:"-" vcap_request_id:- response_time:- app_id:"-" app_index:"-""#,
    )
    .unwrap();
    match entry {
        LogEntry::GorouterLog(e) => {
            assert_eq!(e.status_code, 418);
            assert!(matches!(e.request, RequestResult::Valid { .. }));
        },
        _ => panic!("wrong record variant"),
    }
}

#[test]
fn gorouter_missing_remote_address_is_an_error() {
    // the remote address pair is mandatory: its dash sentinel is reported
    // as a parse error rather than a panic
    let entry = parse(
        LogType::GorouterLog,
        r#"host - [2019-01-28T18:35:38.720+0000] "GET /x HTTP/1.1" 200 0 0 "-" "c" "-" "-" x_forwarded_for:"-" x_forwarded_proto:"-" vcap_request_id:- response_time:- app_id:"-" app_index:"-""#,
    );
    assert!(entry.is_err());
    let AccessLogError::ParseError { msg } = entry.unwrap_err();
    assert!(msg.contains("remote address"));
}

#[test]
fn log_type_aliases() {
    assert_eq!(LogType::from_str("common"), Ok(LogType::CommonLog));
    assert_eq!(LogType::from_str("COMBINED"), Ok(LogType::CombinedLog));
    assert_eq!(LogType::from_str("gorouter"), Ok(LogType::GorouterLog));
    assert_eq!(LogType::from_str("Router"), Ok(LogType::GorouterLog));
    assert_eq!(LogType::from_str("cloud_controller"), Ok(LogType::CloudControllerLog));
    assert_eq!(LogType::from_str("cc"), Ok(LogType::CloudControllerLog));
    assert_eq!(LogType::from_str("CAPI"), Ok(LogType::CloudControllerLog));
    assert_eq!(LogType::from_str("syslog"), Err("invalid log type"));
    assert_eq!(LogType::from_str(""), Err("invalid log type"));
}

#[test]
fn error_trace_names_failing_rule() {
    // the status slot rejects a non-numeric token and the trace says so
    let entry = parse(
        LogType::CommonLog,
        r#"127.0.0.1 - - [15/Mar/2019:03:17:05 +0000] "GET / HTTP/1.1" abc 612"#,
    );
    assert!(entry.is_err());
    let AccessLogError::ParseError { msg } = entry.unwrap_err();
    assert!(msg.contains("http_status"));
    assert!(msg.contains("common_log"));
}

#[test]
fn trailing_input_is_not_an_error() {
    let entry = parse(
        LogType::CommonLog,
        r#"127.0.0.1 - - [15/Mar/2019:03:17:05 +0000] "GET / HTTP/1.1" 200 612 some trailing junk"#,
    );
    assert!(entry.is_ok());
}

#[test]
fn message_accessor_returns_diagnostic() {
    let entry = parse(LogType::CommonLog, "foo bar");
    let err = entry.unwrap_err();
    assert!(err.message().starts_with("0: at line 1, in MapRes:"));
}
