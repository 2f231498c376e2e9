use access_log_parser::compound::{cloud_controller_log, combined_log, common_log, gorouter_log};
use access_log_parser::{HttpVersion, IpAddr, RequestResult, Timestamp, XForwardedProto};

fn ts(
    year: i32,
    month: u32,
    day: u32,
    hour: u32,
    minute: u32,
    second: u32,
    nanosecond: u32,
    offset_seconds: i32,
) -> Timestamp {
    Timestamp { year, month, day, hour, minute, second, nanosecond, offset_seconds }
}

#[test]
fn parse_common_log_entry() {
    let data = r#"127.0.0.1 user-identifier frank [10/Oct/2000:13:55:36 -0700] "GET /apache_pb.gif HTTP/1.0" 200 2326"#;
    let res = common_log(data, 0);
    assert!(res.is_ok(), "{:?}", res.unwrap_err());
    let e = res.unwrap().0;
    assert_eq!(e.ip, IpAddr::V4(127, 0, 0, 1));
    assert_eq!(e.identd_user.as_deref().unwrap_or("<wrong identd user>"), "user-identifier");
    assert_eq!(e.user.as_deref().unwrap_or("<wrong user>"), "frank");
    assert_eq!(e.timestamp, ts(2000, 10, 10, 13, 55, 36, 0, -(7 * 3600)));
    match e.request {
        RequestResult::Valid { method, path, version } => {
            assert_eq!(method, "GET");
            assert_eq!(path, "/apache_pb.gif");
            assert_eq!(version, HttpVersion::Http10);
        },
        _ => panic!("invalid request: {:?}", e.request),
    }
    assert_eq!(e.status_code, 200);
    assert_eq!(e.bytes, 2326);
}

#[test]
fn parse_common_log_entry_ipv6() {
    let data = r#"2001:8a0:fa0d:ba01:5db0:ae0f:8444:161c - - [02/Mar/2019:17:39:56 +0000] "GET / HTTP/1.1" 200 66503"#;
    let res = common_log(data, 0);
    assert!(res.is_ok(), "{:?}", res.unwrap_err());
    let e = res.unwrap().0;
    assert_eq!(
        e.ip,
        IpAddr::V6(0x2001, 0x8a0, 0xfa0d, 0xba01, 0x5db0, 0xae0f, 0x8444, 0x161c)
    );
    assert_eq!(e.identd_user, None);
    assert_eq!(e.user, None);
    assert_eq!(e.timestamp, ts(2019, 3, 2, 17, 39, 56, 0, 0));
    match e.request {
        RequestResult::Valid { method, path, version } => {
            assert_eq!(method, "GET");
            assert_eq!(path, "/");
            assert_eq!(version, HttpVersion::Http11);
        },
        _ => panic!("invalid request: {:?}", e.request),
    }
    assert_eq!(e.status_code, 200);
    assert_eq!(e.bytes, 66503);
}

#[test]
fn parse_combined_log_entry() {
    let data = r#"127.0.0.1 - frank [10/Oct/2000:13:55:36 -0700] "GET /apache_pb.gif HTTP/1.0" 200 2326 "http://www.example.com/start.html" "Mozilla/4.08 [en] (Win98; I ;Nav)""#;
    let res = combined_log(data, 0);
    assert!(res.is_ok(), "{:?}", res.unwrap_err());
    let e = res.unwrap().0;
    assert_eq!(e.ip, IpAddr::V4(127, 0, 0, 1));
    assert_eq!(e.identd_user, None);
    assert_eq!(e.user.as_deref().unwrap_or("<wrong user>"), "frank");
    assert_eq!(e.timestamp, ts(2000, 10, 10, 13, 55, 36, 0, -(7 * 3600)));
    match e.request {
        RequestResult::Valid { method, path, version } => {
            assert_eq!(method, "GET");
            assert_eq!(path, "/apache_pb.gif");
            assert_eq!(version, HttpVersion::Http10);
        },
        _ => panic!("invalid request: {:?}", e.request),
    }
    assert_eq!(e.status_code, 200);
    assert_eq!(e.bytes, 2326);
    assert_eq!(e.referrer.unwrap(), "http://www.example.com/start.html");
    assert_eq!(e.user_agent.unwrap(), "Mozilla/4.08 [en] (Win98; I ;Nav)");
}

#[test]
fn parse_combined_log_entry_gh_issue_7() {
    let data = r#"127.0.0.1 - - [13/Jun/2022:05:26:31 +0100] "GET / HTTP/1.1" 301 166 "example.com" "Mozilla/5.0 (Windows NT 10.0; Win64; x64) AppleWebKit/537.36 (KHTML, like Gecko) Chrome/92.0.4515.131 Safari/537.36" 0.000 - 0e28d0563f4b737fce783ca10208cf8a - "-""#;
    let res = combined_log(data, 0);
    assert!(res.is_ok(), "{:?}", res.unwrap_err());
    let e = res.unwrap().0;
    assert_eq!(e.ip, IpAddr::V4(127, 0, 0, 1));
    assert_eq!(e.identd_user, None);
    assert_eq!(e.user, None);
    assert_eq!(e.timestamp, ts(2022, 6, 13, 5, 26, 31, 0, 3600));
    match e.request {
        RequestResult::Valid { method, path, version } => {
            assert_eq!(method, "GET");
            assert_eq!(path, "/");
            assert_eq!(version, HttpVersion::Http11);
        },
        _ => panic!("invalid request: {:?}", e.request),
    }
    assert_eq!(e.status_code, 301);
    assert_eq!(e.bytes, 166);
    assert_eq!(e.referrer.unwrap(), "example.com");
    assert_eq!(e.user_agent.unwrap(), "Mozilla/5.0 (Windows NT 10.0; Win64; x64) AppleWebKit/537.36 (KHTML, like Gecko) Chrome/92.0.4515.131 Safari/537.36");
}

#[test]
fn parse_cloud_controller_log_entry() {
    let data = r#"api.system_domain.local - [01/Feb/2019:20:45:02 +0000] "GET /v2/spaces/a91c3fa8-e67d-40dd-9d6b-d01aefe5062a/summary HTTP/1.1" 200 53188 "-" "cf_exporter/" 172.26.28.115, 172.26.31.254, 172.26.30.2 vcap_request_id:49d47ebe-a54f-4f84-66a7-f1262800588b::67ee0d7f-08bd-401f-a46c-24d7501a5f92 response_time:0.252"#;
    let res = cloud_controller_log(data, 0);
    assert!(res.is_ok(), "{:?}", res.unwrap_err());
    let e = res.unwrap().0;
    assert_eq!(e.request_host, "api.system_domain.local");
    assert_eq!(e.timestamp, ts(2019, 2, 1, 20, 45, 2, 0, 0));
    match e.request {
        RequestResult::Valid { method, path, version } => {
            assert_eq!(method, "GET");
            assert_eq!(path, "/v2/spaces/a91c3fa8-e67d-40dd-9d6b-d01aefe5062a/summary");
            assert_eq!(version, HttpVersion::Http11);
        },
        _ => panic!("invalid request: {:?}", e.request),
    }
    assert_eq!(e.status_code, 200);
    assert_eq!(e.bytes, 53188);
    assert_eq!(e.referrer, None);
    assert_eq!(e.user_agent.unwrap(), "cf_exporter/");
    assert_eq!(e.x_forwarded_for.len(), 3);
    assert_eq!(e.x_forwarded_for[0], IpAddr::V4(172, 26, 28, 115));
    assert_eq!(e.x_forwarded_for[1], IpAddr::V4(172, 26, 31, 254));
    assert_eq!(e.x_forwarded_for[2], IpAddr::V4(172, 26, 30, 2));
    assert_eq!(
        e.vcap_request_id.unwrap(),
        "49d47ebe-a54f-4f84-66a7-f1262800588b::67ee0d7f-08bd-401f-a46c-24d7501a5f92"
    );
    assert_eq!(e.response_time, Some("0.252".to_string()));
}

#[test]
fn parse_cloud_controller_log_with_no_response_time() {
    let data = r#"api.system_domain.local - [01/Feb/2019:15:26:42 +0000] "GET /v2/organizations?page=1&results-per-page=1&order-direction=asc HTTP/1.1" 499 0 "-" "Mozilla/5.0 (Windows NT 6.1; WOW64) AppleWebKit/537.36 (KHTML, like Gecko) Chrome/71.0.3578.98 Safari/537.36" 10.1.43.82, 172.26.31.254, 172.26.28.40, 172.26.31.254, 172.26.30.1 vcap_request_id:- response_time:-"#;
    let res = cloud_controller_log(data, 0);
    assert!(res.is_ok(), "{:?}", res.unwrap_err());
    let e = res.unwrap().0;
    assert_eq!(e.request_host, "api.system_domain.local");
    assert_eq!(e.timestamp, ts(2019, 2, 1, 15, 26, 42, 0, 0));
    match e.request {
        RequestResult::Valid { method, path, version } => {
            assert_eq!(method, "GET");
            assert_eq!(path, "/v2/organizations?page=1&results-per-page=1&order-direction=asc");
            assert_eq!(version, HttpVersion::Http11);
        },
        _ => panic!("invalid request: {:?}", e.request),
    }
    assert_eq!(e.status_code, 499);
    assert_eq!(e.bytes, 0);
    assert_eq!(e.referrer, None);
    assert_eq!(e.user_agent.unwrap(), "Mozilla/5.0 (Windows NT 6.1; WOW64) AppleWebKit/537.36 (KHTML, like Gecko) Chrome/71.0.3578.98 Safari/537.36");
    assert_eq!(e.x_forwarded_for.len(), 5);
    assert_eq!(e.x_forwarded_for[0], IpAddr::V4(10, 1, 43, 82));
    assert_eq!(e.x_forwarded_for[1], IpAddr::V4(172, 26, 31, 254));
    assert_eq!(e.x_forwarded_for[2], IpAddr::V4(172, 26, 28, 40));
    assert_eq!(e.x_forwarded_for[3], IpAddr::V4(172, 26, 31, 254));
    assert_eq!(e.x_forwarded_for[4], IpAddr::V4(172, 26, 30, 1));
    assert_eq!(e.vcap_request_id, None);
    assert_eq!(e.response_time, None);
}

#[test]
fn parse_gorouter_access_log() {
    let data = r#"service.apps-domain.example.com - [2019-01-28T22:15:02.499+0000] "GET /v1/some/resource HTTP/1.1" 200 0 16409 "-" "Apache-HttpClient/4.3.3 (java 1.5)" "10.224.16.182:63326" "10.224.28.75:61022" x_forwarded_for:"10.178.177.71, 10.179.113.67, 10.224.16.182" x_forwarded_proto:"https" vcap_request_id:"e1604ad1-002c-48ff-6c44-f360e3096911" response_time:0.007799583 app_id:"2c3f3955-d0cd-444c-9350-3fc47bd44eaa" app_index:"0" x_b3_traceid:"f7a79a16ab5c8383" x_b3_spanid:"f7a79a16ab5c8383" x_b3_parentspanid:"-""#;
    let res = gorouter_log(data, 0);
    assert!(res.is_ok(), "{:?}", res.unwrap_err());
    let e = res.unwrap().0;
    assert_eq!(e.request_host, "service.apps-domain.example.com");
    assert_eq!(e.timestamp, ts(2019, 1, 28, 22, 15, 2, 499_000_000, 0));
    match e.request {
        RequestResult::Valid { method, path, version } => {
            assert_eq!(method, "GET");
            assert_eq!(path, "/v1/some/resource");
            assert_eq!(version, HttpVersion::Http11);
        },
        _ => panic!("invalid request: {:?}", e.request),
    }
    assert_eq!(e.status_code, 200);
    assert_eq!(e.bytes_received, 0);
    assert_eq!(e.bytes_sent, 16409);
    assert_eq!(e.referrer, None);
    assert_eq!(e.user_agent, Some("Apache-HttpClient/4.3.3 (java 1.5)".to_string()));
    assert_eq!(e.remote_addr, IpAddr::V4(10, 224, 16, 182));
    assert_eq!(e.remote_port, 63326);
    assert_eq!(e.backend_addr, Some(IpAddr::V4(10, 224, 28, 75)));
    assert_eq!(e.backend_port, Some(61022));
    assert_eq!(e.x_forwarded_for.len(), 3);
    assert_eq!(e.x_forwarded_for[0], IpAddr::V4(10, 178, 177, 71));
    assert_eq!(e.x_forwarded_for[1], IpAddr::V4(10, 179, 113, 67));
    assert_eq!(e.x_forwarded_for[2], IpAddr::V4(10, 224, 16, 182));
    assert_eq!(e.x_forwarded_proto, XForwardedProto::HTTPS);
    assert_eq!(e.vcap_request_id, Some("e1604ad1-002c-48ff-6c44-f360e3096911".to_string()));
    assert_eq!(e.response_time, Some("0.007799583".to_string()));
    assert_eq!(e.app_id, Some("2c3f3955-d0cd-444c-9350-3fc47bd44eaa".to_string()));
    assert_eq!(e.app_index, Some(0));
    assert_eq!(e.trace_id, Some("f7a79a16ab5c8383".to_string()));
    assert_eq!(e.span_id, Some("f7a79a16ab5c8383".to_string()));
    assert_eq!(e.parent_span_id, None);
}

#[test]
fn parse_gorouter_access_log_without_zipkin_info() {
    let data = r#"service.apps-domain.example.com - [2019-01-28T22:15:02.499+0000] "GET /v1/some/resource HTTP/1.1" 200 0 16409 "-" "Apache-HttpClient/4.3.3 (java 1.5)" "10.224.16.182:63326" "10.224.28.75:61022" x_forwarded_for:"10.178.177.71, 10.179.113.67, 10.224.16.182" x_forwarded_proto:"https" vcap_request_id:"e1604ad1-002c-48ff-6c44-f360e3096911" response_time:0.007799583 app_id:"2c3f3955-d0cd-444c-9350-3fc47bd44eaa" app_index:"0""#;
    let res = gorouter_log(data, 0);
    assert!(res.is_ok(), "{:?}", res.unwrap_err());
    let e = res.unwrap().0;
    assert_eq!(e.request_host, "service.apps-domain.example.com");
    assert_eq!(e.timestamp, ts(2019, 1, 28, 22, 15, 2, 499_000_000, 0));
    match e.request {
        RequestResult::Valid { method, path, version } => {
            assert_eq!(method, "GET");
            assert_eq!(path, "/v1/some/resource");
            assert_eq!(version, HttpVersion::Http11);
        },
        _ => panic!("invalid request: {:?}", e.request),
    }
    assert_eq!(e.status_code, 200);
    assert_eq!(e.bytes_received, 0);
    assert_eq!(e.bytes_sent, 16409);
    assert_eq!(e.referrer, None);
    assert_eq!(e.user_agent, Some("Apache-HttpClient/4.3.3 (java 1.5)".to_string()));
    assert_eq!(e.remote_addr, IpAddr::V4(10, 224, 16, 182));
    assert_eq!(e.remote_port, 63326);
    assert_eq!(e.backend_addr, Some(IpAddr::V4(10, 224, 28, 75)));
    assert_eq!(e.backend_port, Some(61022));
    assert_eq!(e.x_forwarded_for.len(), 3);
    assert_eq!(e.x_forwarded_for[0], IpAddr::V4(10, 178, 177, 71));
    assert_eq!(e.x_forwarded_for[1], IpAddr::V4(10, 179, 113, 67));
    assert_eq!(e.x_forwarded_for[2], IpAddr::V4(10, 224, 16, 182));
    assert_eq!(e.x_forwarded_proto, XForwardedProto::HTTPS);
    assert_eq!(e.vcap_request_id, Some("e1604ad1-002c-48ff-6c44-f360e3096911".to_string()));
    assert_eq!(e.response_time, Some("0.007799583".to_string()));
    assert_eq!(e.app_id, Some("2c3f3955-d0cd-444c-9350-3fc47bd44eaa".to_string()));
    assert_eq!(e.app_index, Some(0));
    assert_eq!(e.trace_id, None);
    assert_eq!(e.span_id, None);
    assert_eq!(e.parent_span_id, None);
}

#[test]
fn parse_gorouter_access_log_with_invalid_http_status() {
    let data = r#"doppler.example.com:4443 - [2019-01-28T18:35:38.720+0000] "GET /apps/5f13e1d2-1aa7-41d7-80d1-8df4cfd279c9/stream HTTP/1.1" "-" 0 0 "-" "CloudFoundryJavaClient/unknown (Java; Oracle Corporation/1.8.0_162) ReactorNetty/unknown (Netty/unknown)" "10.224.16.82:44768" "10.224.24.29:8081" x_forwarded_for:"10.224.16.82" x_forwarded_proto:"https" vcap_request_id:"a038e75b-581f-457d-7a49-c46b69d56aac" response_time:5.001585426 app_id:"-" app_index:"-" x_b3_traceid:"d8b747e82ff5c572" x_b3_spanid:"d8b747e82ff5c572" x_b3_parentspanid:"-""#;
    let res = gorouter_log(data, 0);
    assert!(res.is_ok(), "{:?}", res.unwrap_err());
    let e = res.unwrap().0;
    assert_eq!(e.request_host, "doppler.example.com:4443");
    assert_eq!(e.timestamp, ts(2019, 1, 28, 18, 35, 38, 720_000_000, 0));
    match e.request {
        RequestResult::Valid { method, path, version } => {
            assert_eq!(method, "GET");
            assert_eq!(path, "/apps/5f13e1d2-1aa7-41d7-80d1-8df4cfd279c9/stream");
            assert_eq!(version, HttpVersion::Http11);
        },
        _ => panic!("invalid request: {:?}", e.request),
    }
    assert_eq!(e.status_code, 418);
    assert_eq!(e.bytes_received, 0);
    assert_eq!(e.bytes_sent, 0);
    assert_eq!(e.referrer, None);
    assert_eq!(e.user_agent, Some("CloudFoundryJavaClient/unknown (Java; Oracle Corporation/1.8.0_162) ReactorNetty/unknown (Netty/unknown)".to_string()));
    assert_eq!(e.remote_addr, IpAddr::V4(10, 224, 16, 82));
    assert_eq!(e.remote_port, 44768);
    assert_eq!(e.backend_addr, Some(IpAddr::V4(10, 224, 24, 29)));
    assert_eq!(e.backend_port, Some(8081));
    assert_eq!(e.x_forwarded_for.len(), 1);
    assert_eq!(e.x_forwarded_for[0], IpAddr::V4(10, 224, 16, 82));
    assert_eq!(e.x_forwarded_proto, XForwardedProto::HTTPS);
    assert_eq!(e.vcap_request_id, Some("a038e75b-581f-457d-7a49-c46b69d56aac".to_string()));
    assert_eq!(e.response_time, Some("5.001585426".to_string()));
    assert_eq!(e.app_id, None);
    assert_eq!(e.app_index, None);
    assert_eq!(e.trace_id, Some("d8b747e82ff5c572".to_string()));
    assert_eq!(e.span_id, Some("d8b747e82ff5c572".to_string()));
    assert_eq!(e.parent_span_id, None);
}

#[test]
fn parse_gorouter_access_log_with_gorouter_time() {
    let data = r#"php-info.cfapps.io - [2020-07-23T19:46:59.042Z] "GET / HTTP/1.1" 200 0 399 "-" "curl/7.64.1" "10.10.66.179:28634" "10.10.148.45:61300" x_forwarded_for:"50.4.153.215, 10.10.66.179" x_forwarded_proto:"https" vcap_request_id:"c5794050-ac30-4911-5118-c5a8a4e8d09f" response_time:0.101468 gorouter_time:0.000104 app_id:"5f362051-e2bc-4abc-ab8e-adbdf688ae64" app_index:"0" x_b3_traceid:"e3e4a237210114ef" x_b3_spanid:"e3e4a237210114ef" x_b3_parentspanid:"-" b3:"e3e4a237210114ef-e3e4a237210114ef""#;
    let res = gorouter_log(data, 0);
    assert!(res.is_ok(), "{:?}", res.unwrap_err());
    let e = res.unwrap().0;
    assert_eq!(e.request_host, "php-info.cfapps.io");
    assert_eq!(e.timestamp, ts(2020, 7, 23, 19, 46, 59, 42_000_000, 0));
    match e.request {
        RequestResult::Valid { method, path, version } => {
            assert_eq!(method, "GET");
            assert_eq!(path, "/");
            assert_eq!(version, HttpVersion::Http11);
        },
        _ => panic!("invalid request: {:?}", e.request),
    }
    assert_eq!(e.status_code, 200);
    assert_eq!(e.bytes_received, 0);
    assert_eq!(e.bytes_sent, 399);
    assert_eq!(e.referrer, None);
    assert_eq!(e.user_agent, Some("curl/7.64.1".to_string()));
    assert_eq!(e.remote_addr, IpAddr::V4(10, 10, 66, 179));
    assert_eq!(e.remote_port, 28634);
    assert_eq!(e.backend_addr, Some(IpAddr::V4(10, 10, 148, 45)));
    assert_eq!(e.backend_port, Some(61300));
    assert_eq!(e.x_forwarded_for.len(), 2);
    assert_eq!(e.x_forwarded_for[0], IpAddr::V4(50, 4, 153, 215));
    assert_eq!(e.x_forwarded_for[1], IpAddr::V4(10, 10, 66, 179));
    assert_eq!(e.x_forwarded_proto, XForwardedProto::HTTPS);
    assert_eq!(e.vcap_request_id, Some("c5794050-ac30-4911-5118-c5a8a4e8d09f".to_string()));
    assert_eq!(e.response_time, Some("0.101468".to_string()));
    assert_eq!(e.gorouter_time, Some("0.000104".to_string()));
    assert_eq!(e.app_id, Some("5f362051-e2bc-4abc-ab8e-adbdf688ae64".to_string()));
    assert_eq!(e.app_index, Some(0));
    assert_eq!(e.trace_id, Some("e3e4a237210114ef".to_string()));
    assert_eq!(e.span_id, Some("e3e4a237210114ef".to_string()));
    assert_eq!(e.parent_span_id, None);
}

#[test]
fn parse_gorouter_access_log_with_gorouter_time_and_x_cf_routererror() {
    let data = r#"php-info.cfapps.io - [2020-07-23T19:46:59.042Z] "GET / HTTP/1.1" 200 0 399 "-" "curl/7.64.1" "10.10.66.179:28634" "10.10.148.45:61300" x_forwarded_for:"50.4.153.215, 10.10.66.179" x_forwarded_proto:"https" vcap_request_id:"c5794050-ac30-4911-5118-c5a8a4e8d09f" response_time:0.101468 gorouter_time:0.000104 app_id:"5f362051-e2bc-4abc-ab8e-adbdf688ae64" app_index:"0" x_cf_routererror:"-" x_b3_traceid:"e3e4a237210114ef" x_b3_spanid:"e3e4a237210114ef" x_b3_parentspanid:"-" b3:"e3e4a237210114ef-e3e4a237210114ef""#;
    let res = gorouter_log(data, 0);
    assert!(res.is_ok(), "{:?}", res.unwrap_err());
    let e = res.unwrap().0;
    assert_eq!(e.request_host, "php-info.cfapps.io");
    assert_eq!(e.timestamp, ts(2020, 7, 23, 19, 46, 59, 42_000_000, 0));
    match e.request {
        RequestResult::Valid { method, path, version } => {
            assert_eq!(method, "GET");
            assert_eq!(path, "/");
            assert_eq!(version, HttpVersion::Http11);
        },
        _ => panic!("invalid request: {:?}", e.request),
    }
    assert_eq!(e.status_code, 200);
    assert_eq!(e.bytes_received, 0);
    assert_eq!(e.bytes_sent, 399);
    assert_eq!(e.referrer, None);
    assert_eq!(e.user_agent, Some("curl/7.64.1".to_string()));
    assert_eq!(e.remote_addr, IpAddr::V4(10, 10, 66, 179));
    assert_eq!(e.remote_port, 28634);
    assert_eq!(e.backend_addr, Some(IpAddr::V4(10, 10, 148, 45)));
    assert_eq!(e.backend_port, Some(61300));
    assert_eq!(e.x_forwarded_for.len(), 2);
    assert_eq!(e.x_forwarded_for[0], IpAddr::V4(50, 4, 153, 215));
    assert_eq!(e.x_forwarded_for[1], IpAddr::V4(10, 10, 66, 179));
    assert_eq!(e.x_forwarded_proto, XForwardedProto::HTTPS);
    assert_eq!(e.vcap_request_id, Some("c5794050-ac30-4911-5118-c5a8a4e8d09f".to_string()));
    assert_eq!(e.response_time, Some("0.101468".to_string()));
    assert_eq!(e.gorouter_time, Some("0.000104".to_string()));
    assert_eq!(e.x_cf_routererror, None);
    assert_eq!(e.app_id, Some("5f362051-e2bc-4abc-ab8e-adbdf688ae64".to_string()));
    assert_eq!(e.app_index, Some(0));
    assert_eq!(e.trace_id, Some("e3e4a237210114ef".to_string()));
    assert_eq!(e.span_id, Some("e3e4a237210114ef".to_string()));
    assert_eq!(e.parent_span_id, None);
}

#[test]
fn parse_gorouter_access_log_with_x_forwarded_with_a_dash() {
    let data = r#"35.243.162.217:80 - [2019-10-31T00:11:09.329+0000] "GET / HTTP/1.1" 404 0 69 "-" "Mozilla/5.0 (Windows NT 10.0; WOW64) AppleWebKit/537.36 (KHTML, like Gecko) Chrome/52.0.2743.116 Safari/537.36" "185.89.158.86:36539" "-" x_forwarded_for:"-" x_forwarded_proto:"-" vcap_request_id:"eb922abf-0f2d-4042-4a84-9161e6ee17a1" response_time:0.000108962 app_id:"-" app_index:"-" x_b3_traceid:"81aa595b268bbe68" x_b3_spanid:"81aa595b268bbe68" x_b3_parentspanid:"-" b3:"81aa595b268bbe68-81aa595b268bbe68""#;
    let res = gorouter_log(data, 0);
    assert!(res.is_ok(), "{:?}", res.unwrap_err());
    let e = res.unwrap().0;
    assert_eq!(e.request_host, "35.243.162.217:80");
    assert_eq!(e.timestamp, ts(2019, 10, 31, 0, 11, 9, 329_000_000, 0));
    match e.request {
        RequestResult::Valid { method, path, version } => {
            assert_eq!(method, "GET");
            assert_eq!(path, "/");
            assert_eq!(version, HttpVersion::Http11);
        },
        _ => panic!("invalid request: {:?}", e.request),
    }
    assert_eq!(e.status_code, 404);
    assert_eq!(e.bytes_received, 0);
    assert_eq!(e.bytes_sent, 69);
    assert_eq!(e.referrer, None);
    assert_eq!(e.user_agent, Some("Mozilla/5.0 (Windows NT 10.0; WOW64) AppleWebKit/537.36 (KHTML, like Gecko) Chrome/52.0.2743.116 Safari/537.36".to_string()));
    assert_eq!(e.remote_addr, IpAddr::V4(185, 89, 158, 86));
    assert_eq!(e.remote_port, 36539);
    assert_eq!(e.backend_addr, None);
    assert_eq!(e.backend_port, None);
    assert_eq!(e.x_forwarded_for.len(), 0);
    assert_eq!(e.x_forwarded_proto, XForwardedProto::UNSPECIFIED);
    assert_eq!(e.vcap_request_id, Some("eb922abf-0f2d-4042-4a84-9161e6ee17a1".to_string()));
    assert_eq!(e.response_time, Some("0.000108962".to_string()));
    assert_eq!(e.gorouter_time, None);
    assert_eq!(e.x_cf_routererror, None);
    assert_eq!(e.app_id, None);
    assert_eq!(e.app_index, None);
    assert_eq!(e.trace_id, Some("81aa595b268bbe68".to_string()));
    assert_eq!(e.span_id, Some("81aa595b268bbe68".to_string()));
    assert_eq!(e.parent_span_id, None);
}

#[test]
fn parse_gorouter_access_log_with_instance_id() {
    let data = r#"labs-api.cfapps-06.slot-59.pez.vmware.com - [2022-02-02T16:46:41.401498446Z] "OPTIONS /status HTTP/1.1" 204 0 0 "http://support-lab-status.slot-59.pez.vmware.com/" "Mozilla/5.0 (Macintosh; Intel Mac OS X 10_15_7) AppleWebKit/537.36 (KHTML, like Gecko) Chrome/97.0.4692.71 Safari/537.36" "10.213.60.5:35122" "10.213.60.26:61026" x_forwarded_for:"10.166.51.253, 10.213.60.5" x_forwarded_proto:"http" vcap_request_id:"af6f1df0-8f65-43c3-7087-0199c09d8a38" response_time:0.002673 gorouter_time:0.000645 app_id:"0c4f8c27-248c-4fe5-98f0-a4268a4b1393" app_index:"0" instance_id:"0c9cc45f-0eff-47e9-77b7-cbad" x_cf_routererror:"-" x_b3_traceid:"03a4f586178193ab" x_b3_spanid:"03a4f586178193ab" x_b3_parentspanid:"-" b3:"03a4f586178193ab-03a4f586178193ab""#;
    let res = gorouter_log(data, 0);
    assert!(res.is_ok(), "{:?}", res.unwrap_err());
    let e = res.unwrap().0;
    assert_eq!(e.request_host, "labs-api.cfapps-06.slot-59.pez.vmware.com");
    assert_eq!(e.timestamp, ts(2022, 2, 2, 16, 46, 41, 401_498_446, 0));
    match e.request {
        RequestResult::Valid { method, path, version } => {
            assert_eq!(method, "OPTIONS");
            assert_eq!(path, "/status");
            assert_eq!(version, HttpVersion::Http11);
        },
        _ => panic!("invalid request: {:?}", e.request),
    }
    assert_eq!(e.status_code, 204);
    assert_eq!(e.bytes_received, 0);
    assert_eq!(e.bytes_sent, 0);
    assert_eq!(
        e.referrer,
        Some("http://support-lab-status.slot-59.pez.vmware.com/".to_string())
    );
    assert_eq!(e.user_agent, Some("Mozilla/5.0 (Macintosh; Intel Mac OS X 10_15_7) AppleWebKit/537.36 (KHTML, like Gecko) Chrome/97.0.4692.71 Safari/537.36".to_string()));
    assert_eq!(e.remote_addr, IpAddr::V4(10, 213, 60, 5));
    assert_eq!(e.remote_port, 35122);
    assert_eq!(e.backend_addr, Some(IpAddr::V4(10, 213, 60, 26)));
    assert_eq!(e.backend_port, Some(61026));
    assert_eq!(e.x_forwarded_for.len(), 2);
    assert_eq!(e.x_forwarded_proto, XForwardedProto::HTTP);
    assert_eq!(e.vcap_request_id, Some("af6f1df0-8f65-43c3-7087-0199c09d8a38".to_string()));
    assert_eq!(e.response_time, Some("0.002673".to_string()));
    assert_eq!(e.gorouter_time, Some("0.000645".to_string()));
    assert_eq!(e.app_id, Some("0c4f8c27-248c-4fe5-98f0-a4268a4b1393".to_string()));
    assert_eq!(e.app_index, Some(0));
    assert_eq!(e.instance_id, Some("0c9cc45f-0eff-47e9-77b7-cbad".to_string()));
    assert_eq!(e.x_cf_routererror, None);
    assert_eq!(e.trace_id, Some("03a4f586178193ab".to_string()));
    assert_eq!(e.span_id, Some("03a4f586178193ab".to_string()));
    assert_eq!(e.parent_span_id, None);
}
