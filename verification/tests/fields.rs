use access_log_parser::fields::{ip_and_port, ip_list, user_agent};
use access_log_parser::kv::{
    app_id, app_index, gorouter_time, instance_id, response_time, vcap_request_id,
    x_b3_parentspanid, x_b3_spanid, x_b3_traceid, x_cf_routererror, x_forwarded_for,
    x_forwarded_proto,
};
use access_log_parser::{IpAddr, XForwardedProto};

#[test]
fn parse_user_agent() {
    let data = "\"Mozilla/4.08 [en] (Win98; I ;Nav)\"";
    let res = user_agent(data, 0);
    assert!(res.is_ok());
    assert_eq!(res.unwrap().0, Some("Mozilla/4.08 [en] (Win98; I ;Nav)".to_string()));
}

#[test]
fn parse_user_agent_that_is_unset() {
    let res = user_agent("\"-\"", 0);
    assert!(res.is_ok());
    assert_eq!(res.unwrap().0, None);
}

#[test]
fn parse_user_agent_that_is_empty() {
    let res = user_agent("\"\"", 0);
    assert!(res.is_ok());
    assert_eq!(res.unwrap().0, None);
}

#[test]
fn parse_ip_and_port() {
    let data = "\"192.168.0.12:8080\"";
    let res = ip_and_port(data, 0);
    assert!(res.is_ok());
    let (v, _) = res.unwrap();
    assert!(v.is_some());
    assert_eq!(v.unwrap().0, IpAddr::V4(192, 168, 0, 12));
    assert_eq!(ip_and_port(data, 0).unwrap().0.unwrap().1, 8080);
}

#[test]
fn parse_ip_and_port_that_is_unset() {
    let res = ip_and_port("\"-\"", 0);
    assert!(res.is_ok());
    assert!(res.unwrap().0.is_none());
}

#[test]
fn parse_ip_and_port_that_is_empty() {
    let res = ip_and_port("\"\"", 0);
    assert!(res.is_ok());
    assert!(res.unwrap().0.is_none());
}

#[test]
fn parse_ip_list() {
    for data in [
        "10.10.10.1,10.10.10.2",
        "10.10.10.1, 10.10.10.2",
        "10.10.10.1 ,10.10.10.2",
        "10.10.10.1 , 10.10.10.2",
    ] {
        let (l, _) = ip_list(data, 0);
        assert_eq!(l, vec![IpAddr::V4(10, 10, 10, 1), IpAddr::V4(10, 10, 10, 2)], "{}", data);
    }
}

#[test]
fn parse_ip_list_that_is_empty() {
    let (l, j) = ip_list("", 0);
    assert_eq!(l.len(), 0);
    assert_eq!(j, 0);
}

#[test]
fn ip_list_single_and_order() {
    let (l, j) = ip_list("172.26.28.115", 0);
    assert_eq!(l, vec![IpAddr::V4(172, 26, 28, 115)]);
    assert_eq!(j, 13);
    let (l, _) = ip_list("3.3.3.3,2.2.2.2,1.1.1.1", 0);
    assert_eq!(
        l,
        vec![IpAddr::V4(3, 3, 3, 3), IpAddr::V4(2, 2, 2, 2), IpAddr::V4(1, 1, 1, 1)]
    );
}

#[test]
fn parse_x_forwarded_for() {
    for data in [
        "x_forwarded_for:\"10.10.10.1, 10.10.10.2\"",
        "x_forwarded_for: \"10.10.10.1, 10.10.10.2\"",
    ] {
        let res = x_forwarded_for(data, 0);
        assert!(res.is_ok(), "{:?}", res.err().unwrap());
        assert_eq!(
            res.unwrap().0,
            vec![IpAddr::V4(10, 10, 10, 1), IpAddr::V4(10, 10, 10, 2)],
            "{}",
            data
        );
    }
}

#[test]
fn parse_x_forwarded_proto() {
    let res = x_forwarded_proto("x_forwarded_proto:\"http\"", 0);
    assert!(res.is_ok());
    assert_eq!(res.unwrap().0, XForwardedProto::HTTP);

    let res = x_forwarded_proto("x_forwarded_proto:http ", 0);
    assert!(res.is_ok());
    assert_eq!(res.unwrap().0, XForwardedProto::HTTP);

    let res = x_forwarded_proto("x_forwarded_proto:\"https\"", 0);
    assert!(res.is_ok());
    assert_eq!(res.unwrap().0, XForwardedProto::HTTPS);

    let res = x_forwarded_proto("x_forwarded_proto:\"foo\"", 0);
    assert!(res.is_ok());
    assert_eq!(res.unwrap().0, XForwardedProto::UNSPECIFIED);

    let res = x_forwarded_proto("x_forwarded_proto:\"-\"", 0);
    assert!(res.is_ok());
    assert_eq!(res.unwrap().0, XForwardedProto::UNSPECIFIED);

    let res = x_forwarded_proto("x_forwarded_proto:-", 0);
    assert!(res.is_ok());
    assert_eq!(res.unwrap().0, XForwardedProto::UNSPECIFIED);
}

#[test]
fn parse_vcap_request_id() {
    let res = vcap_request_id("vcap_request_id:\"e1604ad1-002c-48ff-6c44-f360e3096911\"", 0);
    assert!(res.is_ok());
    assert_eq!(res.unwrap().0, Some("e1604ad1-002c-48ff-6c44-f360e3096911".to_string()));

    let res = vcap_request_id("vcap_request_id: \"e1604ad1-002c-48ff-6c44-f360e3096911\"", 0);
    assert!(res.is_ok());
    assert_eq!(res.unwrap().0, Some("e1604ad1-002c-48ff-6c44-f360e3096911".to_string()));

    let res = vcap_request_id("vcap_request_id:\"-\"", 0);
    assert!(res.is_ok());
    assert_eq!(res.unwrap().0, None);

    let res = vcap_request_id("vcap_request_id:-", 0);
    assert!(res.is_ok());
    assert_eq!(res.unwrap().0, None);
}

#[test]
fn parse_response_time() {
    let res = response_time("response_time:0.007799583", 0);
    assert_eq!(res, (Some("0.007799583".to_string()), 25));

    let res = response_time("response_time: 0.007799583", 0);
    assert_eq!(res, (Some("0.007799583".to_string()), 26));

    let res = response_time("response_time:\"-\"", 0);
    assert_eq!(res, (None, 17));

    let res = response_time("response_time:-", 0);
    assert_eq!(res, (None, 15));
}

#[test]
fn parse_gorouter_time() {
    let res = gorouter_time("gorouter_time:0.000104", 0);
    assert_eq!(res, (Some("0.000104".to_string()), 22));

    let res = gorouter_time("gorouter_time: 0.000104", 0);
    assert_eq!(res, (Some("0.000104".to_string()), 23));

    let res = gorouter_time("gorouter_time:\"-\"", 0);
    assert_eq!(res, (None, 17));

    let res = gorouter_time("gorouter_time:-", 0);
    assert_eq!(res, (None, 15));
}

#[test]
fn parse_app_id() {
    let res = app_id("app_id:\"e1604ad1-002c-48ff-6c44-f360e3096911\"", 0);
    assert!(res.is_ok());
    assert_eq!(res.unwrap().0, Some("e1604ad1-002c-48ff-6c44-f360e3096911".to_string()));

    let res = app_id("app_id: \"e1604ad1-002c-48ff-6c44-f360e3096911\"", 0);
    assert!(res.is_ok());
    assert_eq!(res.unwrap().0, Some("e1604ad1-002c-48ff-6c44-f360e3096911".to_string()));

    let res = app_id("app_id:\"-\"", 0);
    assert!(res.is_ok());
    assert_eq!(res.unwrap().0, None);

    let res = app_id("app_id:-", 0);
    assert!(res.is_ok());
    assert_eq!(res.unwrap().0, None);
}

#[test]
fn parse_app_index() {
    let res = app_index("app_index:\"0\"", 0);
    assert!(res.is_ok());
    assert_eq!(res.unwrap().0, Some(0));

    let res = app_index("app_index: \"0\"", 0);
    assert!(res.is_ok());
    assert_eq!(res.unwrap().0, Some(0));

    let res = app_index("app_index:\"-\"", 0);
    assert!(res.is_ok());
    assert_eq!(res.unwrap().0, None);

    let res = app_index("app_index:-", 0);
    assert!(res.is_ok());
    assert_eq!(res.unwrap().0, None);
}

#[test]
fn parse_instance_id() {
    let res = instance_id("instance_id:\"e1604ad1-002c-48ff-6c44-f360e3096911\"", 0);
    assert_eq!(res.0, Some("e1604ad1-002c-48ff-6c44-f360e3096911".to_string()));

    let res = instance_id("instance_id: \"e1604ad1-002c-48ff-6c44-f360e3096911\"", 0);
    assert_eq!(res.0, Some("e1604ad1-002c-48ff-6c44-f360e3096911".to_string()));

    let res = instance_id("instance_id:\"-\"", 0);
    assert_eq!(res.0, None);

    let res = instance_id("instance_id:-", 0);
    assert_eq!(res.0, None);

    let res = instance_id("", 0);
    assert_eq!(res, (None, 0));
}

#[test]
fn parse_x_cf_routererror() {
    let res = x_cf_routererror("x_cf_routererror:\"unknown_route\"", 0);
    assert_eq!(res.0, Some("unknown_route".to_string()));

    let res = x_cf_routererror("x_cf_routererror: \"unknown_route\"", 0);
    assert_eq!(res.0, Some("unknown_route".to_string()));

    let res = x_cf_routererror("x_cf_routererror:\"-\"", 0);
    assert_eq!(res.0, None);

    let res = x_cf_routererror("x_cf_routererror:-", 0);
    assert_eq!(res.0, None);

    let res = x_cf_routererror("", 0);
    assert_eq!(res, (None, 0));
}

#[test]
fn parse_x_b3_traceid() {
    let res = x_b3_traceid("x_b3_traceid:\"f7a79a16ab5c8383\"", 0);
    assert_eq!(res.0, Some("f7a79a16ab5c8383".to_string()));

    let res = x_b3_traceid("x_b3_traceid: \"f7a79a16ab5c8383\"", 0);
    assert_eq!(res.0, Some("f7a79a16ab5c8383".to_string()));

    let res = x_b3_traceid("x_b3_traceid:\"-\"", 0);
    assert_eq!(res.0, None);

    let res = x_b3_traceid("x_b3_traceid:-", 0);
    assert_eq!(res.0, None);

    let res = x_b3_traceid("", 0);
    assert_eq!(res, (None, 0));
}

#[test]
fn parse_x_b3_spanid() {
    let res = x_b3_spanid("x_b3_spanid:\"f7a79a16ab5c8383\"", 0);
    assert_eq!(res.0, Some("f7a79a16ab5c8383".to_string()));

    let res = x_b3_spanid("x_b3_spanid: \"f7a79a16ab5c8383\"", 0);
    assert_eq!(res.0, Some("f7a79a16ab5c8383".to_string()));

    let res = x_b3_spanid("x_b3_spanid:\"-\"", 0);
    assert_eq!(res.0, None);

    let res = x_b3_spanid("x_b3_spanid:-", 0);
    assert_eq!(res.0, None);

    let res = x_b3_spanid("", 0);
    assert_eq!(res, (None, 0));
}

#[test]
fn parse_x_b3_parentspanid() {
    let res = x_b3_parentspanid("x_b3_parentspanid:\"f7a79a16ab5c8383\"", 0);
    assert_eq!(res.0, Some("f7a79a16ab5c8383".to_string()));

    let res = x_b3_parentspanid("x_b3_parentspanid: \"f7a79a16ab5c8383\"", 0);
    assert_eq!(res.0, Some("f7a79a16ab5c8383".to_string()));

    let res = x_b3_parentspanid("x_b3_parentspanid:\"-\"", 0);
    assert_eq!(res.0, None);

    let res = x_b3_parentspanid("x_b3_parentspanid:-", 0);
    assert_eq!(res.0, None);

    let res = x_b3_parentspanid("", 0);
    assert_eq!(res, (None, 0));
}

#[test]
fn x_forwarded_for_dash_and_empty_are_empty_lists() {
    let res = x_forwarded_for("x_forwarded_for:\"-\"", 0);
    assert_eq!(res.unwrap().0, Vec::<IpAddr>::new());
    let res = x_forwarded_for("x_forwarded_for:\"\"", 0);
    assert_eq!(res.unwrap().0, Vec::<IpAddr>::new());
}

#[test]
fn trailing_fields_absent_when_key_missing() {
    // an unrelated next token leaves the trailing telemetry fields absent
    assert_eq!(instance_id("x_b3_traceid:\"aa\"", 0), (None, 0));
    assert_eq!(x_cf_routererror("x_b3_traceid:\"aa\"", 0), (None, 0));
    assert_eq!(x_b3_parentspanid("b3:\"aa-bb\"", 0), (None, 0));
}
