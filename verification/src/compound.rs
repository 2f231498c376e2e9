use vstd::prelude::*;

use crate::fields::{
    idnetd_user, ip_and_port, ip_list, referrer, request, sp_idnetd_user, sp_ip_and_port,
    sp_ip_list, sp_referrer, sp_request, sp_user, sp_user_agent, user, user_agent,
};
use crate::kv::{
    app_id, app_index, gorouter_time, instance_id, response_time, sp_app_id, sp_app_index,
    sp_gorouter_time, sp_instance_id, sp_response_time, sp_vcap_request_id, sp_x_b3_parentspanid,
    sp_x_b3_spanid, sp_x_b3_traceid, sp_x_cf_routererror, sp_x_forwarded_for,
    sp_x_forwarded_proto, vcap_request_id, x_b3_parentspanid, x_b3_spanid, x_b3_traceid,
    x_cf_routererror, x_forwarded_for, x_forwarded_proto,
};
use crate::scan::{non_ws_end, scan_non_ws, scan_ws, ws_end};
use crate::tokens::{bytes, date, http_status, ip, sp_bytes, sp_date, sp_http_status, sp_ip};
use crate::trace::{PErr, Rule};
use crate::types::{
    CloudControllerLogEntry, CloudControllerLogEntryV, CombinedLogEntry, CombinedLogEntryV,
    CommonLogEntry, CommonLogEntryV, GorouterLogEntry, GorouterLogEntryV,
};
use vstd::string::StrSliceExecFns;

verus! {

// The format assemblers: one strict left-to-right sequence of field
// parsers per log format, joined by single-space separators, or by a run
// of whitespace before the trailing telemetry fields.  The first field
// that fails aborts the whole assembler with its trace.

/// One expected literal character.
pub open spec fn sp_char(s: Seq<char>, j: int, c: char) -> Result<int, Seq<(Rule, int)>> {
    if j < s.len() && s[j] == c {
        Ok(j + 1)
    } else {
        Err(seq![(Rule::Expected(c), j)])
    }
}

fn expect_char(s: &str, j: usize, c: char) -> (r: Result<usize, PErr>)
    requires
        j <= s@.len(),
    ensures
        ({
            let sp = sp_char(s@, j as int, c);
            match r {
                Ok(p) => sp == Ok::<_, Seq<(Rule, int)>>(p as int) && j < p <= s@.len(),
                Err(e) => sp == Err::<int, _>(e@),
            }
        }),
{
    let n: usize = s.unicode_len();
    if j < n && s.get_char(j) == c {
        Ok(j + 1)
    } else {
        Err(PErr::new(Rule::Expected(c), j))
    }
}

/// The request-host token: one or more non-whitespace characters.
pub open spec fn sp_host(s: Seq<char>, i: int) -> Result<(Seq<char>, int), Seq<(Rule, int)>> {
    let e = non_ws_end(s, i);
    if e > i {
        Ok((s.subrange(i, e), e))
    } else {
        Err(seq![(Rule::TakeWhile1, i)])
    }
}

fn host(s: &str, i: usize) -> (r: Result<(String, usize), PErr>)
    requires
        i <= s@.len(),
    ensures
        ({
            let sp = sp_host(s@, i as int);
            match r {
                Ok((h, j)) => sp == Ok::<_, Seq<(Rule, int)>>((h@, j as int)) && i <= j <= s@.len(),
                Err(e) => sp == Err::<(Seq<char>, int), _>(e@),
            }
        }),
{
    let e: usize = scan_non_ws(s, i);
    if e > i {
        Ok((s.substring_char(i, e).to_owned(), e))
    } else {
        Err(PErr::new(Rule::TakeWhile1, i))
    }
}

/// The plain access-log grammar:
/// ip, ident user, auth user, timestamp, request, status, bytes.
pub open spec fn sp_common_core(s: Seq<char>, i: int) -> Result<
    (CommonLogEntryV, int),
    Seq<(Rule, int)>,
> {
    match sp_ip(s, i) {
        Err(e) => Err(e),
        Ok((ipv, p1)) => match sp_char(s, p1, ' ') {
            Err(e) => Err(e),
            Ok(p2) => {
                let (identd, p3) = sp_idnetd_user(s, p2);
                match sp_char(s, p3, ' ') {
                    Err(e) => Err(e),
                    Ok(p4) => {
                        let (usr, p5) = sp_user(s, p4);
                        match sp_char(s, p5, ' ') {
                            Err(e) => Err(e),
                            Ok(p6) => match sp_date(s, p6) {
                                Err(e) => Err(e),
                                Ok((ts, p7)) => match sp_char(s, p7, ' ') {
                                    Err(e) => Err(e),
                                    Ok(p8) => match sp_request(s, p8) {
                                        Err(e) => Err(e),
                                        Ok((req, p9)) => match sp_char(s, p9, ' ') {
                                            Err(e) => Err(e),
                                            Ok(p10) => match sp_http_status(s, p10) {
                                                Err(e) => Err(e),
                                                Ok((st, p11)) => match sp_char(s, p11, ' ') {
                                                    Err(e) => Err(e),
                                                    Ok(p12) => match sp_bytes(s, p12) {
                                                        Err(e) => Err(e),
                                                        Ok((b, p13)) => Ok(
                                                            (
                                                                CommonLogEntryV {
                                                                    ip: ipv,
                                                                    identd_user: identd,
                                                                    user: usr,
                                                                    timestamp: ts,
                                                                    request: req,
                                                                    status_code: st,
                                                                    bytes: b,
                                                                },
                                                                p13,
                                                            ),
                                                        ),
                                                    },
                                                },
                                            },
                                        },
                                    },
                                },
                            },
                        }
                    },
                }
            },
        },
    }
}

pub open spec fn sp_common_log(s: Seq<char>, i: int) -> Result<
    (CommonLogEntryV, int),
    Seq<(Rule, int)>,
> {
    match sp_common_core(s, i) {
        Ok(x) => Ok(x),
        Err(e) => Err(e.push((Rule::CommonLog, i))),
    }
}

pub fn common_log(s: &str, i: usize) -> (r: Result<(CommonLogEntry, usize), PErr>)
    requires
        i <= s@.len(),
    ensures
        ({
            let sp = sp_common_log(s@, i as int);
            match r {
                Ok((en, j)) => sp == Ok::<_, Seq<(Rule, int)>>((en@, j as int)) && i <= j
                    <= s@.len(),
                Err(e) => sp == Err::<(CommonLogEntryV, int), _>(e@),
            }
        }),
{
    let (ipv, p1) = match ip(s, i) {
        Ok(x) => x,
        Err(e) => {
            return Err(e.ctx(Rule::CommonLog, i));
        },
    };
    let p2: usize = match expect_char(s, p1, ' ') {
        Ok(x) => x,
        Err(e) => {
            return Err(e.ctx(Rule::CommonLog, i));
        },
    };
    let (identd, p3) = idnetd_user(s, p2);
    let p4: usize = match expect_char(s, p3, ' ') {
        Ok(x) => x,
        Err(e) => {
            return Err(e.ctx(Rule::CommonLog, i));
        },
    };
    let (usr, p5) = user(s, p4);
    let p6: usize = match expect_char(s, p5, ' ') {
        Ok(x) => x,
        Err(e) => {
            return Err(e.ctx(Rule::CommonLog, i));
        },
    };
    let (ts, p7) = match date(s, p6) {
        Ok(x) => x,
        Err(e) => {
            return Err(e.ctx(Rule::CommonLog, i));
        },
    };
    let p8: usize = match expect_char(s, p7, ' ') {
        Ok(x) => x,
        Err(e) => {
            return Err(e.ctx(Rule::CommonLog, i));
        },
    };
    let (req, p9) = match request(s, p8) {
        Ok(x) => x,
        Err(e) => {
            return Err(e.ctx(Rule::CommonLog, i));
        },
    };
    let p10: usize = match expect_char(s, p9, ' ') {
        Ok(x) => x,
        Err(e) => {
            return Err(e.ctx(Rule::CommonLog, i));
        },
    };
    let (st, p11) = match http_status(s, p10) {
        Ok(x) => x,
        Err(e) => {
            return Err(e.ctx(Rule::CommonLog, i));
        },
    };
    let p12: usize = match expect_char(s, p11, ' ') {
        Ok(x) => x,
        Err(e) => {
            return Err(e.ctx(Rule::CommonLog, i));
        },
    };
    let (b, p13) = match bytes(s, p12) {
        Ok(x) => x,
        Err(e) => {
            return Err(e.ctx(Rule::CommonLog, i));
        },
    };
    Ok(
        (
            CommonLogEntry {
                ip: ipv,
                identd_user: identd,
                user: usr,
                timestamp: ts,
                request: req,
                status_code: st,
                bytes: b,
            },
            p13,
        ),
    )
}

/// The combined grammar: the plain grammar, then referrer and user agent.
pub open spec fn sp_combined_log(s: Seq<char>, i: int) -> Result<
    (CombinedLogEntryV, int),
    Seq<(Rule, int)>,
> {
    match sp_combined_core(s, i) {
        Ok(x) => Ok(x),
        Err(e) => Err(e.push((Rule::CombinedLog, i))),
    }
}

pub open spec fn sp_combined_core(s: Seq<char>, i: int) -> Result<
    (CombinedLogEntryV, int),
    Seq<(Rule, int)>,
> {
    match sp_common_log(s, i) {
        Err(e) => Err(e),
        Ok((c, p1)) => match sp_char(s, p1, ' ') {
            Err(e) => Err(e),
            Ok(p2) => {
                let (refr, p3) = sp_referrer(s, p2);
                match sp_char(s, p3, ' ') {
                    Err(e) => Err(e),
                    Ok(p4) => match sp_user_agent(s, p4) {
                        Err(e) => Err(e),
                        Ok((ua, p5)) => Ok(
                            (
                                CombinedLogEntryV {
                                    ip: c.ip,
                                    identd_user: c.identd_user,
                                    user: c.user,
                                    timestamp: c.timestamp,
                                    request: c.request,
                                    status_code: c.status_code,
                                    bytes: c.bytes,
                                    referrer: refr,
                                    user_agent: ua,
                                },
                                p5,
                            ),
                        ),
                    },
                }
            },
        },
    }
}

pub fn combined_log(s: &str, i: usize) -> (r: Result<(CombinedLogEntry, usize), PErr>)
    requires
        i <= s@.len(),
    ensures
        ({
            let sp = sp_combined_log(s@, i as int);
            match r {
                Ok((en, j)) => sp == Ok::<_, Seq<(Rule, int)>>((en@, j as int)) && i <= j
                    <= s@.len(),
                Err(e) => sp == Err::<(CombinedLogEntryV, int), _>(e@),
            }
        }),
{
    let (c, p1) = match common_log(s, i) {
        Ok(x) => x,
        Err(e) => {
            return Err(e.ctx(Rule::CombinedLog, i));
        },
    };
    let p2: usize = match expect_char(s, p1, ' ') {
        Ok(x) => x,
        Err(e) => {
            return Err(e.ctx(Rule::CombinedLog, i));
        },
    };
    let (refr, p3) = referrer(s, p2);
    let p4: usize = match expect_char(s, p3, ' ') {
        Ok(x) => x,
        Err(e) => {
            return Err(e.ctx(Rule::CombinedLog, i));
        },
    };
    let (ua, p5) = match user_agent(s, p4) {
        Ok(x) => x,
        Err(e) => {
            return Err(e.ctx(Rule::CombinedLog, i));
        },
    };
    Ok(
        (
            CombinedLogEntry {
                ip: c.ip,
                identd_user: c.identd_user,
                user: c.user,
                timestamp: c.timestamp,
                request: c.request,
                status_code: c.status_code,
                bytes: c.bytes,
                referrer: refr,
                user_agent: ua,
            },
            p5,
        ),
    )
}

/// The cloud controller grammar: request host, a literal dash placeholder,
/// timestamp, request, status, bytes, referrer, user agent, forwarded-for
/// list, request id and response time.
pub open spec fn sp_cloud_controller_log(s: Seq<char>, i: int) -> Result<
    (CloudControllerLogEntryV, int),
    Seq<(Rule, int)>,
> {
    match sp_cloud_controller_core(s, i) {
        Ok(x) => Ok(x),
        Err(e) => Err(e.push((Rule::CloudControllerLog, i))),
    }
}

pub open spec fn sp_cloud_controller_core(s: Seq<char>, i: int) -> Result<
    (CloudControllerLogEntryV, int),
    Seq<(Rule, int)>,
> {
    match sp_host(s, i) {
        Err(e) => Err(e),
        Ok((h, p1)) => match sp_char(s, p1, ' ') {
            Err(e) => Err(e),
            Ok(p2) => match sp_char(s, p2, '-') {
                Err(e) => Err(e),
                Ok(p3) => match sp_char(s, p3, ' ') {
                    Err(e) => Err(e),
                    Ok(p4) => match sp_date(s, p4) {
                        Err(e) => Err(e),
                        Ok((ts, p5)) => match sp_char(s, p5, ' ') {
                            Err(e) => Err(e),
                            Ok(p6) => match sp_request(s, p6) {
                                Err(e) => Err(e),
                                Ok((req, p7)) => match sp_char(s, p7, ' ') {
                                    Err(e) => Err(e),
                                    Ok(p8) => match sp_http_status(s, p8) {
                                        Err(e) => Err(e),
                                        Ok((st, p9)) => match sp_char(s, p9, ' ') {
                                            Err(e) => Err(e),
                                            Ok(p10) => match sp_bytes(s, p10) {
                                                Err(e) => Err(e),
                                                Ok((b, p11)) => match sp_char(s, p11, ' ') {
                                                    Err(e) => Err(e),
                                                    Ok(p12) => sp_cloud_controller_tail(
                                                        s,
                                                        i,
                                                        h,
                                                        ts,
                                                        req,
                                                        st,
                                                        b,
                                                        p12,
                                                    ),
                                                },
                                            },
                                        },
                                    },
                                },
                            },
                        },
                    },
                },
            },
        },
    }
}

pub open spec fn sp_cloud_controller_tail(
    s: Seq<char>,
    i: int,
    h: Seq<char>,
    ts: crate::types::Timestamp,
    req: crate::types::RequestResultV,
    st: u16,
    b: u64,
    p12: int,
) -> Result<(CloudControllerLogEntryV, int), Seq<(Rule, int)>> {
    let (refr, p13) = sp_referrer(s, p12);
    match sp_char(s, p13, ' ') {
        Err(e) => Err(e),
        Ok(p14) => match sp_user_agent(s, p14) {
            Err(e) => Err(e),
            Ok((ua, p15)) => match sp_char(s, p15, ' ') {
                Err(e) => Err(e),
                Ok(p16) => {
                    let (xff, p17) = sp_ip_list(s, p16);
                    match sp_char(s, p17, ' ') {
                        Err(e) => Err(e),
                        Ok(p18) => match sp_vcap_request_id(s, p18) {
                            Err(e) => Err(e),
                            Ok((vrid, p19)) => match sp_char(s, p19, ' ') {
                                Err(e) => Err(e),
                                Ok(p20) => {
                                    let (rt, p21) = sp_response_time(s, p20);
                                    Ok(
                                        (
                                            CloudControllerLogEntryV {
                                                request_host: h,
                                                timestamp: ts,
                                                request: req,
                                                status_code: st,
                                                bytes: b,
                                                referrer: refr,
                                                user_agent: ua,
                                                x_forwarded_for: xff,
                                                vcap_request_id: vrid,
                                                response_time: rt,
                                            },
                                            p21,
                                        ),
                                    )
                                },
                            },
                        },
                    }
                },
            },
        },
    }
}

#[verifier::rlimit(40)]
pub fn cloud_controller_log(s: &str, i: usize) -> (r: Result<(CloudControllerLogEntry, usize), PErr>)
    requires
        i <= s@.len(),
    ensures
        ({
            let sp = sp_cloud_controller_log(s@, i as int);
            match r {
                Ok((en, j)) => sp == Ok::<_, Seq<(Rule, int)>>((en@, j as int)) && i <= j
                    <= s@.len(),
                Err(e) => sp == Err::<(CloudControllerLogEntryV, int), _>(e@),
            }
        }),
{
    let (h, p1) = match host(s, i) {
        Ok(x) => x,
        Err(e) => {
            return Err(e.ctx(Rule::CloudControllerLog, i));
        },
    };
    let p2: usize = match expect_char(s, p1, ' ') {
        Ok(x) => x,
        Err(e) => {
            return Err(e.ctx(Rule::CloudControllerLog, i));
        },
    };
    let p3: usize = match expect_char(s, p2, '-') {
        Ok(x) => x,
        Err(e) => {
            return Err(e.ctx(Rule::CloudControllerLog, i));
        },
    };
    let p4: usize = match expect_char(s, p3, ' ') {
        Ok(x) => x,
        Err(e) => {
            return Err(e.ctx(Rule::CloudControllerLog, i));
        },
    };
    let (ts, p5) = match date(s, p4) {
        Ok(x) => x,
        Err(e) => {
            return Err(e.ctx(Rule::CloudControllerLog, i));
        },
    };
    let p6: usize = match expect_char(s, p5, ' ') {
        Ok(x) => x,
        Err(e) => {
            return Err(e.ctx(Rule::CloudControllerLog, i));
        },
    };
    let (req, p7) = match request(s, p6) {
        Ok(x) => x,
        Err(e) => {
            return Err(e.ctx(Rule::CloudControllerLog, i));
        },
    };
    let p8: usize = match expect_char(s, p7, ' ') {
        Ok(x) => x,
        Err(e) => {
            return Err(e.ctx(Rule::CloudControllerLog, i));
        },
    };
    let (st, p9) = match http_status(s, p8) {
        Ok(x) => x,
        Err(e) => {
            return Err(e.ctx(Rule::CloudControllerLog, i));
        },
    };
    let p10: usize = match expect_char(s, p9, ' ') {
        Ok(x) => x,
        Err(e) => {
            return Err(e.ctx(Rule::CloudControllerLog, i));
        },
    };
    let (b, p11) = match bytes(s, p10) {
        Ok(x) => x,
        Err(e) => {
            return Err(e.ctx(Rule::CloudControllerLog, i));
        },
    };
    let p12: usize = match expect_char(s, p11, ' ') {
        Ok(x) => x,
        Err(e) => {
            return Err(e.ctx(Rule::CloudControllerLog, i));
        },
    };
    let (refr, p13) = referrer(s, p12);
    let p14: usize = match expect_char(s, p13, ' ') {
        Ok(x) => x,
        Err(e) => {
            return Err(e.ctx(Rule::CloudControllerLog, i));
        },
    };
    let (ua, p15) = match user_agent(s, p14) {
        Ok(x) => x,
        Err(e) => {
            return Err(e.ctx(Rule::CloudControllerLog, i));
        },
    };
    let p16: usize = match expect_char(s, p15, ' ') {
        Ok(x) => x,
        Err(e) => {
            return Err(e.ctx(Rule::CloudControllerLog, i));
        },
    };
    let (xff, p17) = ip_list(s, p16);
    let p18: usize = match expect_char(s, p17, ' ') {
        Ok(x) => x,
        Err(e) => {
            return Err(e.ctx(Rule::CloudControllerLog, i));
        },
    };
    let (vrid, p19) = match vcap_request_id(s, p18) {
        Ok(x) => x,
        Err(e) => {
            return Err(e.ctx(Rule::CloudControllerLog, i));
        },
    };
    let p20: usize = match expect_char(s, p19, ' ') {
        Ok(x) => x,
        Err(e) => {
            return Err(e.ctx(Rule::CloudControllerLog, i));
        },
    };
    let (rt, p21) = response_time(s, p20);
    Ok(
        (
            CloudControllerLogEntry {
                request_host: h,
                timestamp: ts,
                request: req,
                status_code: st,
                bytes: b,
                referrer: refr,
                user_agent: ua,
                x_forwarded_for: xff,
                vcap_request_id: vrid,
                response_time: rt,
            },
            p21,
        ),
    )
}

/// The fields of a router line up to the backend address, while the rest
/// of the line is still being parsed.
pub struct GorHead {
    pub h: Seq<char>,
    pub ts: crate::types::Timestamp,
    pub req: crate::types::RequestResultV,
    pub st: u16,
    pub br: u64,
    pub bs: u64,
    pub refr: Option<Seq<char>>,
    pub ua: Option<Seq<char>>,
    pub remote: Option<(crate::types::IpAddr, u16)>,
    pub remote_at: int,
    pub backend: Option<(crate::types::IpAddr, u16)>,
}

/// The reverse proxy router's grammar: request host, dash placeholder,
/// timestamp, request, status, bytes in and out, referrer, user agent,
/// remote and backend addresses, then the proxy metadata and trailing
/// telemetry fields.  The remote address is mandatory: a line whose remote
/// field is the dash sentinel is a parse error, not a panic.
pub open spec fn sp_gorouter_log(s: Seq<char>, i: int) -> Result<
    (GorouterLogEntryV, int),
    Seq<(Rule, int)>,
> {
    match sp_gorouter_core(s, i) {
        Ok(x) => Ok(x),
        Err(e) => Err(e.push((Rule::GorouterLog, i))),
    }
}

#[verifier::opaque]
pub open spec fn sp_gorouter_core(s: Seq<char>, i: int) -> Result<
    (GorouterLogEntryV, int),
    Seq<(Rule, int)>,
> {
    match sp_host(s, i) {
        Err(e) => Err(e),
        Ok((h, p1)) => match sp_char(s, p1, ' ') {
            Err(e) => Err(e),
            Ok(p2) => match sp_char(s, p2, '-') {
                Err(e) => Err(e),
                Ok(p3) => match sp_char(s, p3, ' ') {
                    Err(e) => Err(e),
                    Ok(p4) => match sp_date(s, p4) {
                        Err(e) => Err(e),
                        Ok((ts, p5)) => match sp_char(s, p5, ' ') {
                            Err(e) => Err(e),
                            Ok(p6) => match sp_request(s, p6) {
                                Err(e) => Err(e),
                                Ok((req, p7)) => match sp_char(s, p7, ' ') {
                                    Err(e) => Err(e),
                                    Ok(p8) => match sp_http_status(s, p8) {
                                        Err(e) => Err(e),
                                        Ok((st, p9)) => match sp_char(s, p9, ' ') {
                                            Err(e) => Err(e),
                                            Ok(p10) => sp_gorouter_body(
                                                s,
                                                i,
                                                h,
                                                ts,
                                                req,
                                                st,
                                                p10,
                                            ),
                                        },
                                    },
                                },
                            },
                        },
                    },
                },
            },
        },
    }
}

#[verifier::opaque]
pub open spec fn sp_gorouter_body(
    s: Seq<char>,
    i: int,
    h: Seq<char>,
    ts: crate::types::Timestamp,
    req: crate::types::RequestResultV,
    st: u16,
    p10: int,
) -> Result<(GorouterLogEntryV, int), Seq<(Rule, int)>> {
    match sp_bytes(s, p10) {
        Err(e) => Err(e.push((Rule::BytesReceived, p10))),
        Ok((br, q1)) => match sp_char(s, q1, ' ') {
            Err(e) => Err(e.push((Rule::BytesReceived, p10))),
            Ok(q2) => match sp_bytes(s, q2) {
                Err(e) => Err(e.push((Rule::BytesSent, q2))),
                Ok((bs, q3)) => match sp_char(s, q3, ' ') {
                    Err(e) => Err(e.push((Rule::BytesSent, q2))),
                    Ok(q4) => {
                        let (refr, q5) = sp_referrer(s, q4);
                        match sp_char(s, q5, ' ') {
                            Err(e) => Err(e),
                            Ok(q6) => match sp_user_agent(s, q6) {
                                Err(e) => Err(e),
                                Ok((ua, q7)) => match sp_char(s, q7, ' ') {
                                    Err(e) => Err(e),
                                    Ok(q8) => match sp_ip_and_port(s, q8) {
                                        Err(e) => Err(e.push((Rule::RemoteAddress, q8))),
                                        Ok((remote, q9)) => match sp_char(s, q9, ' ') {
                                            Err(e) => Err(e.push((Rule::RemoteAddress, q8))),
                                            Ok(q10) => match sp_ip_and_port(s, q10) {
                                                Err(e) => Err(
                                                    e.push((Rule::BackendAddress, q10)),
                                                ),
                                                Ok((backend, q11)) => match sp_char(s, q11, ' ') {
                                                    Err(e) => Err(
                                                        e.push((Rule::BackendAddress, q10)),
                                                    ),
                                                    Ok(q12) => sp_gorouter_mid(
                                                        s,
                                                        GorHead {
                                                            h,
                                                            ts,
                                                            req,
                                                            st,
                                                            br,
                                                            bs,
                                                            refr,
                                                            ua,
                                                            remote,
                                                            remote_at: q8,
                                                            backend,
                                                        },
                                                        q12,
                                                    ),
                                                },
                                            },
                                        },
                                    },
                                },
                            },
                        }
                    },
                },
            },
        },
    }
}

#[verifier::opaque]
pub open spec fn sp_gorouter_mid(s: Seq<char>, hd: GorHead, p: int) -> Result<
    (GorouterLogEntryV, int),
    Seq<(Rule, int)>,
> {
    match sp_x_forwarded_for(s, p) {
        Err(e) => Err(e),
        Ok((xff, q1)) => match sp_char(s, q1, ' ') {
            Err(e) => Err(e),
            Ok(q2) => match sp_x_forwarded_proto(s, q2) {
                Err(e) => Err(e),
                Ok((xfp, q3)) => match sp_char(s, q3, ' ') {
                    Err(e) => Err(e),
                    Ok(q4) => match sp_vcap_request_id(s, q4) {
                        Err(e) => Err(e),
                        Ok((vrid, q5)) => match sp_char(s, q5, ' ') {
                            Err(e) => Err(e),
                            Ok(q6) => {
                                let (rt, q7) = sp_response_time(s, q6);
                                match sp_char(s, q7, ' ') {
                                    Err(e) => Err(e),
                                    Ok(q8) => {
                                        let (gt, q9) = sp_gorouter_time(s, q8);
                                        let q10 = ws_end(s, q9);
                                        sp_gorouter_tail(s, hd, xff, xfp, vrid, rt, gt, q10)
                                    },
                                }
                            },
                        },
                    },
                },
            },
        },
    }
}

#[verifier::opaque]
pub open spec fn sp_gorouter_tail(
    s: Seq<char>,
    hd: GorHead,
    xff: Seq<crate::types::IpAddr>,
    xfp: crate::types::XForwardedProto,
    vrid: Option<Seq<char>>,
    rt: Option<Seq<char>>,
    gt: Option<Seq<char>>,
    p: int,
) -> Result<(GorouterLogEntryV, int), Seq<(Rule, int)>> {
    match sp_app_id(s, p) {
        Err(e) => Err(e),
        Ok((aid, r1)) => match sp_char(s, r1, ' ') {
            Err(e) => Err(e),
            Ok(r2) => match sp_app_index(s, r2) {
                Err(e) => Err(e),
                Ok((aix, r3)) => {
                    let r4 = ws_end(s, r3);
                    let (iid, r5) = sp_instance_id(s, r4);
                    let r6 = ws_end(s, r5);
                    let (rerr, r7) = sp_x_cf_routererror(s, r6);
                    let r8 = ws_end(s, r7);
                    let (tid, r9) = sp_x_b3_traceid(s, r8);
                    let r10 = ws_end(s, r9);
                    let (sid, r11) = sp_x_b3_spanid(s, r10);
                    let r12 = ws_end(s, r11);
                    let (psid, r13) = sp_x_b3_parentspanid(s, r12);
                    let r14 = ws_end(s, r13);
                    match hd.remote {
                        None => Err(seq![(Rule::RemoteAddress, hd.remote_at)]),
                        Some((ra, rp)) => Ok(
                            (
                                GorouterLogEntryV {
                                    request_host: hd.h,
                                    timestamp: hd.ts,
                                    request: hd.req,
                                    status_code: hd.st,
                                    bytes_received: hd.br,
                                    bytes_sent: hd.bs,
                                    referrer: hd.refr,
                                    user_agent: hd.ua,
                                    remote_addr: ra,
                                    remote_port: rp,
                                    backend_addr: (match hd.backend {
                                        Some((ba, _)) => Some(ba),
                                        None => None,
                                    }),
                                    backend_port: (match hd.backend {
                                        Some((_, bp)) => Some(bp),
                                        None => None,
                                    }),
                                    x_forwarded_for: xff,
                                    x_forwarded_proto: xfp,
                                    vcap_request_id: vrid,
                                    response_time: rt,
                                    gorouter_time: gt,
                                    app_id: aid,
                                    app_index: aix,
                                    instance_id: iid,
                                    x_cf_routererror: rerr,
                                    trace_id: tid,
                                    span_id: sid,
                                    parent_span_id: psid,
                                },
                                r14,
                            ),
                        ),
                    }
                },
            },
        },
    }
}

/// The proxy metadata and telemetry part of a router line, after the
/// backend address and its separator.
#[verifier::rlimit(60)]
fn gorouter_rest(
    s: &str,
    h: String,
    ts: crate::types::Timestamp,
    req: crate::types::RequestResult,
    st: u16,
    br: u64,
    bs: u64,
    refr: Option<String>,
    ua: Option<String>,
    remote: Option<(crate::types::IpAddr, u16)>,
    remote_at: usize,
    backend: Option<(crate::types::IpAddr, u16)>,
    p: usize,
) -> (r: Result<(GorouterLogEntry, usize), PErr>)
    requires
        p <= s@.len(),
        remote_at <= s@.len(),
    ensures
        ({
            let hd = (GorHead {
                h: h@,
                ts,
                req: req@,
                st,
                br,
                bs,
                refr: crate::types::opt_str_view(refr),
                ua: crate::types::opt_str_view(ua),
                remote,
                remote_at: remote_at as int,
                backend,
            });
            let sp = sp_gorouter_mid(s@, hd, p as int);
            match r {
                Ok((en, j)) => sp == Ok::<_, Seq<(Rule, int)>>((en@, j as int)) && p <= j
                    <= s@.len(),
                Err(e) => sp == Err::<(GorouterLogEntryV, int), _>(e@),
            }
        }),
{
    proof {
        reveal(sp_gorouter_mid);
        reveal(sp_gorouter_tail);
    }
    let (xff, q1) = match x_forwarded_for(s, p) {
        Ok(x) => x,
        Err(e) => {
            return Err(e);
        },
    };
    let q2: usize = match expect_char(s, q1, ' ') {
        Ok(x) => x,
        Err(e) => {
            return Err(e);
        },
    };
    let (xfp, q3) = match x_forwarded_proto(s, q2) {
        Ok(x) => x,
        Err(e) => {
            return Err(e);
        },
    };
    let q4: usize = match expect_char(s, q3, ' ') {
        Ok(x) => x,
        Err(e) => {
            return Err(e);
        },
    };
    let (vrid, q5) = match vcap_request_id(s, q4) {
        Ok(x) => x,
        Err(e) => {
            return Err(e);
        },
    };
    let q6: usize = match expect_char(s, q5, ' ') {
        Ok(x) => x,
        Err(e) => {
            return Err(e);
        },
    };
    let (rt, q7) = response_time(s, q6);
    let q8: usize = match expect_char(s, q7, ' ') {
        Ok(x) => x,
        Err(e) => {
            return Err(e);
        },
    };
    let (gt, q9) = gorouter_time(s, q8);
    let q10: usize = scan_ws(s, q9);
    let (aid, r1) = match app_id(s, q10) {
        Ok(x) => x,
        Err(e) => {
            return Err(e);
        },
    };
    let r2: usize = match expect_char(s, r1, ' ') {
        Ok(x) => x,
        Err(e) => {
            return Err(e);
        },
    };
    let (aix, r3) = match app_index(s, r2) {
        Ok(x) => x,
        Err(e) => {
            return Err(e);
        },
    };
    let r4: usize = scan_ws(s, r3);
    let (iid, r5) = instance_id(s, r4);
    let r6: usize = scan_ws(s, r5);
    let (rerr, r7) = x_cf_routererror(s, r6);
    let r8: usize = scan_ws(s, r7);
    let (tid, r9) = x_b3_traceid(s, r8);
    let r10: usize = scan_ws(s, r9);
    let (sid, r11) = x_b3_spanid(s, r10);
    let r12: usize = scan_ws(s, r11);
    let (psid, r13) = x_b3_parentspanid(s, r12);
    let r14: usize = scan_ws(s, r13);
    match remote {
        None => Err(PErr::new(Rule::RemoteAddress, remote_at)),
        Some((ra, rp)) => Ok(
            (
                GorouterLogEntry {
                    request_host: h,
                    timestamp: ts,
                    request: req,
                    status_code: st,
                    bytes_received: br,
                    bytes_sent: bs,
                    referrer: refr,
                    user_agent: ua,
                    remote_addr: ra,
                    remote_port: rp,
                    backend_addr: (match backend {
                        Some((ba, _)) => Some(ba),
                        None => None,
                    }),
                    backend_port: (match backend {
                        Some((_, bp)) => Some(bp),
                        None => None,
                    }),
                    x_forwarded_for: xff,
                    x_forwarded_proto: xfp,
                    vcap_request_id: vrid,
                    response_time: rt,
                    gorouter_time: gt,
                    app_id: aid,
                    app_index: aix,
                    instance_id: iid,
                    x_cf_routererror: rerr,
                    trace_id: tid,
                    span_id: sid,
                    parent_span_id: psid,
                },
                r14,
            ),
        ),
    }
}

/// The leading fields of a router line: host, placeholder, timestamp,
/// request and status, with their separators.
#[verifier::rlimit(40)]
fn gorouter_head(s: &str, i: usize) -> (r: Result<
    ((String, crate::types::Timestamp, crate::types::RequestResult, u16), usize),
    PErr,
>)
    requires
        i <= s@.len(),
    ensures
        ({
            match r {
                Ok(((h, ts, req, st), p10)) => i <= p10 <= s@.len() && sp_gorouter_core(
                    s@,
                    i as int,
                ) == sp_gorouter_body(s@, i as int, h@, ts, req@, st, p10 as int),
                Err(e) => sp_gorouter_core(s@, i as int) == Err::<(GorouterLogEntryV, int), _>(e@),
            }
        }),
{
    proof {
        reveal(sp_gorouter_core);
    }
    let (h, p1) = match host(s, i) {
        Ok(x) => x,
        Err(e) => {
            return Err(e);
        },
    };
    let p2: usize = match expect_char(s, p1, ' ') {
        Ok(x) => x,
        Err(e) => {
            return Err(e);
        },
    };
    let p3: usize = match expect_char(s, p2, '-') {
        Ok(x) => x,
        Err(e) => {
            return Err(e);
        },
    };
    let p4: usize = match expect_char(s, p3, ' ') {
        Ok(x) => x,
        Err(e) => {
            return Err(e);
        },
    };
    let (ts, p5) = match date(s, p4) {
        Ok(x) => x,
        Err(e) => {
            return Err(e);
        },
    };
    let p6: usize = match expect_char(s, p5, ' ') {
        Ok(x) => x,
        Err(e) => {
            return Err(e);
        },
    };
    let (req, p7) = match request(s, p6) {
        Ok(x) => x,
        Err(e) => {
            return Err(e);
        },
    };
    let p8: usize = match expect_char(s, p7, ' ') {
        Ok(x) => x,
        Err(e) => {
            return Err(e);
        },
    };
    let (st, p9) = match http_status(s, p8) {
        Ok(x) => x,
        Err(e) => {
            return Err(e);
        },
    };
    let p10: usize = match expect_char(s, p9, ' ') {
        Ok(x) => x,
        Err(e) => {
            return Err(e);
        },
    };
    Ok(((h, ts, req, st), p10))
}

/// The byte counts, referrer, user agent and the two addresses of a
/// router line, with their separators, then the rest of the line.
#[verifier::rlimit(60)]
fn gorouter_body(
    s: &str,
    i: usize,
    h: String,
    ts: crate::types::Timestamp,
    req: crate::types::RequestResult,
    st: u16,
    p10: usize,
) -> (r: Result<(GorouterLogEntry, usize), PErr>)
    requires
        i <= p10 <= s@.len(),
    ensures
        ({
            let sp = sp_gorouter_body(s@, i as int, h@, ts, req@, st, p10 as int);
            match r {
                Ok((en, j)) => sp == Ok::<_, Seq<(Rule, int)>>((en@, j as int)) && p10 <= j
                    <= s@.len(),
                Err(e) => sp == Err::<(GorouterLogEntryV, int), _>(e@),
            }
        }),
{
    proof {
        reveal(sp_gorouter_body);
    }
    let (br, q1) = match bytes(s, p10) {
        Ok(x) => x,
        Err(e) => {
            return Err(e.ctx(Rule::BytesReceived, p10));
        },
    };
    let q2: usize = match expect_char(s, q1, ' ') {
        Ok(x) => x,
        Err(e) => {
            return Err(e.ctx(Rule::BytesReceived, p10));
        },
    };
    let (bs, q3) = match bytes(s, q2) {
        Ok(x) => x,
        Err(e) => {
            return Err(e.ctx(Rule::BytesSent, q2));
        },
    };
    let q4: usize = match expect_char(s, q3, ' ') {
        Ok(x) => x,
        Err(e) => {
            return Err(e.ctx(Rule::BytesSent, q2));
        },
    };
    let (refr, q5) = referrer(s, q4);
    let q6: usize = match expect_char(s, q5, ' ') {
        Ok(x) => x,
        Err(e) => {
            return Err(e);
        },
    };
    let (ua, q7) = match user_agent(s, q6) {
        Ok(x) => x,
        Err(e) => {
            return Err(e);
        },
    };
    let q8: usize = match expect_char(s, q7, ' ') {
        Ok(x) => x,
        Err(e) => {
            return Err(e);
        },
    };
    let (remote, q9) = match ip_and_port(s, q8) {
        Ok(x) => x,
        Err(e) => {
            return Err(e.ctx(Rule::RemoteAddress, q8));
        },
    };
    let q10: usize = match expect_char(s, q9, ' ') {
        Ok(x) => x,
        Err(e) => {
            return Err(e.ctx(Rule::RemoteAddress, q8));
        },
    };
    let (backend, q11) = match ip_and_port(s, q10) {
        Ok(x) => x,
        Err(e) => {
            return Err(e.ctx(Rule::BackendAddress, q10));
        },
    };
    let q12: usize = match expect_char(s, q11, ' ') {
        Ok(x) => x,
        Err(e) => {
            return Err(e.ctx(Rule::BackendAddress, q10));
        },
    };
    gorouter_rest(s, h, ts, req, st, br, bs, refr, ua, remote, q8, backend, q12)
}

#[verifier::rlimit(100)]
pub fn gorouter_log(s: &str, i: usize) -> (r: Result<(GorouterLogEntry, usize), PErr>)
    requires
        i <= s@.len(),
    ensures
        ({
            let sp = sp_gorouter_log(s@, i as int);
            match r {
                Ok((en, j)) => sp == Ok::<_, Seq<(Rule, int)>>((en@, j as int)) && i <= j
                    <= s@.len(),
                Err(e) => sp == Err::<(GorouterLogEntryV, int), _>(e@),
            }
        }),
{
    let ((h, ts, req, st), p10) = match gorouter_head(s, i) {
        Ok(x) => x,
        Err(e) => {
            return Err(e.ctx(Rule::GorouterLog, i));
        },
    };
    match gorouter_body(s, i, h, ts, req, st, p10) {
        Ok(x) => Ok(x),
        Err(e) => Err(e.ctx(Rule::GorouterLog, i)),
    }
}

} // verus!
