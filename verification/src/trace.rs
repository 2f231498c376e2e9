use vstd::prelude::*;

verus! {

// The failure trace.  Every parser is tagged with a rule name; when a parse
// fails, the frames record, innermost first, which rule rejected the input
// and at which position.  `Expected` stands for a single concrete character
// the grammar wanted and is worded differently when rendered.

#[derive(Debug, Copy, Clone, PartialEq, Eq, Structural)]
pub enum Rule {
    MapRes,
    Tag,
    TakeUntil,
    TakeWhile1,
    Expected(char),
    Ip,
    Date,
    DashOrStr,
    QuotedDashOrStr,
    Digits,
    IdnetdUser,
    User,
    HttpStatus,
    Bytes,
    Method,
    Path,
    ProtocolVersion,
    Request,
    Referrer,
    UserAgent,
    IpAndPort,
    IpList,
    XForwardedFor,
    XForwardedProto,
    VcapRequestId,
    ResponseTime,
    GorouterTime,
    AppId,
    AppIndex,
    InstanceId,
    XCfRouterError,
    XB3TraceId,
    XB3SpanId,
    XB3ParentSpanId,
    CommonLog,
    CombinedLog,
    CloudControllerLog,
    GorouterLog,
    BytesReceived,
    BytesSent,
    RemoteAddress,
    BackendAddress,
}

/// The name a rule carries in a rendered trace.  `Expected` has no name of
/// its own: it is rendered with its own wording.
pub open spec fn spec_rule_name(r: Rule) -> Seq<char> {
    match r {
        Rule::MapRes => "MapRes"@,
        Rule::Tag => "Tag"@,
        Rule::TakeUntil => "TakeUntil"@,
        Rule::TakeWhile1 => "TakeWhile1"@,
        Rule::Expected(_) => ""@,
        Rule::Ip => "ip"@,
        Rule::Date => "date"@,
        Rule::DashOrStr => "dash_or_str"@,
        Rule::QuotedDashOrStr => "quoted_dash_or_str"@,
        Rule::Digits => "digits"@,
        Rule::IdnetdUser => "idnetd_user"@,
        Rule::User => "user"@,
        Rule::HttpStatus => "http_status"@,
        Rule::Bytes => "bytes"@,
        Rule::Method => "method"@,
        Rule::Path => "path"@,
        Rule::ProtocolVersion => "protocol version"@,
        Rule::Request => "request"@,
        Rule::Referrer => "referrer"@,
        Rule::UserAgent => "user_agent"@,
        Rule::IpAndPort => "ip_and_port"@,
        Rule::IpList => "ip_list"@,
        Rule::XForwardedFor => "x_forwarded_for"@,
        Rule::XForwardedProto => "x_forwarded_proto"@,
        Rule::VcapRequestId => "vcap_request_id"@,
        Rule::ResponseTime => "response_time"@,
        Rule::GorouterTime => "gorouter_time"@,
        Rule::AppId => "app_id"@,
        Rule::AppIndex => "app_index"@,
        Rule::InstanceId => "instance_id"@,
        Rule::XCfRouterError => "x_cf_routererror"@,
        Rule::XB3TraceId => "x_b3_traceid"@,
        Rule::XB3SpanId => "x_b3_spanid"@,
        Rule::XB3ParentSpanId => "x_b3_parentspanid"@,
        Rule::CommonLog => "common_log"@,
        Rule::CombinedLog => "combined_log"@,
        Rule::CloudControllerLog => "cloud_controller_log"@,
        Rule::GorouterLog => "gorouter_log"@,
        Rule::BytesReceived => "bytes received"@,
        Rule::BytesSent => "bytes sent"@,
        Rule::RemoteAddress => "remote address"@,
        Rule::BackendAddress => "backend address"@,
    }
}

pub fn rule_name(r: Rule) -> (n: &'static str)
    ensures
        n@ == spec_rule_name(r),
{
    match r {
        Rule::MapRes => "MapRes",
        Rule::Tag => "Tag",
        Rule::TakeUntil => "TakeUntil",
        Rule::TakeWhile1 => "TakeWhile1",
        Rule::Expected(_) => "",
        Rule::Ip => "ip",
        Rule::Date => "date",
        Rule::DashOrStr => "dash_or_str",
        Rule::QuotedDashOrStr => "quoted_dash_or_str",
        Rule::Digits => "digits",
        Rule::IdnetdUser => "idnetd_user",
        Rule::User => "user",
        Rule::HttpStatus => "http_status",
        Rule::Bytes => "bytes",
        Rule::Method => "method",
        Rule::Path => "path",
        Rule::ProtocolVersion => "protocol version",
        Rule::Request => "request",
        Rule::Referrer => "referrer",
        Rule::UserAgent => "user_agent",
        Rule::IpAndPort => "ip_and_port",
        Rule::IpList => "ip_list",
        Rule::XForwardedFor => "x_forwarded_for",
        Rule::XForwardedProto => "x_forwarded_proto",
        Rule::VcapRequestId => "vcap_request_id",
        Rule::ResponseTime => "response_time",
        Rule::GorouterTime => "gorouter_time",
        Rule::AppId => "app_id",
        Rule::AppIndex => "app_index",
        Rule::InstanceId => "instance_id",
        Rule::XCfRouterError => "x_cf_routererror",
        Rule::XB3TraceId => "x_b3_traceid",
        Rule::XB3SpanId => "x_b3_spanid",
        Rule::XB3ParentSpanId => "x_b3_parentspanid",
        Rule::CommonLog => "common_log",
        Rule::CombinedLog => "combined_log",
        Rule::CloudControllerLog => "cloud_controller_log",
        Rule::GorouterLog => "gorouter_log",
        Rule::BytesReceived => "bytes received",
        Rule::BytesSent => "bytes sent",
        Rule::RemoteAddress => "remote address",
        Rule::BackendAddress => "backend address",
    }
}

/// One step of a failure trace: a rule and the position it was applied at.
#[derive(Debug, Copy, Clone, PartialEq, Eq, Structural)]
pub struct Frame {
    pub rule: Rule,
    pub at: usize,
}

impl View for Frame {
    type V = (Rule, int);

    open spec fn view(&self) -> (Rule, int) {
        (self.rule, self.at as int)
    }
}

/// A failed parse: the stack of rules active at the failure, innermost
/// first.
#[derive(Debug, Clone, PartialEq, Eq)]
pub struct PErr {
    pub frames: Vec<Frame>,
}

impl View for PErr {
    type V = Seq<(Rule, int)>;

    open spec fn view(&self) -> Seq<(Rule, int)> {
        self.frames@.map_values(|f: Frame| f@)
    }
}

impl PErr {
    /// A fresh single-frame trace.
    pub fn new(rule: Rule, at: usize) -> (e: PErr)
        ensures
            e@ =~= seq![(rule, at as int)],
    {
        let mut frames: Vec<Frame> = Vec::new();
        frames.push(Frame { rule, at });
        PErr { frames }
    }

    /// A fresh trace of a primitive failure inside one named rule.
    pub fn new2(r1: Rule, at1: usize, r2: Rule, at2: usize) -> (e: PErr)
        ensures
            e@ =~= seq![(r1, at1 as int), (r2, at2 as int)],
    {
        let mut frames: Vec<Frame> = Vec::new();
        frames.push(Frame { rule: r1, at: at1 });
        frames.push(Frame { rule: r2, at: at2 });
        PErr { frames }
    }

    /// The trace with one enclosing rule recorded on top.
    pub fn ctx(self, rule: Rule, at: usize) -> (e: PErr)
        ensures
            e@ =~= self@.push((rule, at as int)),
    {
        let mut frames = self.frames;
        let ghost pre = frames@;
        frames.push(Frame { rule, at });
        proof {
            assert(frames@ =~= pre.push(Frame { rule, at }));
        }
        PErr { frames }
    }
}

} // verus!
