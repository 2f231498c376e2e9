use vstd::prelude::*;

verus! {

/// An IP address, either dotted-decimal v4 or eight v6 groups.
#[derive(Debug, Copy, Clone, PartialEq, Eq, Structural)]
pub enum IpAddr {
    V4(u8, u8, u8, u8),
    V6(u16, u16, u16, u16, u16, u16, u16, u16),
}

/// A point in time with an explicit UTC offset, exactly as written in the
/// log line; the offset is kept, never normalized away.
#[derive(Debug, Copy, Clone, PartialEq, Eq, Structural)]
pub struct Timestamp {
    pub year: i32,
    pub month: u32,
    pub day: u32,
    pub hour: u32,
    pub minute: u32,
    pub second: u32,
    pub nanosecond: u32,
    pub offset_seconds: i32,
}

/// The protocol versions a request line may name.  `HTTP/2.0` in a log line
/// is mapped onto `Http11`; there is no separate value for it.
#[derive(Debug, Copy, Clone, PartialEq, Eq, Structural)]
pub enum HttpVersion {
    Http10,
    Http11,
}

/// The scheme the originating client used, from the proxy metadata.
/// Anything other than `http`/`https` (the dash sentinel included) is
/// `UNSPECIFIED`.
#[derive(Debug, Copy, Clone, PartialEq, Eq, Structural)]
#[allow(clippy::upper_case_acronyms)]
pub enum XForwardedProto {
    HTTP,
    HTTPS,
    UNSPECIFIED,
}

impl Default for XForwardedProto {
    fn default() -> (r: Self)
        ensures
            r == XForwardedProto::HTTP,
    {
        XForwardedProto::HTTP
    }
}

/// What became of the quoted request field.  A well-formed triple that also
/// builds into a request object is `Valid`; a triple whose path the request
/// builder rejects keeps the raw path and the builder's error text; any
/// other quoted content is kept verbatim as `InvalidRequest`.
#[derive(Debug, Clone, PartialEq, Eq)]
pub enum RequestResult {
    Valid { method: String, path: String, version: HttpVersion },
    InvalidPath { path: String, error: String },
    InvalidRequest(String),
}

/// Spec-level image of `RequestResult`.
pub enum RequestResultV {
    Valid { method: Seq<char>, path: Seq<char>, version: HttpVersion },
    InvalidPath { path: Seq<char>, error: Seq<char> },
    InvalidRequest(Seq<char>),
}

impl View for RequestResult {
    type V = RequestResultV;

    open spec fn view(&self) -> RequestResultV {
        match self {
            RequestResult::Valid { method, path, version } => RequestResultV::Valid {
                method: method@,
                path: path@,
                version: *version,
            },
            RequestResult::InvalidPath { path, error } => RequestResultV::InvalidPath {
                path: path@,
                error: error@,
            },
            RequestResult::InvalidRequest(s) => RequestResultV::InvalidRequest(s@),
        }
    }
}

pub open spec fn opt_str_view(o: Option<String>) -> Option<Seq<char>> {
    match o {
        Some(s) => Some(s@),
        None => None,
    }
}

/// One line of a plain access log.
#[derive(Debug, Clone, PartialEq, Eq)]
pub struct CommonLogEntry {
    pub ip: IpAddr,
    pub identd_user: Option<String>,
    pub user: Option<String>,
    pub timestamp: Timestamp,
    pub request: RequestResult,
    pub status_code: u16,
    pub bytes: u64,
}

pub struct CommonLogEntryV {
    pub ip: IpAddr,
    pub identd_user: Option<Seq<char>>,
    pub user: Option<Seq<char>>,
    pub timestamp: Timestamp,
    pub request: RequestResultV,
    pub status_code: u16,
    pub bytes: u64,
}

impl View for CommonLogEntry {
    type V = CommonLogEntryV;

    open spec fn view(&self) -> CommonLogEntryV {
        CommonLogEntryV {
            ip: self.ip,
            identd_user: opt_str_view(self.identd_user),
            user: opt_str_view(self.user),
            timestamp: self.timestamp,
            request: self.request@,
            status_code: self.status_code,
            bytes: self.bytes,
        }
    }
}

/// A plain access log line followed by referrer and user agent.
#[derive(Debug, Clone, PartialEq, Eq)]
pub struct CombinedLogEntry {
    pub ip: IpAddr,
    pub identd_user: Option<String>,
    pub user: Option<String>,
    pub timestamp: Timestamp,
    pub request: RequestResult,
    pub status_code: u16,
    pub bytes: u64,
    pub referrer: Option<String>,
    pub user_agent: Option<String>,
}

pub struct CombinedLogEntryV {
    pub ip: IpAddr,
    pub identd_user: Option<Seq<char>>,
    pub user: Option<Seq<char>>,
    pub timestamp: Timestamp,
    pub request: RequestResultV,
    pub status_code: u16,
    pub bytes: u64,
    pub referrer: Option<Seq<char>>,
    pub user_agent: Option<Seq<char>>,
}

impl View for CombinedLogEntry {
    type V = CombinedLogEntryV;

    open spec fn view(&self) -> CombinedLogEntryV {
        CombinedLogEntryV {
            ip: self.ip,
            identd_user: opt_str_view(self.identd_user),
            user: opt_str_view(self.user),
            timestamp: self.timestamp,
            request: self.request@,
            status_code: self.status_code,
            bytes: self.bytes,
            referrer: opt_str_view(self.referrer),
            user_agent: opt_str_view(self.user_agent),
        }
    }
}

/// One line of the cloud controller's access log.  The response time is
/// kept as the decimal token that stood in the line.
#[derive(Debug, Clone, PartialEq, Eq)]
pub struct CloudControllerLogEntry {
    pub request_host: String,
    pub timestamp: Timestamp,
    pub request: RequestResult,
    pub status_code: u16,
    pub bytes: u64,
    pub referrer: Option<String>,
    pub user_agent: Option<String>,
    pub x_forwarded_for: Vec<IpAddr>,
    pub vcap_request_id: Option<String>,
    pub response_time: Option<String>,
}

pub struct CloudControllerLogEntryV {
    pub request_host: Seq<char>,
    pub timestamp: Timestamp,
    pub request: RequestResultV,
    pub status_code: u16,
    pub bytes: u64,
    pub referrer: Option<Seq<char>>,
    pub user_agent: Option<Seq<char>>,
    pub x_forwarded_for: Seq<IpAddr>,
    pub vcap_request_id: Option<Seq<char>>,
    pub response_time: Option<Seq<char>>,
}

impl View for CloudControllerLogEntry {
    type V = CloudControllerLogEntryV;

    open spec fn view(&self) -> CloudControllerLogEntryV {
        CloudControllerLogEntryV {
            request_host: self.request_host@,
            timestamp: self.timestamp,
            request: self.request@,
            status_code: self.status_code,
            bytes: self.bytes,
            referrer: opt_str_view(self.referrer),
            user_agent: opt_str_view(self.user_agent),
            x_forwarded_for: self.x_forwarded_for@,
            vcap_request_id: opt_str_view(self.vcap_request_id),
            response_time: opt_str_view(self.response_time),
        }
    }
}

/// One line of the reverse proxy router's access log.  The two time tokens
/// are kept as the decimal tokens that stood in the line.
#[derive(Debug, Clone, PartialEq, Eq)]
pub struct GorouterLogEntry {
    pub request_host: String,
    pub timestamp: Timestamp,
    pub request: RequestResult,
    pub status_code: u16,
    pub bytes_received: u64,
    pub bytes_sent: u64,
    pub referrer: Option<String>,
    pub user_agent: Option<String>,
    pub remote_addr: IpAddr,
    pub remote_port: u16,
    pub backend_addr: Option<IpAddr>,
    pub backend_port: Option<u16>,
    pub x_forwarded_for: Vec<IpAddr>,
    pub x_forwarded_proto: XForwardedProto,
    pub vcap_request_id: Option<String>,
    pub response_time: Option<String>,
    pub gorouter_time: Option<String>,
    pub app_id: Option<String>,
    pub app_index: Option<u16>,
    pub instance_id: Option<String>,
    pub x_cf_routererror: Option<String>,
    pub trace_id: Option<String>,
    pub span_id: Option<String>,
    pub parent_span_id: Option<String>,
}

pub struct GorouterLogEntryV {
    pub request_host: Seq<char>,
    pub timestamp: Timestamp,
    pub request: RequestResultV,
    pub status_code: u16,
    pub bytes_received: u64,
    pub bytes_sent: u64,
    pub referrer: Option<Seq<char>>,
    pub user_agent: Option<Seq<char>>,
    pub remote_addr: IpAddr,
    pub remote_port: u16,
    pub backend_addr: Option<IpAddr>,
    pub backend_port: Option<u16>,
    pub x_forwarded_for: Seq<IpAddr>,
    pub x_forwarded_proto: XForwardedProto,
    pub vcap_request_id: Option<Seq<char>>,
    pub response_time: Option<Seq<char>>,
    pub gorouter_time: Option<Seq<char>>,
    pub app_id: Option<Seq<char>>,
    pub app_index: Option<u16>,
    pub instance_id: Option<Seq<char>>,
    pub x_cf_routererror: Option<Seq<char>>,
    pub trace_id: Option<Seq<char>>,
    pub span_id: Option<Seq<char>>,
    pub parent_span_id: Option<Seq<char>>,
}

impl View for GorouterLogEntry {
    type V = GorouterLogEntryV;

    open spec fn view(&self) -> GorouterLogEntryV {
        GorouterLogEntryV {
            request_host: self.request_host@,
            timestamp: self.timestamp,
            request: self.request@,
            status_code: self.status_code,
            bytes_received: self.bytes_received,
            bytes_sent: self.bytes_sent,
            referrer: opt_str_view(self.referrer),
            user_agent: opt_str_view(self.user_agent),
            remote_addr: self.remote_addr,
            remote_port: self.remote_port,
            backend_addr: self.backend_addr,
            backend_port: self.backend_port,
            x_forwarded_for: self.x_forwarded_for@,
            x_forwarded_proto: self.x_forwarded_proto,
            vcap_request_id: opt_str_view(self.vcap_request_id),
            response_time: opt_str_view(self.response_time),
            gorouter_time: opt_str_view(self.gorouter_time),
            app_id: opt_str_view(self.app_id),
            app_index: self.app_index,
            instance_id: opt_str_view(self.instance_id),
            x_cf_routererror: opt_str_view(self.x_cf_routererror),
            trace_id: opt_str_view(self.trace_id),
            span_id: opt_str_view(self.span_id),
            parent_span_id: opt_str_view(self.parent_span_id),
        }
    }
}

/// One parsed record, tagged with the format that produced it.
#[derive(Debug, Clone, PartialEq, Eq)]
pub enum LogEntry {
    CommonLog(CommonLogEntry),
    CombinedLog(CombinedLogEntry),
    GorouterLog(GorouterLogEntry),
    CloudControllerLog(CloudControllerLogEntry),
}

pub enum LogEntryV {
    CommonLog(CommonLogEntryV),
    CombinedLog(CombinedLogEntryV),
    GorouterLog(GorouterLogEntryV),
    CloudControllerLog(CloudControllerLogEntryV),
}

impl View for LogEntry {
    type V = LogEntryV;

    open spec fn view(&self) -> LogEntryV {
        match self {
            LogEntry::CommonLog(e) => LogEntryV::CommonLog(e@),
            LogEntry::CombinedLog(e) => LogEntryV::CombinedLog(e@),
            LogEntry::GorouterLog(e) => LogEntryV::GorouterLog(e@),
            LogEntry::CloudControllerLog(e) => LogEntryV::CloudControllerLog(e@),
        }
    }
}

/// The one error this library returns: the line did not match the requested
/// grammar.  The message renders the stack of grammar rules that were active
/// where the match failed.
#[derive(Debug, Clone, PartialEq, Eq)]
pub enum AccessLogError {
    ParseError { msg: String },
}

impl AccessLogError {
    /// The diagnostic text.
    pub fn message(&self) -> (m: &str)
        ensures
            (match self {
                AccessLogError::ParseError { msg } => m@ == msg@,
            }),
    {
        match self {
            AccessLogError::ParseError { msg } => msg.as_str(),
        }
    }
}

} // verus!
