use vstd::prelude::*;

pub mod compound;
pub mod fields;
pub mod ip;
pub mod kv;
pub mod laws;
pub mod render;
pub mod scan;
pub mod session;
pub mod timestamp;
pub mod tokens;
pub mod trace;
pub mod types;

pub use types::{
    AccessLogError, CloudControllerLogEntry, CombinedLogEntry, CommonLogEntry, GorouterLogEntry,
    HttpVersion, IpAddr, LogEntry, RequestResult, Timestamp, XForwardedProto,
};

use crate::compound::{
    cloud_controller_log, combined_log, common_log, gorouter_log, sp_cloud_controller_log,
    sp_combined_log, sp_common_log, sp_gorouter_log,
};
use crate::render::{render_trace, sp_trace_text};
use crate::scan::{eq_lower, lower_seq};
use crate::trace::Rule;
use crate::types::LogEntryV;

verus! {

/// The log formats this library understands.
#[derive(Debug, Copy, Clone, PartialEq, Eq, Structural)]
pub enum LogType {
    CommonLog,
    CombinedLog,
    GorouterLog,
    CloudControllerLog,
}

impl LogType {
    /// The format a short alias names, compared without regard to ASCII
    /// case; an unrecognized alias is an error, never a default.
    pub fn from_str(s: &str) -> (r: Result<LogType, &'static str>)
        ensures
            ({
                let l = lower_seq(s@);
                match r {
                    Ok(t) => (l == "common"@ && t == LogType::CommonLog) || (l == "combined"@ && t
                        == LogType::CombinedLog) || ((l == "gorouter"@ || l == "router"@) && t
                        == LogType::GorouterLog) || ((l == "cloud_controller"@ || l == "cc"@ || l
                        == "capi"@) && t == LogType::CloudControllerLog),
                    Err(m) => m@ == "invalid log type"@ && l != "common"@ && l != "combined"@ && l
                        != "gorouter"@ && l != "router"@ && l != "cloud_controller"@ && l != "cc"@
                        && l != "capi"@,
                }
            }),
    {
        if eq_lower(s, "common") {
            Ok(LogType::CommonLog)
        } else if eq_lower(s, "combined") {
            Ok(LogType::CombinedLog)
        } else if eq_lower(s, "gorouter") {
            Ok(LogType::GorouterLog)
        } else if eq_lower(s, "router") {
            Ok(LogType::GorouterLog)
        } else if eq_lower(s, "cloud_controller") {
            Ok(LogType::CloudControllerLog)
        } else if eq_lower(s, "cc") {
            Ok(LogType::CloudControllerLog)
        } else if eq_lower(s, "capi") {
            Ok(LogType::CloudControllerLog)
        } else {
            Err("invalid log type")
        }
    }
}

/// What parsing one line as the given format yields: the record, or the
/// rendered diagnostic text.  Trailing unconsumed input is not an error.
pub open spec fn sp_parse(log_type: LogType, line: Seq<char>) -> Result<LogEntryV, Seq<char>> {
    match log_type {
        LogType::CommonLog => match sp_common_log(line, 0) {
            Ok((en, _)) => Ok(LogEntryV::CommonLog(en)),
            Err(fr) => Err(sp_trace_text(line, fr)),
        },
        LogType::CombinedLog => match sp_combined_log(line, 0) {
            Ok((en, _)) => Ok(LogEntryV::CombinedLog(en)),
            Err(fr) => Err(sp_trace_text(line, fr)),
        },
        LogType::GorouterLog => match sp_gorouter_log(line, 0) {
            Ok((en, _)) => Ok(LogEntryV::GorouterLog(en)),
            Err(fr) => Err(sp_trace_text(line, fr)),
        },
        LogType::CloudControllerLog => match sp_cloud_controller_log(line, 0) {
            Ok((en, _)) => Ok(LogEntryV::CloudControllerLog(en)),
            Err(fr) => Err(sp_trace_text(line, fr)),
        },
    }
}

/// Parse one line of log text as the given format.
pub fn parse(log_type: LogType, line: &str) -> (r: Result<LogEntry, AccessLogError>)
    ensures
        (match r {
            Ok(en) => sp_parse(log_type, line@) == Ok::<_, Seq<char>>(en@),
            Err(AccessLogError::ParseError { msg }) => sp_parse(log_type, line@) == Err::<
                LogEntryV,
                _,
            >(msg@),
        }),
{
    let _n: usize = line.unicode_len();
    match log_type {
        LogType::CommonLog => match common_log(line, 0) {
            Ok((en, _)) => Ok(LogEntry::CommonLog(en)),
            Err(e) => Err(AccessLogError::ParseError { msg: render_trace(line, &e) }),
        },
        LogType::CombinedLog => match combined_log(line, 0) {
            Ok((en, _)) => Ok(LogEntry::CombinedLog(en)),
            Err(e) => Err(AccessLogError::ParseError { msg: render_trace(line, &e) }),
        },
        LogType::GorouterLog => match gorouter_log(line, 0) {
            Ok((en, _)) => Ok(LogEntry::GorouterLog(en)),
            Err(e) => Err(AccessLogError::ParseError { msg: render_trace(line, &e) }),
        },
        LogType::CloudControllerLog => match cloud_controller_log(line, 0) {
            Ok((en, _)) => Ok(LogEntry::CloudControllerLog(en)),
            Err(e) => Err(AccessLogError::ParseError { msg: render_trace(line, &e) }),
        },
    }
}

} // verus!
