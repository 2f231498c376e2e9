use vstd::prelude::*;

use crate::fields::{ip_list, sp_ip_list};
use crate::scan::{
    ci_tag_at, dec_val, digit_end, has_ci_tag, has_tag, scan_digits, str_eq, tag_at,
};
use crate::tokens::{dash_or_str, quoted_dash_or_str, sp_dash_or_str, sp_quoted_dash_or_str};
use crate::trace::{PErr, Rule};
use crate::types::{opt_str_view, IpAddr, XForwardedProto};
use vstd::string::StrSliceExecFns;

verus! {

// The key:value family of proxy-metadata fields.  Each field recognizes
// its literal key, a `:`, an optional single space, and then a dash
// sentinel or a typed value.  The trailing telemetry fields also accept
// being absent from the line altogether.

/// A quoted token or, failing that, a bare token; this cannot fail.
pub open spec fn sp_qds_or_dash(s: Seq<char>, q: int) -> (Option<Seq<char>>, int) {
    match sp_quoted_dash_or_str(s, q) {
        Ok(x) => x,
        Err(_) => sp_dash_or_str(s, q),
    }
}

fn qds_or_dash(s: &str, q: usize) -> (r: (Option<String>, usize))
    requires
        q <= s@.len(),
    ensures
        ({
            let (v, j) = sp_qds_or_dash(s@, q as int);
            opt_str_view(r.0) == v && r.1 == j && q <= r.1 <= s@.len()
        }),
{
    match quoted_dash_or_str(s, q) {
        Ok(x) => x,
        Err(_) => dash_or_str(s, q),
    }
}

/// The decimal token the time fields carry: an optional sign, digits with
/// an optional point and fraction or a point with digits, an optional
/// exponent whose digits must follow, or a case-folded `nan`/`inf`.
pub open spec fn sp_float_body_end(s: Seq<char>, p: int) -> Option<int> {
    let d1 = digit_end(s, p);
    if d1 > p {
        if d1 < s.len() && s[d1] == '.' {
            Some(digit_end(s, d1 + 1))
        } else {
            Some(d1)
        }
    } else if p < s.len() && s[p] == '.' {
        let d2 = digit_end(s, p + 1);
        if d2 > p + 1 {
            Some(d2)
        } else {
            None
        }
    } else {
        None
    }
}

pub open spec fn sp_exp_end(s: Seq<char>, b: int) -> int {
    if b < s.len() && (s[b] == 'e' || s[b] == 'E') {
        let q = if b + 1 < s.len() && (s[b + 1] == '+' || s[b + 1] == '-') {
            b + 2
        } else {
            b + 1
        };
        let d = digit_end(s, q);
        if d > q {
            d
        } else {
            b
        }
    } else {
        b
    }
}

pub open spec fn sp_float_at(s: Seq<char>, i: int) -> Option<(Seq<char>, int)> {
    let p = if i < s.len() && (s[i] == '+' || s[i] == '-') {
        i + 1
    } else {
        i
    };
    match sp_float_body_end(s, p) {
        Some(b) => {
            let e = sp_exp_end(s, b);
            Some((s.subrange(i, e), e))
        },
        None => if has_ci_tag(s, i, "nan"@) {
            Some((s.subrange(i, i + 3), i + 3))
        } else if has_ci_tag(s, i, "inf"@) {
            Some((s.subrange(i, i + 3), i + 3))
        } else {
            None
        },
    }
}

pub fn float_at(s: &str, i: usize) -> (r: Option<(String, usize)>)
    requires
        i <= s@.len(),
    ensures
        match r {
            Some((t, j)) => sp_float_at(s@, i as int) == Some((t@, j as int)) && i <= j <= s@.len(),
            None => sp_float_at(s@, i as int) is None,
        },
{
    let n: usize = s.unicode_len();
    let p: usize = if i < n && (s.get_char(i) == '+' || s.get_char(i) == '-') {
        i + 1
    } else {
        i
    };
    let body: Option<usize> = {
        let d1: usize = scan_digits(s, p);
        if d1 > p {
            if d1 < n && s.get_char(d1) == '.' {
                Some(scan_digits(s, d1 + 1))
            } else {
                Some(d1)
            }
        } else if p < n && s.get_char(p) == '.' {
            let d2: usize = scan_digits(s, p + 1);
            if d2 > p + 1 {
                Some(d2)
            } else {
                None
            }
        } else {
            None
        }
    };
    match body {
        Some(b) => {
            let e: usize = if b < n && (s.get_char(b) == 'e' || s.get_char(b) == 'E') {
                let q: usize = if b + 1 < n && (s.get_char(b + 1) == '+' || s.get_char(b + 1)
                    == '-') {
                    b + 2
                } else {
                    b + 1
                };
                let d: usize = scan_digits(s, q);
                if d > q {
                    d
                } else {
                    b
                }
            } else {
                b
            };
            Some((s.substring_char(i, e).to_owned(), e))
        },
        None => {
            if ci_tag_at(s, i, "nan") {
                proof {
                    reveal_strlit("nan");
                }
                return Some((s.substring_char(i, i + 3).to_owned(), i + 3));
            }
            if ci_tag_at(s, i, "inf") {
                proof {
                    reveal_strlit("inf");
                }
                return Some((s.substring_char(i, i + 3).to_owned(), i + 3));
            }
            None
        },
    }
}

/// A trailing telemetry field with a quoted value: the dash forms are
/// absent, a failed value or a missing key matches nothing and consumes
/// nothing.  `kd`, `kq`, `ks` and `k` are the key with `:-`, with the
/// quoted dash, with `: `, and bare.
pub open spec fn sp_trailing_kv(
    s: Seq<char>,
    i: int,
    kd: Seq<char>,
    kq: Seq<char>,
    ks: Seq<char>,
    k: Seq<char>,
) -> (Option<Seq<char>>, int) {
    if has_tag(s, i, kd) {
        (None, i + kd.len())
    } else if has_tag(s, i, kq) {
        (None, i + kq.len())
    } else if has_tag(s, i, ks) {
        match sp_quoted_dash_or_str(s, i + ks.len()) {
            Ok(x) => x,
            Err(_) => (None, i),
        }
    } else if has_tag(s, i, k) {
        match sp_quoted_dash_or_str(s, i + k.len()) {
            Ok(x) => x,
            Err(_) => (None, i),
        }
    } else {
        (None, i)
    }
}

fn trailing_kv(s: &str, i: usize, kd: &str, kq: &str, ks: &str, k: &str) -> (r: (
    Option<String>,
    usize,
))
    requires
        i <= s@.len(),
    ensures
        ({
            let (v, j) = sp_trailing_kv(s@, i as int, kd@, kq@, ks@, k@);
            opt_str_view(r.0) == v && r.1 == j && i <= r.1 <= s@.len()
        }),
{
    let _n: usize = s.unicode_len();
    if tag_at(s, i, kd) {
        return (None, i + kd.unicode_len());
    }
    if tag_at(s, i, kq) {
        return (None, i + kq.unicode_len());
    }
    if tag_at(s, i, ks) {
        match quoted_dash_or_str(s, i + ks.unicode_len()) {
            Ok((v, j)) => {
                return (v, j);
            },
            Err(_) => {
                return (None, i);
            },
        }
    }
    if tag_at(s, i, k) {
        match quoted_dash_or_str(s, i + k.unicode_len()) {
            Ok((v, j)) => {
                return (v, j);
            },
            Err(_) => {
                return (None, i);
            },
        }
    }
    (None, i)
}

/// The forwarded-for list: the quoted dash is an empty list; otherwise the
/// key, then a quoted IP list.
pub open spec fn sp_x_forwarded_for(s: Seq<char>, i: int) -> Result<
    (Seq<IpAddr>, int),
    Seq<(Rule, int)>,
> {
    if has_tag(s, i, "x_forwarded_for:\"-\""@) {
        Ok((Seq::<IpAddr>::empty(), i + "x_forwarded_for:\"-\""@.len()))
    } else if has_tag(s, i, "x_forwarded_for: "@) {
        sp_xff_body(s, i + "x_forwarded_for: "@.len(), i)
    } else if has_tag(s, i, "x_forwarded_for:"@) {
        sp_xff_body(s, i + "x_forwarded_for:"@.len(), i)
    } else {
        Err(seq![(Rule::Tag, i), (Rule::XForwardedFor, i)])
    }
}

pub open spec fn sp_xff_body(s: Seq<char>, q: int, i: int) -> Result<
    (Seq<IpAddr>, int),
    Seq<(Rule, int)>,
> {
    if q < s.len() && s[q] == '"' {
        let (l, j) = sp_ip_list(s, q + 1);
        if j < s.len() && s[j] == '"' {
            Ok((l, j + 1))
        } else {
            Err(seq![(Rule::Expected('"'), j), (Rule::XForwardedFor, i)])
        }
    } else {
        Err(seq![(Rule::Expected('"'), q), (Rule::XForwardedFor, i)])
    }
}

pub fn x_forwarded_for(s: &str, i: usize) -> (r: Result<(Vec<IpAddr>, usize), PErr>)
    requires
        i <= s@.len(),
    ensures
        ({
            let sp = sp_x_forwarded_for(s@, i as int);
            match r {
                Ok((l, j)) => sp == Ok::<_, Seq<(Rule, int)>>((l@, j as int)) && i <= j <= s@.len(),
                Err(e) => sp == Err::<(Seq<IpAddr>, int), _>(e@),
            }
        }),
{
    let n: usize = s.unicode_len();
    if tag_at(s, i, "x_forwarded_for:\"-\"") {
        return Ok((Vec::new(), i + "x_forwarded_for:\"-\"".unicode_len()));
    }
    let q: usize;
    if tag_at(s, i, "x_forwarded_for: ") {
        q = i + "x_forwarded_for: ".unicode_len();
    } else if tag_at(s, i, "x_forwarded_for:") {
        q = i + "x_forwarded_for:".unicode_len();
    } else {
        return Err(PErr::new2(Rule::Tag, i, Rule::XForwardedFor, i));
    }
    if q < n && s.get_char(q) == '"' {
        let (l, j) = ip_list(s, q + 1);
        if j < n && s.get_char(j) == '"' {
            Ok((l, j + 1))
        } else {
            Err(PErr::new2(Rule::Expected('"'), j, Rule::XForwardedFor, i))
        }
    } else {
        Err(PErr::new2(Rule::Expected('"'), q, Rule::XForwardedFor, i))
    }
}

/// What a forwarded-proto token denotes.
pub open spec fn sp_proto_of(t: Option<Seq<char>>) -> XForwardedProto {
    match t {
        Some(x) => if x == "http"@ {
            XForwardedProto::HTTP
        } else if x == "https"@ {
            XForwardedProto::HTTPS
        } else {
            XForwardedProto::UNSPECIFIED
        },
        None => XForwardedProto::UNSPECIFIED,
    }
}

/// The forwarded-proto field: the key, then a quoted or bare token mapped
/// onto the protocol values.
pub open spec fn sp_x_forwarded_proto(s: Seq<char>, i: int) -> Result<
    (XForwardedProto, int),
    Seq<(Rule, int)>,
> {
    if has_tag(s, i, "x_forwarded_proto:"@) {
        let (tok, j) = sp_qds_or_dash(s, i + "x_forwarded_proto:"@.len());
        Ok((sp_proto_of(tok), j))
    } else {
        Err(seq![(Rule::Tag, i), (Rule::XForwardedProto, i)])
    }
}

pub fn x_forwarded_proto(s: &str, i: usize) -> (r: Result<(XForwardedProto, usize), PErr>)
    requires
        i <= s@.len(),
    ensures
        ({
            let sp = sp_x_forwarded_proto(s@, i as int);
            match r {
                Ok((v, j)) => sp == Ok::<_, Seq<(Rule, int)>>((v, j as int)) && i <= j <= s@.len(),
                Err(e) => sp == Err::<(XForwardedProto, int), _>(e@),
            }
        }),
{
    let _n: usize = s.unicode_len();
    if tag_at(s, i, "x_forwarded_proto:") {
        let (tok, j) = qds_or_dash(s, i + "x_forwarded_proto:".unicode_len());
        let v: XForwardedProto = match &tok {
            Some(t) => {
                if str_eq(t.as_str(), "http") {
                    XForwardedProto::HTTP
                } else if str_eq(t.as_str(), "https") {
                    XForwardedProto::HTTPS
                } else {
                    XForwardedProto::UNSPECIFIED
                }
            },
            None => XForwardedProto::UNSPECIFIED,
        };
        Ok((v, j))
    } else {
        Err(PErr::new2(Rule::Tag, i, Rule::XForwardedProto, i))
    }
}

/// The request-id field: dash forms are absent; otherwise the key, then a
/// quoted or bare token.
pub open spec fn sp_vcap_request_id(s: Seq<char>, i: int) -> Result<
    (Option<Seq<char>>, int),
    Seq<(Rule, int)>,
> {
    if has_tag(s, i, "vcap_request_id:-"@) {
        Ok((None, i + "vcap_request_id:-"@.len()))
    } else if has_tag(s, i, "vcap_request_id:\"-\""@) {
        Ok((None, i + "vcap_request_id:\"-\""@.len()))
    } else if has_tag(s, i, "vcap_request_id: "@) {
        Ok(sp_qds_or_dash(s, i + "vcap_request_id: "@.len()))
    } else if has_tag(s, i, "vcap_request_id:"@) {
        Ok(sp_qds_or_dash(s, i + "vcap_request_id:"@.len()))
    } else {
        Err(seq![(Rule::Tag, i), (Rule::VcapRequestId, i)])
    }
}

pub fn vcap_request_id(s: &str, i: usize) -> (r: Result<(Option<String>, usize), PErr>)
    requires
        i <= s@.len(),
    ensures
        ({
            let sp = sp_vcap_request_id(s@, i as int);
            match r {
                Ok((v, j)) => sp == Ok::<_, Seq<(Rule, int)>>((opt_str_view(v), j as int)) && i <= j
                    <= s@.len(),
                Err(e) => sp == Err::<(Option<Seq<char>>, int), _>(e@),
            }
        }),
{
    let _n: usize = s.unicode_len();
    if tag_at(s, i, "vcap_request_id:-") {
        return Ok((None, i + "vcap_request_id:-".unicode_len()));
    }
    if tag_at(s, i, "vcap_request_id:\"-\"") {
        return Ok((None, i + "vcap_request_id:\"-\"".unicode_len()));
    }
    if tag_at(s, i, "vcap_request_id: ") {
        let (v, j) = qds_or_dash(s, i + "vcap_request_id: ".unicode_len());
        return Ok((v, j));
    }
    if tag_at(s, i, "vcap_request_id:") {
        let (v, j) = qds_or_dash(s, i + "vcap_request_id:".unicode_len());
        return Ok((v, j));
    }
    Err(PErr::new2(Rule::Tag, i, Rule::VcapRequestId, i))
}

/// A time field holding a bare decimal token: dash forms are absent, and a
/// missing key or malformed value matches nothing and consumes nothing.
pub open spec fn sp_float_kv(
    s: Seq<char>,
    i: int,
    kd: Seq<char>,
    kq: Seq<char>,
    ks: Seq<char>,
    k: Seq<char>,
) -> (Option<Seq<char>>, int) {
    if has_tag(s, i, kd) {
        (None, i + kd.len())
    } else if has_tag(s, i, kq) {
        (None, i + kq.len())
    } else if has_tag(s, i, ks) {
        match sp_float_at(s, i + ks.len()) {
            Some((t, j)) => (Some(t), j),
            None => (None, i),
        }
    } else if has_tag(s, i, k) {
        match sp_float_at(s, i + k.len()) {
            Some((t, j)) => (Some(t), j),
            None => (None, i),
        }
    } else {
        (None, i)
    }
}

fn float_kv(s: &str, i: usize, kd: &str, kq: &str, ks: &str, k: &str) -> (r: (
    Option<String>,
    usize,
))
    requires
        i <= s@.len(),
    ensures
        ({
            let (v, j) = sp_float_kv(s@, i as int, kd@, kq@, ks@, k@);
            opt_str_view(r.0) == v && r.1 == j && i <= r.1 <= s@.len()
        }),
{
    let _n: usize = s.unicode_len();
    if tag_at(s, i, kd) {
        return (None, i + kd.unicode_len());
    }
    if tag_at(s, i, kq) {
        return (None, i + kq.unicode_len());
    }
    if tag_at(s, i, ks) {
        match float_at(s, i + ks.unicode_len()) {
            Some((t, j)) => {
                return (Some(t), j);
            },
            None => {
                return (None, i);
            },
        }
    }
    if tag_at(s, i, k) {
        match float_at(s, i + k.unicode_len()) {
            Some((t, j)) => {
                return (Some(t), j);
            },
            None => {
                return (None, i);
            },
        }
    }
    (None, i)
}

pub open spec fn sp_response_time(s: Seq<char>, i: int) -> (Option<Seq<char>>, int) {
    sp_float_kv(
        s,
        i,
        "response_time:-"@,
        "response_time:\"-\""@,
        "response_time: "@,
        "response_time:"@,
    )
}

pub fn response_time(s: &str, i: usize) -> (r: (Option<String>, usize))
    requires
        i <= s@.len(),
    ensures
        ({
            let (v, j) = sp_response_time(s@, i as int);
            opt_str_view(r.0) == v && r.1 == j && i <= r.1 <= s@.len()
        }),
{
    float_kv(s, i, "response_time:-", "response_time:\"-\"", "response_time: ", "response_time:")
}

pub open spec fn sp_gorouter_time(s: Seq<char>, i: int) -> (Option<Seq<char>>, int) {
    sp_float_kv(
        s,
        i,
        "gorouter_time:-"@,
        "gorouter_time:\"-\""@,
        "gorouter_time: "@,
        "gorouter_time:"@,
    )
}

pub fn gorouter_time(s: &str, i: usize) -> (r: (Option<String>, usize))
    requires
        i <= s@.len(),
    ensures
        ({
            let (v, j) = sp_gorouter_time(s@, i as int);
            opt_str_view(r.0) == v && r.1 == j && i <= r.1 <= s@.len()
        }),
{
    float_kv(s, i, "gorouter_time:-", "gorouter_time:\"-\"", "gorouter_time: ", "gorouter_time:")
}

/// The app-id field: dash forms are absent; otherwise the key, then a
/// quoted token; a missing key or a malformed quoting is a failure.
pub open spec fn sp_app_id(s: Seq<char>, i: int) -> Result<
    (Option<Seq<char>>, int),
    Seq<(Rule, int)>,
> {
    if has_tag(s, i, "app_id:-"@) {
        Ok((None, i + "app_id:-"@.len()))
    } else if has_tag(s, i, "app_id:\"-\""@) {
        Ok((None, i + "app_id:\"-\""@.len()))
    } else if has_tag(s, i, "app_id: "@) {
        match sp_quoted_dash_or_str(s, i + "app_id: "@.len()) {
            Ok(x) => Ok(x),
            Err(e) => Err(e.push((Rule::AppId, i))),
        }
    } else if has_tag(s, i, "app_id:"@) {
        match sp_quoted_dash_or_str(s, i + "app_id:"@.len()) {
            Ok(x) => Ok(x),
            Err(e) => Err(e.push((Rule::AppId, i))),
        }
    } else {
        Err(seq![(Rule::Tag, i), (Rule::AppId, i)])
    }
}

pub fn app_id(s: &str, i: usize) -> (r: Result<(Option<String>, usize), PErr>)
    requires
        i <= s@.len(),
    ensures
        ({
            let sp = sp_app_id(s@, i as int);
            match r {
                Ok((v, j)) => sp == Ok::<_, Seq<(Rule, int)>>((opt_str_view(v), j as int)) && i <= j
                    <= s@.len(),
                Err(e) => sp == Err::<(Option<Seq<char>>, int), _>(e@),
            }
        }),
{
    let _n: usize = s.unicode_len();
    if tag_at(s, i, "app_id:-") {
        return Ok((None, i + "app_id:-".unicode_len()));
    }
    if tag_at(s, i, "app_id:\"-\"") {
        return Ok((None, i + "app_id:\"-\"".unicode_len()));
    }
    if tag_at(s, i, "app_id: ") {
        return match quoted_dash_or_str(s, i + "app_id: ".unicode_len()) {
            Ok(x) => Ok(x),
            Err(e) => Err(e.ctx(Rule::AppId, i)),
        };
    }
    if tag_at(s, i, "app_id:") {
        return match quoted_dash_or_str(s, i + "app_id:".unicode_len()) {
            Ok(x) => Ok(x),
            Err(e) => Err(e.ctx(Rule::AppId, i)),
        };
    }
    Err(PErr::new2(Rule::Tag, i, Rule::AppId, i))
}

/// A quoted run of digits that fits a `u16`, or nothing.
pub open spec fn sp_quoted_u16_at(s: Seq<char>, q: int) -> (Option<u16>, int) {
    if q < s.len() && s[q] == '"' {
        let e = digit_end(s, q + 1);
        if e > q + 1 && e < s.len() && s[e] == '"' && dec_val(s.subrange(q + 1, e)) <= u16::MAX {
            (Some(dec_val(s.subrange(q + 1, e)) as u16), e + 1)
        } else {
            (None, q)
        }
    } else {
        (None, q)
    }
}

fn quoted_u16_at(s: &str, q: usize) -> (r: (Option<u16>, usize))
    requires
        q <= s@.len(),
    ensures
        ({
            let (v, j) = sp_quoted_u16_at(s@, q as int);
            r.0 == v && r.1 == j && q <= r.1 <= s@.len()
        }),
{
    let n: usize = s.unicode_len();
    if q < n && s.get_char(q) == '"' {
        let e: usize = scan_digits(s, q + 1);
        if e > q + 1 && e < n && s.get_char(e) == '"' {
            match crate::scan::parse_u64_digits(s, q + 1, e) {
                Some(v) => if v <= 65535 {
                    (Some(v as u16), e + 1)
                } else {
                    (None, q)
                },
                None => (None, q),
            }
        } else {
            (None, q)
        }
    } else {
        (None, q)
    }
}

/// The app-index field: dash forms are absent; otherwise the key, then a
/// small quoted integer, where a malformed value matches as nothing.
pub open spec fn sp_app_index(s: Seq<char>, i: int) -> Result<
    (Option<u16>, int),
    Seq<(Rule, int)>,
> {
    if has_tag(s, i, "app_index:-"@) {
        Ok((None, i + "app_index:-"@.len()))
    } else if has_tag(s, i, "app_index:\"-\""@) {
        Ok((None, i + "app_index:\"-\""@.len()))
    } else if has_tag(s, i, "app_index: "@) {
        Ok(sp_quoted_u16_at(s, i + "app_index: "@.len()))
    } else if has_tag(s, i, "app_index:"@) {
        Ok(sp_quoted_u16_at(s, i + "app_index:"@.len()))
    } else {
        Err(seq![(Rule::Tag, i), (Rule::AppIndex, i)])
    }
}

pub fn app_index(s: &str, i: usize) -> (r: Result<(Option<u16>, usize), PErr>)
    requires
        i <= s@.len(),
    ensures
        ({
            let sp = sp_app_index(s@, i as int);
            match r {
                Ok((v, j)) => sp == Ok::<_, Seq<(Rule, int)>>((v, j as int)) && i <= j <= s@.len(),
                Err(e) => sp == Err::<(Option<u16>, int), _>(e@),
            }
        }),
{
    let _n: usize = s.unicode_len();
    if tag_at(s, i, "app_index:-") {
        return Ok((None, i + "app_index:-".unicode_len()));
    }
    if tag_at(s, i, "app_index:\"-\"") {
        return Ok((None, i + "app_index:\"-\"".unicode_len()));
    }
    if tag_at(s, i, "app_index: ") {
        let (v, j) = quoted_u16_at(s, i + "app_index: ".unicode_len());
        return Ok((v, j));
    }
    if tag_at(s, i, "app_index:") {
        let (v, j) = quoted_u16_at(s, i + "app_index:".unicode_len());
        return Ok((v, j));
    }
    Err(PErr::new2(Rule::Tag, i, Rule::AppIndex, i))
}

pub open spec fn sp_instance_id(s: Seq<char>, i: int) -> (Option<Seq<char>>, int) {
    sp_trailing_kv(
        s,
        i,
        "instance_id:-"@,
        "instance_id:\"-\""@,
        "instance_id: "@,
        "instance_id:"@,
    )
}

pub fn instance_id(s: &str, i: usize) -> (r: (Option<String>, usize))
    requires
        i <= s@.len(),
    ensures
        ({
            let (v, j) = sp_instance_id(s@, i as int);
            opt_str_view(r.0) == v && r.1 == j && i <= r.1 <= s@.len()
        }),
{
    trailing_kv(s, i, "instance_id:-", "instance_id:\"-\"", "instance_id: ", "instance_id:")
}

pub open spec fn sp_x_cf_routererror(s: Seq<char>, i: int) -> (Option<Seq<char>>, int) {
    sp_trailing_kv(
        s,
        i,
        "x_cf_routererror:-"@,
        "x_cf_routererror:\"-\""@,
        "x_cf_routererror: "@,
        "x_cf_routererror:"@,
    )
}

pub fn x_cf_routererror(s: &str, i: usize) -> (r: (Option<String>, usize))
    requires
        i <= s@.len(),
    ensures
        ({
            let (v, j) = sp_x_cf_routererror(s@, i as int);
            opt_str_view(r.0) == v && r.1 == j && i <= r.1 <= s@.len()
        }),
{
    trailing_kv(
        s,
        i,
        "x_cf_routererror:-",
        "x_cf_routererror:\"-\"",
        "x_cf_routererror: ",
        "x_cf_routererror:",
    )
}

pub open spec fn sp_x_b3_traceid(s: Seq<char>, i: int) -> (Option<Seq<char>>, int) {
    sp_trailing_kv(
        s,
        i,
        "x_b3_traceid:-"@,
        "x_b3_traceid:\"-\""@,
        "x_b3_traceid: "@,
        "x_b3_traceid:"@,
    )
}

pub fn x_b3_traceid(s: &str, i: usize) -> (r: (Option<String>, usize))
    requires
        i <= s@.len(),
    ensures
        ({
            let (v, j) = sp_x_b3_traceid(s@, i as int);
            opt_str_view(r.0) == v && r.1 == j && i <= r.1 <= s@.len()
        }),
{
    trailing_kv(s, i, "x_b3_traceid:-", "x_b3_traceid:\"-\"", "x_b3_traceid: ", "x_b3_traceid:")
}

pub open spec fn sp_x_b3_spanid(s: Seq<char>, i: int) -> (Option<Seq<char>>, int) {
    sp_trailing_kv(s, i, "x_b3_spanid:-"@, "x_b3_spanid:\"-\""@, "x_b3_spanid: "@, "x_b3_spanid:"@)
}

pub fn x_b3_spanid(s: &str, i: usize) -> (r: (Option<String>, usize))
    requires
        i <= s@.len(),
    ensures
        ({
            let (v, j) = sp_x_b3_spanid(s@, i as int);
            opt_str_view(r.0) == v && r.1 == j && i <= r.1 <= s@.len()
        }),
{
    trailing_kv(s, i, "x_b3_spanid:-", "x_b3_spanid:\"-\"", "x_b3_spanid: ", "x_b3_spanid:")
}

pub open spec fn sp_x_b3_parentspanid(s: Seq<char>, i: int) -> (Option<Seq<char>>, int) {
    sp_trailing_kv(
        s,
        i,
        "x_b3_parentspanid:-"@,
        "x_b3_parentspanid:\"-\""@,
        "x_b3_parentspanid: "@,
        "x_b3_parentspanid:"@,
    )
}

pub fn x_b3_parentspanid(s: &str, i: usize) -> (r: (Option<String>, usize))
    requires
        i <= s@.len(),
    ensures
        ({
            let (v, j) = sp_x_b3_parentspanid(s@, i as int);
            opt_str_view(r.0) == v && r.1 == j && i <= r.1 <= s@.len()
        }),
{
    trailing_kv(
        s,
        i,
        "x_b3_parentspanid:-",
        "x_b3_parentspanid:\"-\"",
        "x_b3_parentspanid: ",
        "x_b3_parentspanid:",
    )
}

} // verus!
