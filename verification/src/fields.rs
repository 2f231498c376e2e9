use vstd::prelude::*;

use crate::scan::{dec_val, digit_end, find_char, scan_digits, scan_find, sep_end, scan_seps};
use crate::tokens::{
    protocol_version, quoted_dash_or_str, sp_dash_or_str, sp_ip, sp_protocol_version,
    sp_quoted_dash_or_str, dash_or_str, ip,
};
use crate::trace::{PErr, Rule};
use crate::types::{opt_str_view, IpAddr, RequestResult, RequestResultV};
use vstd::string::StrSliceExecFns;

verus! {

// Field parsers: one per named field of the four grammars, built from the
// primitive tokens.

/// Whether a text is a well-formed URI.
pub uninterp spec fn uri_ok(s: Seq<char>) -> bool;

/// Relies on the `TryFrom<&str>` impl of http::Uri: whether the text is a
/// well-formed URI depends on the text alone.
#[verifier::external_body]
fn uri_is_valid(s: &str) -> (r: bool)
    ensures
        r == uri_ok(s@),
{
    http::Uri::try_from(s).is_ok()
}

/// What building a request from a method text and an uri text yields:
/// success, or the error's display text.
pub uninterp spec fn request_build_of(m: Seq<char>, p: Seq<char>) -> Result<(), Seq<char>>;

/// Relies on http::request::Builder: whether a build with these method and
/// uri texts succeeds, and the error text where it does not, depend on the
/// two texts alone; setting a version on the builder cannot fail, so it
/// plays no part.  The error text of a failed build is never empty.
#[verifier::external_body]
fn build_request_check(m: &str, p: &str) -> (r: Result<(), String>)
    ensures
        (match (r, request_build_of(m@, p@)) {
            (Ok(()), Ok(())) => true,
            (Err(e), Err(se)) => e@ == se && se.len() > 0,
            _ => false,
        }),
{
    match http::Request::builder().method(m).uri(p).body(()) {
        Ok(_) => Ok(()),
        Err(e) => Err(e.to_string()),
    }
}

/// The ident-user field: a dash sentinel or a bare token.
pub open spec fn sp_idnetd_user(s: Seq<char>, i: int) -> (Option<Seq<char>>, int) {
    sp_dash_or_str(s, i)
}

pub fn idnetd_user(s: &str, i: usize) -> (r: (Option<String>, usize))
    requires
        i <= s@.len(),
    ensures
        ({
            let (v, j) = sp_idnetd_user(s@, i as int);
            opt_str_view(r.0) == v && r.1 == j && i <= r.1 <= s@.len()
        }),
{
    dash_or_str(s, i)
}

/// The auth-user field: a dash sentinel or a bare token.
pub open spec fn sp_user(s: Seq<char>, i: int) -> (Option<Seq<char>>, int) {
    sp_dash_or_str(s, i)
}

pub fn user(s: &str, i: usize) -> (r: (Option<String>, usize))
    requires
        i <= s@.len(),
    ensures
        ({
            let (v, j) = sp_user(s@, i as int);
            opt_str_view(r.0) == v && r.1 == j && i <= r.1 <= s@.len()
        }),
{
    dash_or_str(s, i)
}

/// The quoted triple `"<method> <path> <version>"`, if the input has that
/// shape: the value records whether the triple also builds into a request.
pub open spec fn sp_request_quoted_triple(s: Seq<char>, i: int) -> Option<(RequestResultV, int)> {
    if !(i < s.len() && s[i] == '"') {
        None
    } else {
        match find_char(s, i + 1, ' ') {
            None => None,
            Some(k1) => {
                let m = s.subrange(i + 1, k1);
                match find_char(s, k1 + 1, ' ') {
                    None => None,
                    Some(k2) => {
                        let p = s.subrange(k1 + 1, k2);
                        match sp_protocol_version(s, k2 + 1) {
                            Err(_) => None,
                            Ok((v, j)) => if j < s.len() && s[j] == '"' {
                                Some(
                                    (
                                        match request_build_of(m, p) {
                                            Ok(_) => RequestResultV::Valid {
                                                method: m,
                                                path: p,
                                                version: v,
                                            },
                                            Err(er) => RequestResultV::InvalidPath {
                                                path: p,
                                                error: er,
                                            },
                                        },
                                        j + 1,
                                    ),
                                )
                            } else {
                                None
                            },
                        }
                    },
                }
            },
        }
    }
}

/// The request field: the quoted triple when it matches, else the quoted
/// sentinel token kept verbatim.  Any quoted content yields a value; only
/// a malformed quoting fails.
pub open spec fn sp_request(s: Seq<char>, i: int) -> Result<(RequestResultV, int), Seq<(Rule, int)>> {
    match sp_request_quoted_triple(s, i) {
        Some((v, j)) => Ok((v, j)),
        None => match sp_quoted_dash_or_str(s, i) {
            Ok((Some(p), j)) => Ok((RequestResultV::InvalidRequest(p), j)),
            Ok((None, j)) => Ok((RequestResultV::InvalidRequest(""@), j)),
            Err(e) => Err(e.push((Rule::Request, i))),
        },
    }
}

pub fn request(s: &str, i: usize) -> (r: Result<(RequestResult, usize), PErr>)
    requires
        i <= s@.len(),
    ensures
        ({
            let sp = sp_request(s@, i as int);
            match r {
                Ok((v, j)) => sp == Ok::<_, Seq<(Rule, int)>>((v@, j as int)) && i <= j <= s@.len()
                    && (match v {
                    RequestResult::InvalidPath { path, error } => error@.len() > 0,
                    _ => true,
                }),
                Err(e) => sp == Err::<(RequestResultV, int), _>(e@),
            }
        }),
{
    let n: usize = s.unicode_len();
    if i < n && s.get_char(i) == '"' {
        match scan_find(s, i + 1, ' ') {
            Some(k1) => {
                match scan_find(s, k1 + 1, ' ') {
                    Some(k2) => {
                        match protocol_version(s, k2 + 1) {
                            Ok((v, j)) => {
                                if j < n && s.get_char(j) == '"' {
                                    let m: String = s.substring_char(i + 1, k1).to_owned();
                                    let p: String = s.substring_char(k1 + 1, k2).to_owned();
                                    match build_request_check(m.as_str(), p.as_str()) {
                                        Ok(_) => {
                                            return Ok(
                                                (
                                                    RequestResult::Valid {
                                                        method: m,
                                                        path: p,
                                                        version: v,
                                                    },
                                                    j + 1,
                                                ),
                                            );
                                        },
                                        Err(er) => {
                                            return Ok(
                                                (
                                                    RequestResult::InvalidPath {
                                                        path: p,
                                                        error: er,
                                                    },
                                                    j + 1,
                                                ),
                                            );
                                        },
                                    }
                                }
                            },
                            Err(_) => {},
                        }
                    },
                    None => {},
                }
            },
            None => {},
        }
    }
    match quoted_dash_or_str(s, i) {
        Ok((Some(p), j)) => Ok((RequestResult::InvalidRequest(p), j)),
        Ok((None, j)) => {
            proof {
                reveal_strlit("");
                assert(""@ =~= Seq::<char>::empty());
            }
            Ok((RequestResult::InvalidRequest(String::new()), j))
        },
        Err(e) => Err(e.ctx(Rule::Request, i)),
    }
}

/// The referrer field: `""` and `"-"` are absent; other quoted content is
/// kept only when it is a well-formed URI; anything else matches nothing
/// and consumes nothing, so the grammar fails at the following separator.
pub open spec fn sp_referrer(s: Seq<char>, i: int) -> (Option<Seq<char>>, int) {
    if has_quote_pair(s, i) {
        (None, i + 2)
    } else if crate::scan::has_tag(s, i, "\"-\""@) {
        (None, i + 3)
    } else if i < s.len() && s[i] == '"' {
        match find_char(s, i + 1, '"') {
            Some(k) => if k > i + 1 && uri_ok(s.subrange(i + 1, k)) {
                (Some(s.subrange(i + 1, k)), k + 1)
            } else {
                (None, i)
            },
            None => (None, i),
        }
    } else {
        (None, i)
    }
}

/// Two double quotes in a row at `i`.
pub open spec fn has_quote_pair(s: Seq<char>, i: int) -> bool {
    i + 2 <= s.len() && s[i] == '"' && s[i + 1] == '"'
}

pub fn referrer(s: &str, i: usize) -> (r: (Option<String>, usize))
    requires
        i <= s@.len(),
    ensures
        ({
            let (v, j) = sp_referrer(s@, i as int);
            opt_str_view(r.0) == v && r.1 == j && i <= r.1 <= s@.len()
        }),
{
    let n: usize = s.unicode_len();
    if i < n && s.get_char(i) == '"' && i + 1 < n && s.get_char(i + 1) == '"' {
        return (None, i + 2);
    }
    assert(!has_quote_pair(s@, i as int));
    if crate::scan::tag_at(s, i, "\"-\"") {
        proof {
            reveal_strlit("\"-\"");
        }
        return (None, i + 3);
    }
    if i < n && s.get_char(i) == '"' {
        match scan_find(s, i + 1, '"') {
            Some(k) => {
                if k > i + 1 && uri_is_valid(s.substring_char(i + 1, k)) {
                    return (Some(s.substring_char(i + 1, k).to_owned()), k + 1);
                }
                return (None, i);
            },
            None => {
                return (None, i);
            },
        }
    }
    (None, i)
}

/// The user-agent field: a quoted token with the dash sentinel rules.
pub open spec fn sp_user_agent(s: Seq<char>, i: int) -> Result<
    (Option<Seq<char>>, int),
    Seq<(Rule, int)>,
> {
    match sp_quoted_dash_or_str(s, i) {
        Ok(x) => Ok(x),
        Err(e) => Err(e.push((Rule::UserAgent, i))),
    }
}

pub fn user_agent(s: &str, i: usize) -> (r: Result<(Option<String>, usize), PErr>)
    requires
        i <= s@.len(),
    ensures
        ({
            let sp = sp_user_agent(s@, i as int);
            match r {
                Ok((v, j)) => sp == Ok::<_, Seq<(Rule, int)>>((opt_str_view(v), j as int)) && i <= j
                    <= s@.len(),
                Err(e) => sp == Err::<(Option<Seq<char>>, int), _>(e@),
            }
        }),
{
    match quoted_dash_or_str(s, i) {
        Ok(x) => Ok(x),
        Err(e) => Err(e.ctx(Rule::UserAgent, i)),
    }
}

/// The quoted `"<ip>:<port>"` pair; `"-"` and `""` are absent; malformed
/// content inside the quotes is a hard failure at a quote position.
pub open spec fn sp_ip_and_port(s: Seq<char>, i: int) -> Result<
    (Option<(IpAddr, u16)>, int),
    Seq<(Rule, int)>,
> {
    if !(i < s.len() && s[i] == '"') {
        Err(seq![(Rule::Expected('"'), i), (Rule::IpAndPort, i)])
    } else if i + 1 < s.len() && s[i + 1] == '-' {
        if i + 2 < s.len() && s[i + 2] == '"' {
            Ok((None, i + 3))
        } else {
            Err(seq![(Rule::Expected('"'), i + 2), (Rule::IpAndPort, i)])
        }
    } else {
        match sp_pair_inner(s, i + 1) {
            Some((a, port, j)) => if j < s.len() && s[j] == '"' {
                Ok((Some((a, port)), j + 1))
            } else {
                Err(seq![(Rule::Expected('"'), j), (Rule::IpAndPort, i)])
            },
            None => if i + 1 < s.len() && s[i + 1] == '"' {
                Ok((None, i + 2))
            } else {
                Err(seq![(Rule::Expected('"'), i + 1), (Rule::IpAndPort, i)])
            },
        }
    }
}

/// The `<ip>:<port>` shape from position `i`: the text up to the first
/// colon as an address, then a run of digits that fits a port.
pub open spec fn sp_pair_inner(s: Seq<char>, i: int) -> Option<(IpAddr, u16, int)> {
    match find_char(s, i, ':') {
        Some(c) => if c > i {
            match crate::ip::spec_parse_ip(s.subrange(i, c)) {
                Some(a) => {
                    let e = digit_end(s, c + 1);
                    if e > c + 1 && dec_val(s.subrange(c + 1, e)) <= u16::MAX {
                        Some((a, dec_val(s.subrange(c + 1, e)) as u16, e))
                    } else {
                        None
                    }
                },
                None => None,
            }
        } else {
            None
        },
        None => None,
    }
}

pub fn ip_and_port(s: &str, i: usize) -> (r: Result<(Option<(IpAddr, u16)>, usize), PErr>)
    requires
        i <= s@.len(),
    ensures
        ({
            let sp = sp_ip_and_port(s@, i as int);
            match r {
                Ok((v, j)) => sp == Ok::<_, Seq<(Rule, int)>>((v, j as int)) && i <= j <= s@.len(),
                Err(e) => sp == Err::<(Option<(IpAddr, u16)>, int), _>(e@),
            }
        }),
{
    let n: usize = s.unicode_len();
    if !(i < n && s.get_char(i) == '"') {
        return Err(PErr::new2(Rule::Expected('"'), i, Rule::IpAndPort, i));
    }
    if i + 1 < n && s.get_char(i + 1) == '-' {
        if i + 2 < n && s.get_char(i + 2) == '"' {
            return Ok((None, i + 3));
        } else {
            return Err(PErr::new2(Rule::Expected('"'), i + 2, Rule::IpAndPort, i));
        }
    }
    let inner: Option<(IpAddr, u16, usize)> = match scan_find(s, i + 1, ':') {
        Some(c) => {
            if c > i + 1 {
                match crate::ip::parse_ip_text(s.substring_char(i + 1, c)) {
                    Some(a) => {
                        let e: usize = scan_digits(s, c + 1);
                        match crate::scan::parse_u64_digits(s, c + 1, e) {
                            Some(v) => if v <= 65535 {
                                Some((a, v as u16, e))
                            } else {
                                None
                            },
                            None => None,
                        }
                    },
                    None => None,
                }
            } else {
                None
            }
        },
        None => None,
    };
    match inner {
        Some((a, port, j)) => {
            if j < n && s.get_char(j) == '"' {
                Ok((Some((a, port)), j + 1))
            } else {
                Err(PErr::new2(Rule::Expected('"'), j, Rule::IpAndPort, i))
            }
        },
        None => {
            if i + 1 < n && s.get_char(i + 1) == '"' {
                Ok((None, i + 2))
            } else {
                Err(PErr::new2(Rule::Expected('"'), i + 1, Rule::IpAndPort, i))
            }
        },
    }
}

/// The rest of an IP list after one address: pairs of a separator run and
/// a further address, ending before the first separator run that no
/// address follows.
pub open spec fn sp_ip_list_more(s: Seq<char>, j: int) -> (Seq<IpAddr>, int)
    decreases s.len() - j,
{
    if !(0 <= j <= s.len()) {
        (Seq::<IpAddr>::empty(), j)
    } else {
        let se = sep_end(s, j);
        if se == j {
            (Seq::<IpAddr>::empty(), j)
        } else {
            match sp_ip(s, se) {
                Err(_) => (Seq::<IpAddr>::empty(), j),
                Ok((a, j2)) => if j < j2 <= s.len() {
                    let rest = sp_ip_list_more(s, j2);
                    (seq![a] + rest.0, rest.1)
                } else {
                    (Seq::<IpAddr>::empty(), j)
                },
            }
        }
    }
}

/// Zero or more addresses separated by runs of commas and spaces; an empty
/// list is a successful parse.  This parser cannot fail.
pub open spec fn sp_ip_list(s: Seq<char>, i: int) -> (Seq<IpAddr>, int) {
    match sp_ip(s, i) {
        Err(_) => (Seq::<IpAddr>::empty(), i),
        Ok((a, j)) => {
            let rest = sp_ip_list_more(s, j);
            (seq![a] + rest.0, rest.1)
        },
    }
}

/// A successful address parse consumes at least one character.
pub proof fn lemma_sp_ip_advances(s: Seq<char>, i: int)
    requires
        0 <= i <= s.len(),
    ensures
        match sp_ip(s, i) {
            Ok((a, j)) => i < j <= s.len(),
            Err(_) => true,
        },
{
    crate::scan::lemma_ip_char_end(s, i);
    let e = crate::scan::ip_char_end(s, i);
    if e == i {
        let t = s.subrange(i, e);
        assert(t =~= Seq::<char>::empty());
        assert(crate::ip::sp_octet_at(t, 0) is None);
        assert(crate::ip::sp_ipv4_at(t, 0) is None);
        assert(crate::ip::spec_ipv4(t) is None);
        assert(crate::ip::sp_hex_group_at(t, 0) is None);
        assert(crate::ip::sp_read_groups(t, 0, 8, true) == (Seq::<u16>::empty(), 0int, false));
        assert(crate::ip::spec_ipv6(t) is None);
        assert(crate::ip::spec_parse_ip(t) is None);
    }
}

pub fn ip_list(s: &str, i: usize) -> (r: (Vec<IpAddr>, usize))
    requires
        i <= s@.len(),
    ensures
        ({
            let (l, j) = sp_ip_list(s@, i as int);
            r.0@ == l && r.1 == j && i <= r.1 <= s@.len()
        }),
{
    proof {
        lemma_sp_ip_advances(s@, i as int);
    }
    let mut v: Vec<IpAddr> = Vec::new();
    let mut cur: usize;
    match ip(s, i) {
        Err(_) => {
            return (v, i);
        },
        Ok((a, j)) => {
            v.push(a);
            cur = j;
        },
    }
    let n: usize = s.unicode_len();
    loop
        invariant
            i <= cur <= n,
            n == s@.len(),
            sp_ip_list(s@, i as int).0 == v@ + sp_ip_list_more(s@, cur as int).0,
            sp_ip_list(s@, i as int).1 == sp_ip_list_more(s@, cur as int).1,
        decreases n - cur,
    {
        let se: usize = scan_seps(s, cur);
        if se == cur {
            proof {
                assert(sp_ip_list_more(s@, cur as int).0 =~= Seq::<IpAddr>::empty());
                assert(v@ + Seq::<IpAddr>::empty() =~= v@);
            }
            return (v, cur);
        }
        proof {
            lemma_sp_ip_advances(s@, se as int);
        }
        match ip(s, se) {
            Err(_) => {
                proof {
                    assert(sp_ip_list_more(s@, cur as int).0 =~= Seq::<IpAddr>::empty());
                    assert(v@ + Seq::<IpAddr>::empty() =~= v@);
                }
                return (v, cur);
            },
            Ok((a, j2)) => {
                proof {
                    let rest = sp_ip_list_more(s@, j2 as int);
                    assert(sp_ip_list_more(s@, cur as int).0 =~= seq![a] + rest.0);
                    assert((v@ + (seq![a] + rest.0)) =~= (v@.push(a) + rest.0));
                }
                v.push(a);
                cur = j2;
            },
        }
    }
}

} // verus!
