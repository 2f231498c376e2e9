use vstd::prelude::*;

use crate::ip::spec_parse_ip;
use crate::ip::parse_ip_text;
use crate::scan::{
    dec_val, digit_end, find_char, has_tag, ip_char_end, non_ws_end, parse_u64_digits, scan_digits,
    scan_find, scan_ip_chars, scan_non_ws, spec_is_digit, tag_at,
};
use crate::timestamp::{spec_timestamp_of, timestamp_of};
use crate::trace::{PErr, Rule};
use crate::types::{HttpVersion, IpAddr, Timestamp};
use vstd::string::StrSliceExecFns;

verus! {

// The primitive token parsers.  Each consumes from position `i` of the
// line and either yields a value with the position after it, or fails with
// a trace of the rules active at the failure.

/// The status a quoted dash stands for: the line gave no applicable
/// status, and the sentinel kept for compatibility is 418.
pub const STATUS_NOT_GIVEN: u16 = 418;

/// A bare `-` is absent and consumes one character; otherwise the token is
/// the run of non-whitespace characters, and an empty run is absent too.
/// This parser cannot fail.
pub open spec fn sp_dash_or_str(s: Seq<char>, i: int) -> (Option<Seq<char>>, int) {
    if i < s.len() && s[i] == '-' {
        (None, i + 1)
    } else {
        let e = non_ws_end(s, i);
        if e == i {
            (None, i)
        } else {
            (Some(s.subrange(i, e)), e)
        }
    }
}

pub fn dash_or_str(s: &str, i: usize) -> (r: (Option<String>, usize))
    requires
        i <= s@.len(),
    ensures
        ({
            let (v, j) = sp_dash_or_str(s@, i as int);
            crate::types::opt_str_view(r.0) == v && r.1 == j && i <= r.1 <= s@.len()
        }),
{
    let n: usize = s.unicode_len();
    if i < n && s.get_char(i) == '-' {
        (None, i + 1)
    } else {
        let e: usize = scan_non_ws(s, i);
        if e == i {
            (None, i)
        } else {
            (Some(s.substring_char(i, e).to_owned()), e)
        }
    }
}

/// The same sentinel rules between double quotes: `"-"` and `""` are
/// absent, any other content runs to the closing quote.  Content that
/// begins with `-` but does not end there fails, as does a missing quote.
pub open spec fn sp_quoted_dash_or_str(s: Seq<char>, i: int) -> Result<
    (Option<Seq<char>>, int),
    Seq<(Rule, int)>,
> {
    if !(i < s.len() && s[i] == '"') {
        Err(seq![(Rule::Expected('"'), i), (Rule::QuotedDashOrStr, i)])
    } else if i + 1 < s.len() && s[i + 1] == '-' {
        if i + 2 < s.len() && s[i + 2] == '"' {
            Ok((None, i + 3))
        } else {
            Err(seq![(Rule::Expected('"'), i + 2), (Rule::QuotedDashOrStr, i)])
        }
    } else if i + 1 < s.len() && s[i + 1] == '"' {
        Ok((None, i + 2))
    } else {
        match find_char(s, i + 1, '"') {
            Some(k) => Ok((Some(s.subrange(i + 1, k)), k + 1)),
            None => Err(seq![(Rule::Expected('"'), i + 1), (Rule::QuotedDashOrStr, i)]),
        }
    }
}

pub fn quoted_dash_or_str(s: &str, i: usize) -> (r: Result<(Option<String>, usize), PErr>)
    requires
        i <= s@.len(),
    ensures
        ({
            let sp = sp_quoted_dash_or_str(s@, i as int);
            match r {
                Ok((v, j)) => sp == Ok::<_, Seq<(Rule, int)>>(
                    (crate::types::opt_str_view(v), j as int),
                ) && i <= j <= s@.len(),
                Err(e) => sp == Err::<(Option<Seq<char>>, int), _>(e@),
            }
        }),
{
    let n: usize = s.unicode_len();
    if !(i < n && s.get_char(i) == '"') {
        return Err(PErr::new2(Rule::Expected('"'), i, Rule::QuotedDashOrStr, i));
    }
    if i + 1 < n && s.get_char(i + 1) == '-' {
        if i + 2 < n && s.get_char(i + 2) == '"' {
            return Ok((None, i + 3));
        } else {
            return Err(PErr::new2(Rule::Expected('"'), i + 2, Rule::QuotedDashOrStr, i));
        }
    }
    if i + 1 < n && s.get_char(i + 1) == '"' {
        return Ok((None, i + 2));
    }
    match scan_find(s, i + 1, '"') {
        Some(k) => Ok((Some(s.substring_char(i + 1, k).to_owned()), k + 1)),
        None => Err(PErr::new2(Rule::Expected('"'), i + 1, Rule::QuotedDashOrStr, i)),
    }
}

/// The greedy run of address characters, parsed as an IP address.
pub open spec fn sp_ip(s: Seq<char>, i: int) -> Result<(IpAddr, int), Seq<(Rule, int)>> {
    let e = ip_char_end(s, i);
    match spec_parse_ip(s.subrange(i, e)) {
        Some(a) => Ok((a, e)),
        None => Err(seq![(Rule::MapRes, i), (Rule::Ip, i)]),
    }
}

pub fn ip(s: &str, i: usize) -> (r: Result<(IpAddr, usize), PErr>)
    requires
        i <= s@.len(),
    ensures
        ({
            let sp = sp_ip(s@, i as int);
            match r {
                Ok((v, j)) => sp == Ok::<_, Seq<(Rule, int)>>((v, j as int)) && i <= j <= s@.len(),
                Err(e) => sp == Err::<(IpAddr, int), _>(e@),
            }
        }),
{
    let e: usize = scan_ip_chars(s, i);
    let tok: &str = s.substring_char(i, e);
    match parse_ip_text(tok) {
        Some(a) => Ok((a, e)),
        None => Err(PErr::new2(Rule::MapRes, i, Rule::Ip, i)),
    }
}

/// The bracketed timestamp: the text between `[` and `]`, handed to the
/// dialect chain.
pub open spec fn sp_date(s: Seq<char>, i: int) -> Result<(Timestamp, int), Seq<(Rule, int)>> {
    if !(i < s.len() && s[i] == '[') {
        Err(seq![(Rule::Expected('['), i), (Rule::Date, i)])
    } else {
        match find_char(s, i + 1, ']') {
            None => Err(seq![(Rule::TakeUntil, i + 1), (Rule::Date, i)]),
            Some(k) => match spec_timestamp_of(s.subrange(i + 1, k)) {
                Some(t) => Ok((t, k + 1)),
                None => Err(seq![(Rule::MapRes, i), (Rule::Date, i)]),
            },
        }
    }
}

pub fn date(s: &str, i: usize) -> (r: Result<(Timestamp, usize), PErr>)
    requires
        i <= s@.len(),
    ensures
        ({
            let sp = sp_date(s@, i as int);
            match r {
                Ok((v, j)) => sp == Ok::<_, Seq<(Rule, int)>>((v, j as int)) && i <= j <= s@.len(),
                Err(e) => sp == Err::<(Timestamp, int), _>(e@),
            }
        }),
{
    let n: usize = s.unicode_len();
    if !(i < n && s.get_char(i) == '[') {
        return Err(PErr::new2(Rule::Expected('['), i, Rule::Date, i));
    }
    match scan_find(s, i + 1, ']') {
        None => Err(PErr::new2(Rule::TakeUntil, i + 1, Rule::Date, i)),
        Some(k) => {
            let tok: &str = s.substring_char(i + 1, k);
            match timestamp_of(tok) {
                Some(t) => Ok((t, k + 1)),
                None => Err(PErr::new2(Rule::MapRes, i, Rule::Date, i)),
            }
        },
    }
}

/// A status token: three digits not beginning with `0`, as the standard
/// status-code grammar has it.
pub open spec fn sp_status_token(t: Seq<char>) -> Option<u16> {
    if t.len() == 3 && spec_is_digit(t[0]) && spec_is_digit(t[1]) && spec_is_digit(t[2]) && t[0]
        != '0' {
        Some(dec_val(t) as u16)
    } else {
        None
    }
}

/// The status field: the quoted token `"-"` maps to the 418 sentinel;
/// otherwise everything up to the next space must be a status token.
pub open spec fn sp_http_status(s: Seq<char>, i: int) -> Result<(u16, int), Seq<(Rule, int)>> {
    if has_tag(s, i, "\"-\""@) {
        Ok((STATUS_NOT_GIVEN, i + 3))
    } else {
        match find_char(s, i, ' ') {
            None => Err(seq![(Rule::TakeUntil, i), (Rule::HttpStatus, i)]),
            Some(k) => match sp_status_token(s.subrange(i, k)) {
                Some(v) => Ok((v, k)),
                None => Err(seq![(Rule::MapRes, i), (Rule::HttpStatus, i)]),
            },
        }
    }
}

pub fn http_status(s: &str, i: usize) -> (r: Result<(u16, usize), PErr>)
    requires
        i <= s@.len(),
    ensures
        ({
            let sp = sp_http_status(s@, i as int);
            match r {
                Ok((v, j)) => sp == Ok::<_, Seq<(Rule, int)>>((v, j as int)) && i <= j <= s@.len(),
                Err(e) => sp == Err::<(u16, int), _>(e@),
            }
        }),
{
    let _n: usize = s.unicode_len();
    if tag_at(s, i, "\"-\"") {
        proof {
            reveal_strlit("\"-\"");
        }
        return Ok((STATUS_NOT_GIVEN, i + 3));
    }
    match scan_find(s, i, ' ') {
        None => Err(PErr::new2(Rule::TakeUntil, i, Rule::HttpStatus, i)),
        Some(k) => {
            let ghost t = s@.subrange(i as int, k as int);
            if k - i == 3 {
                let c0: char = s.get_char(i);
                let c1: char = s.get_char(i + 1);
                let c2: char = s.get_char(i + 2);
                assert(t[0] == s@[i as int] && t[1] == s@[i + 1] && t[2] == s@[i + 2]);
                if crate::scan::is_digit(c0) && crate::scan::is_digit(c1) && crate::scan::is_digit(
                    c2,
                ) && c0 != '0' {
                    let v: u16 = ((c0 as u32 - 48) * 100 + (c1 as u32 - 48) * 10 + (c2 as u32
                        - 48)) as u16;
                    proof {
                        assert(dec_val(seq![c0]) == (c0 as int - 48) as nat) by {
                            assert(seq![c0].drop_last() =~= Seq::<char>::empty());
                            assert(dec_val(Seq::<char>::empty()) == 0);
                            assert(seq![c0].last() == c0);
                        }
                        assert(dec_val(seq![c0, c1]) == dec_val(seq![c0]) * 10 + ((c1 as int - 48) as nat)) by {
                            assert(seq![c0, c1].drop_last() =~= seq![c0]);
                        }
                        assert(dec_val(t) == dec_val(seq![c0, c1]) * 10 + ((c2 as int - 48) as nat)) by {
                            assert(t.drop_last() =~= seq![c0, c1]);
                            assert(t.last() == c2);
                        }
                    }
                    return Ok((v, k));
                }
                return Err(PErr::new2(Rule::MapRes, i, Rule::HttpStatus, i));
            }
            Err(PErr::new2(Rule::MapRes, i, Rule::HttpStatus, i))
        },
    }
}

/// The byte count: a bare `-` counts as zero (a count, not an absence);
/// otherwise a run of digits that fits a `u64`.
pub open spec fn sp_bytes(s: Seq<char>, i: int) -> Result<(u64, int), Seq<(Rule, int)>> {
    if i < s.len() && s[i] == '-' {
        Ok((0, i + 1))
    } else {
        let e = digit_end(s, i);
        if e > i && dec_val(s.subrange(i, e)) <= u64::MAX {
            Ok((dec_val(s.subrange(i, e)) as u64, e))
        } else {
            Err(seq![(Rule::MapRes, i), (Rule::Bytes, i)])
        }
    }
}

pub fn bytes(s: &str, i: usize) -> (r: Result<(u64, usize), PErr>)
    requires
        i <= s@.len(),
    ensures
        ({
            let sp = sp_bytes(s@, i as int);
            match r {
                Ok((v, j)) => sp == Ok::<_, Seq<(Rule, int)>>((v, j as int)) && i <= j <= s@.len(),
                Err(e) => sp == Err::<(u64, int), _>(e@),
            }
        }),
{
    let n: usize = s.unicode_len();
    if i < n && s.get_char(i) == '-' {
        return Ok((0, i + 1));
    }
    let e: usize = scan_digits(s, i);
    match parse_u64_digits(s, i, e) {
        Some(v) => Ok((v, e)),
        None => Err(PErr::new2(Rule::MapRes, i, Rule::Bytes, i)),
    }
}

/// Everything up to the next space.
pub open spec fn sp_until_space(s: Seq<char>, i: int, rule: Rule) -> Result<
    (Seq<char>, int),
    Seq<(Rule, int)>,
> {
    match find_char(s, i, ' ') {
        Some(k) => Ok((s.subrange(i, k), k)),
        None => Err(seq![(Rule::TakeUntil, i), (rule, i)]),
    }
}

pub open spec fn sp_method(s: Seq<char>, i: int) -> Result<(Seq<char>, int), Seq<(Rule, int)>> {
    sp_until_space(s, i, Rule::Method)
}

pub fn method(s: &str, i: usize) -> (r: Result<(String, usize), PErr>)
    requires
        i <= s@.len(),
    ensures
        ({
            let sp = sp_method(s@, i as int);
            match r {
                Ok((v, j)) => sp == Ok::<_, Seq<(Rule, int)>>((v@, j as int)) && i <= j <= s@.len(),
                Err(e) => sp == Err::<(Seq<char>, int), _>(e@),
            }
        }),
{
    match scan_find(s, i, ' ') {
        Some(k) => Ok((s.substring_char(i, k).to_owned(), k)),
        None => Err(PErr::new2(Rule::TakeUntil, i, Rule::Method, i)),
    }
}

pub open spec fn sp_path(s: Seq<char>, i: int) -> Result<(Seq<char>, int), Seq<(Rule, int)>> {
    sp_until_space(s, i, Rule::Path)
}

pub fn path(s: &str, i: usize) -> (r: Result<(String, usize), PErr>)
    requires
        i <= s@.len(),
    ensures
        ({
            let sp = sp_path(s@, i as int);
            match r {
                Ok((v, j)) => sp == Ok::<_, Seq<(Rule, int)>>((v@, j as int)) && i <= j <= s@.len(),
                Err(e) => sp == Err::<(Seq<char>, int), _>(e@),
            }
        }),
{
    match scan_find(s, i, ' ') {
        Some(k) => Ok((s.substring_char(i, k).to_owned(), k)),
        None => Err(PErr::new2(Rule::TakeUntil, i, Rule::Path, i)),
    }
}

/// Exactly `HTTP/1.0`, `HTTP/1.1` or `HTTP/2.0`, the last mapped onto the
/// 1.1 representation.
pub open spec fn sp_protocol_version(s: Seq<char>, i: int) -> Result<
    (HttpVersion, int),
    Seq<(Rule, int)>,
> {
    if has_tag(s, i, "HTTP/1.0"@) {
        Ok((HttpVersion::Http10, i + 8))
    } else if has_tag(s, i, "HTTP/1.1"@) {
        Ok((HttpVersion::Http11, i + 8))
    } else if has_tag(s, i, "HTTP/2.0"@) {
        Ok((HttpVersion::Http11, i + 8))
    } else {
        Err(seq![(Rule::Tag, i), (Rule::ProtocolVersion, i)])
    }
}

pub fn protocol_version(s: &str, i: usize) -> (r: Result<(HttpVersion, usize), PErr>)
    requires
        i <= s@.len(),
    ensures
        ({
            let sp = sp_protocol_version(s@, i as int);
            match r {
                Ok((v, j)) => sp == Ok::<_, Seq<(Rule, int)>>((v, j as int)) && i <= j <= s@.len(),
                Err(e) => sp == Err::<(HttpVersion, int), _>(e@),
            }
        }),
{
    let _n: usize = s.unicode_len();
    proof {
        reveal_strlit("HTTP/1.0");
        reveal_strlit("HTTP/1.1");
        reveal_strlit("HTTP/2.0");
    }
    if tag_at(s, i, "HTTP/1.0") {
        Ok((HttpVersion::Http10, i + 8))
    } else if tag_at(s, i, "HTTP/1.1") {
        Ok((HttpVersion::Http11, i + 8))
    } else if tag_at(s, i, "HTTP/2.0") {
        Ok((HttpVersion::Http11, i + 8))
    } else {
        Err(PErr::new2(Rule::Tag, i, Rule::ProtocolVersion, i))
    }
}

} // verus!
