use vstd::prelude::*;

use crate::fields::{sp_ip_and_port, sp_referrer, sp_request, sp_request_quoted_triple};
use crate::kv::{
    sp_instance_id, sp_proto_of, sp_response_time, sp_vcap_request_id, sp_x_b3_parentspanid,
    sp_x_b3_spanid, sp_x_b3_traceid, sp_x_cf_routererror,
};
use crate::scan::{has_tag, non_ws_end, sep_end};
use crate::tokens::{
    sp_bytes, sp_dash_or_str, sp_http_status, sp_ip, sp_quoted_dash_or_str, STATUS_NOT_GIVEN,
};
use crate::trace::Rule;
use crate::types::{IpAddr, RequestResultV, XForwardedProto};

verus! {

// The laws of the grammar that hold across fields and inputs, stated over
// the spec parsers the executable parsers are proved against.

/// Law: absence is a successful parse, never a failure, and it is written
/// the same way everywhere.  A bare dash is absent for the bare token, an
/// empty bare token is absent, a quoted dash and an empty quoted token are
/// absent, the dash forms of the request-id, response-time and trailing
/// telemetry fields are absent — and a dash byte count is the count zero,
/// not an absence.
pub proof fn lemma_dash_sentinels(s: Seq<char>, i: int)
    requires
        0 <= i <= s.len(),
    ensures
        (i < s.len() && s[i] == '-') ==> sp_dash_or_str(s, i) == (None::<Seq<char>>, i + 1),
        non_ws_end(s, i) == i ==> sp_dash_or_str(s, i) == (None::<Seq<char>>, i),
        (i < s.len() && s[i] == '-') ==> sp_bytes(s, i) == Ok::<(u64, int), Seq<(Rule, int)>>(
            (0, i + 1),
        ),
        has_tag(s, i, "\"-\""@) ==> sp_quoted_dash_or_str(s, i) == Ok::<
            (Option<Seq<char>>, int),
            Seq<(Rule, int)>,
        >((None, i + 3)),
        has_tag(s, i, "\"\""@) ==> sp_quoted_dash_or_str(s, i) == Ok::<
            (Option<Seq<char>>, int),
            Seq<(Rule, int)>,
        >((None, i + 2)),
        has_tag(s, i, "\"-\""@) ==> sp_referrer(s, i) == (None::<Seq<char>>, i + 3),
        has_tag(s, i, "\"\""@) ==> sp_referrer(s, i) == (None::<Seq<char>>, i + 2),
        has_tag(s, i, "\"-\""@) ==> sp_ip_and_port(s, i) == Ok::<
            (Option<(IpAddr, u16)>, int),
            Seq<(Rule, int)>,
        >((None, i + 3)),
        has_tag(s, i, "vcap_request_id:-"@) ==> sp_vcap_request_id(s, i) == Ok::<
            (Option<Seq<char>>, int),
            Seq<(Rule, int)>,
        >((None, i + "vcap_request_id:-"@.len())),
        has_tag(s, i, "response_time:-"@) ==> sp_response_time(s, i) == (
            None::<Seq<char>>,
            i + "response_time:-"@.len(),
        ),
        has_tag(s, i, "instance_id:-"@) ==> sp_instance_id(s, i) == (
            None::<Seq<char>>,
            i + "instance_id:-"@.len(),
        ),
{
    if has_tag(s, i, "\"-\""@) {
        reveal_strlit("\"-\"");
        assert(s.subrange(i, i + 3)[0] == s[i]);
        assert(s.subrange(i, i + 3)[1] == s[i + 1]);
        assert(s.subrange(i, i + 3)[2] == s[i + 2]);
        assert(s[i] == '"' && s[i + 1] == '-' && s[i + 2] == '"');
    }
    if has_tag(s, i, "\"\""@) {
        reveal_strlit("\"\"");
        assert(s.subrange(i, i + 2)[0] == s[i]);
        assert(s.subrange(i, i + 2)[1] == s[i + 1]);
        assert(s[i] == '"' && s[i + 1] == '"');
    }
    if i < s.len() && s[i] == '-' {
        assert(!crate::scan::spec_is_ws('-'));
        crate::scan::lemma_non_ws_end(s, i + 1);
        assert(non_ws_end(s, i) != i);
    }
}

/// Law: the forwarded-proto token maps exactly `http` to `HTTP` and
/// `https` to `HTTPS`; every other token, the absent one included, maps
/// to `UNSPECIFIED`.
pub proof fn lemma_forwarded_proto_mapping(t: Option<Seq<char>>)
    ensures
        t == Some("http"@) ==> sp_proto_of(t) == XForwardedProto::HTTP,
        t == Some("https"@) ==> sp_proto_of(t) == XForwardedProto::HTTPS,
        (t != Some("http"@) && t != Some("https"@)) ==> sp_proto_of(t)
            == XForwardedProto::UNSPECIFIED,
{
    reveal_strlit("http");
    reveal_strlit("https");
    assert("http"@.len() != "https"@.len());
}

/// Law: the quoted dash in a status slot decodes to the 418 sentinel.
/// Every grammar that has a status slot reads it through
/// `sp_http_status`, so this holds in each of the four formats.
pub proof fn lemma_quoted_dash_status(s: Seq<char>, i: int)
    requires
        0 <= i <= s.len(),
        has_tag(s, i, "\"-\""@),
    ensures
        sp_http_status(s, i) == Ok::<(u16, int), Seq<(Rule, int)>>((STATUS_NOT_GIVEN, i + 3)),
        STATUS_NOT_GIVEN == 418,
{
}

/// Law: an IP list keeps its addresses in their original order.  An
/// address with no separator after it is a list of one; an address, a
/// separator run and a second address with nothing after it are a list of
/// the two in that order; where the first address is missing the list is
/// empty and consumes nothing.
pub proof fn lemma_ip_list_order(s: Seq<char>, i: int, a: IpAddr, b: IpAddr, j: int, m: int, j2: int)
    requires
        0 <= i <= s.len(),
    ensures
        sp_ip(s, i) is Err ==> crate::fields::sp_ip_list(s, i) == (Seq::<IpAddr>::empty(), i),
        (sp_ip(s, i) == Ok::<(IpAddr, int), Seq<(Rule, int)>>((a, j)) && sep_end(s, j) == j)
            ==> crate::fields::sp_ip_list(s, i) == (seq![a], j),
        (sp_ip(s, i) == Ok::<(IpAddr, int), Seq<(Rule, int)>>((a, j)) && sep_end(s, j) == m && m
            != j && sp_ip(s, m) == Ok::<(IpAddr, int), Seq<(Rule, int)>>((b, j2)) && j < j2
            <= s.len() && sep_end(s, j2) == j2) ==> crate::fields::sp_ip_list(s, i) == (
            seq![a, b],
            j2,
        ),
{
    match sp_ip(s, i) {
        Ok((av, jv)) => {
            if sep_end(s, jv) == jv {
                assert(crate::fields::sp_ip_list_more(s, jv) == (Seq::<IpAddr>::empty(), jv));
                assert(seq![av] + Seq::<IpAddr>::empty() =~= seq![av]);
            }
        },
        Err(_) => {},
    }
    if sp_ip(s, i) == Ok::<(IpAddr, int), Seq<(Rule, int)>>((a, j)) && sep_end(s, j) == m && m != j
        && sp_ip(s, m) == Ok::<(IpAddr, int), Seq<(Rule, int)>>((b, j2)) && j < j2 <= s.len()
        && sep_end(s, j2) == j2 {
        crate::scan::lemma_ip_char_end(s, i);
        crate::scan::lemma_sep_end(s, j);
        assert(crate::fields::sp_ip_list_more(s, j2) == (Seq::<IpAddr>::empty(), j2));
        assert(crate::fields::sp_ip_list_more(s, j).0 =~= seq![b]);
        assert(seq![a] + seq![b] =~= seq![a, b]);
        assert(crate::fields::sp_ip_list(s, i).0 =~= seq![a, b]);
    }
}

/// Law: the list recurrence behind the order: an address, a separator run
/// and a further list decode to the address followed by that list, so by
/// induction a list of any length keeps all its addresses in their
/// original order.
pub proof fn lemma_ip_list_cons(s: Seq<char>, i: int, a: IpAddr, j: int, m: int)
    requires
        0 <= i <= s.len(),
        sp_ip(s, i) == Ok::<(IpAddr, int), Seq<(Rule, int)>>((a, j)),
        sep_end(s, j) == m,
        m != j,
        sp_ip(s, m) is Ok,
    ensures
        crate::fields::sp_ip_list(s, i) == (
            seq![a] + crate::fields::sp_ip_list(s, m).0,
            crate::fields::sp_ip_list(s, m).1,
        ),
{
    crate::scan::lemma_ip_char_end(s, i);
    crate::scan::lemma_sep_end(s, j);
    crate::fields::lemma_sp_ip_advances(s, m);
}

/// Law: the request field never rejects a well-formed quoted token.  A
/// matching quoted triple yields `Valid` or `InvalidPath`; any other
/// quoted content, binary garbage included, yields `InvalidRequest` with
/// that content; an empty quoted token yields `InvalidRequest` with the
/// empty text.  The field fails only where the quoting itself does.
pub proof fn lemma_request_total_on_quoted(s: Seq<char>, i: int)
    requires
        0 <= i <= s.len(),
    ensures
        sp_quoted_dash_or_str(s, i) is Ok ==> sp_request(s, i) is Ok,
        (match sp_quoted_dash_or_str(s, i) {
            Ok(x) => sp_request_quoted_triple(s, i) is None ==> sp_request(s, i) == (match x.0 {
                Some(p) => Ok::<(RequestResultV, int), Seq<(Rule, int)>>(
                    (RequestResultV::InvalidRequest(p), x.1),
                ),
                None => Ok::<(RequestResultV, int), Seq<(Rule, int)>>(
                    (RequestResultV::InvalidRequest(""@), x.1),
                ),
            }),
            Err(_) => true,
        }),
        sp_request(s, i) is Err ==> sp_quoted_dash_or_str(s, i) is Err,
{
}

/// Law: the trailing telemetry fields may be missing from the line
/// altogether: where none of a field's key forms stands at the position,
/// the field decodes to absent and consumes nothing, so older lines
/// without it still succeed.
pub proof fn lemma_trailing_fields_optional(s: Seq<char>, i: int)
    requires
        0 <= i <= s.len(),
    ensures
        (!has_tag(s, i, "instance_id:-"@) && !has_tag(s, i, "instance_id:\"-\""@) && !has_tag(
            s,
            i,
            "instance_id: "@,
        ) && !has_tag(s, i, "instance_id:"@)) ==> sp_instance_id(s, i) == (None::<Seq<char>>, i),
        (!has_tag(s, i, "x_cf_routererror:-"@) && !has_tag(s, i, "x_cf_routererror:\"-\""@)
            && !has_tag(s, i, "x_cf_routererror: "@) && !has_tag(s, i, "x_cf_routererror:"@))
            ==> sp_x_cf_routererror(s, i) == (None::<Seq<char>>, i),
        (!has_tag(s, i, "x_b3_traceid:-"@) && !has_tag(s, i, "x_b3_traceid:\"-\""@) && !has_tag(
            s,
            i,
            "x_b3_traceid: "@,
        ) && !has_tag(s, i, "x_b3_traceid:"@)) ==> sp_x_b3_traceid(s, i) == (None::<Seq<char>>, i),
        (!has_tag(s, i, "x_b3_spanid:-"@) && !has_tag(s, i, "x_b3_spanid:\"-\""@) && !has_tag(
            s,
            i,
            "x_b3_spanid: "@,
        ) && !has_tag(s, i, "x_b3_spanid:"@)) ==> sp_x_b3_spanid(s, i) == (None::<Seq<char>>, i),
        (!has_tag(s, i, "x_b3_parentspanid:-"@) && !has_tag(s, i, "x_b3_parentspanid:\"-\""@)
            && !has_tag(s, i, "x_b3_parentspanid: "@) && !has_tag(s, i, "x_b3_parentspanid:"@))
            ==> sp_x_b3_parentspanid(s, i) == (None::<Seq<char>>, i),
{
}

} // verus!
