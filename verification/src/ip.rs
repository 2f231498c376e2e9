use vstd::prelude::*;

use crate::scan::{
    dec_val, digit_end, hex_end, parse_u64_digits, scan_digits, scan_hex, spec_is_digit,
    spec_is_hex,
};
use crate::types::IpAddr;

verus! {

// Textual IP addresses.  The grammar is the one the standard library
// documents for `IpAddr`: dotted-decimal v4 with no leading zeros and
// octets up to 255, and RFC 4291 section 2.2 v6 text with hex groups of up
// to four digits, at most one `::` standing for one or more zero groups,
// and an optional embedded v4 part as the last two groups.  A v4 reading of
// the text wins over a v6 reading.

pub open spec fn hex_digit_val(c: char) -> nat {
    if spec_is_digit(c) {
        (c as int - '0' as int) as nat
    } else if 'a' <= c && c <= 'f' {
        (c as int - 'a' as int + 10) as nat
    } else if 'A' <= c && c <= 'F' {
        (c as int - 'A' as int + 10) as nat
    } else {
        0
    }
}

/// Value of a run of hex digits, most significant first.
pub open spec fn hex_val(t: Seq<char>) -> nat
    decreases t.len(),
{
    if t.len() == 0 {
        0
    } else {
        hex_val(t.drop_last()) * 16 + hex_digit_val(t.last())
    }
}

pub proof fn lemma_hex_val_bound(t: Seq<char>)
    ensures
        t.len() == 0 ==> hex_val(t) < 1,
        t.len() <= 1 ==> hex_val(t) < 0x10,
        t.len() <= 2 ==> hex_val(t) < 0x100,
        t.len() <= 3 ==> hex_val(t) < 0x1000,
        t.len() <= 4 ==> hex_val(t) < 0x10000,
    decreases t.len(),
{
    if t.len() > 0 {
        lemma_hex_val_bound(t.drop_last());
    }
}

/// A decimal octet at position `i`: one to three digits, no leading zero
/// unless the octet is exactly `0`, value at most 255.
pub open spec fn sp_octet_at(t: Seq<char>, i: int) -> Option<(u8, int)> {
    let e = digit_end(t, i);
    if i < e && e <= i + 3 && !(e - i > 1 && t[i] == '0') && dec_val(t.subrange(i, e)) <= 255 {
        Some((dec_val(t.subrange(i, e)) as u8, e))
    } else {
        None
    }
}

pub fn read_octet(t: &str, i: usize) -> (r: Option<(u8, usize)>)
    requires
        i <= t@.len(),
    ensures
        match r {
            Some((v, j)) => sp_octet_at(t@, i as int) == Some((v, j as int)) && i < j <= t@.len(),
            None => sp_octet_at(t@, i as int) is None,
        },
{
    let e: usize = scan_digits(t, i);
    if e == i || e - i > 3 {
        return None;
    }
    if e - i > 1 && t.get_char(i) == '0' {
        return None;
    }
    match parse_u64_digits(t, i, e) {
        Some(v) => if v <= 255 {
            Some((v as u8, e))
        } else {
            None
        },
        None => None,
    }
}

pub proof fn lemma_octet_at(t: Seq<char>, i: int)
    requires
        0 <= i <= t.len(),
    ensures
        match sp_octet_at(t, i) {
            Some((v, j)) => i < j <= t.len(),
            None => true,
        },
{
    crate::scan::lemma_digit_end(t, i);
}

/// A dotted-decimal v4 address starting at `i`, not necessarily reaching
/// the end of the text.
pub open spec fn sp_ipv4_at(t: Seq<char>, i: int) -> Option<((u8, u8, u8, u8), int)> {
    match sp_octet_at(t, i) {
        None => None,
        Some((a, p1)) => if p1 < t.len() && t[p1] == '.' {
            match sp_octet_at(t, p1 + 1) {
                None => None,
                Some((b, p2)) => if p2 < t.len() && t[p2] == '.' {
                    match sp_octet_at(t, p2 + 1) {
                        None => None,
                        Some((c, p3)) => if p3 < t.len() && t[p3] == '.' {
                            match sp_octet_at(t, p3 + 1) {
                                None => None,
                                Some((d, p4)) => Some(((a, b, c, d), p4)),
                            }
                        } else {
                            None
                        },
                    }
                } else {
                    None
                },
            }
        } else {
            None
        },
    }
}

pub fn ipv4_at(t: &str, i: usize) -> (r: Option<(u8, u8, u8, u8, usize)>)
    requires
        i <= t@.len(),
    ensures
        match r {
            Some((a, b, c, d, j)) => sp_ipv4_at(t@, i as int) == Some(((a, b, c, d), j as int)) && i
                < j <= t@.len(),
            None => sp_ipv4_at(t@, i as int) is None,
        },
{
    let n: usize = t.unicode_len();
    let (a, p1) = match read_octet(t, i) {
        Some(x) => x,
        None => {
            return None;
        },
    };
    if !(p1 < n && t.get_char(p1) == '.') {
        return None;
    }
    let (b, p2) = match read_octet(t, p1 + 1) {
        Some(x) => x,
        None => {
            return None;
        },
    };
    if !(p2 < n && t.get_char(p2) == '.') {
        return None;
    }
    let (c, p3) = match read_octet(t, p2 + 1) {
        Some(x) => x,
        None => {
            return None;
        },
    };
    if !(p3 < n && t.get_char(p3) == '.') {
        return None;
    }
    let (d, p4) = match read_octet(t, p3 + 1) {
        Some(x) => x,
        None => {
            return None;
        },
    };
    Some((a, b, c, d, p4))
}

pub proof fn lemma_ipv4_at(t: Seq<char>, i: int)
    requires
        0 <= i <= t.len(),
    ensures
        match sp_ipv4_at(t, i) {
            Some((v, j)) => i < j <= t.len(),
            None => true,
        },
{
    lemma_octet_at(t, i);
    if let Some((a, p1)) = sp_octet_at(t, i) {
        if p1 < t.len() && t[p1] == '.' {
            lemma_octet_at(t, p1 + 1);
            if let Some((b, p2)) = sp_octet_at(t, p1 + 1) {
                if p2 < t.len() && t[p2] == '.' {
                    lemma_octet_at(t, p2 + 1);
                    if let Some((c, p3)) = sp_octet_at(t, p2 + 1) {
                        if p3 < t.len() && t[p3] == '.' {
                            lemma_octet_at(t, p3 + 1);
                        }
                    }
                }
            }
        }
    }
}

/// A v4 address that covers the whole text.
pub open spec fn spec_ipv4(t: Seq<char>) -> Option<(u8, u8, u8, u8)> {
    match sp_ipv4_at(t, 0) {
        Some((v, j)) => if j == t.len() {
            Some(v)
        } else {
            None
        },
        None => None,
    }
}

/// A hex group at position `i`: one to four hex digits.
pub open spec fn sp_hex_group_at(t: Seq<char>, i: int) -> Option<(u16, int)> {
    let e = hex_end(t, i);
    if i < e && e <= i + 4 {
        Some(((hex_val(t.subrange(i, e)) as u16), e))
    } else {
        None
    }
}

pub fn hex_group_at(t: &str, i: usize) -> (r: Option<(u16, usize)>)
    requires
        i <= t@.len(),
    ensures
        match r {
            Some((g, j)) => sp_hex_group_at(t@, i as int) == Some((g, j as int)) && i < j
                <= t@.len(),
            None => sp_hex_group_at(t@, i as int) is None,
        },
{
    let e: usize = scan_hex(t, i);
    if e == i || e - i > 4 {
        return None;
    }
    let mut acc: u16 = 0;
    let mut k: usize = i;
    while k < e
        invariant
            i <= k <= e <= t@.len(),
            e - i <= 4,
            e == hex_end(t@, i as int),
            forall|q: int| i <= q < e ==> spec_is_hex(t@[q]),
            acc == hex_val(t@.subrange(i as int, k as int)),
        decreases e - k,
    {
        let c: char = t.get_char(k);
        assert(spec_is_hex(t@[k as int]));
        let u: u32 = c as u32;
        let d: u16 = if u >= 97 {
            (u - 87) as u16
        } else if u >= 65 {
            (u - 55) as u16
        } else {
            (u - 48) as u16
        };
        assert(d == hex_digit_val(c) && d <= 15);
        proof {
            lemma_hex_val_bound(t@.subrange(i as int, k as int));
            let pre = t@.subrange(i as int, k + 1);
            assert(pre.drop_last() =~= t@.subrange(i as int, k as int));
            assert(pre.last() == t@[k as int]);
        }
        acc = acc * 16 + d;
        k = k + 1;
    }
    proof {
        lemma_hex_val_bound(t@.subrange(i as int, e as int));
    }
    Some((acc, e))
}

/// Read up to `limit` colon-separated groups starting at `i`; a trailing
/// embedded v4 address fills two groups and ends the run.  Returns the
/// groups, the position after them, and whether a v4 part was read.
/// The group two embedded v4 octets make.
pub open spec fn v4_group(x: u8, y: u8) -> u16 {
    (x * 256 + y) as u16
}

pub open spec fn sp_read_groups(t: Seq<char>, i: int, limit: nat, first: bool) -> (Seq<u16>, int, bool)
    decreases limit,
{
    if limit == 0 {
        (Seq::<u16>::empty(), i, false)
    } else if !first && !(i < t.len() && t[i] == ':') {
        (Seq::<u16>::empty(), i, false)
    } else {
        let ep = if first {
            i
        } else {
            i + 1
        };
        let v4 = if limit >= 2 {
            sp_ipv4_at(t, ep)
        } else {
            None
        };
        match v4 {
            Some(((a, b, c, d), j)) => (
                seq![v4_group(a, b), v4_group(c, d)],
                j,
                true,
            ),
            None => match sp_hex_group_at(t, ep) {
                Some((g, j)) => {
                    let (rest, pos, fl) = sp_read_groups(t, j, (limit - 1) as nat, false);
                    (seq![g] + rest, pos, fl)
                },
                None => (Seq::<u16>::empty(), i, false),
            },
        }
    }
}

pub proof fn lemma_read_groups_len(t: Seq<char>, i: int, limit: nat, first: bool)
    requires
        0 <= i <= t.len(),
    ensures
        ({
            let (gs, pos, fl) = sp_read_groups(t, i, limit, first);
            gs.len() <= limit && i <= pos <= t.len()
        }),
    decreases limit,
{
    if limit == 0 {
    } else if !first && !(i < t.len() && t[i] == ':') {
    } else {
        let ep = if first {
            i
        } else {
            i + 1
        };
        let v4 = if limit >= 2 {
            sp_ipv4_at(t, ep)
        } else {
            None
        };
        match v4 {
            Some(_) => {
                lemma_ipv4_at(t, ep);
            },
            None => match sp_hex_group_at(t, ep) {
                Some((g, j)) => {
                    crate::scan::lemma_hex_end(t, ep);
                    lemma_read_groups_len(t, j, (limit - 1) as nat, false);
                },
                None => {},
            },
        }
    }
}

pub fn read_groups(t: &str, i: usize, limit: u8, first: bool) -> (r: (Vec<u16>, usize, bool))
    requires
        i <= t@.len(),
    ensures
        ({
            let (gs, pos, fl) = sp_read_groups(t@, i as int, limit as nat, first);
            r.0@ == gs && r.1 == pos && r.2 == fl && i <= r.1 <= t@.len() && r.0@.len() <= limit
        }),
    decreases limit,
{
    proof {
        lemma_read_groups_len(t@, i as int, limit as nat, first);
    }
    if limit == 0 {
        return (Vec::new(), i, false);
    }
    let n: usize = t.unicode_len();
    let ep: usize;
    if first {
        ep = i;
    } else {
        if i < n && t.get_char(i) == ':' {
            ep = i + 1;
        } else {
            return (Vec::new(), i, false);
        }
    }
    if limit >= 2 {
        match ipv4_at(t, ep) {
            Some((a, b, c, d, j)) => {
                let mut v: Vec<u16> = Vec::new();
                v.push((a as u16) * 256 + (b as u16));
                v.push((c as u16) * 256 + (d as u16));
                proof {
                    assert(v@ =~= seq![v4_group(a, b), v4_group(c, d)]);
                }
                return (v, j, true);
            },
            None => {},
        }
    }
    match hex_group_at(t, ep) {
        Some((g, j)) => {
            let (rest, pos, fl) = read_groups(t, j, limit - 1, false);
            let mut v: Vec<u16> = Vec::new();
            v.push(g);
            let mut k: usize = 0;
            while k < rest.len()
                invariant
                    0 <= k <= rest.len(),
                    v@ =~= seq![g] + rest@.subrange(0, k as int),
                decreases rest.len() - k,
            {
                v.push(rest[k]);
                k = k + 1;
            }
            proof {
                assert(rest@.subrange(0, rest@.len() as int) =~= rest@);
                assert(v@ =~= seq![g] + rest@);
            }
            (v, pos, fl)
        },
        None => (Vec::new(), i, false),
    }
}

/// Group `k` of the eight, with the `::` gap between head and tail filled
/// with zeros.
pub open spec fn sp_gap_group(head: Seq<u16>, tail: Seq<u16>, k: int) -> u16 {
    if k < head.len() {
        head[k]
    } else if k + tail.len() >= 8 {
        tail[k + tail.len() - 8]
    } else {
        0
    }
}

/// A v6 address covering the whole text.
pub open spec fn spec_ipv6(t: Seq<char>) -> Option<(u16, u16, u16, u16, u16, u16, u16, u16)> {
    let (head, pos, head_v4) = sp_read_groups(t, 0, 8, true);
    if head.len() == 8 {
        if pos == t.len() {
            Some((head[0], head[1], head[2], head[3], head[4], head[5], head[6], head[7]))
        } else {
            None
        }
    } else if head_v4 {
        None
    } else if pos + 2 <= t.len() && t[pos] == ':' && t[pos + 1] == ':' {
        let (tail, pos2, _tail_v4) = sp_read_groups(t, pos + 2, (7 - head.len()) as nat, true);
        if pos2 == t.len() {
            Some(
                (
                    sp_gap_group(head, tail, 0),
                    sp_gap_group(head, tail, 1),
                    sp_gap_group(head, tail, 2),
                    sp_gap_group(head, tail, 3),
                    sp_gap_group(head, tail, 4),
                    sp_gap_group(head, tail, 5),
                    sp_gap_group(head, tail, 6),
                    sp_gap_group(head, tail, 7),
                ),
            )
        } else {
            None
        }
    } else {
        None
    }
}

pub fn parse_ipv6(t: &str) -> (r: Option<(u16, u16, u16, u16, u16, u16, u16, u16)>)
    ensures
        r == spec_ipv6(t@),
{
    let n: usize = t.unicode_len();
    let (head, pos, head_v4) = read_groups(t, 0, 8, true);
    if head.len() == 8 {
        if pos == n {
            return Some((head[0], head[1], head[2], head[3], head[4], head[5], head[6], head[7]));
        } else {
            return None;
        }
    }
    if head_v4 {
        return None;
    }
    if pos < n && t.get_char(pos) == ':' && pos + 1 < n && t.get_char(pos + 1) == ':' {
        let hl: usize = head.len();
        let (tail, pos2, _tail_v4) = read_groups(t, pos + 2, (7 - hl) as u8, true);
        if pos2 == n {
            let tl: usize = tail.len();
            let mut out: Vec<u16> = Vec::new();
            let mut k: usize = 0;
            while k < 8
                invariant
                    0 <= k <= 8,
                    out@.len() == k,
                    hl == head@.len() <= 7,
                    tl == tail@.len() <= 7,
                    forall|q: int| 0 <= q < k ==> out@[q] == sp_gap_group(head@, tail@, q),
                decreases 8 - k,
            {
                let g: u16 = if k < hl {
                    head[k]
                } else if k + tl >= 8 {
                    tail[k + tl - 8]
                } else {
                    0
                };
                out.push(g);
                k = k + 1;
            }
            return Some((out[0], out[1], out[2], out[3], out[4], out[5], out[6], out[7]));
        } else {
            return None;
        }
    }
    None
}

/// An address in either family; the v4 reading wins where both could apply.
pub open spec fn spec_parse_ip(t: Seq<char>) -> Option<IpAddr> {
    match spec_ipv4(t) {
        Some((a, b, c, d)) => Some(IpAddr::V4(a, b, c, d)),
        None => match spec_ipv6(t) {
            Some((g0, g1, g2, g3, g4, g5, g6, g7)) => Some(
                IpAddr::V6(g0, g1, g2, g3, g4, g5, g6, g7),
            ),
            None => None,
        },
    }
}

pub fn parse_ip_text(t: &str) -> (r: Option<IpAddr>)
    ensures
        r == spec_parse_ip(t@),
{
    let n: usize = t.unicode_len();
    match ipv4_at(t, 0) {
        Some((a, b, c, d, j)) => {
            if j == n {
                return Some(IpAddr::V4(a, b, c, d));
            }
        },
        None => {},
    }
    match parse_ipv6(t) {
        Some((g0, g1, g2, g3, g4, g5, g6, g7)) => Some(IpAddr::V6(g0, g1, g2, g3, g4, g5, g6, g7)),
        None => None,
    }
}

} // verus!
