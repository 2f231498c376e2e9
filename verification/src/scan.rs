use vstd::prelude::*;

verus! {

// Character classes used by the grammar, and small scanning helpers over a
// line of text.  Every scanner is specified against a recursive spec
// function over the line's view, so the token parsers can state exactly
// which slice of the line a token covers.

/// The Unicode `White_Space` code points, as `char::is_whitespace` lists them.
pub open spec fn spec_is_ws(c: char) -> bool {
    c == '\u{9}' || c == '\u{a}' || c == '\u{b}' || c == '\u{c}' || c == '\u{d}' || c == ' '
        || c == '\u{85}' || c == '\u{a0}' || c == '\u{1680}' || ('\u{2000}' <= c && c
        <= '\u{200a}') || c == '\u{2028}' || c == '\u{2029}' || c == '\u{202f}' || c == '\u{205f}'
        || c == '\u{3000}'
}

pub fn is_ws(c: char) -> (r: bool)
    ensures
        r == spec_is_ws(c),
{
    c == '\u{9}' || c == '\u{a}' || c == '\u{b}' || c == '\u{c}' || c == '\u{d}' || c == ' '
        || c == '\u{85}' || c == '\u{a0}' || c == '\u{1680}' || ('\u{2000}' <= c && c
        <= '\u{200a}') || c == '\u{2028}' || c == '\u{2029}' || c == '\u{202f}' || c == '\u{205f}'
        || c == '\u{3000}'
}

pub open spec fn spec_is_digit(c: char) -> bool {
    '0' <= c && c <= '9'
}

pub fn is_digit(c: char) -> (r: bool)
    ensures
        r == spec_is_digit(c),
{
    '0' <= c && c <= '9'
}

pub open spec fn spec_is_hex(c: char) -> bool {
    spec_is_digit(c) || ('a' <= c && c <= 'f') || ('A' <= c && c <= 'F')
}

pub fn is_hex(c: char) -> (r: bool)
    ensures
        r == spec_is_hex(c),
{
    is_digit(c) || ('a' <= c && c <= 'f') || ('A' <= c && c <= 'F')
}

/// Characters that may appear in the textual form of an IP address.
pub open spec fn spec_is_ip_char(c: char) -> bool {
    spec_is_hex(c) || c == '.' || c == ':'
}

pub fn is_ip_char(c: char) -> (r: bool)
    ensures
        r == spec_is_ip_char(c),
{
    is_hex(c) || c == '.' || c == ':'
}

/// Separators accepted between the addresses of an IP list.
pub open spec fn spec_is_sep(c: char) -> bool {
    c == ',' || c == ' '
}

pub fn is_sep(c: char) -> (r: bool)
    ensures
        r == spec_is_sep(c),
{
    c == ',' || c == ' '
}

/// End of the run of non-whitespace characters starting at `i`.
pub open spec fn non_ws_end(s: Seq<char>, i: int) -> int
    decreases s.len() - i,
{
    if i < s.len() && !spec_is_ws(s[i]) {
        non_ws_end(s, i + 1)
    } else {
        i
    }
}

pub proof fn lemma_non_ws_end(s: Seq<char>, i: int)
    requires
        0 <= i <= s.len(),
    ensures
        i <= non_ws_end(s, i) <= s.len(),
        forall|k: int| i <= k < non_ws_end(s, i) ==> !spec_is_ws(s[k]),
        non_ws_end(s, i) < s.len() ==> spec_is_ws(s[non_ws_end(s, i)]),
    decreases s.len() - i,
{
    if i < s.len() && !spec_is_ws(s[i]) {
        lemma_non_ws_end(s, i + 1);
    }
}

/// End of the run of whitespace characters starting at `i`.
pub open spec fn ws_end(s: Seq<char>, i: int) -> int
    decreases s.len() - i,
{
    if i < s.len() && spec_is_ws(s[i]) {
        ws_end(s, i + 1)
    } else {
        i
    }
}

pub proof fn lemma_ws_end(s: Seq<char>, i: int)
    requires
        0 <= i <= s.len(),
    ensures
        i <= ws_end(s, i) <= s.len(),
        forall|k: int| i <= k < ws_end(s, i) ==> spec_is_ws(s[k]),
        ws_end(s, i) < s.len() ==> !spec_is_ws(s[ws_end(s, i)]),
    decreases s.len() - i,
{
    if i < s.len() && spec_is_ws(s[i]) {
        lemma_ws_end(s, i + 1);
    }
}

/// End of the run of decimal digits starting at `i`.
pub open spec fn digit_end(s: Seq<char>, i: int) -> int
    decreases s.len() - i,
{
    if i < s.len() && spec_is_digit(s[i]) {
        digit_end(s, i + 1)
    } else {
        i
    }
}

pub proof fn lemma_digit_end(s: Seq<char>, i: int)
    requires
        0 <= i <= s.len(),
    ensures
        i <= digit_end(s, i) <= s.len(),
        forall|k: int| i <= k < digit_end(s, i) ==> spec_is_digit(s[k]),
        digit_end(s, i) < s.len() ==> !spec_is_digit(s[digit_end(s, i)]),
    decreases s.len() - i,
{
    if i < s.len() && spec_is_digit(s[i]) {
        lemma_digit_end(s, i + 1);
    }
}

/// End of the run of hexadecimal digits starting at `i`.
pub open spec fn hex_end(s: Seq<char>, i: int) -> int
    decreases s.len() - i,
{
    if i < s.len() && spec_is_hex(s[i]) {
        hex_end(s, i + 1)
    } else {
        i
    }
}

pub proof fn lemma_hex_end(s: Seq<char>, i: int)
    requires
        0 <= i <= s.len(),
    ensures
        i <= hex_end(s, i) <= s.len(),
        forall|k: int| i <= k < hex_end(s, i) ==> spec_is_hex(s[k]),
        hex_end(s, i) < s.len() ==> !spec_is_hex(s[hex_end(s, i)]),
    decreases s.len() - i,
{
    if i < s.len() && spec_is_hex(s[i]) {
        lemma_hex_end(s, i + 1);
    }
}

/// End of the run of IP-address characters starting at `i`.
pub open spec fn ip_char_end(s: Seq<char>, i: int) -> int
    decreases s.len() - i,
{
    if i < s.len() && spec_is_ip_char(s[i]) {
        ip_char_end(s, i + 1)
    } else {
        i
    }
}

pub proof fn lemma_ip_char_end(s: Seq<char>, i: int)
    requires
        0 <= i <= s.len(),
    ensures
        i <= ip_char_end(s, i) <= s.len(),
        forall|k: int| i <= k < ip_char_end(s, i) ==> spec_is_ip_char(s[k]),
        ip_char_end(s, i) < s.len() ==> !spec_is_ip_char(s[ip_char_end(s, i)]),
    decreases s.len() - i,
{
    if i < s.len() && spec_is_ip_char(s[i]) {
        lemma_ip_char_end(s, i + 1);
    }
}

/// End of the run of list separators starting at `i`.
pub open spec fn sep_end(s: Seq<char>, i: int) -> int
    decreases s.len() - i,
{
    if i < s.len() && spec_is_sep(s[i]) {
        sep_end(s, i + 1)
    } else {
        i
    }
}

pub proof fn lemma_sep_end(s: Seq<char>, i: int)
    requires
        0 <= i <= s.len(),
    ensures
        i <= sep_end(s, i) <= s.len(),
        forall|k: int| i <= k < sep_end(s, i) ==> spec_is_sep(s[k]),
        sep_end(s, i) < s.len() ==> !spec_is_sep(s[sep_end(s, i)]),
    decreases s.len() - i,
{
    if i < s.len() && spec_is_sep(s[i]) {
        lemma_sep_end(s, i + 1);
    }
}

pub fn scan_non_ws(s: &str, i: usize) -> (j: usize)
    requires
        i <= s@.len(),
    ensures
        j == non_ws_end(s@, i as int),
        i <= j <= s@.len(),
        forall|k: int| i <= k < j ==> !spec_is_ws(s@[k]),
        j < s@.len() ==> spec_is_ws(s@[j as int]),
{
    let n: usize = s.unicode_len();
    let mut j: usize = i;
    while j < n && !is_ws(s.get_char(j))
        invariant
            i <= j <= n,
            n == s@.len(),
            non_ws_end(s@, i as int) == non_ws_end(s@, j as int),
        decreases n - j,
    {
        j = j + 1;
    }
    proof {
        lemma_non_ws_end(s@, i as int);
    }
    j
}

pub fn scan_ws(s: &str, i: usize) -> (j: usize)
    requires
        i <= s@.len(),
    ensures
        j == ws_end(s@, i as int),
        i <= j <= s@.len(),
        forall|k: int| i <= k < j ==> spec_is_ws(s@[k]),
        j < s@.len() ==> !spec_is_ws(s@[j as int]),
{
    let n: usize = s.unicode_len();
    let mut j: usize = i;
    while j < n && is_ws(s.get_char(j))
        invariant
            i <= j <= n,
            n == s@.len(),
            ws_end(s@, i as int) == ws_end(s@, j as int),
        decreases n - j,
    {
        j = j + 1;
    }
    proof {
        lemma_ws_end(s@, i as int);
    }
    j
}

pub fn scan_digits(s: &str, i: usize) -> (j: usize)
    requires
        i <= s@.len(),
    ensures
        j == digit_end(s@, i as int),
        i <= j <= s@.len(),
        forall|k: int| i <= k < j ==> spec_is_digit(s@[k]),
        j < s@.len() ==> !spec_is_digit(s@[j as int]),
{
    let n: usize = s.unicode_len();
    let mut j: usize = i;
    while j < n && is_digit(s.get_char(j))
        invariant
            i <= j <= n,
            n == s@.len(),
            digit_end(s@, i as int) == digit_end(s@, j as int),
        decreases n - j,
    {
        j = j + 1;
    }
    proof {
        lemma_digit_end(s@, i as int);
    }
    j
}

pub fn scan_hex(s: &str, i: usize) -> (j: usize)
    requires
        i <= s@.len(),
    ensures
        j == hex_end(s@, i as int),
        i <= j <= s@.len(),
        forall|k: int| i <= k < j ==> spec_is_hex(s@[k]),
        j < s@.len() ==> !spec_is_hex(s@[j as int]),
{
    let n: usize = s.unicode_len();
    let mut j: usize = i;
    while j < n && is_hex(s.get_char(j))
        invariant
            i <= j <= n,
            n == s@.len(),
            hex_end(s@, i as int) == hex_end(s@, j as int),
        decreases n - j,
    {
        j = j + 1;
    }
    proof {
        lemma_hex_end(s@, i as int);
    }
    j
}

pub fn scan_ip_chars(s: &str, i: usize) -> (j: usize)
    requires
        i <= s@.len(),
    ensures
        j == ip_char_end(s@, i as int),
        i <= j <= s@.len(),
        forall|k: int| i <= k < j ==> spec_is_ip_char(s@[k]),
        j < s@.len() ==> !spec_is_ip_char(s@[j as int]),
{
    let n: usize = s.unicode_len();
    let mut j: usize = i;
    while j < n && is_ip_char(s.get_char(j))
        invariant
            i <= j <= n,
            n == s@.len(),
            ip_char_end(s@, i as int) == ip_char_end(s@, j as int),
        decreases n - j,
    {
        j = j + 1;
    }
    proof {
        lemma_ip_char_end(s@, i as int);
    }
    j
}

pub fn scan_seps(s: &str, i: usize) -> (j: usize)
    requires
        i <= s@.len(),
    ensures
        j == sep_end(s@, i as int),
        i <= j <= s@.len(),
        forall|k: int| i <= k < j ==> spec_is_sep(s@[k]),
        j < s@.len() ==> !spec_is_sep(s@[j as int]),
{
    let n: usize = s.unicode_len();
    let mut j: usize = i;
    while j < n && is_sep(s.get_char(j))
        invariant
            i <= j <= n,
            n == s@.len(),
            sep_end(s@, i as int) == sep_end(s@, j as int),
        decreases n - j,
    {
        j = j + 1;
    }
    proof {
        lemma_sep_end(s@, i as int);
    }
    j
}

/// First occurrence of `c` at or after `i`, if any.
pub open spec fn find_char(s: Seq<char>, i: int, c: char) -> Option<int>
    decreases s.len() - i,
{
    if i < s.len() {
        if s[i] == c {
            Some(i)
        } else {
            find_char(s, i + 1, c)
        }
    } else {
        None
    }
}

pub proof fn lemma_find_char(s: Seq<char>, i: int, c: char)
    requires
        0 <= i <= s.len(),
    ensures
        match find_char(s, i, c) {
            Some(j) => i <= j < s.len() && s[j] == c && (forall|k: int|
                i <= k < j ==> s[k] != c),
            None => forall|k: int| i <= k < s.len() ==> s[k] != c,
        },
    decreases s.len() - i,
{
    if i < s.len() && s[i] != c {
        lemma_find_char(s, i + 1, c);
    }
}

pub fn scan_find(s: &str, i: usize, c: char) -> (r: Option<usize>)
    requires
        i <= s@.len(),
    ensures
        match r {
            Some(j) => i <= j < s@.len() && find_char(s@, i as int, c) == Some(j as int) && s@[j
                as int] == c && (forall|k: int| i <= k < j ==> s@[k] != c),
            None => find_char(s@, i as int, c) is None && (forall|k: int|
                i <= k < s@.len() ==> s@[k] != c),
        },
{
    let n: usize = s.unicode_len();
    let mut j: usize = i;
    while j < n && s.get_char(j) != c
        invariant
            i <= j <= n,
            n == s@.len(),
            find_char(s@, i as int, c) == find_char(s@, j as int, c),
        decreases n - j,
    {
        j = j + 1;
    }
    proof {
        lemma_find_char(s@, i as int, c);
    }
    if j < n {
        Some(j)
    } else {
        None
    }
}

/// Whether the literal `t` occurs in `s` starting at position `i`.
pub open spec fn has_tag(s: Seq<char>, i: int, t: Seq<char>) -> bool {
    0 <= i && i + t.len() <= s.len() && s.subrange(i, i + t.len()) == t
}

pub fn tag_at(s: &str, i: usize, t: &str) -> (r: bool)
    requires
        i <= s@.len(),
    ensures
        r == has_tag(s@, i as int, t@),
{
    let n: usize = s.unicode_len();
    let m: usize = t.unicode_len();
    if m > n - i {
        assert(!has_tag(s@, i as int, t@));
        return false;
    }
    let mut k: usize = 0;
    while k < m
        invariant
            0 <= k <= m,
            i + m <= n,
            n == s@.len(),
            m == t@.len(),
            forall|q: int| 0 <= q < k ==> s@[i + q] == t@[q],
        decreases m - k,
    {
        if s.get_char(i + k) != t.get_char(k) {
            assert(s@.subrange(i as int, i + m) != t@) by {
                assert(s@.subrange(i as int, i + m)[k as int] != t@[k as int]);
            }
            return false;
        }
        k = k + 1;
    }
    assert(s@.subrange(i as int, i + m) =~= t@);
    true
}

/// ASCII letters folded to lower case; all else unchanged.
pub open spec fn spec_ascii_lower(c: char) -> char {
    if 'A' <= c && c <= 'Z' {
        ((c as u8) + 32) as char
    } else {
        c
    }
}

pub fn ascii_lower(c: char) -> (r: char)
    ensures
        r == spec_ascii_lower(c),
{
    if 'A' <= c && c <= 'Z' {
        ((c as u8) + 32) as char
    } else {
        c
    }
}

/// Whether the text at `i` matches `t` up to ASCII case; `t` is given in
/// lower case.
pub open spec fn has_ci_tag(s: Seq<char>, i: int, t: Seq<char>) -> bool {
    0 <= i && i + t.len() <= s.len() && (forall|k: int|
        0 <= k < t.len() ==> spec_ascii_lower(s[i + k]) == t[k])
}

pub fn ci_tag_at(s: &str, i: usize, t: &str) -> (r: bool)
    requires
        i <= s@.len(),
    ensures
        r == has_ci_tag(s@, i as int, t@),
{
    let n: usize = s.unicode_len();
    let m: usize = t.unicode_len();
    if m > n - i {
        return false;
    }
    let mut k: usize = 0;
    while k < m
        invariant
            0 <= k <= m,
            i + m <= n,
            n == s@.len(),
            m == t@.len(),
            forall|q: int| 0 <= q < k ==> spec_ascii_lower(s@[i + q]) == t@[q],
        decreases m - k,
    {
        if ascii_lower(s.get_char(i + k)) != t.get_char(k) {
            return false;
        }
        k = k + 1;
    }
    true
}

/// The text with its ASCII letters folded to lower case.
pub open spec fn lower_seq(s: Seq<char>) -> Seq<char> {
    s.map_values(|c: char| spec_ascii_lower(c))
}

/// Whether `a`, folded to ASCII lower case, equals the lower-case text `b`.
pub fn eq_lower(a: &str, b: &str) -> (r: bool)
    ensures
        r == (lower_seq(a@) == b@),
{
    let la: usize = a.unicode_len();
    let lb: usize = b.unicode_len();
    if la != lb {
        return false;
    }
    let mut k: usize = 0;
    while k < la
        invariant
            0 <= k <= la,
            la == a@.len(),
            la == b@.len(),
            forall|q: int| 0 <= q < k ==> spec_ascii_lower(a@[q]) == b@[q],
        decreases la - k,
    {
        if ascii_lower(a.get_char(k)) != b.get_char(k) {
            assert(lower_seq(a@)[k as int] != b@[k as int]);
            return false;
        }
        k = k + 1;
    }
    assert(lower_seq(a@) =~= b@);
    true
}

/// Equality of two texts' character sequences.
pub fn str_eq(a: &str, b: &str) -> (r: bool)
    ensures
        r == (a@ == b@),
{
    let la: usize = a.unicode_len();
    let lb: usize = b.unicode_len();
    if la != lb {
        return false;
    }
    let mut k: usize = 0;
    while k < la
        invariant
            0 <= k <= la,
            la == a@.len(),
            la == b@.len(),
            forall|q: int| 0 <= q < k ==> a@[q] == b@[q],
        decreases la - k,
    {
        if a.get_char(k) != b.get_char(k) {
            return false;
        }
        k = k + 1;
    }
    assert(a@ =~= b@);
    true
}

/// Value of a run of decimal digits, most significant first.
pub open spec fn dec_val(t: Seq<char>) -> nat
    decreases t.len(),
{
    if t.len() == 0 {
        0
    } else {
        dec_val(t.drop_last()) * 10 + ((t.last() as int - '0' as int) as nat)
    }
}

pub proof fn lemma_dec_val_prefix_le(t: Seq<char>, k: int)
    requires
        0 <= k <= t.len(),
        forall|q: int| 0 <= q < t.len() ==> spec_is_digit(t[q]),
    ensures
        dec_val(t.subrange(0, k)) <= dec_val(t),
    decreases t.len() - k,
{
    if k < t.len() {
        lemma_dec_val_prefix_le(t, k + 1);
        let p = t.subrange(0, k + 1);
        assert(p.drop_last() =~= t.subrange(0, k));
        assert(dec_val(t.subrange(0, k)) <= dec_val(p));
    } else {
        assert(t.subrange(0, k) =~= t);
    }
}

/// Parse the digits of `s` in `[i, j)` as a `u64`; `None` on an empty run or
/// on a value that does not fit, as `str::parse::<u64>` fails there.
pub fn parse_u64_digits(s: &str, i: usize, j: usize) -> (r: Option<u64>)
    requires
        i <= j <= s@.len(),
        forall|k: int| i <= k < j ==> spec_is_digit(s@[k]),
    ensures
        match r {
            Some(v) => i < j && dec_val(s@.subrange(i as int, j as int)) == v,
            None => i == j || dec_val(s@.subrange(i as int, j as int)) > u64::MAX,
        },
{
    if i == j {
        assert(s@.subrange(i as int, j as int) =~= Seq::<char>::empty());
        return None;
    }
    let ghost t = s@.subrange(i as int, j as int);
    let mut acc: u64 = 0;
    let mut k: usize = i;
    while k < j
        invariant
            i <= k <= j <= s@.len(),
            forall|q: int| i <= q < j ==> spec_is_digit(s@[q]),
            t == s@.subrange(i as int, j as int),
            acc == dec_val(t.subrange(0, k - i)),
        decreases j - k,
    {
        let c: char = s.get_char(k);
        assert(spec_is_digit(s@[k as int]));
        let d: u64 = (c as u32 as u64) - 48;
        assert(d <= 9);
        if acc > (u64::MAX - d) / 10 {
            proof {
                let pre = t.subrange(0, k + 1 - i);
                assert(pre.drop_last() =~= t.subrange(0, k - i));
                assert(pre.last() == t[k - i] && t[k - i] == s@[k as int]);
                assert(dec_val(pre) == acc * 10 + d);
                assert(dec_val(pre) > u64::MAX);
                lemma_dec_val_prefix_le(t, k + 1 - i);
            }
            return None;
        }
        acc = acc * 10 + d;
        proof {
            let pre = t.subrange(0, k + 1 - i);
            assert(pre.drop_last() =~= t.subrange(0, k - i));
            assert(pre.last() == t[k - i] && t[k - i] == s@[k as int]);
        }
        k = k + 1;
    }
    assert(t.subrange(0, j - i) =~= t);
    Some(acc)
}

} // verus!
