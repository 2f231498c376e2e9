use vstd::prelude::*;

use crate::scan::spec_is_ws;
use crate::trace::{rule_name, spec_rule_name, PErr, Rule};
use vstd::string::StrSliceExecFns;

verus! {

// Rendering a failure trace into the diagnostic text: one block per
// frame, outer rules last, each naming the rule, showing the line and
// pointing a caret at the position the rule was applied at.  The input is
// one line, so every block reports line 1.

/// The length of the line with trailing whitespace removed.
pub open spec fn trimmed_len(s: Seq<char>) -> int
    decreases s.len(),
{
    if s.len() > 0 && spec_is_ws(s.last()) {
        trimmed_len(s.drop_last())
    } else {
        s.len() as int
    }
}

fn trim_end_len(s: &str) -> (t: usize)
    ensures
        t == trimmed_len(s@),
        t <= s@.len(),
{
    let n: usize = s.unicode_len();
    let mut t: usize = n;
    proof {
        assert(s@.subrange(0, n as int) =~= s@);
    }
    while t > 0 && crate::scan::is_ws(s.get_char(t - 1))
        invariant
            0 <= t <= n,
            n == s@.len(),
            trimmed_len(s@) == trimmed_len(s@.subrange(0, t as int)),
        decreases t,
    {
        proof {
            let sub = s@.subrange(0, t as int);
            assert(sub.last() == s@[t - 1]);
            assert(sub.drop_last() =~= s@.subrange(0, t - 1));
        }
        t = t - 1;
    }
    proof {
        let sub = s@.subrange(0, t as int);
        if t == 0 {
            assert(sub =~= Seq::<char>::empty());
        } else {
            assert(sub.last() == s@[t - 1]);
        }
        assert(trimmed_len(sub) == t);
    }
    t
}

/// A run of `n` spaces.
pub open spec fn spaces(n: int) -> Seq<char> {
    Seq::new(if n >= 0 {
        n as nat
    } else {
        0
    }, |q: int| ' ')
}

fn push_spaces(v: &mut Vec<char>, n: usize)
    ensures
        final(v)@ == old(v)@ + spaces(n as int),
{
    let mut k: usize = 0;
    while k < n
        invariant
            0 <= k <= n,
            v@ == old(v)@ + spaces(k as int),
        decreases n - k,
    {
        proof {
            assert(spaces(k as int).push(' ') =~= spaces(k + 1 as int));
        }
        v.push(' ');
        k = k + 1;
    }
}

fn push_str_chars(v: &mut Vec<char>, s: &str)
    ensures
        final(v)@ == old(v)@ + s@,
{
    let n: usize = s.unicode_len();
    let mut k: usize = 0;
    while k < n
        invariant
            0 <= k <= n,
            n == s@.len(),
            v@ == old(v)@ + s@.subrange(0, k as int),
        decreases n - k,
    {
        proof {
            assert(s@.subrange(0, k as int).push(s@[k as int]) =~= s@.subrange(0, k + 1 as int));
        }
        v.push(s.get_char(k));
        k = k + 1;
    }
    proof {
        assert(s@.subrange(0, n as int) =~= s@);
    }
}

/// The decimal digits of `k`, most significant first.
pub open spec fn dec_digits(k: int) -> Seq<char>
    decreases k,
{
    if k < 10 {
        seq![digit_char(k)]
    } else {
        dec_digits(k / 10) + seq![digit_char(k % 10)]
    }
}

pub open spec fn digit_char(d: int) -> char {
    ((48 + if 0 <= d <= 9 {
        d
    } else {
        0
    }) as u8) as char
}

fn push_dec_digits(v: &mut Vec<char>, k: usize)
    ensures
        final(v)@ == old(v)@ + dec_digits(k as int),
    decreases k,
{
    if k < 10 {
        let c: char = ((48 + (k as u8)) as u8) as char;
        assert(c == digit_char(k as int));
        v.push(c);
        proof {
            assert(v@ =~= old(v)@ + dec_digits(k as int));
        }
    } else {
        push_dec_digits(v, k / 10);
        let d: usize = k % 10;
        let c: char = ((48 + (d as u8)) as u8) as char;
        assert(c == digit_char((k as int) % 10));
        v.push(c);
        proof {
            assert(v@ =~= old(v)@ + dec_digits(k as int));
        }
    }
}

/// The text one frame renders to.
pub open spec fn sp_frame_text(line: Seq<char>, k: int, rule: Rule, at: int) -> Seq<char> {
    if line.len() == 0 {
        match rule {
            Rule::Expected(c) => dec_digits(k) + ": expected '"@ + seq![c]
                + "', got empty input\n\n"@,
            _ => dec_digits(k) + ": in "@ + spec_rule_name(rule) + ", got empty input\n\n"@,
        }
    } else {
        let disp = line.subrange(0, trimmed_len(line));
        match rule {
            Rule::Expected(c) => if at < line.len() {
                dec_digits(k) + ": at line 1:\n"@ + disp + "\n"@ + spaces(at) + "^\n"@
                    + "expected '"@ + seq![c] + "', found "@ + seq![line[at]] + "\n\n"@
            } else {
                dec_digits(k) + ": at line 1:\n"@ + disp + "\n"@ + spaces(at) + "^\n"@
                    + "expected '"@ + seq![c] + "', got end of input"@ + "\n\n"@
            },
            _ => dec_digits(k) + ": at line 1, in "@ + spec_rule_name(rule) + ":\n"@ + disp + "\n"@
                + spaces(at) + "^\n\n"@,
        }
    }
}

/// The text of the first `k` frames.
pub open spec fn sp_trace_text_upto(line: Seq<char>, frames: Seq<(Rule, int)>, k: int) -> Seq<char>
    decreases k,
{
    if k <= 0 {
        Seq::<char>::empty()
    } else {
        sp_trace_text_upto(line, frames, k - 1) + sp_frame_text(
            line,
            k - 1,
            frames[k - 1].0,
            frames[k - 1].1,
        )
    }
}

/// The whole diagnostic text of a trace.
pub open spec fn sp_trace_text(line: Seq<char>, frames: Seq<(Rule, int)>) -> Seq<char> {
    sp_trace_text_upto(line, frames, frames.len() as int)
}

/// Relies on String's FromIterator impl for char: the collected string
/// holds exactly the given characters in order.
#[verifier::external_body]
fn chars_to_string(v: Vec<char>) -> (r: String)
    ensures
        r@ == v@,
{
    v.into_iter().collect()
}

fn push_char(v: &mut Vec<char>, c: char)
    ensures
        final(v)@ == old(v)@ + seq![c],
{
    let ghost pre = v@;
    v.push(c);
    proof {
        assert(v@ =~= pre + seq![c]);
    }
}

#[verifier::rlimit(40)]
fn frame_text(line: &str, disp_end: usize, k: usize, f: crate::trace::Frame) -> (r: Vec<char>)
    requires
        disp_end == trimmed_len(line@),
        disp_end <= line@.len(),
    ensures
        r@ == sp_frame_text(line@, k as int, f.rule, f.at as int),
{
    let n: usize = line.unicode_len();
    let mut v: Vec<char> = Vec::new();
    push_dec_digits(&mut v, k);
    proof {
        assert(v@ =~= dec_digits(k as int));
    }
    if n == 0 {
        match f.rule {
            Rule::Expected(c) => {
                push_str_chars(&mut v, ": expected '");
                push_char(&mut v, c);
                push_str_chars(&mut v, "', got empty input\n\n");
            },
            _ => {
                push_str_chars(&mut v, ": in ");
                push_str_chars(&mut v, rule_name(f.rule));
                push_str_chars(&mut v, ", got empty input\n\n");
            },
        }
    } else {
        match f.rule {
            Rule::Expected(c) => {
                push_str_chars(&mut v, ": at line 1:\n");
                push_str_chars(&mut v, line.substring_char(0, disp_end));
                push_str_chars(&mut v, "\n");
                push_spaces(&mut v, f.at);
                push_str_chars(&mut v, "^\n");
                push_str_chars(&mut v, "expected '");
                push_char(&mut v, c);
                if f.at < n {
                    push_str_chars(&mut v, "', found ");
                    push_char(&mut v, line.get_char(f.at));
                } else {
                    push_str_chars(&mut v, "', got end of input");
                }
                push_str_chars(&mut v, "\n\n");
            },
            _ => {
                push_str_chars(&mut v, ": at line 1, in ");
                push_str_chars(&mut v, rule_name(f.rule));
                push_str_chars(&mut v, ":\n");
                push_str_chars(&mut v, line.substring_char(0, disp_end));
                push_str_chars(&mut v, "\n");
                push_spaces(&mut v, f.at);
                push_str_chars(&mut v, "^\n\n");
            },
        }
    }
    v
}

/// The diagnostic text for a failed parse of `line`.
pub fn render_trace(line: &str, e: &PErr) -> (r: String)
    ensures
        r@ == sp_trace_text(line@, e@),
{
    let disp_end: usize = trim_end_len(line);
    let mut v: Vec<char> = Vec::new();
    let m: usize = e.frames.len();
    let mut k: usize = 0;
    proof {
        assert(e@.len() == m);
    }
    while k < m
        invariant
            0 <= k <= m,
            m == e@.len(),
            e@ == e.frames@.map_values(|f: crate::trace::Frame| f@),
            m == e.frames@.len(),
            disp_end == trimmed_len(line@),
            disp_end <= line@.len(),
            v@ == sp_trace_text_upto(line@, e@, k as int),
        decreases m - k,
    {
        let f: crate::trace::Frame = e.frames[k];
        assert(e@[k as int] == f@);
        let mut w: Vec<char> = frame_text(line, disp_end, k, f);
        v.append(&mut w);
        k = k + 1;
    }
    chars_to_string(v)
}

} // verus!
