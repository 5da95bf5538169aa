//! Escaping of text for embedding inside a level-two long-bracket string
//! literal.
//!
//! Inlined file content is wrapped as `[==[ ... ]==]`. Any occurrence of the
//! opening or closing delimiter inside the content could terminate the
//! literal early, so each one is replaced by an escaped form (`\[==\[` and
//! `\]==\]`); every other byte is kept unchanged.

use vstd::prelude::*;

verus! {

/// The bytes of `[==[`, the sequence that opens the long-bracket literal.
pub open spec fn open_delim() -> Seq<u8> {
    seq![91u8, 61u8, 61u8, 91u8]
}

/// The bytes of `]==]`, the sequence that closes the long-bracket literal.
pub open spec fn close_delim() -> Seq<u8> {
    seq![93u8, 61u8, 61u8, 93u8]
}

/// The bytes of `\[==\[`, the escaped form of the opening delimiter.
pub open spec fn esc_open() -> Seq<u8> {
    seq![92u8, 91u8, 61u8, 61u8, 92u8, 91u8]
}

/// The bytes of `\]==\]`, the escaped form of the closing delimiter.
pub open spec fn esc_close() -> Seq<u8> {
    seq![92u8, 93u8, 61u8, 61u8, 92u8, 93u8]
}

/// `p` occurs in `s` starting at index `i`.
pub open spec fn has_seq_at(s: Seq<u8>, p: Seq<u8>, i: int) -> bool {
    0 <= i && i + p.len() <= s.len() && s.subrange(i, i + p.len() as int) == p
}

/// `p` occurs somewhere in `s`.
pub open spec fn contains_seq(s: Seq<u8>, p: Seq<u8>) -> bool {
    exists|i: int| has_seq_at(s, p, i)
}

/// The escaping transform: a left-to-right scan that replaces each delimiter
/// occurrence by its escaped form and copies every other byte unchanged.
pub open spec fn escape_bytes(s: Seq<u8>) -> Seq<u8>
    decreases s.len(),
{
    if s.len() == 0 {
        Seq::empty()
    } else if s.len() >= 4 && s.subrange(0, 4) == open_delim() {
        esc_open() + escape_bytes(s.skip(4))
    } else if s.len() >= 4 && s.subrange(0, 4) == close_delim() {
        esc_close() + escape_bytes(s.skip(4))
    } else {
        seq![s[0]] + escape_bytes(s.skip(1))
    }
}

/// The decoding transform: replaces each escaped form back by the delimiter
/// it stands for.
pub open spec fn unescape_bytes(s: Seq<u8>) -> Seq<u8>
    decreases s.len(),
{
    if s.len() == 0 {
        Seq::empty()
    } else if s.len() >= 6 && s.subrange(0, 6) == esc_open() {
        open_delim() + unescape_bytes(s.skip(6))
    } else if s.len() >= 6 && s.subrange(0, 6) == esc_close() {
        close_delim() + unescape_bytes(s.skip(6))
    } else {
        seq![s[0]] + unescape_bytes(s.skip(1))
    }
}

/// The full inline literal built from raw file content: the escaped content
/// wrapped in the long-bracket delimiters.
pub open spec fn inline_literal(content: Seq<u8>) -> Seq<u8> {
    open_delim() + escape_bytes(content) + close_delim()
}

/// A sequence with no occurrence of `p` anywhere keeps that property when a
/// prefix is dropped.
proof fn lemma_no_occurrence_skip(s: Seq<u8>, p: Seq<u8>, n: int)
    requires
        !contains_seq(s, p),
        0 <= n <= s.len(),
    ensures
        !contains_seq(s.skip(n), p),
{
    assert forall|i: int| !has_seq_at(s.skip(n), p, i) by {
        if has_seq_at(s.skip(n), p, i) {
            assert(s.subrange(i + n, i + n + p.len() as int) =~= s.skip(n).subrange(
                i,
                i + p.len() as int,
            ));
            assert(has_seq_at(s, p, i + n));
        }
    };
}

/// Escaping changes nothing in content that holds no delimiter occurrence.
pub proof fn lemma_escape_noop(s: Seq<u8>)
    requires
        !contains_seq(s, open_delim()),
        !contains_seq(s, close_delim()),
    ensures
        escape_bytes(s) == s,
    decreases s.len(),
{
    if s.len() == 0 {
        assert(escape_bytes(s) =~= s);
    } else {
        if s.len() >= 4 && s.subrange(0, 4) == open_delim() {
            assert(has_seq_at(s, open_delim(), 0));
            assert(false);
        }
        if s.len() >= 4 && s.subrange(0, 4) == close_delim() {
            assert(has_seq_at(s, close_delim(), 0));
            assert(false);
        }
        lemma_no_occurrence_skip(s, open_delim(), 1);
        lemma_no_occurrence_skip(s, close_delim(), 1);
        lemma_escape_noop(s.skip(1));
        assert(seq![s[0]] + s.skip(1) =~= s);
    }
}

/// When the escaped form of `t` starts with the five bytes `b = = \ b` (the
/// escaped delimiter with its leading backslash cut off), `t` itself starts
/// with those five bytes.
proof fn lemma_escape_prefix(t: Seq<u8>, b: u8)
    requires
        b == 91 || b == 93,
        escape_bytes(t).len() >= 5,
        escape_bytes(t)[0] == b,
        escape_bytes(t)[1] == 61,
        escape_bytes(t)[2] == 61,
        escape_bytes(t)[3] == 92,
        escape_bytes(t)[4] == b,
    ensures
        t.len() >= 5,
        t[0] == b && t[1] == 61 && t[2] == 61 && t[3] == 92 && t[4] == b,
{
    // escape_bytes(t) starts with `b`, not a backslash, so the head of `t`
    // was copied unchanged: the delimiter branches both emit 92 first.
    assert(t.len() > 0);
    assert(t[0] == b);
    let t1 = t.skip(1);
    assert(escape_bytes(t1).len() >= 4);
    assert(escape_bytes(t1)[0] == 61 && escape_bytes(t1)[1] == 61 && escape_bytes(t1)[2] == 92
        && escape_bytes(t1)[3] == b);
    // 61 is not a backslash either: two more bytes copied unchanged.
    assert(t1[0] == 61);
    let t2 = t.skip(2);
    assert(t1.skip(1) =~= t2);
    assert(escape_bytes(t2).len() >= 3);
    assert(escape_bytes(t2)[0] == 61 && escape_bytes(t2)[1] == 92 && escape_bytes(t2)[2] == b);
    assert(t2[0] == 61);
    let t3 = t.skip(3);
    assert(t2.skip(1) =~= t3);
    assert(escape_bytes(t3).len() >= 2);
    assert(escape_bytes(t3)[0] == 92 && escape_bytes(t3)[1] == b);
    // escape_bytes(t3) starts `92 b`: either a delimiter at t3 was escaped,
    // or t3 itself starts `92 b`. An escaped delimiter here would mean the
    // same delimiter already stood at the head of `t`, against the branch
    // `t` took above.
    if t3.len() >= 4 && t3.subrange(0, 4) == open_delim() {
        assert(t[3] == 91 && t[4] == 61 && t[5] == 61 && t[6] == 91);
        assert(b == 91) by {
            assert(escape_bytes(t3) == esc_open() + escape_bytes(t3.skip(4)));
        }
        assert(t.subrange(0, 4) =~= open_delim());
        assert(false);
    } else if t3.len() >= 4 && t3.subrange(0, 4) == close_delim() {
        assert(t[3] == 93 && t[4] == 61 && t[5] == 61 && t[6] == 93);
        assert(b == 93) by {
            assert(escape_bytes(t3) == esc_close() + escape_bytes(t3.skip(4)));
        }
        assert(t.subrange(0, 4) =~= close_delim());
        assert(false);
    } else {
        assert(t3[0] == 92);
        let t4 = t.skip(4);
        assert(t3.skip(1) =~= t4);
        assert(escape_bytes(t4).len() >= 1);
        assert(escape_bytes(t4)[0] == b);
        assert(t4[0] == b);
    }
}

/// Decoding inverts escaping, for any content that does not already hold an
/// escaped delimiter form.
pub proof fn lemma_escape_round_trip(s: Seq<u8>)
    requires
        !contains_seq(s, esc_open()),
        !contains_seq(s, esc_close()),
    ensures
        unescape_bytes(escape_bytes(s)) == s,
    decreases s.len(),
{
    if s.len() == 0 {
        assert(unescape_bytes(escape_bytes(s)) =~= s);
    } else if s.len() >= 4 && s.subrange(0, 4) == open_delim() {
        let u = esc_open() + escape_bytes(s.skip(4));
        assert(u.subrange(0, 6) =~= esc_open());
        assert(u.skip(6) =~= escape_bytes(s.skip(4)));
        lemma_no_occurrence_skip(s, esc_open(), 4);
        lemma_no_occurrence_skip(s, esc_close(), 4);
        lemma_escape_round_trip(s.skip(4));
        assert(open_delim() + s.skip(4) =~= s);
    } else if s.len() >= 4 && s.subrange(0, 4) == close_delim() {
        let u = esc_close() + escape_bytes(s.skip(4));
        assert(u.subrange(0, 6) =~= esc_close());
        assert(u.subrange(0, 6) != esc_open());
        assert(u.skip(6) =~= escape_bytes(s.skip(4)));
        lemma_no_occurrence_skip(s, esc_open(), 4);
        lemma_no_occurrence_skip(s, esc_close(), 4);
        lemma_escape_round_trip(s.skip(4));
        assert(close_delim() + s.skip(4) =~= s);
    } else {
        let u = seq![s[0]] + escape_bytes(s.skip(1));
        if u.len() >= 6 && u.subrange(0, 6) == esc_open() {
            assert(s[0] == 92);
            assert(escape_bytes(s.skip(1))[0] == 91 && escape_bytes(s.skip(1))[1] == 61
                && escape_bytes(s.skip(1))[2] == 61 && escape_bytes(s.skip(1))[3] == 92
                && escape_bytes(s.skip(1))[4] == 91);
            lemma_escape_prefix(s.skip(1), 91);
            assert(s.subrange(0, 6) =~= esc_open());
            assert(has_seq_at(s, esc_open(), 0));
            assert(false);
        }
        if u.len() >= 6 && u.subrange(0, 6) == esc_close() {
            assert(s[0] == 92);
            assert(escape_bytes(s.skip(1))[0] == 93 && escape_bytes(s.skip(1))[1] == 61
                && escape_bytes(s.skip(1))[2] == 61 && escape_bytes(s.skip(1))[3] == 92
                && escape_bytes(s.skip(1))[4] == 93);
            lemma_escape_prefix(s.skip(1), 93);
            assert(s.subrange(0, 6) =~= esc_close());
            assert(has_seq_at(s, esc_close(), 0));
            assert(false);
        }
        assert(u[0] == s[0]);
        assert(u.skip(1) =~= escape_bytes(s.skip(1)));
        lemma_no_occurrence_skip(s, esc_open(), 1);
        lemma_no_occurrence_skip(s, esc_close(), 1);
        lemma_escape_round_trip(s.skip(1));
        assert(seq![s[0]] + s.skip(1) =~= s);
    }
}

/// Round trip through the inline literal: for content `s` that does not
/// already hold an escaped delimiter form, stripping the long-bracket
/// delimiters off `inline_literal(s)` and decoding the body yields exactly
/// `s`, even when `s` holds the delimiters themselves.
pub proof fn lemma_inline_literal_round_trip(s: Seq<u8>)
    requires
        !contains_seq(s, esc_open()),
        !contains_seq(s, esc_close()),
    ensures
        inline_literal(s).len() >= 8,
        inline_literal(s).subrange(0, 4) == open_delim(),
        inline_literal(s).subrange(
            inline_literal(s).len() - 4,
            inline_literal(s).len() as int,
        ) == close_delim(),
        unescape_bytes(
            inline_literal(s).subrange(4, inline_literal(s).len() - 4),
        ) == s,
{
    let lit = inline_literal(s);
    assert(lit.subrange(0, 4) =~= open_delim());
    assert(lit.subrange(lit.len() - 4, lit.len() as int) =~= close_delim());
    assert(lit.subrange(4, lit.len() - 4) =~= escape_bytes(s));
    lemma_escape_round_trip(s);
}

/// Escapes `s` for embedding inside the long-bracket literal.
pub fn escape(s: &Vec<u8>) -> (r: Vec<u8>)
    ensures
        r@ == escape_bytes(s@),
{
    let mut out: Vec<u8> = Vec::new();
    let mut i: usize = 0;
    proof {
        assert(s@.skip(0) =~= s@);
        assert(out@ + escape_bytes(s@) =~= escape_bytes(s@));
    }
    while i < s.len()
        invariant
            i <= s.len(),
            escape_bytes(s@) == out@ + escape_bytes(s@.skip(i as int)),
        decreases s.len() - i,
    {
        let ghost rest = s@.skip(i as int);
        if s.len() - i >= 4 && s[i] == 91 && s[i + 1] == 61 && s[i + 2] == 61 && s[i + 3] == 91 {
            proof {
                assert(rest.subrange(0, 4) =~= open_delim());
                assert(rest.skip(4) =~= s@.skip(i + 4));
            }
            let ghost out0 = out@;
            out.push(92);
            out.push(91);
            out.push(61);
            out.push(61);
            out.push(92);
            out.push(91);
            proof {
                assert(out@ =~= out0 + esc_open());
                assert(out@ + escape_bytes(s@.skip(i + 4)) =~= out0 + escape_bytes(rest));
            }
            i = i + 4;
        } else if s.len() - i >= 4 && s[i] == 93 && s[i + 1] == 61 && s[i + 2] == 61
            && s[i + 3] == 93 {
            proof {
                assert(rest.subrange(0, 4) =~= close_delim());
                assert(rest.subrange(0, 4) != open_delim());
                assert(rest.skip(4) =~= s@.skip(i + 4));
            }
            let ghost out0 = out@;
            out.push(92);
            out.push(93);
            out.push(61);
            out.push(61);
            out.push(92);
            out.push(93);
            proof {
                assert(out@ =~= out0 + esc_close());
                assert(out@ + escape_bytes(s@.skip(i + 4)) =~= out0 + escape_bytes(rest));
            }
            i = i + 4;
        } else {
            proof {
                if rest.len() >= 4 {
                    if rest.subrange(0, 4) == open_delim() {
                        assert(rest[0] == 91 && rest[1] == 61 && rest[2] == 61 && rest[3] == 91);
                        assert(false);
                    }
                    if rest.subrange(0, 4) == close_delim() {
                        assert(rest[0] == 93 && rest[1] == 61 && rest[2] == 61 && rest[3] == 93);
                        assert(false);
                    }
                }
                assert(rest.skip(1) =~= s@.skip(i + 1));
            }
            let ghost out0 = out@;
            out.push(s[i]);
            proof {
                assert(out@ =~= out0 + seq![rest[0]]);
                assert(out@ + escape_bytes(s@.skip(i + 1)) =~= out0 + escape_bytes(rest));
            }
            i = i + 1;
        }
    }
    proof {
        assert(s@.skip(i as int) =~= Seq::<u8>::empty());
        assert(out@ + escape_bytes(s@.skip(i as int)) =~= out@);
    }
    out
}

/// Decodes an escaped body back to the original content.
pub fn unescape(s: &Vec<u8>) -> (r: Vec<u8>)
    ensures
        r@ == unescape_bytes(s@),
{
    let mut out: Vec<u8> = Vec::new();
    let mut i: usize = 0;
    proof {
        assert(s@.skip(0) =~= s@);
        assert(out@ + unescape_bytes(s@) =~= unescape_bytes(s@));
    }
    while i < s.len()
        invariant
            i <= s.len(),
            unescape_bytes(s@) == out@ + unescape_bytes(s@.skip(i as int)),
        decreases s.len() - i,
    {
        let ghost rest = s@.skip(i as int);
        if s.len() - i >= 6 && s[i] == 92 && s[i + 1] == 91 && s[i + 2] == 61 && s[i + 3] == 61
            && s[i + 4] == 92 && s[i + 5] == 91 {
            proof {
                assert(rest.subrange(0, 6) =~= esc_open());
                assert(rest.skip(6) =~= s@.skip(i + 6));
            }
            let ghost out0 = out@;
            out.push(91);
            out.push(61);
            out.push(61);
            out.push(91);
            proof {
                assert(out@ =~= out0 + open_delim());
                assert(out@ + unescape_bytes(s@.skip(i + 6)) =~= out0 + unescape_bytes(rest));
            }
            i = i + 6;
        } else if s.len() - i >= 6 && s[i] == 92 && s[i + 1] == 93 && s[i + 2] == 61
            && s[i + 3] == 61 && s[i + 4] == 92 && s[i + 5] == 93 {
            proof {
                assert(rest.subrange(0, 6) =~= esc_close());
                assert(rest.subrange(0, 6) != esc_open());
                assert(rest.skip(6) =~= s@.skip(i + 6));
            }
            let ghost out0 = out@;
            out.push(93);
            out.push(61);
            out.push(61);
            out.push(93);
            proof {
                assert(out@ =~= out0 + close_delim());
                assert(out@ + unescape_bytes(s@.skip(i + 6)) =~= out0 + unescape_bytes(rest));
            }
            i = i + 6;
        } else {
            proof {
                if rest.len() >= 6 {
                    if rest.subrange(0, 6) == esc_open() {
                        assert(rest[0] == 92 && rest[1] == 91 && rest[2] == 61 && rest[3] == 61
                            && rest[4] == 92 && rest[5] == 91);
                        assert(false);
                    }
                    if rest.subrange(0, 6) == esc_close() {
                        assert(rest[0] == 92 && rest[1] == 93 && rest[2] == 61 && rest[3] == 61
                            && rest[4] == 92 && rest[5] == 93);
                        assert(false);
                    }
                }
                assert(rest.skip(1) =~= s@.skip(i + 1));
            }
            let ghost out0 = out@;
            out.push(s[i]);
            proof {
                assert(out@ =~= out0 + seq![rest[0]]);
                assert(out@ + unescape_bytes(s@.skip(i + 1)) =~= out0 + unescape_bytes(rest));
            }
            i = i + 1;
        }
    }
    proof {
        assert(s@.skip(i as int) =~= Seq::<u8>::empty());
        assert(out@ + unescape_bytes(s@.skip(i as int)) =~= out@);
    }
    out
}

/// Decodes an inline long-bracket literal: checks and strips the `[==[` and
/// `]==]` delimiters, then decodes the escaped body.
pub fn decode_inline(lit: &Vec<u8>) -> (r: Option<Vec<u8>>)
    ensures
        r is Some <==> lit@.len() >= 8 && lit@.subrange(0, 4) == open_delim() && lit@.subrange(
            lit@.len() - 4,
            lit@.len() as int,
        ) == close_delim(),
        r matches Some(c) ==> c@ == unescape_bytes(lit@.subrange(4, lit@.len() - 4)),
{
    let n = lit.len();
    if n < 8 {
        return None;
    }
    if !(lit[0] == 91 && lit[1] == 61 && lit[2] == 61 && lit[3] == 91) {
        proof {
            if lit@.subrange(0, 4) == open_delim() {
                assert(lit@[0] == 91 && lit@[1] == 61 && lit@[2] == 61 && lit@[3] == 91);
            }
        }
        return None;
    }
    if !(lit[n - 4] == 93 && lit[n - 3] == 61 && lit[n - 2] == 61 && lit[n - 1] == 93) {
        proof {
            if lit@.subrange(lit@.len() - 4, lit@.len() as int) == close_delim() {
                assert(lit@[lit@.len() - 4] == 93 && lit@[lit@.len() - 3] == 61 && lit@[lit@.len()
                    - 2] == 61 && lit@[lit@.len() - 1] == 93);
            }
        }
        return None;
    }
    proof {
        assert(lit@.subrange(0, 4) =~= open_delim());
        assert(lit@.subrange(lit@.len() - 4, lit@.len() as int) =~= close_delim());
    }
    let mut body: Vec<u8> = Vec::new();
    let mut k: usize = 4;
    while k < n - 4
        invariant
            4 <= k <= n - 4,
            n == lit@.len(),
            n >= 8,
            body@ == lit@.subrange(4, k as int),
        decreases n - 4 - k,
    {
        body.push(lit[k]);
        proof {
            assert(body@ =~= lit@.subrange(4, k + 1));
        }
        k = k + 1;
    }
    Some(unescape(&body))
}

} // verus!
