//! The call-site matcher: decides whether a call expression qualifies for
//! child-script inlining.
//!
//! A call qualifies when the callee is one of the four recognized aliases
//! (`NS`, `NLS`, `NewScript`, `NewLocalScript`) standing as a plain name (not
//! reached through `.` or `:`), the call is a direct invocation with exactly
//! one suffix (no chained call, index, or method call after it), and the
//! first argument is a single string literal. Both the parenthesized form
//! `NS("child", ...)` and the bare-string form `NS "child"` are recognized.
//!
//! The criteria are stated over the token stream of a file that parses. A
//! computed callee never puts a plain alias name directly before the
//! argument list; a callee reached through an access chain puts `.` or `:`
//! right before the name, which `prev_clear` rejects; and a call with more
//! than one suffix continues directly after the first argument list with
//! `(`, `[`, `{`, `.`, `:`, or a string or table argument, which
//! `after_clear` rejects. A first argument that is more than a single string
//! literal never has `,` or `)` directly after its first token.

use crate::token::{Tok, TokKind, TokView, views_of};
use vstd::prelude::*;

verus! {

/// The bytes of the alias `NS`.
pub open spec fn alias_ns() -> Seq<u8> {
    seq![78u8, 83u8]
}

/// The bytes of the alias `NLS`.
pub open spec fn alias_nls() -> Seq<u8> {
    seq![78u8, 76u8, 83u8]
}

/// The bytes of the alias `NewScript`.
pub open spec fn alias_new_script() -> Seq<u8> {
    seq![78u8, 101u8, 119u8, 83u8, 99u8, 114u8, 105u8, 112u8, 116u8]
}

/// The bytes of the alias `NewLocalScript`.
pub open spec fn alias_new_local_script() -> Seq<u8> {
    seq![78u8, 101u8, 119u8, 76u8, 111u8, 99u8, 97u8, 108u8, 83u8, 99u8, 114u8, 105u8, 112u8,
        116u8]
}

/// The token is an identifier carrying one of the four recognized aliases.
pub open spec fn is_alias_name(t: TokView) -> bool {
    t.kind is Ident && (t.text == alias_ns() || t.text == alias_nls() || t.text
        == alias_new_script() || t.text == alias_new_local_script())
}

/// The token is the single plain symbol with byte value `b`.
pub open spec fn is_sym(t: TokView, b: u8) -> bool {
    t.kind is Plain && t.text == seq![b]
}

/// A token that, directly following a call, would chain a further suffix
/// onto it: another argument list `(`, an index `[` or `.`, a method call
/// `:`, or a string or table-constructor argument.
pub open spec fn starts_suffix(t: TokView) -> bool {
    t.kind is StrLit || is_sym(t, 40) || is_sym(t, 91) || is_sym(t, 123) || is_sym(t, 46) || is_sym(
        t,
        58,
    )
}

/// No further suffix is chained after position `c` of the call.
pub open spec fn after_clear(toks: Seq<TokView>, c: int) -> bool {
    c + 1 >= toks.len() || !starts_suffix(toks[c + 1])
}

/// The callee name at `i` is a plain name prefix: it is not preceded by a
/// field accessor `.` or a method accessor `:`.
pub open spec fn prev_clear(toks: Seq<TokView>, i: int) -> bool {
    i == 0 || !(is_sym(toks[i - 1], 46) || is_sym(toks[i - 1], 58))
}

/// Index of the `)` that closes a parenthesized argument list, scanning from
/// `j` with `depth` parentheses currently open; `-1` when unbalanced.
pub open spec fn find_close(toks: Seq<TokView>, j: int, depth: int) -> int
    decreases toks.len() - j,
{
    if j < 0 || j >= toks.len() {
        -1
    } else if is_sym(toks[j], 41) {
        if depth <= 1 {
            j
        } else {
            find_close(toks, j + 1, depth - 1)
        }
    } else if is_sym(toks[j], 40) {
        find_close(toks, j + 1, depth + 1)
    } else {
        find_close(toks, j + 1, depth)
    }
}

/// A qualifying parenthesized call starts at `i`: an alias name standing as
/// a plain prefix, an argument list opened by `(` whose first argument is a
/// single string literal (followed directly by `,` or by the closing `)`),
/// and no further suffix chained after the closing parenthesis.
pub open spec fn qual_parens(toks: Seq<TokView>, i: int) -> bool {
    &&& 0 <= i
    &&& i + 3 < toks.len()
    &&& is_alias_name(toks[i])
    &&& is_sym(toks[i + 1], 40)
    &&& toks[i + 2].kind is StrLit
    &&& (is_sym(toks[i + 3], 44) || is_sym(toks[i + 3], 41))
    &&& prev_clear(toks, i)
    &&& find_close(toks, i + 2, 1) >= 0
    &&& after_clear(toks, find_close(toks, i + 2, 1))
}

/// A qualifying bare-string call starts at `i`: an alias name standing as a
/// plain prefix, directly followed by a string-literal argument with no
/// parentheses and no further suffix chained after it.
pub open spec fn qual_bare(toks: Seq<TokView>, i: int) -> bool {
    &&& 0 <= i
    &&& i + 1 < toks.len()
    &&& is_alias_name(toks[i])
    &&& toks[i + 1].kind is StrLit
    &&& prev_clear(toks, i)
    &&& after_clear(toks, i + 1)
}

/// A qualifying call of either form starts at `i`.
pub open spec fn qual_at(toks: Seq<TokView>, i: int) -> bool {
    qual_parens(toks, i) || qual_bare(toks, i)
}

/// Decides whether `v` is one of the four alias names.
pub fn is_alias_text(v: &Vec<u8>) -> (r: bool)
    ensures
        r == (v@ == alias_ns() || v@ == alias_nls() || v@ == alias_new_script() || v@
            == alias_new_local_script()),
{
    let n = v.len();
    if n == 2 {
        let r = v[0] == 78 && v[1] == 83;
        proof {
            if r {
                assert(v@ =~= alias_ns());
            }
        }
        r
    } else if n == 3 {
        let r = v[0] == 78 && v[1] == 76 && v[2] == 83;
        proof {
            if r {
                assert(v@ =~= alias_nls());
            }
        }
        r
    } else if n == 9 {
        let r = v[0] == 78 && v[1] == 101 && v[2] == 119 && v[3] == 83 && v[4] == 99 && v[5] == 114
            && v[6] == 105 && v[7] == 112 && v[8] == 116;
        proof {
            if r {
                assert(v@ =~= alias_new_script());
            }
        }
        r
    } else if n == 14 {
        let r = v[0] == 78 && v[1] == 101 && v[2] == 119 && v[3] == 76 && v[4] == 111 && v[5] == 99
            && v[6] == 97 && v[7] == 108 && v[8] == 83 && v[9] == 99 && v[10] == 114 && v[11]
            == 105 && v[12] == 112 && v[13] == 116;
        proof {
            if r {
                assert(v@ =~= alias_new_local_script());
            }
        }
        r
    } else {
        false
    }
}

/// Decides whether the token is an alias-name identifier.
pub fn tok_is_alias(t: &Tok) -> (r: bool)
    ensures
        r == is_alias_name(t@),
{
    match t.kind {
        TokKind::Ident => is_alias_text(&t.text),
        _ => false,
    }
}

/// Decides whether the token is the single plain symbol `b`.
pub fn tok_is_sym(t: &Tok, b: u8) -> (r: bool)
    ensures
        r == is_sym(t@, b),
{
    match t.kind {
        TokKind::Plain => {
            let r = t.text.len() == 1 && t.text[0] == b;
            proof {
                if r {
                    assert(t.text@ =~= seq![b]);
                }
            }
            r
        },
        _ => false,
    }
}

/// Decides whether the token is a string literal.
pub fn tok_is_str(t: &Tok) -> (r: bool)
    ensures
        r == (t@.kind is StrLit),
{
    match t.kind {
        TokKind::StrLit { .. } => true,
        _ => false,
    }
}

/// Decides whether the token would chain a further suffix onto a call.
pub fn tok_starts_suffix(t: &Tok) -> (r: bool)
    ensures
        r == starts_suffix(t@),
{
    tok_is_str(t) || tok_is_sym(t, 40) || tok_is_sym(t, 91) || tok_is_sym(t, 123) || tok_is_sym(
        t,
        46,
    ) || tok_is_sym(t, 58)
}

/// Finds the `)` closing the argument list opened just before `j0`, starting
/// with one parenthesis open.
pub fn find_close_tok(toks: &Vec<Tok>, j0: usize) -> (r: Option<usize>)
    ensures
        match r {
            Some(c) => find_close(views_of(toks@), j0 as int, 1) == c as int && c < toks@.len(),
            None => find_close(views_of(toks@), j0 as int, 1) == -1,
        },
{
    let ghost v = views_of(toks@);
    let mut j: usize = j0;
    let mut depth: u128 = 1;
    while j < toks.len()
        invariant
            j0 <= j,
            depth >= 1,
            depth <= j - j0 + 1,
            find_close(v, j0 as int, 1) == find_close(v, j as int, depth as int),
            v == views_of(toks@),
            v.len() == toks@.len(),
            forall|k: int| 0 <= k < v.len() ==> v[k] == toks@[k]@,
        decreases toks.len() - j,
    {
        if tok_is_sym(&toks[j], 41) {
            if depth == 1 {
                return Some(j);
            }
            depth = depth - 1;
        } else if tok_is_sym(&toks[j], 40) {
            depth = depth + 1;
        }
        j = j + 1;
    }
    None
}

/// Decides whether a qualifying parenthesized call starts at `i`.
pub fn check_qual_parens(toks: &Vec<Tok>, i: usize) -> (r: bool)
    requires
        i < toks@.len(),
    ensures
        r == qual_parens(views_of(toks@), i as int),
{
    let ghost v = views_of(toks@);
    proof {
        assert(forall|k: int| 0 <= k < v.len() ==> v[k] == toks@[k]@);
    }
    if toks.len() - i < 4 {
        return false;
    }
    if !tok_is_alias(&toks[i]) {
        return false;
    }
    if !tok_is_sym(&toks[i + 1], 40) {
        return false;
    }
    if !tok_is_str(&toks[i + 2]) {
        return false;
    }
    if !(tok_is_sym(&toks[i + 3], 44) || tok_is_sym(&toks[i + 3], 41)) {
        return false;
    }
    if i > 0 && (tok_is_sym(&toks[i - 1], 46) || tok_is_sym(&toks[i - 1], 58)) {
        return false;
    }
    match find_close_tok(toks, i + 2) {
        None => false,
        Some(c) => {
            if c + 1 >= toks.len() {
                true
            } else {
                !tok_starts_suffix(&toks[c + 1])
            }
        },
    }
}

/// Decides whether a qualifying bare-string call starts at `i`.
pub fn check_qual_bare(toks: &Vec<Tok>, i: usize) -> (r: bool)
    requires
        i < toks@.len(),
    ensures
        r == qual_bare(views_of(toks@), i as int),
{
    let ghost v = views_of(toks@);
    proof {
        assert(forall|k: int| 0 <= k < v.len() ==> v[k] == toks@[k]@);
    }
    if toks.len() - i < 2 {
        return false;
    }
    if !tok_is_alias(&toks[i]) {
        return false;
    }
    if !tok_is_str(&toks[i + 1]) {
        return false;
    }
    if i > 0 && (tok_is_sym(&toks[i - 1], 46) || tok_is_sym(&toks[i - 1], 58)) {
        return false;
    }
    if i + 2 < toks.len() {
        !tok_starts_suffix(&toks[i + 2])
    } else {
        true
    }
}

} // verus!
