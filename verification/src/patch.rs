//! The inlining transform over one file's token stream, and the patch pass
//! over a whole directory snapshot.
//!
//! Patching a file walks its tokens left to right. At each qualifying call
//! the first argument's string token is re-emitted with its text replaced by
//! a long-bracket literal holding the escaped content of the referenced
//! file; when further arguments follow, the separating comma is re-emitted
//! bare (without its trivia); every other token is emitted byte-identical.
//! A file whose referenced content cannot be resolved fails as a whole: no
//! partially patched output is produced for it.

use crate::error::Error;
use crate::escape::inline_literal;
use crate::filemap::{copy_bytes, dir_map, FileMap};
use crate::lexer::{lex_of, lex_source};
use crate::matcher::{check_qual_bare, check_qual_parens, is_sym, qual_at, qual_bare, qual_parens, tok_is_sym};
use crate::token::{append_bytes, concat_toks, full_text, str_content, views_of, Tok, TokKind, TokView};
use vstd::prelude::*;

verus! {

/// The bytes a qualifying parenthesized call at `i` contributes after its
/// string argument: a bare comma when further arguments follow, otherwise
/// the closing parenthesis unchanged.
pub open spec fn comma_part(toks: Seq<TokView>, i: int) -> Seq<u8> {
    if is_sym(toks[i + 3], 44) {
        seq![44u8]
    } else {
        full_text(toks[i + 3])
    }
}

/// The bytes emitted for a qualifying parenthesized call at `i`: name and
/// `(` unchanged, then the argument token's trivia around the inline literal
/// built from the resolved file content, then the comma or `)`.
pub open spec fn parens_replacement(
    toks: Seq<TokView>,
    files: Map<Seq<u8>, Seq<u8>>,
    i: int,
) -> Seq<u8> {
    full_text(toks[i]) + full_text(toks[i + 1]) + toks[i + 2].leading + inline_literal(
        files[str_content(toks[i + 2])],
    ) + toks[i + 2].trailing + comma_part(toks, i)
}

/// The bytes emitted for a qualifying bare-string call at `i`: the name
/// unchanged, then the argument token's trivia around the inline literal.
pub open spec fn bare_replacement(
    toks: Seq<TokView>,
    files: Map<Seq<u8>, Seq<u8>>,
    i: int,
) -> Seq<u8> {
    full_text(toks[i]) + toks[i + 1].leading + inline_literal(files[str_content(toks[i + 1])])
        + toks[i + 1].trailing
}

/// The patched output for the tokens from `i` on, assuming every referenced
/// file resolves.
pub open spec fn patch_rec(toks: Seq<TokView>, files: Map<Seq<u8>, Seq<u8>>, i: int) -> Seq<u8>
    decreases toks.len() - i,
{
    if i < 0 || i >= toks.len() {
        Seq::empty()
    } else if qual_parens(toks, i) {
        parens_replacement(toks, files, i) + patch_rec(toks, files, i + 4)
    } else if qual_bare(toks, i) {
        bare_replacement(toks, files, i) + patch_rec(toks, files, i + 2)
    } else {
        full_text(toks[i]) + patch_rec(toks, files, i + 1)
    }
}

/// The name requested by the first qualifying call from `i` on whose file
/// does not resolve, in scan order; `None` when every referenced file
/// resolves.
pub open spec fn first_missing(
    toks: Seq<TokView>,
    files: Map<Seq<u8>, Seq<u8>>,
    i: int,
) -> Option<Seq<u8>>
    decreases toks.len() - i,
{
    if i < 0 || i >= toks.len() {
        None
    } else if qual_parens(toks, i) {
        if !files.contains_key(str_content(toks[i + 2])) {
            Some(str_content(toks[i + 2]))
        } else {
            first_missing(toks, files, i + 4)
        }
    } else if qual_bare(toks, i) {
        if !files.contains_key(str_content(toks[i + 1])) {
            Some(str_content(toks[i + 1]))
        } else {
            first_missing(toks, files, i + 2)
        }
    } else {
        first_missing(toks, files, i + 1)
    }
}

/// A file containing no qualifying call patches to itself, and never fails
/// on a missing file.
pub proof fn lemma_no_match_identity(
    toks: Seq<TokView>,
    files: Map<Seq<u8>, Seq<u8>>,
    i: int,
)
    requires
        forall|k: int| !qual_at(toks, k),
    ensures
        patch_rec(toks, files, i) == concat_toks(toks, i),
        first_missing(toks, files, i) is None,
    decreases toks.len() - i,
{
    if i < 0 || i >= toks.len() {
    } else {
        assert(!qual_at(toks, i));
        lemma_no_match_identity(toks, files, i + 1);
    }
}

/// The string content of a token, when it is a string literal.
pub fn tok_content<'a>(t: &'a Tok) -> (r: Option<&'a Vec<u8>>)
    ensures
        match r {
            Some(c) => t@.kind is StrLit && c@ == str_content(t@),
            None => !(t@.kind is StrLit),
        },
{
    match &t.kind {
        TokKind::StrLit { content } => Some(content),
        _ => None,
    }
}

/// Emits a token byte-identical: leading trivia, text, trailing trivia.
pub fn emit_tok(out: &mut Vec<u8>, t: &Tok)
    ensures
        final(out)@ == old(out)@ + full_text(t@),
{
    append_bytes(out, &t.leading);
    append_bytes(out, &t.text);
    append_bytes(out, &t.trailing);
    proof {
        assert(out@ =~= old(out)@ + full_text(t@));
    }
}

/// Emits the inline long-bracket literal for the resolved content: `[==[`,
/// the escaped content, `]==]`.
pub fn emit_inline_literal(out: &mut Vec<u8>, content: &Vec<u8>)
    ensures
        final(out)@ == old(out)@ + inline_literal(content@),
{
    out.push(91);
    out.push(61);
    out.push(61);
    out.push(91);
    let esc = crate::escape::escape(content);
    append_bytes(out, &esc);
    out.push(93);
    out.push(61);
    out.push(61);
    out.push(93);
    proof {
        assert(out@ =~= old(out)@ + inline_literal(content@));
    }
}

/// Renders the inline long-bracket literal for one resolved file content.
pub fn render_inline_literal(content: &Vec<u8>) -> (r: Vec<u8>)
    ensures
        r@ == inline_literal(content@),
{
    let mut out: Vec<u8> = Vec::new();
    emit_inline_literal(&mut out, content);
    proof {
        assert(out@ =~= inline_literal(content@));
    }
    out
}

/// Patches one file's token stream against the resolvable files: rewrites
/// the first argument of every qualifying call, emits every other token
/// byte-identical, and fails with the requested name when a referenced file
/// does not resolve.
pub fn patch_tokens(toks: &Vec<Tok>, files: &FileMap) -> (r: Result<Vec<u8>, Vec<u8>>)
    ensures
        match r {
            Ok(out) => first_missing(views_of(toks@), files.as_map(), 0) is None && out@
                == patch_rec(views_of(toks@), files.as_map(), 0),
            Err(name) => first_missing(views_of(toks@), files.as_map(), 0) == Some(name@),
        },
{
    let ghost v = views_of(toks@);
    let ghost fm = files.as_map();
    let mut out: Vec<u8> = Vec::new();
    let mut i: usize = 0;
    proof {
        assert(forall|k: int| 0 <= k < v.len() ==> v[k] == toks@[k]@);
        assert(out@ + patch_rec(v, fm, 0) =~= patch_rec(v, fm, 0));
    }
    while i < toks.len()
        invariant
            i <= toks@.len(),
            v == views_of(toks@),
            v.len() == toks@.len(),
            forall|k: int| 0 <= k < v.len() ==> v[k] == toks@[k]@,
            fm == files.as_map(),
            patch_rec(v, fm, 0) == out@ + patch_rec(v, fm, i as int),
            first_missing(v, fm, 0) == first_missing(v, fm, i as int),
        decreases toks@.len() - i,
    {
        let ghost out0 = out@;
        if check_qual_parens(toks, i) {
            let arg = match tok_content(&toks[i + 2]) {
                Some(c) => c,
                None => {
                    proof {
                        assert(false);
                    }
                    return Err(Vec::new());
                },
            };
            match files.lookup(arg) {
                None => {
                    proof {
                        assert(first_missing(v, fm, i as int) == Some(str_content(v[i + 2])));
                    }
                    return Err(copy_bytes(arg));
                },
                Some(fc) => {
                    emit_tok(&mut out, &toks[i]);
                    emit_tok(&mut out, &toks[i + 1]);
                    append_bytes(&mut out, &toks[i + 2].leading);
                    emit_inline_literal(&mut out, fc);
                    append_bytes(&mut out, &toks[i + 2].trailing);
                    if tok_is_sym(&toks[i + 3], 44) {
                        out.push(44);
                        proof {
                            assert(comma_part(v, i as int) =~= seq![44u8]);
                        }
                    } else {
                        emit_tok(&mut out, &toks[i + 3]);
                    }
                    proof {
                        assert(out@ =~= out0 + parens_replacement(v, fm, i as int));
                        assert(patch_rec(v, fm, i as int) == parens_replacement(v, fm, i as int)
                            + patch_rec(v, fm, i + 4));
                        assert(out0 + (parens_replacement(v, fm, i as int) + patch_rec(
                            v,
                            fm,
                            i + 4,
                        )) =~= out@ + patch_rec(v, fm, i + 4));
                    }
                    i = i + 4;
                },
            }
        } else if check_qual_bare(toks, i) {
            let arg = match tok_content(&toks[i + 1]) {
                Some(c) => c,
                None => {
                    proof {
                        assert(false);
                    }
                    return Err(Vec::new());
                },
            };
            match files.lookup(arg) {
                None => {
                    proof {
                        assert(first_missing(v, fm, i as int) == Some(str_content(v[i + 1])));
                    }
                    return Err(copy_bytes(arg));
                },
                Some(fc) => {
                    emit_tok(&mut out, &toks[i]);
                    append_bytes(&mut out, &toks[i + 1].leading);
                    emit_inline_literal(&mut out, fc);
                    append_bytes(&mut out, &toks[i + 1].trailing);
                    proof {
                        assert(out@ =~= out0 + bare_replacement(v, fm, i as int));
                        assert(patch_rec(v, fm, i as int) == bare_replacement(v, fm, i as int)
                            + patch_rec(v, fm, i + 2));
                        assert(out0 + (bare_replacement(v, fm, i as int) + patch_rec(v, fm, i + 2))
                            =~= out@ + patch_rec(v, fm, i + 2));
                    }
                    i = i + 2;
                },
            }
        } else {
            emit_tok(&mut out, &toks[i]);
            proof {
                assert(patch_rec(v, fm, i as int) == full_text(v[i as int]) + patch_rec(
                    v,
                    fm,
                    i + 1,
                ));
                assert(out0 + (full_text(v[i as int]) + patch_rec(v, fm, i + 1)) =~= out@
                    + patch_rec(v, fm, i + 1));
            }
            i = i + 1;
        }
    }
    proof {
        assert(patch_rec(v, fm, i as int) =~= Seq::<u8>::empty());
        assert(out@ + patch_rec(v, fm, i as int) =~= out@);
    }
    Ok(out)
}

/// The outcome of patching one file, at the specification level.
pub enum PatchFileResult {
    /// The file parsed and every referenced file resolved; holds the
    /// patched bytes.
    Patched(Seq<u8>),
    /// The file did not parse.
    ParseFailed,
    /// A qualifying call referenced a file that does not resolve; holds the
    /// requested name.
    FileMissing(Seq<u8>),
}

/// What patching one file yields: parse the text, fail on the first
/// unresolvable reference, and otherwise rewrite the token stream.
pub open spec fn patch_file_spec(text: Seq<u8>, files: Map<Seq<u8>, Seq<u8>>) -> PatchFileResult {
    match lex_of(text) {
        Option::None => PatchFileResult::ParseFailed,
        Option::Some(toks) => match first_missing(toks, files, 0) {
            Option::Some(n) => PatchFileResult::FileMissing(n),
            Option::None => PatchFileResult::Patched(patch_rec(toks, files, 0)),
        },
    }
}

/// Patches one file's bytes against the resolvable files.
///
/// A file with no qualifying call is returned byte-identical.
pub fn patch_source(text: &Vec<u8>, files: &FileMap) -> (r: Result<Vec<u8>, Error>)
    ensures
        match patch_file_spec(text@, files.as_map()) {
            PatchFileResult::Patched(out) => r matches Ok(o) && o@ == out,
            PatchFileResult::ParseFailed => r matches Err(e) && e is FullMoon,
            PatchFileResult::FileMissing(n) => r matches Err(e) && e matches Error::Io(name)
                && name@ == n,
        },
        lex_of(text@) is Some && (forall|k: int|
            !qual_at(lex_of(text@).unwrap(), k)) ==> (r matches Ok(o) && o@ == text@),
{
    let toks = match lex_source(text) {
        Ok(toks) => toks,
        Err(msg) => {
            return Err(Error::FullMoon(msg));
        },
    };
    let ghost ts = views_of(toks@);
    match patch_tokens(&toks, files) {
        Ok(out) => {
            proof {
                if forall|k: int| !qual_at(ts, k) {
                    lemma_no_match_identity(ts, files.as_map(), 0);
                }
            }
            Ok(out)
        },
        Err(name) => {
            proof {
                if forall|k: int| !qual_at(ts, k) {
                    lemma_no_match_identity(ts, files.as_map(), 0);
                }
            }
            Err(Error::Io(name))
        },
    }
}

/// The error kinds a directory patch reports, at the specification level.
pub enum DirErrKind {
    /// The entry's content did not parse.
    ParseFailed,
    /// A qualifying call in the entry referenced a file that does not
    /// resolve; holds the requested name.
    FileMissing(Seq<u8>),
}

/// The reported name and error kind of one directory-patch failure.
pub open spec fn err_view_one(e: (Vec<u8>, Error)) -> (Seq<u8>, DirErrKind) {
    (
        e.0@,
        match e.1 {
            Error::Io(n) => DirErrKind::FileMissing(n@),
            _ => DirErrKind::ParseFailed,
        },
    )
}

/// The reported names and error kinds of a directory patch's failures.
pub open spec fn err_views(s: Seq<(Vec<u8>, Error)>) -> Seq<(Seq<u8>, DirErrKind)> {
    s.map_values(|e: (Vec<u8>, Error)| err_view_one(e))
}

/// Patching a directory snapshot from entry `k` on: each entry is patched
/// against the snapshot as it stands when its turn comes (earlier entries
/// already patched in place), a failing entry keeps its content and is
/// reported by name, and one entry's failure never stops the others.
pub open spec fn patch_dir_rec(d: Seq<(Seq<u8>, Seq<u8>)>, k: int) -> (
    Seq<(Seq<u8>, Seq<u8>)>,
    Seq<(Seq<u8>, DirErrKind)>,
)
    decreases d.len() - k,
{
    if k < 0 || k >= d.len() {
        (d, Seq::empty())
    } else {
        match patch_file_spec(d[k].1, dir_map(d)) {
            PatchFileResult::Patched(out) => patch_dir_rec(d.update(k, (d[k].0, out)), k + 1),
            PatchFileResult::ParseFailed => {
                let r = patch_dir_rec(d, k + 1);
                (r.0, seq![(d[k].0, DirErrKind::ParseFailed)] + r.1)
            },
            PatchFileResult::FileMissing(n) => {
                let r = patch_dir_rec(d, k + 1);
                (r.0, seq![(d[k].0, DirErrKind::FileMissing(n))] + r.1)
            },
        }
    }
}

/// Directory patch isolation: patching never renames, adds, or removes
/// entries; entries before the position worked from are never touched; and
/// an entry that fails (it does not parse, or it references an unresolvable
/// file) keeps its content and stands first in the reported failures, while
/// every other entry is still processed.
pub proof fn lemma_directory_patch_isolation(d: Seq<(Seq<u8>, Seq<u8>)>, k: int)
    ensures
        patch_dir_rec(d, k).0.len() == d.len(),
        forall|j: int| 0 <= j < d.len() ==> #[trigger] patch_dir_rec(d, k).0[j].0 == d[j].0,
        forall|j: int| 0 <= j < k ==> #[trigger] patch_dir_rec(d, k).0[j] == d[j],
        0 <= k < d.len() && !(patch_file_spec(d[k].1, dir_map(d)) is Patched) ==> patch_dir_rec(
            d,
            k,
        ).0[k] == d[k] && patch_dir_rec(d, k).1.len() >= 1 && patch_dir_rec(d, k).1[0].0 == d[k].0,
    decreases d.len() - k,
{
    if k < 0 || k >= d.len() {
    } else {
        match patch_file_spec(d[k].1, dir_map(d)) {
            PatchFileResult::Patched(out) => {
                let d2 = d.update(k, (d[k].0, out));
                lemma_directory_patch_isolation(d2, k + 1);
            },
            PatchFileResult::ParseFailed => {
                lemma_directory_patch_isolation(d, k + 1);
            },
            PatchFileResult::FileMissing(_) => {
                lemma_directory_patch_isolation(d, k + 1);
            },
        }
    }
}

/// Patches every file of the directory snapshot in listing order.
///
/// Per-file failures are isolated: an entry that fails to parse or that
/// references an unresolvable file keeps its content and is reported by
/// name, and the remaining entries are still patched.
pub fn patch_directory(dir: &mut FileMap) -> (errs: Vec<(Vec<u8>, Error)>)
    ensures
        final(dir).dir() == patch_dir_rec(old(dir).dir(), 0).0,
        err_views(errs@) == patch_dir_rec(old(dir).dir(), 0).1,
{
    let ghost d0 = dir.dir();
    let mut errs: Vec<(Vec<u8>, Error)> = Vec::new();
    let mut k: usize = 0;
    proof {
        assert(err_views(errs@) + patch_dir_rec(d0, 0).1 =~= patch_dir_rec(d0, 0).1);
    }
    while k < dir.file_count()
        invariant
            k <= dir.dir().len(),
            dir.dir().len() == d0.len(),
            patch_dir_rec(d0, 0).0 == patch_dir_rec(dir.dir(), k as int).0,
            patch_dir_rec(d0, 0).1 == err_views(errs@) + patch_dir_rec(dir.dir(), k as int).1,
        decreases dir.dir().len() - k,
    {
        let ghost dcur = dir.dir();
        let text = copy_bytes(dir.content_at(k));
        let outcome = patch_source(&text, dir);
        match outcome {
            Ok(out) => {
                let ghost o = out@;
                dir.set_content_at(k, out);
                proof {
                    assert(patch_file_spec(dcur[k as int].1, dir_map(dcur))
                        == PatchFileResult::Patched(o));
                    assert(dir.dir() == dcur.update(k as int, (dcur[k as int].0, o)));
                }
            },
            Err(e) => {
                let name = copy_bytes(dir.name_at(k));
                let ghost nm = name@;
                let ghost errs0 = errs@;
                let ghost kind = err_view_one((name, e)).1;
                errs.push((name, e));
                proof {
                    assert(err_views(errs@) =~= err_views(errs0) + seq![(nm, kind)]);
                    assert(patch_dir_rec(dcur, k as int).1 =~= seq![(nm, kind)] + patch_dir_rec(
                        dcur,
                        k + 1,
                    ).1);
                    assert(err_views(errs0) + (seq![(nm, kind)] + patch_dir_rec(dcur, k + 1).1)
                        =~= err_views(errs@) + patch_dir_rec(dcur, k + 1).1);
                }
            },
        }
        k = k + 1;
    }
    proof {
        assert(err_views(errs@) + patch_dir_rec(dir.dir(), k as int).1 =~= err_views(errs@));
    }
    errs
}

} // verus!
