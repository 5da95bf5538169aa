//! The per-token decomposition of the patch transform.
//!
//! The patched output of a file is the concatenation of one chunk per input
//! token: the first-argument token of each qualifying call contributes its
//! trivia around the inline literal built from the referenced file's
//! content, the comma after that argument (when more arguments follow)
//! contributes a bare comma, and every other token — in particular every
//! token of every non-qualifying call — contributes its own bytes unchanged.

use crate::escape::inline_literal;
use crate::matcher::{is_sym, qual_bare, qual_parens};
use crate::patch::{comma_part, patch_rec};
use crate::token::{full_text, str_content, TokView};
use vstd::prelude::*;

verus! {

/// Position `j` holds the first-argument string token of a qualifying call.
pub open spec fn inlined_arg_at(toks: Seq<TokView>, j: int) -> bool {
    qual_parens(toks, j - 2) || qual_bare(toks, j - 1)
}

/// Position `j` holds the comma that separates a qualifying parenthesized
/// call's first argument from the arguments that follow it.
pub open spec fn comma_at(toks: Seq<TokView>, j: int) -> bool {
    qual_parens(toks, j - 3) && is_sym(toks[j], 44)
}

/// What position `j` contributes to the patched output.
pub open spec fn chunk(toks: Seq<TokView>, files: Map<Seq<u8>, Seq<u8>>, j: int) -> Seq<u8> {
    if inlined_arg_at(toks, j) {
        toks[j].leading + inline_literal(files[str_content(toks[j])]) + toks[j].trailing
    } else if comma_at(toks, j) {
        seq![44u8]
    } else {
        full_text(toks[j])
    }
}

/// The concatenation of the chunks of `toks[i..]`.
pub open spec fn chunks_from(toks: Seq<TokView>, files: Map<Seq<u8>, Seq<u8>>, i: int) -> Seq<u8>
    decreases toks.len() - i,
{
    if i < 0 || i >= toks.len() {
        Seq::empty()
    } else {
        chunk(toks, files, i) + chunks_from(toks, files, i + 1)
    }
}

/// No qualifying call's replacement region reaches back over position `i`:
/// the scan stands at a fresh position.
pub open spec fn clean_at(toks: Seq<TokView>, i: int) -> bool {
    &&& !qual_parens(toks, i - 1)
    &&& !qual_parens(toks, i - 2)
    &&& !qual_parens(toks, i - 3)
    &&& !qual_bare(toks, i - 1)
}

/// From any fresh position, the patch transform equals the concatenation of
/// the per-token chunks.
proof fn lemma_patch_chunks(toks: Seq<TokView>, files: Map<Seq<u8>, Seq<u8>>, i: int)
    requires
        clean_at(toks, i),
    ensures
        patch_rec(toks, files, i) == chunks_from(toks, files, i),
    decreases toks.len() - i,
{
    if i < 0 || i >= toks.len() {
    } else if qual_parens(toks, i) {
        assert(clean_at(toks, i + 4)) by {
            assert(!qual_parens(toks, i + 1));
            assert(!qual_parens(toks, i + 2));
            assert(!qual_parens(toks, i + 3));
            assert(!qual_bare(toks, i + 3));
        }
        lemma_patch_chunks(toks, files, i + 4);
        assert(chunk(toks, files, i) == full_text(toks[i]));
        assert(chunk(toks, files, i + 1) == full_text(toks[i + 1]));
        assert(inlined_arg_at(toks, i + 2));
        assert(chunk(toks, files, i + 3) == comma_part(toks, i)) by {
            assert(!inlined_arg_at(toks, i + 3));
            if is_sym(toks[i + 3], 44) {
                assert(comma_at(toks, i + 3));
            } else {
                assert(!comma_at(toks, i + 3));
            }
        }
        assert(chunks_from(toks, files, i + 3) == chunk(toks, files, i + 3) + chunks_from(
            toks,
            files,
            i + 4,
        ));
        assert(chunks_from(toks, files, i + 2) == chunk(toks, files, i + 2) + chunks_from(
            toks,
            files,
            i + 3,
        ));
        assert(chunks_from(toks, files, i + 1) == chunk(toks, files, i + 1) + chunks_from(
            toks,
            files,
            i + 2,
        ));
        assert(chunks_from(toks, files, i) == chunk(toks, files, i) + chunks_from(
            toks,
            files,
            i + 1,
        ));
        assert(patch_rec(toks, files, i) =~= chunks_from(toks, files, i));
    } else if qual_bare(toks, i) {
        assert(clean_at(toks, i + 2)) by {
            assert(!qual_parens(toks, i + 1));
            assert(!qual_bare(toks, i + 1));
        }
        lemma_patch_chunks(toks, files, i + 2);
        assert(chunk(toks, files, i) == full_text(toks[i]));
        assert(inlined_arg_at(toks, i + 1));
        assert(chunks_from(toks, files, i + 1) == chunk(toks, files, i + 1) + chunks_from(
            toks,
            files,
            i + 2,
        ));
        assert(chunks_from(toks, files, i) == chunk(toks, files, i) + chunks_from(
            toks,
            files,
            i + 1,
        ));
        assert(patch_rec(toks, files, i) =~= chunks_from(toks, files, i));
    } else {
        assert(clean_at(toks, i + 1));
        lemma_patch_chunks(toks, files, i + 1);
        assert(chunk(toks, files, i) == full_text(toks[i])) by {
            assert(!inlined_arg_at(toks, i));
            assert(!comma_at(toks, i));
        }
        assert(patch_rec(toks, files, i) =~= chunks_from(toks, files, i));
    }
}

/// Rewriting a qualifying call replaces exactly its first argument: the
/// patched output decomposes into one chunk per token, and at every position
/// holding the first-argument token of a qualifying call the chunk is that
/// token's trivia around the long-bracket literal of the referenced file's
/// escaped content — with the separating comma re-emitted bare when further
/// arguments follow. The pipeline returns this output exactly when every
/// referenced file resolves.
pub proof fn lemma_patch_rewrites_matches(toks: Seq<TokView>, files: Map<Seq<u8>, Seq<u8>>)
    ensures
        patch_rec(toks, files, 0) == chunks_from(toks, files, 0),
        forall|j: int|
            inlined_arg_at(toks, j) ==> #[trigger] chunk(toks, files, j) == toks[j].leading
                + inline_literal(files[str_content(toks[j])]) + toks[j].trailing,
        forall|j: int|
            comma_at(toks, j) && !inlined_arg_at(toks, j) ==> #[trigger] chunk(toks, files, j)
                == seq![44u8],
{
    lemma_patch_chunks(toks, files, 0);
}

/// Every token outside the replaced positions — in particular every token of
/// every call that does not qualify — is emitted byte-identical to its
/// input.
pub proof fn lemma_non_matching_tokens_verbatim(toks: Seq<TokView>, files: Map<Seq<u8>, Seq<u8>>)
    ensures
        patch_rec(toks, files, 0) == chunks_from(toks, files, 0),
        forall|j: int|
            !inlined_arg_at(toks, j) && !comma_at(toks, j) ==> #[trigger] chunk(toks, files, j)
                == full_text(toks[j]),
{
    lemma_patch_chunks(toks, files, 0);
}

} // verus!
