//! The library's own model of a Lua token stream.
//!
//! A parsed file is a sequence of significant tokens in source order. Each
//! token carries the exact bytes it contributes to the printed file, split
//! into leading trivia (comments and whitespace attached before it), the
//! token text itself, and trailing trivia. Concatenating the full text of
//! every token reproduces the source file byte for byte.

use vstd::prelude::*;

verus! {

/// The kind of a token, with the data the call-site matcher reads.
pub enum TokKind {
    /// An identifier, such as a function name.
    Ident,
    /// A string literal; `content` holds the literal's text without its
    /// quotes or brackets.
    StrLit { content: Vec<u8> },
    /// Any other token: a symbol, keyword, or number.
    Plain,
}

/// Mathematical counterpart of [`TokKind`].
pub enum TokKindView {
    Ident,
    StrLit { content: Seq<u8> },
    Plain,
}

/// One significant token of a parsed file.
pub struct Tok {
    /// Bytes of the comments and whitespace attached before the token.
    pub leading: Vec<u8>,
    /// Bytes of the token itself.
    pub text: Vec<u8>,
    /// Bytes of the comments and whitespace attached after the token.
    pub trailing: Vec<u8>,
    /// The token's kind.
    pub kind: TokKind,
}

/// Mathematical counterpart of [`Tok`].
pub struct TokView {
    pub leading: Seq<u8>,
    pub text: Seq<u8>,
    pub trailing: Seq<u8>,
    pub kind: TokKindView,
}

impl View for TokKind {
    type V = TokKindView;

    open spec fn view(&self) -> TokKindView {
        match self {
            TokKind::Ident => TokKindView::Ident,
            TokKind::StrLit { content } => TokKindView::StrLit { content: content@ },
            TokKind::Plain => TokKindView::Plain,
        }
    }
}

impl View for Tok {
    type V = TokView;

    open spec fn view(&self) -> TokView {
        TokView {
            leading: self.leading@,
            text: self.text@,
            trailing: self.trailing@,
            kind: self.kind@,
        }
    }
}

/// The exact bytes a token contributes to the printed file.
pub open spec fn full_text(t: TokView) -> Seq<u8> {
    t.leading + t.text + t.trailing
}

/// Concatenation of the full text of `toks[i..]`.
pub open spec fn concat_toks(toks: Seq<TokView>, i: int) -> Seq<u8>
    decreases toks.len() - i,
{
    if i < 0 || i >= toks.len() {
        Seq::empty()
    } else {
        full_text(toks[i]) + concat_toks(toks, i + 1)
    }
}

/// The views of a sequence of tokens.
pub open spec fn views_of(toks: Seq<Tok>) -> Seq<TokView> {
    toks.map_values(|t: Tok| t@)
}

/// The string-literal content of a token, empty for non-string tokens.
pub open spec fn str_content(t: TokView) -> Seq<u8> {
    match t.kind {
        TokKindView::StrLit { content } => content,
        _ => Seq::empty(),
    }
}

/// Appends all of `src` to `out`.
pub fn append_bytes(out: &mut Vec<u8>, src: &Vec<u8>)
    ensures
        final(out)@ == old(out)@ + src@,
{
    let mut k: usize = 0;
    proof {
        assert(out@ + src@.subrange(0, 0) =~= out@);
    }
    while k < src.len()
        invariant
            k <= src.len(),
            out@ == old(out)@ + src@.subrange(0, k as int),
        decreases src.len() - k,
    {
        out.push(src[k]);
        proof {
            assert(out@ =~= old(out)@ + src@.subrange(0, k + 1));
        }
        k = k + 1;
    }
    proof {
        assert(src@.subrange(0, src@.len() as int) =~= src@);
    }
}

} // verus!
