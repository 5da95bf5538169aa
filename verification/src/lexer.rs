//! The bridge to the external Lua parser.
//!
//! The pipeline does not implement Lua parsing. One trusted function hands a
//! file's bytes to the parser and returns its token references in source
//! order; a second converts one token reference into the library's own token
//! model, carrying its exact text and trivia. A verified loop assembles the
//! stream the transform works on.

use crate::token::{concat_toks, views_of, Tok, TokKind, TokView};
use vstd::prelude::*;

verus! {

/// The external parser's token-reference type: one significant token with
/// its attached trivia. Opaque to the verifier.
#[verifier::external_type_specification]
#[verifier::external_body]
pub struct ExTokenReference(full_moon::tokenizer::TokenReference);

/// The token model a token reference carries: its leading trivia, text,
/// trailing trivia, and kind. A token reference is plain data, so its model
/// is a function of the value alone.
pub uninterp spec fn tok_model(t: full_moon::tokenizer::TokenReference) -> TokView;

/// The models of a sequence of token references.
pub open spec fn models_of(refs: Seq<full_moon::tokenizer::TokenReference>) -> Seq<TokView> {
    refs.map_values(|t: full_moon::tokenizer::TokenReference| tok_model(t))
}

/// The token stream the Lua parser produces for `text`: `None` when the text
/// does not parse, otherwise the significant tokens in source order. The
/// parse result is a function of the text alone.
pub uninterp spec fn lex_of(text: Seq<u8>) -> Option<Seq<TokView>>;

/// Relies on `full_moon::parse` and `full_moon::tokenizer::Lexer`: full_moon
/// is a lossless parser, and its lexer yields the significant tokens in
/// source order, each with its leading and trailing trivia attached, so
/// their printed forms concatenate back to exactly the source text. A text
/// that `parse` accepts lexes without errors, since the parser reads the
/// same lexer. On failure the returned bytes describe the parse error.
#[verifier::external_body]
fn lex_refs(text: &Vec<u8>) -> (r: Result<Vec<full_moon::tokenizer::TokenReference>, Vec<u8>>)
    ensures
        r is Ok <==> lex_of(text@) is Some,
        r matches Ok(refs) ==> lex_of(text@) == Some(models_of(refs@)) && concat_toks(
            models_of(refs@),
            0,
        ) == text@,
{
    let s = match std::str::from_utf8(text) {
        Ok(s) => s,
        Err(e) => return Err(e.to_string().into_bytes()),
    };
    if let Err(e) = full_moon::parse(s) {
        return Err(format!("{e:?}").into_bytes());
    }
    let mut lexer = full_moon::tokenizer::Lexer::new(s, full_moon::LuaVersion::new());
    let mut refs = Vec::new();
    while let Some(full_moon::tokenizer::LexerResult::Ok(r)) = lexer.consume() {
        refs.push(r);
    }
    Ok(refs)
}

/// Relies on the `Display` of `full_moon::tokenizer::Token` and on
/// `TokenReference::{leading_trivia, trailing_trivia, token}`: a token
/// prints as exactly its source text, trivia print as exactly their source
/// bytes, and `TokenType::{Identifier, StringLiteral}` tell names and string
/// literals (whose `literal` field holds the content without quotes) apart
/// from all other tokens.
#[verifier::external_body]
fn tok_of(t: &full_moon::tokenizer::TokenReference) -> (r: Tok)
    ensures
        r@ == tok_model(*t),
{
    Tok {
        leading: t.leading_trivia().map(|x| x.to_string()).collect::<String>().into_bytes(),
        text: t.token().to_string().into_bytes(),
        trailing: t.trailing_trivia().map(|x| x.to_string()).collect::<String>().into_bytes(),
        kind: match t.token().token_type() {
            full_moon::tokenizer::TokenType::Identifier { .. } => TokKind::Ident,
            full_moon::tokenizer::TokenType::StringLiteral { literal, .. } => TokKind::StrLit {
                content: literal.to_string().into_bytes(),
            },
            _ => TokKind::Plain,
        },
    }
}

/// Parses a file's bytes into the library's token stream: the significant
/// tokens in source order, whose full texts concatenate back to exactly the
/// input.
pub fn lex_source(text: &Vec<u8>) -> (r: Result<Vec<Tok>, Vec<u8>>)
    ensures
        r is Ok <==> lex_of(text@) is Some,
        r matches Ok(toks) ==> lex_of(text@) == Some(views_of(toks@)) && concat_toks(
            views_of(toks@),
            0,
        ) == text@,
{
    let refs = match lex_refs(text) {
        Ok(rs) => rs,
        Err(m) => {
            return Err(m);
        },
    };
    let mut toks: Vec<Tok> = Vec::new();
    let mut i: usize = 0;
    proof {
        assert(views_of(toks@) =~= models_of(refs@).subrange(0, 0));
    }
    while i < refs.len()
        invariant
            i <= refs@.len(),
            views_of(toks@) == models_of(refs@).subrange(0, i as int),
        decreases refs@.len() - i,
    {
        let ghost toks0 = toks@;
        let t = tok_of(&refs[i]);
        toks.push(t);
        proof {
            assert(views_of(toks0).len() == toks0.len());
            assert(toks0.len() == i as int);
            assert(toks@ == toks0.push(t));
            assert forall|j: int| 0 <= j <= i as int implies views_of(toks@)[j] == models_of(
                refs@,
            ).subrange(0, i + 1)[j] by {
                assert(views_of(toks@)[j] == toks@[j]@);
                if j < i as int {
                    assert(toks@[j] == toks0[j]);
                    assert(views_of(toks0)[j] == toks0[j]@);
                    assert(models_of(refs@).subrange(0, i as int)[j] == models_of(refs@)[j]);
                } else {
                    assert(toks@[j] == t);
                    assert(models_of(refs@)[j] == tok_model(refs@[j]));
                }
            }
            assert(views_of(toks@) =~= models_of(refs@).subrange(0, i + 1));
        }
        i = i + 1;
    }
    proof {
        assert(views_of(toks@) =~= models_of(refs@));
    }
    Ok(toks)
}

} // verus!
