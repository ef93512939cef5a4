//! From an expansion to the token stream that a derive returns.
//!
//! A token stream is a sequence of token trees. What a stream holds is known
//! to the verified code only by name, as [`stream_tokens`]. The streams
//! themselves are made by `syn` and `proc_macro2`, which pick their lexer and
//! their rendering of literals at run time. So the tokens of a message and of
//! a source text have no name of their own: a stream is only said to be what
//! came of that message ([`renders_error`]) or of that text ([`lexes`]). What
//! is proved here is which pieces are made, of what, and how they are put
//! together.
use vstd::prelude::*;
use crate::bundle::{Expansion, ExpansionView};
use crate::site::{Site, call_site};

verus! {

#[verifier::external_type_specification]
#[verifier::external_body]
pub struct ExTokenStream(proc_macro2::TokenStream);

/// The token trees that a stream holds, in order, each as its text.
pub uninterp spec fn stream_tokens(stream: proc_macro2::TokenStream) -> Seq<Seq<char>>;

/// The token trees of a list of streams, one stream after the other.
pub open spec fn joined(pieces: Seq<proc_macro2::TokenStream>) -> Seq<Seq<char>>
    decreases pieces.len(),
{
    if pieces.len() == 0 {
        Seq::empty()
    } else {
        joined(pieces.drop_last()) + stream_tokens(pieces.last())
    }
}

/// The token trees that open an invocation of `compile_error!`:
/// `::core::compile_error!`, token tree by token tree.
pub open spec fn error_path() -> Seq<Seq<char>> {
    seq![":"@, ":"@, "core"@, ":"@, ":"@, "compile_error"@, "!"@]
}

/// These token trees are what `syn` made of an error with this message.
pub uninterp spec fn renders_error(tokens: Seq<Seq<char>>, message: Seq<char>) -> bool;

/// The token trees of this stream are reported at this span: a compile error
/// that they raise points there.
pub uninterp spec fn spanned_at(stream: proc_macro2::TokenStream, span: proc_macro2::Span) -> bool;

/// These token trees are what the lexer made of this source text.
pub uninterp spec fn lexes(tokens: Seq<Seq<char>>, code: Seq<char>) -> bool;

/// These token trees are an invocation of `compile_error!` with this message:
/// the path of the macro, and one more token tree for the braces that hold
/// the message.
pub open spec fn error_invocation(tokens: Seq<Seq<char>>, message: Seq<char>) -> bool {
    &&& tokens.len() == 8
    &&& tokens.take(7) == error_path()
    &&& renders_error(tokens, message)
}

/// A stream is the stream of an expansion: it is put together from one
/// invocation of `compile_error!` for each diagnostic, with its message and in
/// the order of the diagnostics, and one last piece, which is what the lexer
/// made of the code or, for code that does not lex, one more invocation of
/// `compile_error!`. A diagnostic that points at a piece of the declaration
/// is reported at the span of that piece.
pub open spec fn is_expansion_stream(out: proc_macro2::TokenStream, expansion: ExpansionView) -> bool {
    exists|pieces: Seq<proc_macro2::TokenStream>|
        {
            &&& pieces.len() == expansion.diagnostics.len() + 1
            &&& stream_tokens(out) == #[trigger] joined(pieces)
            &&& forall|i: int|
                0 <= i < expansion.diagnostics.len() ==> error_invocation(
                    stream_tokens(#[trigger] pieces[i]),
                    expansion.diagnostics[i].message,
                )
            &&& forall|i: int|
                0 <= i < expansion.diagnostics.len() ==> (expansion.diagnostics[i].site matches Site::Span(
                    span,
                ) ==> spanned_at(#[trigger] pieces[i], span))
            &&& {
                ||| lexes(stream_tokens(pieces.last()), expansion.code)
                ||| exists|message: Seq<char>|
                    error_invocation(stream_tokens(pieces.last()), message)
            }
        }
}

/// `proc_macro2::TokenStream::new`: a stream that holds no token tree.
#[verifier::external_body]
fn no_tokens() -> (out: proc_macro2::TokenStream)
    ensures
        stream_tokens(out) == Seq::<Seq<char>>::empty(),
{
    proc_macro2::TokenStream::new()
}

/// `syn::Error::new` and `syn::Error::into_compile_error`: an invocation of
/// `compile_error!` with the message, reported at the span. It is made of
/// eight token trees: the seven of `::core::compile_error!`, and the braces
/// that hold the message as a string literal. Each of them is given the span.
#[verifier::external_body]
fn error_tokens(message: &str, span: proc_macro2::Span) -> (out: proc_macro2::TokenStream)
    ensures
        stream_tokens(out).len() == 8,
        stream_tokens(out).take(7) == error_path(),
        renders_error(stream_tokens(out), message@),
        spanned_at(out, span),
{
    syn::Error::new(span, message).into_compile_error()
}

/// `<proc_macro2::TokenStream as FromStr>::from_str`: the tokens of a source
/// text, or the message of the lexer where the text is no sequence of tokens.
#[verifier::external_body]
fn lex(code: &str) -> (lexed: Result<proc_macro2::TokenStream, String>)
    ensures
        lexed matches Ok(stream) ==> lexes(stream_tokens(stream), code@),
{
    code.parse::<proc_macro2::TokenStream>().map_err(|e| e.to_string())
}

/// `<proc_macro2::TokenStream as Extend<TokenStream>>::extend`: moves the token
/// trees of `more` behind those of `out`, in their order.
#[verifier::external_body]
fn append(out: &mut proc_macro2::TokenStream, more: proc_macro2::TokenStream)
    ensures
        stream_tokens(*final(out)) == stream_tokens(*old(out)) + stream_tokens(more),
{
    out.extend(Some(more));
}

/// Puts streams together into one: the result holds the token trees of the
/// first stream, then those of the second, and so on.
pub fn join_streams(pieces: Vec<proc_macro2::TokenStream>) -> (out: proc_macro2::TokenStream)
    ensures
        stream_tokens(out) == joined(pieces@),
{
    let ghost all = pieces@;
    let count = pieces.len();
    let mut out = no_tokens();
    let mut i: usize = 0;
    assert(all.take(0).len() == 0);
    for piece in streams: pieces.into_iter()
        invariant
            i == streams.index(),
            streams.seq() == all,
            all.len() == count,
            stream_tokens(out) == joined(all.take(i as int)),
    {
        proof {
            let now = all.take(i + 1);
            assert(now.drop_last() =~= all.take(i as int));
            assert(now.last() == piece);
        }
        append(&mut out, piece);
        i += 1;
    }
    assert(all.take(i as int) =~= all);
    out
}

/// The piece of a stream that stands for the generated code, from what the
/// lexer made of the code: the tokens it read, or, where it failed, an
/// invocation of `compile_error!` with its message, reported at the macro
/// invocation.
pub fn code_or_error(lexed: Result<proc_macro2::TokenStream, String>) -> (piece:
    proc_macro2::TokenStream)
    ensures
        match lexed {
            Ok(stream) => piece == stream,
            Err(message) => error_invocation(stream_tokens(piece), message@),
        },
{
    match lexed {
        Ok(stream) => stream,
        Err(message) => error_tokens(message.as_str(), call_site()),
    }
}

/// The token stream of an expansion: one invocation of `compile_error!` for
/// each diagnostic, in order, then the tokens of the generated code. Code that
/// does not lex, which can only come of a declaration whose texts are no
/// tokens, is reported as one more compile error at the macro invocation.
///
/// Each diagnostic is reported at the span of its site.
pub fn expansion_tokens(expansion: &Expansion) -> (out: proc_macro2::TokenStream)
    ensures
        is_expansion_stream(out, expansion@),
{
    let ghost wanted = expansion@.diagnostics;
    let mut pieces: Vec<proc_macro2::TokenStream> = Vec::new();
    let mut i: usize = 0;
    while i < expansion.diagnostics.len()
        invariant
            i <= expansion.diagnostics.len(),
            pieces.len() == i,
            wanted == expansion@.diagnostics,
            wanted.len() == expansion.diagnostics.len(),
            forall|k: int|
                0 <= k < i ==> error_invocation(
                    stream_tokens(#[trigger] pieces@[k]),
                    wanted[k].message,
                ),
            forall|k: int|
                0 <= k < i ==> (wanted[k].site matches Site::Span(span) ==> spanned_at(
                    #[trigger] pieces@[k],
                    span,
                )),
        decreases expansion.diagnostics.len() - i,
    {
        let diagnostic = &expansion.diagnostics[i];
        assert(wanted[i as int] == diagnostic@);
        pieces.push(error_tokens(diagnostic.message.as_str(), diagnostic.site.span()));
        i += 1;
    }
    let code = code_or_error(lex(expansion.code.as_str()));
    pieces.push(code);
    let ghost all = pieces@;
    let out = join_streams(pieces);
    proof {
        assert(all.last() == code);
        assert(stream_tokens(out) == joined(all));
    }
    out
}

} // verus!
