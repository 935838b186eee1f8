//! The engine's model of the host-language token stream handed to the macro:
//! a flat sequence of token trees, where a tree is either a single token or a
//! delimited group of tokens. Only the token shapes the engine inspects are
//! distinguished — identifiers, `=`, `,`, string literals — everything else is
//! `Other`. Each token carries the span it covers in the host source, so
//! diagnostics can point at it.

use vstd::prelude::*;

verus! {

/// A half-open byte range in the host source file.
#[derive(Clone, Copy, PartialEq, Eq, Structural, Debug)]
pub struct Span {
    pub lo: usize,
    pub hi: usize,
}

/// The shapes of single tokens the engine distinguishes.
pub enum TokenKind {
    Ident(String),
    Eq,
    Comma,
    LitStr(String),
    Other,
}

/// A single token with its source span.
pub struct Token {
    pub kind: TokenKind,
    pub span: Span,
}

/// The delimiter of a delimited token group.
#[derive(Clone, Copy, PartialEq, Eq, Structural, Debug)]
pub enum Delim {
    Paren,
    Bracket,
    Brace,
}

/// One tree of the invocation's token stream: a single token, or a delimited
/// group of tokens.
pub enum TokenTree {
    Leaf(Token),
    Group(Delim, Span, Vec<Token>),
}

/// Mathematical model of a token kind: strings as character sequences.
pub enum TokenKindV {
    Ident(Seq<char>),
    Eq,
    Comma,
    LitStr(Seq<char>),
    Other,
}

/// Mathematical model of a token.
pub struct TokenV {
    pub kind: TokenKindV,
    pub span: Span,
}

/// Mathematical model of a token tree.
pub enum TokenTreeV {
    Leaf(TokenV),
    Group(Delim, Span, Seq<TokenV>),
}

impl View for TokenKind {
    type V = TokenKindV;

    open spec fn view(&self) -> TokenKindV {
        match self {
            TokenKind::Ident(s) => TokenKindV::Ident(s@),
            TokenKind::Eq => TokenKindV::Eq,
            TokenKind::Comma => TokenKindV::Comma,
            TokenKind::LitStr(s) => TokenKindV::LitStr(s@),
            TokenKind::Other => TokenKindV::Other,
        }
    }
}

impl View for Token {
    type V = TokenV;

    open spec fn view(&self) -> TokenV {
        TokenV { kind: self.kind@, span: self.span }
    }
}

impl View for TokenTree {
    type V = TokenTreeV;

    open spec fn view(&self) -> TokenTreeV {
        match self {
            TokenTree::Leaf(t) => TokenTreeV::Leaf(t@),
            TokenTree::Group(d, sp, toks) => TokenTreeV::Group(*d, *sp, token_views(toks@)),
        }
    }
}

/// The models of a sequence of tokens.
pub open spec fn token_views(toks: Seq<Token>) -> Seq<TokenV> {
    toks.map_values(|t: Token| t@)
}

/// The models of a sequence of token trees.
pub open spec fn tree_views(tts: Seq<TokenTree>) -> Seq<TokenTreeV> {
    tts.map_values(|t: TokenTree| t@)
}

} // verus!
