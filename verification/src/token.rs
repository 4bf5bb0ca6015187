//! The tokens that a machine description is written in.

use crate::text::push_char;
use vstd::prelude::*;
use vstd::string::*;

verus! {

/// How a group of tokens is delimited.
#[derive(Clone, Copy, Debug, PartialEq, Eq)]
pub enum Delimiter {
    /// `( ... )`
    Parenthesis,
    /// `{ ... }`
    Brace,
    /// `[ ... ]`
    Bracket,
    /// Nothing is written around the group.
    Invisible,
}

/// A token, or a delimited group of tokens.
#[derive(Debug, PartialEq, Eq)]
pub enum Token {
    /// A word: an identifier or a keyword.
    Ident(String),
    /// A punctuation character; the flag says that the next token is a
    /// punctuation character that follows it directly, as in `::` or `->`.
    Punct(char, bool),
    /// A literal, as it is written.
    Literal(String),
    /// A delimited group.
    Group(Delimiter, Vec<Token>),
}

/// What a `Token` holds.
pub enum TokenView {
    Ident(Seq<char>),
    Punct(char, bool),
    Literal(Seq<char>),
    Group(Delimiter, Seq<TokenView>),
}

/// What `token` holds.
pub open spec fn token_view(token: Token) -> TokenView
    decreases token,
{
    match token {
        Token::Ident(word) => TokenView::Ident(word@),
        Token::Punct(c, joint) => TokenView::Punct(c, joint),
        Token::Literal(literal) => TokenView::Literal(literal@),
        Token::Group(delimiter, inner) => TokenView::Group(delimiter, token_views(inner@)),
    }
}

/// What `tokens` hold.
pub open spec fn token_views(tokens: Seq<Token>) -> Seq<TokenView>
    decreases tokens,
{
    Seq::new(
        tokens.len(),
        |i: int|
            if 0 <= i < tokens.len() {
                token_view(tokens[i])
            } else {
                TokenView::Group(Delimiter::Invisible, Seq::empty())
            },
    )
}

impl View for Token {
    type V = TokenView;

    open spec fn view(&self) -> TokenView {
        token_view(*self)
    }
}

/// The source text that opens a group.
pub open spec fn opening(delimiter: Delimiter) -> Seq<char> {
    match delimiter {
        Delimiter::Parenthesis => "("@,
        Delimiter::Brace => "{ "@,
        Delimiter::Bracket => "["@,
        Delimiter::Invisible => ""@,
    }
}

/// The source text that closes a group.
pub open spec fn closing(delimiter: Delimiter) -> Seq<char> {
    match delimiter {
        Delimiter::Parenthesis => ") "@,
        Delimiter::Brace => "} "@,
        Delimiter::Bracket => "] "@,
        Delimiter::Invisible => ""@,
    }
}

/// The source text of `token`. A space follows each token but a
/// punctuation character that the next one follows directly.
pub open spec fn token_text(token: TokenView) -> Seq<char>
    decreases token,
{
    match token {
        TokenView::Ident(word) => word + " "@,
        TokenView::Punct(c, joint) => if joint {
            seq![c]
        } else {
            seq![c] + " "@
        },
        TokenView::Literal(literal) => literal + " "@,
        TokenView::Group(delimiter, inner) => opening(delimiter) + render(
            inner,
            0,
            inner.len() as int,
        ) + closing(delimiter),
    }
}

/// The source text of the tokens from `from` up to `to`.
pub open spec fn render(tokens: Seq<TokenView>, from: int, to: int) -> Seq<char>
    decreases tokens, to - from,
{
    if 0 <= from < to <= tokens.len() {
        render(tokens, from, to - 1) + token_text(tokens[to - 1])
    } else {
        Seq::empty()
    }
}

/// Appends the source text of `token` to `out`.
pub fn append_token(out: &mut String, token: &Token)
    ensures
        final(out)@ == old(out)@ + token_text(token@),
    decreases token,
{
    let mut text = String::new();
    match token {
        Token::Ident(word) => {
            text.append(word.as_str());
            text.append(" ");
            assert(text@ =~= word@ + " "@);
        },
        Token::Punct(c, joint) => {
            push_char(&mut text, *c);
            assert(text@ =~= seq![*c]);
            if !*joint {
                text.append(" ");
            }
        },
        Token::Literal(literal) => {
            text.append(literal.as_str());
            text.append(" ");
            assert(text@ =~= literal@ + " "@);
        },
        Token::Group(delimiter, inner) => {
            match delimiter {
                Delimiter::Parenthesis => text.append("("),
                Delimiter::Brace => text.append("{ "),
                Delimiter::Bracket => text.append("["),
                Delimiter::Invisible => text.append(""),
            }
            assert(text@ =~= opening(*delimiter));
            let inner_text = render_tokens(inner, 0, inner.len());
            text.append(inner_text.as_str());
            match delimiter {
                Delimiter::Parenthesis => text.append(") "),
                Delimiter::Brace => text.append("} "),
                Delimiter::Bracket => text.append("] "),
                Delimiter::Invisible => text.append(""),
            }
        },
    }
    out.append(text.as_str());
}

/// The source text of the tokens from `from` up to `to`.
pub fn render_tokens(tokens: &Vec<Token>, from: usize, to: usize) -> (text: String)
    requires
        from <= to <= tokens.len(),
    ensures
        text@ == render(token_views(tokens@), from as int, to as int),
    decreases tokens, to - from,
{
    let mut text = String::new();
    let mut i: usize = from;
    while i < to
        invariant
            from <= i <= to <= tokens.len(),
            text@ == render(token_views(tokens@), from as int, i as int),
        decreases to - i,
    {
        append_token(&mut text, &tokens[i]);
        i += 1;
    }
    text
}

} // verus!
