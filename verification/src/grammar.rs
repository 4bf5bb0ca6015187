//! The grammar that the two kinds of machine description share: words and
//! punctuation, attributes, visibility, paths and trait definitions.
//!
//! Each rule is a function of a token sequence and a position in it: it
//! gives what it read with the position after it, or the error that stops
//! the parse. What a rule takes for a piece of Rust, `syn` must read as
//! that piece.

use crate::error::{Error, Expected};
use crate::rust_syntax::{
    are_attributes, is_identifier, is_path, is_trait, is_visibility, reads_as_attributes,
    reads_as_identifier, reads_as_path, reads_as_trait, reads_as_visibility,
};
use crate::syntax::{Path, PathSegment, PathSegmentView, PathView};
use crate::text::{copy_of, same_text};
use crate::token::{
    render, render_tokens, token_text, token_views, Delimiter, Token, TokenView,
};
use vstd::prelude::*;
use vstd::string::*;

verus! {

/// The word at `at`, if a word stands there.
pub open spec fn word(tokens: Seq<TokenView>, at: int) -> Option<Seq<char>> {
    if 0 <= at < tokens.len() && tokens[at] is Ident {
        Some(tokens[at]->Ident_0)
    } else {
        None
    }
}

/// Whether the word `w` stands at `at`.
pub open spec fn is_word(tokens: Seq<TokenView>, at: int, w: Seq<char>) -> bool {
    word(tokens, at) == Some(w)
}

/// Whether the punctuation character `c` stands at `at`.
pub open spec fn is_punct(tokens: Seq<TokenView>, at: int, c: char) -> bool {
    0 <= at < tokens.len() && tokens[at] is Punct && tokens[at]->Punct_0 == c
}

/// Whether `c` stands at `at` with another punctuation character directly
/// after it.
pub open spec fn is_joint(tokens: Seq<TokenView>, at: int, c: char) -> bool {
    is_punct(tokens, at, c) && tokens[at]->Punct_1
}

/// The tokens inside the group at `at`, if a group in `delimiter` stands
/// there.
pub open spec fn group(tokens: Seq<TokenView>, at: int, delimiter: Delimiter) -> Option<
    Seq<TokenView>,
> {
    if 0 <= at < tokens.len() && tokens[at] is Group && tokens[at]->Group_0 == delimiter {
        Some(tokens[at]->Group_1)
    } else {
        None
    }
}

/// The identifier at `at`: a word that `syn` reads as an identifier, which
/// a word that Rust reserves is not.
pub open spec fn name(tokens: Seq<TokenView>, at: int) -> Option<Seq<char>> {
    match word(tokens, at) {
        Some(w) => if reads_as_identifier(w) {
            Some(w)
        } else {
            None
        },
        None => None,
    }
}

/// The attributes from `at` on, added to `found`, and the position after
/// them. An attribute is `#` and a group in square brackets that `syn`
/// reads as an attribute.
pub open spec fn attributes(tokens: Seq<TokenView>, at: int, found: Seq<Seq<char>>) -> Result<
    (Seq<Seq<char>>, int),
    Error,
>
    decreases tokens.len() - at,
{
    if is_punct(tokens, at, '#') {
        if group(tokens, at + 1, Delimiter::Bracket) is Some && reads_as_attributes(
            render(tokens, at, at + 2),
        ) {
            attributes(tokens, at + 2, found.push(render(tokens, at, at + 2)))
        } else {
            Err(Error::Syntax(Expected::Attribute, (at + 1) as usize))
        }
    } else {
        Ok((found, at))
    }
}

/// The visibility at `at`, if one is written, and the position after it:
/// `pub`, with the group in parentheses that follows it, if one does, which
/// `syn` must read as a visibility.
pub open spec fn visibility(tokens: Seq<TokenView>, at: int) -> Result<
    (Option<Seq<char>>, int),
    Error,
> {
    if is_word(tokens, at, "pub"@) {
        let end = if group(tokens, at + 1, Delimiter::Parenthesis) is Some {
            at + 2
        } else {
            at + 1
        };
        if reads_as_visibility(render(tokens, at, end)) {
            Ok((Some(render(tokens, at, end)), end))
        } else {
            Err(Error::Syntax(Expected::Visibility, at as usize))
        }
    } else {
        Ok((None, at))
    }
}

/// What stands before the name of a machine, and the position of the name.
pub struct HeaderView {
    pub attributes: Seq<Seq<char>>,
    pub visibility: Option<Seq<char>>,
    pub asyncness: bool,
    pub name_at: int,
}

/// What `tokens` hold before the name of a machine: attributes, a
/// visibility, `async` where a machine of this kind may be asynchronous, and
/// `struct`, each of which may be left out.
pub open spec fn header(tokens: Seq<TokenView>, may_be_async: bool) -> Result<HeaderView, Error> {
    match attributes(tokens, 0, Seq::empty()) {
        Err(e) => Err(e),
        Ok((attrs, after_attrs)) => match visibility(tokens, after_attrs) {
            Err(e) => Err(e),
            Ok((vis, after_vis)) => {
                let asyncness = may_be_async && is_word(tokens, after_vis, "async"@);
                let after_async = if asyncness {
                    after_vis + 1
                } else {
                    after_vis
                };
                Ok(
                    HeaderView {
                        attributes: attrs,
                        visibility: vis,
                        asyncness,
                        name_at: if is_word(tokens, after_async, "struct"@) {
                            after_async + 1
                        } else {
                            after_async
                        },
                    },
                )
            },
        },
    }
}

/// Whether `w` is one of the reserved words that a path may hold.
pub open spec fn is_path_keyword(w: Seq<char>) -> bool {
    w == "super"@ || w == "self"@ || w == "crate"@ || w == "try"@
}

/// Whether `::` stands at `at`.
pub open spec fn is_double_colon(tokens: Seq<TokenView>, at: int) -> bool {
    is_joint(tokens, at, ':') && is_punct(tokens, at + 1, ':')
}

/// Whether `>` stands at `at` and closes an angle bracket: the `>` of `->`
/// does not.
pub open spec fn is_closing_angle(tokens: Seq<TokenView>, at: int) -> bool {
    is_punct(tokens, at, '>') && !is_joint(tokens, at - 1, '-')
}

/// The position after the `>` that closes the angle bracket in which `at`
/// lies `depth` brackets deep.
pub open spec fn angle_close(tokens: Seq<TokenView>, at: int, depth: int) -> Option<int>
    decreases tokens.len() - at,
{
    if at < 0 || at >= tokens.len() || depth < 1 {
        None
    } else if is_punct(tokens, at, '<') {
        angle_close(tokens, at + 1, depth + 1)
    } else if is_closing_angle(tokens, at) {
        if depth == 1 {
            Some(at + 1)
        } else {
            angle_close(tokens, at + 1, depth - 1)
        }
    } else {
        angle_close(tokens, at + 1, depth)
    }
}

/// Whether generic arguments open at `at` with `<`: `<=` and `<<=` are
/// operators and open none.
pub open spec fn opens_arguments(tokens: Seq<TokenView>, at: int) -> bool {
    is_punct(tokens, at, '<') && !(is_joint(tokens, at, '<') && (is_punct(tokens, at + 1, '=')
        || is_joint(tokens, at + 1, '<') && is_punct(tokens, at + 2, '=')))
}

/// Where the generic arguments that start at `at` end; `at` itself where
/// none start there. They open with `<` or with `::<`.
pub open spec fn arguments_end(tokens: Seq<TokenView>, at: int) -> Result<int, Error> {
    if opens_arguments(tokens, at) {
        match angle_close(tokens, at + 1, 1) {
            Some(end) => Ok(end),
            None => Err(Error::Syntax(Expected::ClosingAngle, at as usize)),
        }
    } else if is_double_colon(tokens, at) && is_punct(tokens, at + 2, '<') {
        match angle_close(tokens, at + 3, 1) {
            Some(end) => Ok(end),
            None => Err(Error::Syntax(Expected::ClosingAngle, (at + 2) as usize)),
        }
    } else {
        Ok(at)
    }
}

/// Whether the punctuation character at `at` belongs to the token after it:
/// the first colon of `::`, the dash of `->`, the quote of a lifetime.
pub open spec fn keeps_together(tokens: Seq<TokenView>, at: int) -> bool {
    ||| is_joint(tokens, at, ':') && is_punct(tokens, at + 1, ':')
    ||| is_joint(tokens, at, '-') && is_punct(tokens, at + 1, '>')
    ||| is_joint(tokens, at, '\'') && word(tokens, at + 1) is Some
}

/// The text of the token at `at` among generic arguments. There a space
/// follows every punctuation character but one that belongs to the token
/// after it, however closely the description wrote them: `Vec<Vec<u8>>` and
/// `Vec<Vec<u8> >` are the same arguments.
pub open spec fn argument_token_text(tokens: Seq<TokenView>, at: int) -> Seq<char> {
    match tokens[at] {
        TokenView::Punct(c, _) => if keeps_together(tokens, at) {
            seq![c]
        } else {
            seq![c] + " "@
        },
        other => token_text(other),
    }
}

/// The text of the generic arguments from `from` up to `to`.
pub open spec fn argument_text(tokens: Seq<TokenView>, from: int, to: int) -> Seq<char>
    decreases to - from,
{
    if 0 <= from < to <= tokens.len() {
        argument_text(tokens, from, to - 1) + argument_token_text(tokens, to - 1)
    } else {
        Seq::empty()
    }
}

/// The segment at `at` and the position after it: a word and, unless it is
/// `super`, `self`, `crate` or `try`, its generic arguments. Which words
/// can stand in a path is left to `syn`, which is asked about the path.
pub open spec fn segment(tokens: Seq<TokenView>, at: int) -> Result<(PathSegmentView, int), Error> {
    match word(tokens, at) {
        None => Err(Error::Syntax(Expected::Path, at as usize)),
        Some(w) => if is_path_keyword(w) {
            Ok((PathSegmentView { ident: w, arguments: Seq::empty() }, at + 1))
        } else {
            match arguments_end(tokens, at + 1) {
                Err(e) => Err(e),
                Ok(end) => Ok(
                    (
                        PathSegmentView { ident: w, arguments: argument_text(tokens, at + 1, end) },
                        end,
                    ),
                ),
            }
        },
    }
}

/// The segments from `at` on, added to `found`, and the position after
/// them: a segment, and another after each `::` that no group in
/// parentheses follows.
pub open spec fn segments(tokens: Seq<TokenView>, at: int, found: Seq<PathSegmentView>) -> Result<
    (Seq<PathSegmentView>, int),
    Error,
>
    decreases tokens.len() - at,
{
    match segment(tokens, at) {
        Err(e) => Err(e),
        Ok((next, end)) => {
            if at < end && is_double_colon(tokens, end) && group(
                tokens,
                end + 2,
                Delimiter::Parenthesis,
            ) is None {
                segments(tokens, end + 2, found.push(next))
            } else {
                Ok((found.push(next), end))
            }
        },
    }
}

/// What becomes of `read`, which was taken for a piece of Rust at `at`,
/// once `syn` has said whether it reads the piece: `read` itself where it
/// does, and else the refusal that names what was expected.
pub open spec fn accepted<T>(read: T, accepts: bool, expected: Expected, at: usize) -> Result<
    T,
    Error,
> {
    if accepts {
        Ok(read)
    } else {
        Err(Error::Syntax(expected, at))
    }
}

/// The path that is written at `at`, and the position after it: `::`, if
/// it is written, and segments.
pub open spec fn written_path(tokens: Seq<TokenView>, at: int) -> Result<(PathView, int), Error> {
    let leading_colon = is_double_colon(tokens, at);
    match segments(
        tokens,
        if leading_colon {
            at + 2
        } else {
            at
        },
        Seq::empty(),
    ) {
        Err(e) => Err(e),
        Ok((found, end)) => Ok((PathView { leading_colon, segments: found }, end)),
    }
}

/// The path at `at` and the position after it: the path that is written
/// there, which `syn` must read as a path.
pub open spec fn path(tokens: Seq<TokenView>, at: int) -> Result<(PathView, int), Error> {
    match written_path(tokens, at) {
        Err(e) => Err(e),
        Ok((found, end)) => accepted(
            (found, end),
            reads_as_path(render(tokens, at, end)),
            Expected::Path,
            at as usize,
        ),
    }
}

/// The paths from `at` to the end of `tokens`, added to `found`: paths
/// with a comma between them, and perhaps one after the last.
pub open spec fn path_list(tokens: Seq<TokenView>, at: int, found: Seq<PathView>) -> Result<
    Seq<PathView>,
    Error,
>
    decreases tokens.len() - at,
{
    if at < 0 || at >= tokens.len() {
        Ok(found)
    } else {
        match path(tokens, at) {
            Err(e) => Err(e),
            Ok((next, end)) => if end >= tokens.len() {
                Ok(found.push(next))
            } else if at < end && is_punct(tokens, end, ',') {
                path_list(tokens, end + 1, found.push(next))
            } else {
                Err(Error::Syntax(Expected::Comma, end as usize))
            },
        }
    }
}

/// The position of the first group in braces at or after `at`.
pub open spec fn first_brace(tokens: Seq<TokenView>, at: int) -> Option<int>
    decreases tokens.len() - at,
{
    if at < 0 || at >= tokens.len() {
        None
    } else if group(tokens, at, Delimiter::Brace) is Some {
        Some(at)
    } else {
        first_brace(tokens, at + 1)
    }
}

/// The position of the first word `w` from `at` up to `end`.
pub open spec fn first_word(tokens: Seq<TokenView>, w: Seq<char>, at: int, end: int) -> Option<int>
    decreases end - at,
{
    if at < 0 || at >= end {
        None
    } else if is_word(tokens, at, w) {
        Some(at)
    } else {
        first_word(tokens, w, at + 1, end)
    }
}

/// A trait definition as it is written: its name and its source text.
#[derive(Debug, PartialEq, Eq)]
pub struct TraitSource {
    pub ident: String,
    pub text: String,
}

/// What a `TraitSource` holds.
pub struct TraitSourceView {
    pub ident: Seq<char>,
    pub text: Seq<char>,
}

impl View for TraitSource {
    type V = TraitSourceView;

    open spec fn view(&self) -> TraitSourceView {
        TraitSourceView { ident: self.ident@, text: self.text@ }
    }
}

/// The position of the body of the trait definition that starts at `at`:
/// the first group in braces, at or after `from`, up to and with which `syn`
/// reads the tokens as a trait definition.
pub open spec fn trait_body(tokens: Seq<TokenView>, at: int, from: int) -> Option<int>
    decreases tokens.len() - from,
{
    match first_brace(tokens, from) {
        None => None,
        Some(body) => if reads_as_trait(render(tokens, at, body + 1)) {
            Some(body)
        } else if from <= body < tokens.len() {
            trait_body(tokens, at, body + 1)
        } else {
            None
        },
    }
}

/// The trait definition at `at` and the position after it: the tokens up to
/// and with its body, among them the word `trait` with the name of the
/// trait after it.
pub open spec fn trait_source(tokens: Seq<TokenView>, at: int) -> Result<
    (TraitSourceView, int),
    Error,
> {
    match trait_body(tokens, at, at) {
        None => Err(Error::Syntax(Expected::Trait, at as usize)),
        Some(body) => match first_word(tokens, "trait"@, at, body) {
            None => Err(Error::Syntax(Expected::Trait, at as usize)),
            Some(keyword) => match name(tokens, keyword + 1) {
                None => Err(Error::Syntax(Expected::Trait, (keyword + 1) as usize)),
                Some(ident) => Ok(
                    (TraitSourceView { ident, text: render(tokens, at, body + 1) }, body + 1),
                ),
            },
        },
    }
}



/// The word at `at`, if a word stands there.
pub fn word_at(tokens: &Vec<Token>, at: usize) -> (found: Option<&String>)
    ensures
        match found {
            Some(w) => word(token_views(tokens@), at as int) == Some(w@) && at < tokens.len(),
            None => word(token_views(tokens@), at as int) is None,
        },
{
    if at < tokens.len() {
        match &tokens[at] {
            Token::Ident(w) => Some(w),
            _ => None,
        }
    } else {
        None
    }
}

/// Whether the word `w` stands at `at`.
pub fn has_word(tokens: &Vec<Token>, at: usize, w: &str) -> (has: bool)
    ensures
        has == is_word(token_views(tokens@), at as int, w@),
        has ==> at < tokens.len(),
{
    match word_at(tokens, at) {
        Some(found) => same_text(found.as_str(), w),
        None => false,
    }
}

/// Whether the punctuation character `c` stands at `at`.
pub fn has_punct(tokens: &Vec<Token>, at: usize, c: char) -> (has: bool)
    ensures
        has == is_punct(token_views(tokens@), at as int, c),
        has ==> at < tokens.len(),
{
    if at < tokens.len() {
        match &tokens[at] {
            Token::Punct(found, _) => *found == c,
            _ => false,
        }
    } else {
        false
    }
}

/// Whether `c` stands at `at` with another punctuation character directly
/// after it.
pub fn has_joint(tokens: &Vec<Token>, at: usize, c: char) -> (has: bool)
    ensures
        has == is_joint(token_views(tokens@), at as int, c),
        has ==> at < tokens.len(),
{
    if at < tokens.len() {
        match &tokens[at] {
            Token::Punct(found, joint) => *found == c && *joint,
            _ => false,
        }
    } else {
        false
    }
}

/// The tokens inside the group at `at`, if a group in `delimiter` stands
/// there.
pub fn group_at(tokens: &Vec<Token>, at: usize, delimiter: Delimiter) -> (found: Option<
    &Vec<Token>,
>)
    ensures
        match found {
            Some(inner) => group(token_views(tokens@), at as int, delimiter) == Some(
                token_views(inner@),
            ) && at < tokens.len(),
            None => group(token_views(tokens@), at as int, delimiter) is None,
        },
{
    if at < tokens.len() {
        match &tokens[at] {
            Token::Group(found, inner) => {
                let same = match (found, delimiter) {
                    (Delimiter::Parenthesis, Delimiter::Parenthesis) => true,
                    (Delimiter::Brace, Delimiter::Brace) => true,
                    (Delimiter::Bracket, Delimiter::Bracket) => true,
                    (Delimiter::Invisible, Delimiter::Invisible) => true,
                    _ => false,
                };
                if same {
                    Some(inner)
                } else {
                    None
                }
            },
            _ => None,
        }
    } else {
        None
    }
}

/// The identifier at `at`, if one stands there.
pub fn name_at(tokens: &Vec<Token>, at: usize) -> (found: Option<&String>)
    ensures
        match found {
            Some(w) => name(token_views(tokens@), at as int) == Some(w@) && at < tokens.len(),
            None => name(token_views(tokens@), at as int) is None,
        },
{
    match word_at(tokens, at) {
        Some(w) => match accept(w, is_identifier(w.as_str()), Expected::Identifier, at) {
            Ok(w) => Some(w),
            Err(_) => None,
        },
        None => None,
    }
}

/// Reads the attributes from `at` on.
pub fn parse_attributes(tokens: &Vec<Token>, at: usize) -> (r: Result<(Vec<String>, usize), Error>)
    ensures
        match attributes(token_views(tokens@), at as int, Seq::empty()) {
            Ok((found, end)) => r matches Ok((attrs, after)) && crate::syntax::texts(attrs@)
                == found && after == end && at <= after && (after <= tokens.len() || after == at),
            Err(e) => r == Err::<(Vec<String>, usize), Error>(e),
        },
{
    let mut attrs: Vec<String> = Vec::new();
    let mut pos = at;
    assert(crate::syntax::texts(attrs@) =~= Seq::empty());
    while has_punct(tokens, pos, '#')
        invariant
            at <= pos,
            pos <= tokens.len() || pos == at,
            attributes(token_views(tokens@), at as int, Seq::empty()) == attributes(
                token_views(tokens@),
                pos as int,
                crate::syntax::texts(attrs@),
            ),
        decreases tokens.len() - pos,
    {
        if group_at(tokens, pos + 1, Delimiter::Bracket).is_none() {
            return Err(Error::Syntax(Expected::Attribute, pos + 1));
        }
        let written = render_tokens(tokens, pos, pos + 2);
        let accepts = are_attributes(written.as_str());
        let text = match accept(written, accepts, Expected::Attribute, pos + 1) {
            Err(e) => {
                return Err(e);
            },
            Ok(text) => text,
        };
        let ghost before = crate::syntax::texts(attrs@);
        attrs.push(text);
        assert(crate::syntax::texts(attrs@) =~= before.push(text@));
        pos = pos + 2;
    }
    Ok((attrs, pos))
}

/// Reads the visibility at `at`, if one is written.
pub fn parse_visibility(tokens: &Vec<Token>, at: usize) -> (r: Result<
    (Option<String>, usize),
    Error,
>)
    ensures
        match visibility(token_views(tokens@), at as int) {
            Ok((found, end)) => r matches Ok((read, after)) && crate::syntax::optional_text(read)
                == found && after == end && at <= after && (after <= tokens.len() || after == at),
            Err(e) => r == Err::<(Option<String>, usize), Error>(e),
        },
{
    if has_word(tokens, at, "pub") {
        let end = if group_at(tokens, at + 1, Delimiter::Parenthesis).is_some() {
            at + 2
        } else {
            at + 1
        };
        let text = render_tokens(tokens, at, end);
        let accepts = is_visibility(text.as_str());
        accept((Some(text), end), accepts, Expected::Visibility, at)
    } else {
        Ok((None, at))
    }
}

/// What stands before the name of a machine, and the position of the name.
#[derive(Debug, PartialEq, Eq)]
pub struct Header {
    pub attributes: Vec<String>,
    pub visibility: Option<String>,
    pub asyncness: bool,
    pub name_at: usize,
}

impl View for Header {
    type V = HeaderView;

    open spec fn view(&self) -> HeaderView {
        HeaderView {
            attributes: crate::syntax::texts(self.attributes@),
            visibility: crate::syntax::optional_text(self.visibility),
            asyncness: self.asyncness,
            name_at: self.name_at as int,
        }
    }
}

/// Reads what stands before the name of a machine.
pub fn parse_header(tokens: &Vec<Token>, may_be_async: bool) -> (r: Result<Header, Error>)
    ensures
        match header(token_views(tokens@), may_be_async) {
            Ok(found) => r matches Ok(read) && read@ == found,
            Err(e) => r == Err::<Header, Error>(e),
        },
{
    let (attributes, after_attrs) = match parse_attributes(tokens, 0) {
        Err(e) => {
            return Err(e);
        },
        Ok(read) => read,
    };
    let (visibility, after_vis) = match parse_visibility(tokens, after_attrs) {
        Err(e) => {
            return Err(e);
        },
        Ok(read) => read,
    };
    let asyncness = may_be_async && has_word(tokens, after_vis, "async");
    let after_async = if asyncness {
        after_vis + 1
    } else {
        after_vis
    };
    let name_at = if has_word(tokens, after_async, "struct") {
        after_async + 1
    } else {
        after_async
    };
    Ok(Header { attributes, visibility, asyncness, name_at })
}

/// Whether `::` stands at `at`.
pub fn has_double_colon(tokens: &Vec<Token>, at: usize) -> (has: bool)
    ensures
        has == is_double_colon(token_views(tokens@), at as int),
        has ==> at + 1 < tokens.len(),
{
    has_joint(tokens, at, ':') && has_punct(tokens, at + 1, ':')
}

/// Finds the `>` that closes the angle bracket opened just before `at`.
pub fn find_angle_close(tokens: &Vec<Token>, at: usize) -> (found: Option<usize>)
    ensures
        match found {
            Some(end) => angle_close(token_views(tokens@), at as int, 1) == Some(end as int)
                && at < end <= tokens.len(),
            None => angle_close(token_views(tokens@), at as int, 1) is None,
        },
{
    let mut pos = at;
    let mut nested: usize = 0;
    while pos < tokens.len()
        invariant
            at <= pos,
            nested <= pos - at,
            angle_close(token_views(tokens@), at as int, 1) == angle_close(
                token_views(tokens@),
                pos as int,
                nested + 1,
            ),
        decreases tokens.len() - pos,
    {
        if has_punct(tokens, pos, '<') {
            nested = nested + 1;
        } else if has_punct(tokens, pos, '>') && !(pos > 0 && has_joint(tokens, pos - 1, '-')) {
            if nested == 0 {
                return Some(pos + 1);
            }
            nested = nested - 1;
        }
        pos = pos + 1;
    }
    None
}

/// Finds where the generic arguments that start at `at` end.
fn find_arguments_end(tokens: &Vec<Token>, at: usize) -> (r: Result<usize, Error>)
    requires
        at <= tokens.len(),
    ensures
        match arguments_end(token_views(tokens@), at as int) {
            Ok(end) => r == Ok::<usize, Error>(end as usize) && at <= end <= tokens.len(),
            Err(e) => r == Err::<usize, Error>(e),
        },
{
    let opens = has_punct(tokens, at, '<') && !(has_joint(tokens, at, '<') && (has_punct(
        tokens,
        at + 1,
        '=',
    ) || has_joint(tokens, at + 1, '<') && has_punct(tokens, at + 2, '=')));
    if opens {
        match find_angle_close(tokens, at + 1) {
            Some(end) => Ok(end),
            None => Err(Error::Syntax(Expected::ClosingAngle, at)),
        }
    } else if has_double_colon(tokens, at) && has_punct(tokens, at + 2, '<') {
        match find_angle_close(tokens, at + 3) {
            Some(end) => Ok(end),
            None => Err(Error::Syntax(Expected::ClosingAngle, at + 2)),
        }
    } else {
        Ok(at)
    }
}

/// The text of the generic arguments from `from` up to `to`.
fn argument_tokens(tokens: &Vec<Token>, from: usize, to: usize) -> (text: String)
    requires
        from <= to <= tokens.len(),
    ensures
        text@ == argument_text(token_views(tokens@), from as int, to as int),
{
    let mut text = String::new();
    let mut i: usize = from;
    while i < to
        invariant
            from <= i <= to <= tokens.len(),
            text@ == argument_text(token_views(tokens@), from as int, i as int),
        decreases to - i,
    {
        match &tokens[i] {
            Token::Punct(c, _) => {
                let together = has_joint(tokens, i, ':') && has_punct(tokens, i + 1, ':')
                    || has_joint(tokens, i, '-') && has_punct(tokens, i + 1, '>') || has_joint(
                    tokens,
                    i,
                    '\'',
                ) && word_at(tokens, i + 1).is_some();
                let mut piece = String::new();
                crate::text::push_char(&mut piece, *c);
                assert(piece@ =~= seq![*c]);
                if !together {
                    piece.append(" ");
                }
                text.append(piece.as_str());
            },
            other => {
                crate::token::append_token(&mut text, other);
            },
        }
        i += 1;
    }
    text
}

/// Reads the path segment at `at`.
fn parse_segment(tokens: &Vec<Token>, at: usize) -> (r: Result<(PathSegment, usize), Error>)
    ensures
        match segment(token_views(tokens@), at as int) {
            Ok((found, end)) => r matches Ok((read, after)) && read@ == found && after == end && at
                < after <= tokens.len(),
            Err(e) => r == Err::<(PathSegment, usize), Error>(e),
        },
{
    match word_at(tokens, at) {
        None => Err(Error::Syntax(Expected::Path, at)),
        Some(w) => {
            let keyword = same_text(w.as_str(), "super") || same_text(w.as_str(), "self")
                || same_text(w.as_str(), "crate") || same_text(w.as_str(), "try");
            if keyword {
                Ok((PathSegment { ident: copy_of(w), arguments: String::new() }, at + 1))
            } else {
                match find_arguments_end(tokens, at + 1) {
                    Err(e) => Err(e),
                    Ok(end) => Ok(
                        (
                            PathSegment {
                                ident: copy_of(w),
                                arguments: argument_tokens(tokens, at + 1, end),
                            },
                            end,
                        ),
                    ),
                }
            }
        },
    }
}

/// Decides on `read`, which was taken for a piece of Rust at `at`, by the
/// answer that `syn` gave when it was asked whether it reads the piece.
pub fn accept<T>(read: T, accepts: bool, expected: Expected, at: usize) -> (r: Result<T, Error>)
    ensures
        r == accepted(read, accepts, expected, at),
{
    if accepts {
        Ok(read)
    } else {
        Err(Error::Syntax(expected, at))
    }
}

/// Reads the path that is written at `at`, without asking `syn`.
pub fn read_path(tokens: &Vec<Token>, at: usize) -> (r: Result<(Path, usize), Error>)
    ensures
        match written_path(token_views(tokens@), at as int) {
            Ok((found, end)) => r matches Ok((read, after)) && read@ == found && after == end && at
                < after <= tokens.len(),
            Err(e) => r == Err::<(Path, usize), Error>(e),
        },
{
    let leading_colon = has_double_colon(tokens, at);
    let start = if leading_colon {
        at + 2
    } else {
        at
    };
    let mut pos = start;
    let mut found: Vec<PathSegment> = Vec::new();
    assert(found@.map_values(|s: PathSegment| s@) =~= Seq::empty());
    loop
        invariant
            at <= start <= pos,
            pos <= tokens.len() || pos == at,
            leading_colon == is_double_colon(token_views(tokens@), at as int),
            start == (if leading_colon {
                at + 2
            } else {
                at as int
            }),
            segments(token_views(tokens@), start as int, Seq::empty()) == segments(
                token_views(tokens@),
                pos as int,
                found@.map_values(|s: PathSegment| s@),
            ),
        decreases tokens.len() - pos,
    {
        match parse_segment(tokens, pos) {
            Err(e) => {
                return Err(e);
            },
            Ok((next, end)) => {
                let ghost before = found@.map_values(|s: PathSegment| s@);
                found.push(next);
                assert(found@.map_values(|s: PathSegment| s@) =~= before.push(next@));
                if has_double_colon(tokens, end) && group_at(
                    tokens,
                    end + 2,
                    Delimiter::Parenthesis,
                ).is_none() {
                    pos = end + 2;
                } else {
                    return Ok((Path { leading_colon, segments: found }, end));
                }
            },
        }
    }
}

/// Reads the path at `at`.
pub fn parse_path(tokens: &Vec<Token>, at: usize) -> (r: Result<(Path, usize), Error>)
    ensures
        match path(token_views(tokens@), at as int) {
            Ok((found, end)) => r matches Ok((read, after)) && read@ == found && after == end && at
                < after <= tokens.len(),
            Err(e) => r == Err::<(Path, usize), Error>(e),
        },
{
    match read_path(tokens, at) {
        Err(e) => Err(e),
        Ok((read, end)) => {
            let text = render_tokens(tokens, at, end);
            accept((read, end), is_path(text.as_str()), Expected::Path, at)
        },
    }
}

/// Reads the paths that `tokens` list.
pub fn parse_path_list(tokens: &Vec<Token>) -> (r: Result<Vec<Path>, Error>)
    ensures
        match path_list(token_views(tokens@), 0, Seq::empty()) {
            Ok(found) => r matches Ok(read) && crate::syntax::path_views(read@) == found,
            Err(e) => r == Err::<Vec<Path>, Error>(e),
        },
{
    let mut pos: usize = 0;
    let mut found: Vec<Path> = Vec::new();
    assert(crate::syntax::path_views(found@) =~= Seq::empty());
    while pos < tokens.len()
        invariant
            path_list(token_views(tokens@), 0, Seq::empty()) == path_list(
                token_views(tokens@),
                pos as int,
                crate::syntax::path_views(found@),
            ),
        decreases tokens.len() - pos,
    {
        match parse_path(tokens, pos) {
            Err(e) => {
                return Err(e);
            },
            Ok((next, end)) => {
                let ghost before = crate::syntax::path_views(found@);
                found.push(next);
                assert(crate::syntax::path_views(found@) =~= before.push(next@));
                if end >= tokens.len() {
                    return Ok(found);
                } else if has_punct(tokens, end, ',') {
                    pos = end + 1;
                } else {
                    return Err(Error::Syntax(Expected::Comma, end));
                }
            },
        }
    }
    Ok(found)
}

/// Finds the first word `w` from `at` up to `end`.
pub fn find_word(tokens: &Vec<Token>, w: &str, at: usize, end: usize) -> (found: Option<usize>)
    requires
        end <= tokens.len(),
    ensures
        match found {
            Some(position) => first_word(token_views(tokens@), w@, at as int, end as int) == Some(
                position as int,
            ) && at <= position < end,
            None => first_word(token_views(tokens@), w@, at as int, end as int) is None,
        },
{
    let mut pos = at;
    while pos < end
        invariant
            at <= pos,
            end <= tokens.len(),
            first_word(token_views(tokens@), w@, at as int, end as int) == first_word(
                token_views(tokens@),
                w@,
                pos as int,
                end as int,
            ),
        decreases end - pos,
    {
        if has_word(tokens, pos, w) {
            return Some(pos);
        }
        pos = pos + 1;
    }
    None
}

/// Finds the first group in braces at or after `at`.
pub fn find_brace(tokens: &Vec<Token>, at: usize) -> (found: Option<usize>)
    ensures
        match found {
            Some(body) => first_brace(token_views(tokens@), at as int) == Some(body as int) && at
                <= body < tokens.len() && group(
                token_views(tokens@),
                body as int,
                Delimiter::Brace,
            ) is Some,
            None => first_brace(token_views(tokens@), at as int) is None,
        },
{
    let mut body = at;
    while body < tokens.len()
        invariant
            at <= body,
            first_brace(token_views(tokens@), at as int) == first_brace(
                token_views(tokens@),
                body as int,
            ),
        decreases tokens.len() - body,
    {
        if group_at(tokens, body, Delimiter::Brace).is_some() {
            return Some(body);
        }
        body = body + 1;
    }
    None
}

/// Finds the body of the trait definition that starts at `at`, and gives
/// the source text of the definition with it.
pub fn find_trait_body(tokens: &Vec<Token>, at: usize) -> (found: Option<(usize, String)>)
    ensures
        match found {
            Some((body, text)) => trait_body(token_views(tokens@), at as int, at as int) == Some(
                body as int,
            ) && at <= body < tokens.len() && text@ == render(
                token_views(tokens@),
                at as int,
                body + 1,
            ) && group(token_views(tokens@), body as int, Delimiter::Brace) is Some,
            None => trait_body(token_views(tokens@), at as int, at as int) is None,
        },
{
    let mut from = at;
    loop
        invariant
            at <= from,
            from <= tokens.len() || from == at,
            trait_body(token_views(tokens@), at as int, at as int) == trait_body(
                token_views(tokens@),
                at as int,
                from as int,
            ),
        decreases tokens.len() - from,
    {
        match find_brace(tokens, from) {
            None => {
                return None;
            },
            Some(body) => {
                let text = render_tokens(tokens, at, body + 1);
                let accepts = is_trait(text.as_str());
                match accept((body, text), accepts, Expected::Trait, at) {
                    Ok(found) => {
                        return Some(found);
                    },
                    Err(_) => {
                        from = body + 1;
                    },
                }
            },
        }
    }
}

/// Reads the trait definition at `at`.
pub fn parse_trait_source(tokens: &Vec<Token>, at: usize) -> (r: Result<
    (TraitSource, usize),
    Error,
>)
    ensures
        match trait_source(token_views(tokens@), at as int) {
            Ok((found, end)) => r matches Ok((read, after)) && read@ == found && after == end && at
                < after <= tokens.len(),
            Err(e) => r == Err::<(TraitSource, usize), Error>(e),
        },
{
    let (body, text) = match find_trait_body(tokens, at) {
        None => {
            return Err(Error::Syntax(Expected::Trait, at));
        },
        Some(found) => found,
    };
    let keyword = match find_word(tokens, "trait", at, body) {
        None => {
            return Err(Error::Syntax(Expected::Trait, at));
        },
        Some(keyword) => keyword,
    };
    match name_at(tokens, keyword + 1) {
        None => Err(Error::Syntax(Expected::Trait, keyword + 1)),
        Some(ident) => Ok((TraitSource { ident: copy_of(ident), text }, body + 1)),
    }
}

} // verus!
