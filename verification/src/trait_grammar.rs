//! The grammar of a trait definition, down to the signatures of its
//! functions: what the lifecycle contract is held against.
//!
//! The rules say where the items of a trait, the arguments of a function
//! and the parts of an argument start and end; that each of them is Rust is
//! for `syn` to say.

use crate::error::{Error, Expected};
use crate::grammar::{
    accept, angle_close, attributes, find_angle_close, find_trait_body, find_word, first_brace,
    first_word, trait_body,
    group, group_at, has_double_colon, has_joint, has_punct, has_word, is_closing_angle,
    is_double_colon, is_joint, is_punct, is_word, name, name_at, parse_attributes, parse_path,
    path, word,
};
use crate::rust_syntax::{
    is_argument, is_trait_function, is_trait_item, is_type, reads_as_argument,
    reads_as_trait_function, reads_as_trait_item, reads_as_type,
};
use crate::syntax::{
    FnArg, FnArgView, ItemTrait, ItemTraitView, ReturnType, ReturnTypeView, Signature,
    SignatureView, TraitItem, TraitItemFn, TraitItemFnView, TraitItemView, Type, TypeView,
};
use crate::text::copy_of;
use crate::token::{render, render_tokens, token_views, Delimiter, Token, TokenView};
use vstd::prelude::*;
use vstd::string::*;

verus! {

/// Whether a colon stands at `at` that is no part of `::`.
pub open spec fn is_colon(tokens: Seq<TokenView>, at: int) -> bool {
    is_punct(tokens, at, ':') && !is_double_colon(tokens, at) && !is_double_colon(tokens, at - 1)
}

/// The position of the first colon that is no part of `::`, from `at` up to
/// `end`.
pub open spec fn colon_at(tokens: Seq<TokenView>, at: int, end: int) -> Option<int>
    decreases end - at,
{
    if at < 0 || at >= end {
        None
    } else if is_colon(tokens, at) {
        Some(at)
    } else {
        colon_at(tokens, at + 1, end)
    }
}

/// The type that the tokens from `from` up to `end` write, as far as a hook
/// is checked: a reference, with the path of what it refers to where that
/// is a path; a path; or something else.
pub open spec fn type_of(tokens: Seq<TokenView>, from: int, end: int) -> TypeView {
    if is_punct(tokens, from, '&') && from < end {
        let after_lifetime = if is_joint(tokens, from + 1, '\'') && word(tokens, from + 2)
            is Some {
            from + 3
        } else {
            from + 1
        };
        let mutability = is_word(tokens, after_lifetime, "mut"@);
        let elem_at = if mutability {
            after_lifetime + 1
        } else {
            after_lifetime
        };
        TypeView::Reference {
            mutability,
            elem: match path(tokens, elem_at) {
                Ok((referred, stop)) => if stop == end {
                    Some(referred)
                } else {
                    None
                },
                Err(_) => None,
            },
        }
    } else {
        match path(tokens, from) {
            Ok((named, stop)) => if stop == end {
                TypeView::Path(named)
            } else {
                TypeView::Other
            },
            Err(_) => TypeView::Other,
        }
    }
}

/// The receiver that the tokens from `from` up to `end` write, if they
/// write one: whether `&` stands before `self`, and whether `mut` does.
pub open spec fn receiver_of(tokens: Seq<TokenView>, from: int, end: int) -> Option<(bool, bool)> {
    let reference = is_punct(tokens, from, '&');
    let after_reference = if reference {
        from + 1
    } else {
        from
    };
    let after_lifetime = if reference && is_joint(tokens, after_reference, '\'') && word(
        tokens,
        after_reference + 1,
    ) is Some {
        after_reference + 2
    } else {
        after_reference
    };
    let mutability = is_word(tokens, after_lifetime, "mut"@);
    let at = if mutability {
        after_lifetime + 1
    } else {
        after_lifetime
    };
    if is_word(tokens, at, "self"@) && at < end && (at + 1 == end || is_colon(tokens, at + 1)) {
        Some((reference, mutability))
    } else {
        None
    }
}

/// The argument that the tokens from `from` up to `end` write, which `syn`
/// must read as an argument: attributes, then a receiver, or a pattern, a
/// colon and a type.
pub open spec fn argument(tokens: Seq<TokenView>, from: int, end: int) -> Result<FnArgView, Error> {
    if !reads_as_argument(render(tokens, from, end)) {
        Err(Error::Syntax(Expected::Argument, from as usize))
    } else {
        match attributes(tokens, from, Seq::empty()) {
            Err(e) => Err(e),
            Ok((_, start)) => match receiver_of(tokens, start, end) {
                Some((reference, mutability)) => Ok(FnArgView::Receiver { reference, mutability }),
                None => match colon_at(tokens, start, end) {
                    None => Err(Error::Syntax(Expected::Argument, from as usize)),
                    Some(colon) => Ok(
                        FnArgView::Typed {
                            pat: render(tokens, start, colon),
                            ty: type_of(tokens, colon + 1, end),
                        },
                    ),
                },
            },
        }
    }
}

/// The position of the first comma at or after `at` that stands outside
/// angle brackets, `nested` of which are open at `at`; the number of the
/// tokens where there is none.
pub open spec fn argument_end(tokens: Seq<TokenView>, at: int, nested: int) -> int
    decreases tokens.len() - at,
{
    if at < 0 || at >= tokens.len() {
        tokens.len() as int
    } else if is_punct(tokens, at, ',') && nested <= 0 {
        at
    } else if is_punct(tokens, at, '<') {
        argument_end(tokens, at + 1, nested + 1)
    } else if is_closing_angle(tokens, at) {
        argument_end(tokens, at + 1, nested - 1)
    } else {
        argument_end(tokens, at + 1, nested)
    }
}

/// The arguments from `at` to the end of `tokens`, added to `found`:
/// arguments with a comma between them, and perhaps one after the last.
pub open spec fn arguments(tokens: Seq<TokenView>, at: int, found: Seq<FnArgView>) -> Result<
    Seq<FnArgView>,
    Error,
>
    decreases tokens.len() - at,
{
    if at < 0 || at >= tokens.len() {
        Ok(found)
    } else {
        let end = argument_end(tokens, at, 0);
        match argument(tokens, at, end) {
            Err(e) => Err(e),
            Ok(next) => if at <= end < tokens.len() {
                arguments(tokens, end + 1, found.push(next))
            } else {
                Ok(found.push(next))
            },
        }
    }
}

/// The return type that the tokens from `at` up to `end` write, which
/// stand after the arguments of a function: none, or `->` and a type, which
/// ends where a `where` clause starts.
pub open spec fn return_type(tokens: Seq<TokenView>, at: int, end: int) -> Result<
    ReturnTypeView,
    Error,
> {
    if is_joint(tokens, at, '-') && is_punct(tokens, at + 1, '>') && at + 1 < end {
        let stop = match first_word(tokens, "where"@, at + 2, end) {
            Some(clause) => clause,
            None => end,
        };
        if reads_as_type(render(tokens, at + 2, stop)) {
            Ok(ReturnTypeView::Type(type_of(tokens, at + 2, stop)))
        } else {
            Err(Error::Syntax(Expected::Type, (at + 2) as usize))
        }
    } else {
        Ok(ReturnTypeView::Default)
    }
}

/// Where the generic parameters that start at `at` end; `at` itself where
/// none start there.
pub open spec fn generics_end(tokens: Seq<TokenView>, at: int) -> int {
    if is_punct(tokens, at, '<') {
        match angle_close(tokens, at + 1, 1) {
            Some(end) => end,
            None => at,
        }
    } else {
        at
    }
}

/// The signature that the tokens from `from` up to `end` write, where the
/// word `fn` stands at `keyword`: the name of the function after `fn`, then
/// its generic parameters, if it has any, its arguments in parentheses, and
/// its return type. The function is asynchronous where `async` stands
/// before `fn`.
pub open spec fn signature(tokens: Seq<TokenView>, from: int, keyword: int, end: int) -> Result<
    SignatureView,
    Error,
> {
    match name(tokens, keyword + 1) {
        None => Err(Error::Syntax(Expected::Signature, (keyword + 1) as usize)),
        Some(ident) => match group(
            tokens,
            generics_end(tokens, keyword + 2),
            Delimiter::Parenthesis,
        ) {
            None => Err(Error::Syntax(Expected::Signature, (keyword + 2) as usize)),
            Some(inner) => match arguments(inner, 0, Seq::empty()) {
                Err(e) => Err(e),
                Ok(inputs) => match return_type(
                    tokens,
                    generics_end(tokens, keyword + 2) + 1,
                    end,
                ) {
                    Err(e) => Err(e),
                    Ok(output) => Ok(
                        SignatureView {
                            ident,
                            asyncness: first_word(tokens, "async"@, from, keyword) is Some,
                            inputs,
                            output,
                            text: render(tokens, from, end),
                        },
                    ),
                },
            },
        },
    }
}

/// Whether the token at `at` can stand before the `fn` of a function:
/// `const`, `async`, `unsafe`, `extern`, or the literal that names the
/// calling convention after `extern`.
pub open spec fn is_qualifier(tokens: Seq<TokenView>, at: int) -> bool {
    ||| is_word(tokens, at, "const"@)
    ||| is_word(tokens, at, "async"@)
    ||| is_word(tokens, at, "unsafe"@)
    ||| is_word(tokens, at, "extern"@)
    ||| 0 <= at < tokens.len() && tokens[at] is Literal
}

/// The position of the `fn` with which the item that starts at `at` turns
/// out to be a function: the first token after the qualifiers.
pub open spec fn fn_at(tokens: Seq<TokenView>, at: int) -> Option<int>
    decreases tokens.len() - at,
{
    if at < 0 || at >= tokens.len() {
        None
    } else if is_word(tokens, at, "fn"@) {
        Some(at)
    } else if is_qualifier(tokens, at) {
        fn_at(tokens, at + 1)
    } else {
        None
    }
}

/// The position of the token that ends the function that starts at `at`:
/// the first `;` or group in braces.
pub open spec fn function_end(tokens: Seq<TokenView>, at: int) -> Option<int>
    decreases tokens.len() - at,
{
    if at < 0 || at >= tokens.len() {
        None
    } else if is_punct(tokens, at, ';') || group(tokens, at, Delimiter::Brace) is Some {
        Some(at)
    } else {
        function_end(tokens, at + 1)
    }
}

/// The position of the first `;` at or after `at`.
pub open spec fn semicolon_at(tokens: Seq<TokenView>, at: int) -> Option<int>
    decreases tokens.len() - at,
{
    if at < 0 || at >= tokens.len() {
        None
    } else if is_punct(tokens, at, ';') {
        Some(at)
    } else {
        semicolon_at(tokens, at + 1)
    }
}

/// The position of the token that ends the item that starts at `at`. A
/// function ends with the first `;` or group in braces; any other item with
/// the first `;`, or where there is none with the first group in braces.
pub open spec fn item_end(tokens: Seq<TokenView>, at: int) -> Option<int> {
    if fn_at(tokens, at) is Some {
        function_end(tokens, at)
    } else if semicolon_at(tokens, at) is Some {
        semicolon_at(tokens, at)
    } else {
        first_brace(tokens, at)
    }
}

/// The item of a trait at `at` and the position after it: attributes, then
/// the tokens up to and with the one that ends the item. It is a function
/// where `fn` follows the attributes, with nothing but qualifiers between;
/// `syn` must read it as what it is taken for.
pub open spec fn trait_item(tokens: Seq<TokenView>, at: int) -> Result<
    (TraitItemView, int),
    Error,
> {
    match attributes(tokens, at, Seq::empty()) {
        Err(e) => Err(e),
        Ok((_, start)) => match item_end(tokens, start) {
            None => Err(Error::Syntax(Expected::TraitItem, at as usize)),
            Some(end) => match fn_at(tokens, start) {
                None => if reads_as_trait_item(render(tokens, at, end + 1)) {
                    Ok((TraitItemView::Other(render(tokens, at, end + 1)), end + 1))
                } else {
                    Err(Error::Syntax(Expected::TraitItem, at as usize))
                },
                Some(keyword) => if keyword >= end || !reads_as_trait_function(
                    render(tokens, at, end + 1),
                ) {
                    Err(Error::Syntax(Expected::TraitItem, at as usize))
                } else {
                    match signature(tokens, start, keyword, end) {
                        Err(e) => Err(e),
                        Ok(sig) => Ok(
                            (
                                TraitItemView::Fn(
                                    TraitItemFnView { sig, text: render(tokens, at, end + 1) },
                                ),
                                end + 1,
                            ),
                        ),
                    }
                },
            },
        },
    }
}

/// The items of a trait from `at` to the end of `tokens`, added to `found`.
pub open spec fn trait_items(tokens: Seq<TokenView>, at: int, found: Seq<TraitItemView>) -> Result<
    Seq<TraitItemView>,
    Error,
>
    decreases tokens.len() - at,
{
    if at < 0 || at >= tokens.len() {
        Ok(found)
    } else {
        match trait_item(tokens, at) {
            Err(e) => Err(e),
            Ok((next, end)) => if at < end <= tokens.len() {
                trait_items(tokens, end, found.push(next))
            } else {
                Ok(found.push(next))
            },
        }
    }
}

/// The trait definition at `at` and the position after it: the tokens up to
/// and with its body, the first group in braces up to which `syn` reads a
/// trait definition. Its attributes come first; the word `trait` has the
/// name of the trait after it; the body holds its items.
pub open spec fn trait_definition(tokens: Seq<TokenView>, at: int) -> Result<
    (ItemTraitView, int),
    Error,
> {
    match trait_body(tokens, at, at) {
        None => Err(Error::Syntax(Expected::Trait, at as usize)),
        Some(body) => match first_word(tokens, "trait"@, at, body) {
            None => Err(Error::Syntax(Expected::Trait, at as usize)),
            Some(keyword) => match name(tokens, keyword + 1) {
                None => Err(Error::Syntax(Expected::Trait, (keyword + 1) as usize)),
                Some(ident) => match attributes(tokens, at, Seq::empty()) {
                    Err(e) => Err(e),
                    Ok((attrs, head_at)) => match trait_items(
                        group(tokens, body, Delimiter::Brace)->0,
                        0,
                        Seq::empty(),
                    ) {
                        Err(e) => Err(e),
                        Ok(items) => Ok(
                            (
                                ItemTraitView {
                                    attrs,
                                    head: render(tokens, head_at, body),
                                    ident,
                                    items,
                                },
                                body + 1,
                            ),
                        ),
                    },
                },
            },
        },
    }
}

/// Finds the first colon that is no part of `::`, from `at` up to `end`.
fn find_colon(tokens: &Vec<Token>, at: usize, end: usize) -> (found: Option<usize>)
    requires
        end <= tokens.len(),
    ensures
        match found {
            Some(colon) => colon_at(token_views(tokens@), at as int, end as int) == Some(
                colon as int,
            ) && at <= colon < end,
            None => colon_at(token_views(tokens@), at as int, end as int) is None,
        },
{
    let mut pos = at;
    while pos < end
        invariant
            at <= pos,
            end <= tokens.len(),
            colon_at(token_views(tokens@), at as int, end as int) == colon_at(
                token_views(tokens@),
                pos as int,
                end as int,
            ),
        decreases end - pos,
    {
        if has_punct(tokens, pos, ':') && !has_double_colon(tokens, pos) && !(pos > 0
            && has_double_colon(tokens, pos - 1)) {
            return Some(pos);
        }
        pos = pos + 1;
    }
    None
}

/// Whether a word stands at `at`.
fn has_any_word(tokens: &Vec<Token>, at: usize) -> (has: bool)
    ensures
        has == (word(token_views(tokens@), at as int) is Some),
        has ==> at < tokens.len(),
{
    crate::grammar::word_at(tokens, at).is_some()
}

/// Reads the path that the tokens from `at` up to `end` write, if they
/// write one.
fn read_path_up_to(tokens: &Vec<Token>, at: usize, end: usize) -> (found: Option<
    crate::syntax::Path,
>)
    ensures
        match path(token_views(tokens@), at as int) {
            Ok((named, stop)) => if stop == end {
                found matches Some(read) && read@ == named
            } else {
                found is None
            },
            Err(_) => found is None,
        },
{
    match parse_path(tokens, at) {
        Ok((read, stop)) => if stop == end {
            Some(read)
        } else {
            None
        },
        Err(_) => None,
    }
}

/// Reads the type that the tokens from `from` up to `end` write.
fn read_type(tokens: &Vec<Token>, from: usize, end: usize) -> (ty: Type)
    ensures
        ty@ == type_of(token_views(tokens@), from as int, end as int),
{
    if has_punct(tokens, from, '&') && from < end {
        let after_lifetime = if has_joint(tokens, from + 1, '\'') && has_any_word(
            tokens,
            from + 2,
        ) {
            from + 3
        } else {
            from + 1
        };
        let mutability = has_word(tokens, after_lifetime, "mut");
        let elem_at = if mutability {
            after_lifetime + 1
        } else {
            after_lifetime
        };
        Type::Reference { mutability, elem: read_path_up_to(tokens, elem_at, end) }
    } else {
        match read_path_up_to(tokens, from, end) {
            Some(named) => Type::Path(named),
            None => Type::Other,
        }
    }
}

/// Reads the receiver that the tokens from `from` up to `end` write, if
/// they write one.
fn read_receiver(tokens: &Vec<Token>, from: usize, end: usize) -> (found: Option<(bool, bool)>)
    ensures
        found == receiver_of(token_views(tokens@), from as int, end as int),
{
    let reference = has_punct(tokens, from, '&');
    let after_reference = if reference {
        from + 1
    } else {
        from
    };
    let after_lifetime = if reference && has_joint(tokens, after_reference, '\'') && has_any_word(
        tokens,
        after_reference + 1,
    ) {
        after_reference + 2
    } else {
        after_reference
    };
    let mutability = has_word(tokens, after_lifetime, "mut");
    let at = if mutability {
        after_lifetime + 1
    } else {
        after_lifetime
    };
    if has_word(tokens, at, "self") && at < end && (at + 1 == end || has_punct(tokens, at + 1, ':')
        && !has_double_colon(tokens, at + 1) && !has_double_colon(tokens, at)) {
        Some((reference, mutability))
    } else {
        None
    }
}

/// Reads the argument that the tokens from `from` up to `end` write.
fn read_argument(tokens: &Vec<Token>, from: usize, end: usize) -> (r: Result<FnArg, Error>)
    requires
        from <= end <= tokens.len(),
    ensures
        match argument(token_views(tokens@), from as int, end as int) {
            Ok(found) => r matches Ok(read) && read@ == found,
            Err(e) => r == Err::<FnArg, Error>(e),
        },
{
    let text = render_tokens(tokens, from, end);
    match accept((), is_argument(text.as_str()), Expected::Argument, from) {
        Err(e) => {
            return Err(e);
        },
        Ok(()) => {},
    }
    let start = match parse_attributes(tokens, from) {
        Err(e) => {
            return Err(e);
        },
        Ok((_, start)) => start,
    };
    match read_receiver(tokens, start, end) {
        Some((reference, mutability)) => Ok(FnArg::Receiver { reference, mutability }),
        None => match find_colon(tokens, start, end) {
            None => Err(Error::Syntax(Expected::Argument, from)),
            Some(colon) => Ok(
                FnArg::Typed {
                    pat: render_tokens(tokens, start, colon),
                    ty: read_type(tokens, colon + 1, end),
                },
            ),
        },
    }
}

/// Finds the end of the argument that starts at `at`.
fn find_argument_end(tokens: &Vec<Token>, at: usize) -> (end: usize)
    requires
        at <= tokens.len(),
    ensures
        end == argument_end(token_views(tokens@), at as int, 0),
        at <= end <= tokens.len(),
{
    let mut pos = at;
    let mut nested: usize = 0;
    let mut closed: usize = 0;
    while pos < tokens.len()
        invariant
            at <= pos <= tokens.len(),
            nested + closed <= pos - at,
            argument_end(token_views(tokens@), at as int, 0) == argument_end(
                token_views(tokens@),
                pos as int,
                nested - closed,
            ),
        decreases tokens.len() - pos,
    {
        if has_punct(tokens, pos, ',') && nested <= closed {
            return pos;
        } else if has_punct(tokens, pos, '<') {
            nested = nested + 1;
        } else if has_punct(tokens, pos, '>') && !(pos > 0 && has_joint(tokens, pos - 1, '-')) {
            closed = closed + 1;
        }
        pos = pos + 1;
    }
    pos
}

/// Reads the arguments that `tokens` list.
fn read_arguments(tokens: &Vec<Token>) -> (r: Result<Vec<FnArg>, Error>)
    ensures
        match arguments(token_views(tokens@), 0, Seq::empty()) {
            Ok(found) => r matches Ok(read) && read@.map_values(|input: FnArg| input@) == found,
            Err(e) => r == Err::<Vec<FnArg>, Error>(e),
        },
{
    let mut pos: usize = 0;
    let mut found: Vec<FnArg> = Vec::new();
    assert(found@.map_values(|input: FnArg| input@) =~= Seq::empty());
    while pos < tokens.len()
        invariant
            arguments(token_views(tokens@), 0, Seq::empty()) == arguments(
                token_views(tokens@),
                pos as int,
                found@.map_values(|input: FnArg| input@),
            ),
        decreases tokens.len() - pos,
    {
        let end = find_argument_end(tokens, pos);
        match read_argument(tokens, pos, end) {
            Err(e) => {
                return Err(e);
            },
            Ok(next) => {
                let ghost before = found@.map_values(|input: FnArg| input@);
                found.push(next);
                assert(found@.map_values(|input: FnArg| input@) =~= before.push(next@));
                if end < tokens.len() {
                    pos = end + 1;
                } else {
                    return Ok(found);
                }
            },
        }
    }
    Ok(found)
}

/// Reads the return type that the tokens from `at` up to `end` write.
fn read_return_type(tokens: &Vec<Token>, at: usize, end: usize) -> (r: Result<ReturnType, Error>)
    requires
        end <= tokens.len(),
    ensures
        match return_type(token_views(tokens@), at as int, end as int) {
            Ok(found) => r matches Ok(read) && read@ == found,
            Err(e) => r == Err::<ReturnType, Error>(e),
        },
{
    if has_joint(tokens, at, '-') && has_punct(tokens, at + 1, '>') && at + 1 < end {
        let stop = match find_word(tokens, "where", at + 2, end) {
            Some(clause) => clause,
            None => end,
        };
        let text = render_tokens(tokens, at + 2, stop);
        match accept((), is_type(text.as_str()), Expected::Type, at + 2) {
            Err(e) => Err(e),
            Ok(()) => Ok(ReturnType::Type(read_type(tokens, at + 2, stop))),
        }
    } else {
        Ok(ReturnType::Default)
    }
}

/// Finds where the generic parameters that start at `at` end.
fn find_generics_end(tokens: &Vec<Token>, at: usize) -> (end: usize)
    ensures
        end == generics_end(token_views(tokens@), at as int),
        at <= end,
        end <= tokens.len() || end == at,
{
    if has_punct(tokens, at, '<') {
        match find_angle_close(tokens, at + 1) {
            Some(end) => end,
            None => at,
        }
    } else {
        at
    }
}

/// Reads the signature that the tokens from `from` up to `end` write.
fn read_signature(tokens: &Vec<Token>, from: usize, keyword: usize, end: usize) -> (r: Result<
    Signature,
    Error,
>)
    requires
        from <= keyword < end <= tokens.len(),
    ensures
        match signature(token_views(tokens@), from as int, keyword as int, end as int) {
            Ok(found) => r matches Ok(read) && read@ == found,
            Err(e) => r == Err::<Signature, Error>(e),
        },
{
    let ident = match name_at(tokens, keyword + 1) {
        None => {
            return Err(Error::Syntax(Expected::Signature, keyword + 1));
        },
        Some(ident) => copy_of(ident),
    };
    let arguments_at = find_generics_end(tokens, keyword + 2);
    let inputs = match group_at(tokens, arguments_at, Delimiter::Parenthesis) {
        None => {
            return Err(Error::Syntax(Expected::Signature, keyword + 2));
        },
        Some(inner) => match read_arguments(inner) {
            Err(e) => {
                return Err(e);
            },
            Ok(inputs) => inputs,
        },
    };
    let output = match read_return_type(tokens, arguments_at + 1, end) {
        Err(e) => {
            return Err(e);
        },
        Ok(output) => output,
    };
    let asyncness = find_word(tokens, "async", from, keyword).is_some();
    Ok(Signature { ident, asyncness, inputs, output, text: render_tokens(tokens, from, end) })
}

/// Finds the `fn` with which the item that starts at `at` turns out to be
/// a function.
fn find_fn(tokens: &Vec<Token>, at: usize) -> (found: Option<usize>)
    ensures
        match found {
            Some(keyword) => fn_at(token_views(tokens@), at as int) == Some(keyword as int) && at
                <= keyword < tokens.len(),
            None => fn_at(token_views(tokens@), at as int) is None,
        },
{
    let mut pos = at;
    while pos < tokens.len()
        invariant
            at <= pos,
            fn_at(token_views(tokens@), at as int) == fn_at(token_views(tokens@), pos as int),
        decreases tokens.len() - pos,
    {
        if has_word(tokens, pos, "fn") {
            return Some(pos);
        }
        let literal = match &tokens[pos] {
            Token::Literal(_) => true,
            _ => false,
        };
        let qualifier = has_word(tokens, pos, "const") || has_word(tokens, pos, "async")
            || has_word(tokens, pos, "unsafe") || has_word(tokens, pos, "extern") || literal;
        if !qualifier {
            return None;
        }
        pos = pos + 1;
    }
    None
}

/// Finds the token that ends the item that starts at `at`.
fn find_item_end(tokens: &Vec<Token>, at: usize) -> (found: Option<usize>)
    ensures
        match found {
            Some(end) => item_end(token_views(tokens@), at as int) == Some(end as int) && at <= end
                < tokens.len(),
            None => item_end(token_views(tokens@), at as int) is None,
        },
{
    let function = find_fn(tokens, at).is_some();
    let mut pos = at;
    let mut brace: Option<usize> = None;
    while pos < tokens.len()
        invariant
            at <= pos,
            pos <= tokens.len() || pos == at,
            function == (fn_at(token_views(tokens@), at as int) is Some),
            function ==> function_end(token_views(tokens@), at as int) == function_end(
                token_views(tokens@),
                pos as int,
            ),
            semicolon_at(token_views(tokens@), at as int) == semicolon_at(
                token_views(tokens@),
                pos as int,
            ),
            function ==> brace is None,
            match brace {
                Some(found) => first_brace(token_views(tokens@), at as int) == Some(found as int)
                    && at <= found < pos,
                None => first_brace(token_views(tokens@), at as int) == first_brace(
                    token_views(tokens@),
                    pos as int,
                ),
            },
        decreases tokens.len() - pos,
    {
        if has_punct(tokens, pos, ';') {
            return Some(pos);
        }
        if group_at(tokens, pos, Delimiter::Brace).is_some() {
            if function {
                return Some(pos);
            }
            if brace.is_none() {
                brace = Some(pos);
            }
        }
        pos = pos + 1;
    }
    brace
}

/// Reads the item of a trait at `at`.
fn read_trait_item(tokens: &Vec<Token>, at: usize) -> (r: Result<(TraitItem, usize), Error>)
    ensures
        match trait_item(token_views(tokens@), at as int) {
            Ok((found, end)) => r matches Ok((read, after)) && read@ == found && after == end && at
                < after <= tokens.len(),
            Err(e) => r == Err::<(TraitItem, usize), Error>(e),
        },
{
    let start = match parse_attributes(tokens, at) {
        Err(e) => {
            return Err(e);
        },
        Ok((_, start)) => start,
    };
    let end = match find_item_end(tokens, start) {
        None => {
            return Err(Error::Syntax(Expected::TraitItem, at));
        },
        Some(end) => end,
    };
    let text = render_tokens(tokens, at, end + 1);
    match find_fn(tokens, start) {
        None => {
            let accepts = is_trait_item(text.as_str());
            accept((TraitItem::Other(text), end + 1), accepts, Expected::TraitItem, at)
        },
        Some(keyword) => {
            let accepts = is_trait_function(text.as_str());
            match accept((), keyword < end && accepts, Expected::TraitItem, at) {
                Err(e) => {
                    return Err(e);
                },
                Ok(()) => {},
            }
            match read_signature(tokens, start, keyword, end) {
                Err(e) => Err(e),
                Ok(sig) => Ok((TraitItem::Fn(TraitItemFn { sig, text }), end + 1)),
            }
        },
    }
}

/// Reads the items of a trait that `tokens` hold.
fn read_trait_items(tokens: &Vec<Token>) -> (r: Result<Vec<TraitItem>, Error>)
    ensures
        match trait_items(token_views(tokens@), 0, Seq::empty()) {
            Ok(found) => r matches Ok(read) && read@.map_values(|item: TraitItem| item@) == found,
            Err(e) => r == Err::<Vec<TraitItem>, Error>(e),
        },
{
    let mut pos: usize = 0;
    let mut found: Vec<TraitItem> = Vec::new();
    assert(found@.map_values(|item: TraitItem| item@) =~= Seq::empty());
    while pos < tokens.len()
        invariant
            trait_items(token_views(tokens@), 0, Seq::empty()) == trait_items(
                token_views(tokens@),
                pos as int,
                found@.map_values(|item: TraitItem| item@),
            ),
        decreases tokens.len() - pos,
    {
        match read_trait_item(tokens, pos) {
            Err(e) => {
                return Err(e);
            },
            Ok((next, end)) => {
                let ghost before = found@.map_values(|item: TraitItem| item@);
                found.push(next);
                assert(found@.map_values(|item: TraitItem| item@) =~= before.push(next@));
                pos = end;
            },
        }
    }
    Ok(found)
}

/// Reads the trait definition at `at`.
pub fn parse_trait_definition(tokens: &Vec<Token>, at: usize) -> (r: Result<
    (ItemTrait, usize),
    Error,
>)
    ensures
        match trait_definition(token_views(tokens@), at as int) {
            Ok((found, end)) => r matches Ok((read, after)) && read@ == found && after == end && at
                < after <= tokens.len(),
            Err(e) => r == Err::<(ItemTrait, usize), Error>(e),
        },
{
    let body = match find_trait_body(tokens, at) {
        None => {
            return Err(Error::Syntax(Expected::Trait, at));
        },
        Some((body, _)) => body,
    };
    let keyword = match find_word(tokens, "trait", at, body) {
        None => {
            return Err(Error::Syntax(Expected::Trait, at));
        },
        Some(keyword) => keyword,
    };
    let ident = match name_at(tokens, keyword + 1) {
        None => {
            return Err(Error::Syntax(Expected::Trait, keyword + 1));
        },
        Some(ident) => copy_of(ident),
    };
    let (attrs, head_at) = match parse_attributes(tokens, at) {
        Err(e) => {
            return Err(e);
        },
        Ok(read) => read,
    };
    let items = match group_at(tokens, body, Delimiter::Brace) {
        None => {
            return Err(Error::Syntax(Expected::Trait, at));
        },
        Some(inner) => match read_trait_items(inner) {
            Err(e) => {
                return Err(e);
            },
            Ok(items) => items,
        },
    };
    let head = if head_at <= body {
        render_tokens(tokens, head_at, body)
    } else {
        String::new()
    };
    Ok((ItemTrait { attrs, head, ident, items }, body + 1))
}

} // verus!
