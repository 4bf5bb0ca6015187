//! What `syn` accepts as Rust. A description holds pieces of Rust: paths,
//! attributes, a visibility, trait definitions with their items, blocks and
//! functions. Where such a piece starts and ends is for the grammar of
//! descriptions to say; whether it is Rust is for `syn` to say.
//!
//! `syn` reads text through `proc-macro2`, which inside a procedural macro
//! lets the compiler lex and elsewhere lexes by itself. Each question is
//! asked between `proc_macro2::fallback::force` and
//! `proc_macro2::fallback::unforce`, so that `proc-macro2` lexes by itself
//! wherever the question is asked, and the answer is the same everywhere.

use vstd::prelude::*;

verus! {

/// Whether `syn` reads `text` as an identifier.
pub uninterp spec fn reads_as_identifier(text: Seq<char>) -> bool;

/// Whether `syn` reads `text` as a run of outer attributes.
pub uninterp spec fn reads_as_attributes(text: Seq<char>) -> bool;

/// Whether `syn` reads `text` as a visibility.
pub uninterp spec fn reads_as_visibility(text: Seq<char>) -> bool;

/// Whether `syn` reads `text` as a path.
pub uninterp spec fn reads_as_path(text: Seq<char>) -> bool;

/// Whether `syn` reads `text` as a trait definition.
pub uninterp spec fn reads_as_trait(text: Seq<char>) -> bool;

/// Whether `syn` reads `text` as an item of a trait.
pub uninterp spec fn reads_as_trait_item(text: Seq<char>) -> bool;

/// Whether `syn` reads `text` as a function of a trait.
pub uninterp spec fn reads_as_trait_function(text: Seq<char>) -> bool;

/// Whether `syn` reads `text` as an argument of a function.
pub uninterp spec fn reads_as_argument(text: Seq<char>) -> bool;

/// Whether `syn` reads `text` as a type.
pub uninterp spec fn reads_as_type(text: Seq<char>) -> bool;

/// Whether `syn` reads `text` as a block.
pub uninterp spec fn reads_as_block(text: Seq<char>) -> bool;

/// Whether `syn` reads `text` as a function with a body.
pub uninterp spec fn reads_as_function(text: Seq<char>) -> bool;

/// Asks `syn::parse_str` whether all of `text` is a `syn::Ident`: a word
/// that Rust does not reserve. The answer depends on `text` alone and is
/// named `reads_as_identifier`.
/// The text is lexed by `proc-macro2` itself, between `fallback::force` and
/// `fallback::unforce`.
#[verifier::external_body]
pub(crate) fn is_identifier(text: &str) -> (is: bool)
    ensures
        is == reads_as_identifier(text@),
{
    proc_macro2::fallback::force();
    let is = syn::parse_str::<syn::Ident>(text).is_ok();
    proc_macro2::fallback::unforce();
    is
}

/// Asks `syn::Attribute::parse_outer`, through `syn::parse::Parser::parse_str`,
/// whether `text` is made of outer attributes and nothing else. The answer
/// depends on `text` alone and is named `reads_as_attributes`.
/// The text is lexed by `proc-macro2` itself, between `fallback::force` and
/// `fallback::unforce`.
#[verifier::external_body]
pub(crate) fn are_attributes(text: &str) -> (is: bool)
    ensures
        is == reads_as_attributes(text@),
{
    proc_macro2::fallback::force();
    let is = syn::parse::Parser::parse_str(syn::Attribute::parse_outer, text).is_ok();
    proc_macro2::fallback::unforce();
    is
}

/// Asks `syn::parse_str` whether all of `text` is a `syn::Visibility`. The
/// answer depends on `text` alone and is named `reads_as_visibility`.
/// The text is lexed by `proc-macro2` itself, between `fallback::force` and
/// `fallback::unforce`.
#[verifier::external_body]
pub(crate) fn is_visibility(text: &str) -> (is: bool)
    ensures
        is == reads_as_visibility(text@),
{
    proc_macro2::fallback::force();
    let is = syn::parse_str::<syn::Visibility>(text).is_ok();
    proc_macro2::fallback::unforce();
    is
}

/// Asks `syn::parse_str` whether all of `text` is a `syn::Path`. The answer
/// depends on `text` alone and is named `reads_as_path`.
/// The text is lexed by `proc-macro2` itself, between `fallback::force` and
/// `fallback::unforce`.
#[verifier::external_body]
pub(crate) fn is_path(text: &str) -> (is: bool)
    ensures
        is == reads_as_path(text@),
{
    proc_macro2::fallback::force();
    let is = syn::parse_str::<syn::Path>(text).is_ok();
    proc_macro2::fallback::unforce();
    is
}

/// Asks `syn::parse_str` whether all of `text` is a `syn::ItemTrait`. The
/// answer depends on `text` alone and is named `reads_as_trait`.
/// The text is lexed by `proc-macro2` itself, between `fallback::force` and
/// `fallback::unforce`.
#[verifier::external_body]
pub(crate) fn is_trait(text: &str) -> (is: bool)
    ensures
        is == reads_as_trait(text@),
{
    proc_macro2::fallback::force();
    let is = syn::parse_str::<syn::ItemTrait>(text).is_ok();
    proc_macro2::fallback::unforce();
    is
}

/// Asks `syn::parse_str` whether all of `text` is a `syn::TraitItem`. The
/// answer depends on `text` alone and is named `reads_as_trait_item`.
/// The text is lexed by `proc-macro2` itself, between `fallback::force` and
/// `fallback::unforce`.
#[verifier::external_body]
pub(crate) fn is_trait_item(text: &str) -> (is: bool)
    ensures
        is == reads_as_trait_item(text@),
{
    proc_macro2::fallback::force();
    let is = syn::parse_str::<syn::TraitItem>(text).is_ok();
    proc_macro2::fallback::unforce();
    is
}

/// Asks `syn::parse_str` whether all of `text` is a `syn::TraitItemFn`. The
/// answer depends on `text` alone and is named `reads_as_trait_function`.
/// The text is lexed by `proc-macro2` itself, between `fallback::force` and
/// `fallback::unforce`.
#[verifier::external_body]
pub(crate) fn is_trait_function(text: &str) -> (is: bool)
    ensures
        is == reads_as_trait_function(text@),
{
    proc_macro2::fallback::force();
    let is = syn::parse_str::<syn::TraitItemFn>(text).is_ok();
    proc_macro2::fallback::unforce();
    is
}

/// Asks `syn::parse_str` whether all of `text` is a `syn::FnArg`. The answer
/// depends on `text` alone and is named `reads_as_argument`.
/// The text is lexed by `proc-macro2` itself, between `fallback::force` and
/// `fallback::unforce`.
#[verifier::external_body]
pub(crate) fn is_argument(text: &str) -> (is: bool)
    ensures
        is == reads_as_argument(text@),
{
    proc_macro2::fallback::force();
    let is = syn::parse_str::<syn::FnArg>(text).is_ok();
    proc_macro2::fallback::unforce();
    is
}

/// Asks `syn::parse_str` whether all of `text` is a `syn::Type`. The answer
/// depends on `text` alone and is named `reads_as_type`.
/// The text is lexed by `proc-macro2` itself, between `fallback::force` and
/// `fallback::unforce`.
#[verifier::external_body]
pub(crate) fn is_type(text: &str) -> (is: bool)
    ensures
        is == reads_as_type(text@),
{
    proc_macro2::fallback::force();
    let is = syn::parse_str::<syn::Type>(text).is_ok();
    proc_macro2::fallback::unforce();
    is
}

/// Asks `syn::parse_str` whether all of `text` is a `syn::Block`. The answer
/// depends on `text` alone and is named `reads_as_block`.
/// The text is lexed by `proc-macro2` itself, between `fallback::force` and
/// `fallback::unforce`.
#[verifier::external_body]
pub(crate) fn is_block(text: &str) -> (is: bool)
    ensures
        is == reads_as_block(text@),
{
    proc_macro2::fallback::force();
    let is = syn::parse_str::<syn::Block>(text).is_ok();
    proc_macro2::fallback::unforce();
    is
}

/// Asks `syn::parse_str` whether all of `text` is a `syn::ImplItemFn`. The
/// answer depends on `text` alone and is named `reads_as_function`.
/// The text is lexed by `proc-macro2` itself, between `fallback::force` and
/// `fallback::unforce`.
#[verifier::external_body]
pub(crate) fn is_function(text: &str) -> (is: bool)
    ensures
        is == reads_as_function(text@),
{
    proc_macro2::fallback::force();
    let is = syn::parse_str::<syn::ImplItemFn>(text).is_ok();
    proc_macro2::fallback::unforce();
    is
}

} // verus!
