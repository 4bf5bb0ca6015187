//! The sum type of the states of a machine.

use crate::error::Error;
use crate::sum_type::{define_enum, enum_definition};
use crate::syntax::{optional_text, path_views, texts, Path};
use vstd::prelude::*;

verus! {

/// What the state sum type is made from: its attributes and visibility as
/// source text, its name, and the path of each state.
pub struct StateEnumInput {
    pub attributes: Vec<String>,
    pub visibility: Option<String>,
    pub ident: String,
    pub state_paths: Vec<Path>,
}

/// Writes the state sum type: one variant for each path, in order, named by
/// the last identifier of the path and holding a value of that path's type.
/// A path without a segment is refused, and so are two paths that end in
/// the same identifier.
pub fn state_enum(input: StateEnumInput) -> (r: Result<String, Error>)
    ensures
        match enum_definition(
            texts(input.attributes@),
            optional_text(input.visibility),
            input.ident@,
            path_views(input.state_paths@),
            Error::DuplicateStateName,
        ) {
            Ok(text) => r matches Ok(out) && out@ == text,
            Err(e) => r == Err::<String, Error>(e),
        },
{
    define_enum(
        &input.attributes,
        &input.visibility,
        &input.ident,
        &input.state_paths,
        Error::DuplicateStateName,
    )
}

} // verus!
