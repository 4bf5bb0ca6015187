//! The sum type of the events of a machine.

use crate::error::Error;
use crate::sum_type::{define_enum, enum_definition};
use crate::syntax::{optional_text, path_views, texts, Path};
use vstd::prelude::*;

verus! {

/// What the event sum type is made from: its attributes and visibility as
/// source text, its name, and the path of each event.
pub struct EventEnumInput {
    pub attributes: Vec<String>,
    pub visibility: Option<String>,
    pub ident: String,
    pub event_paths: Vec<Path>,
}

/// Writes the event sum type: one variant for each path, in order, named by
/// the last identifier of the path and holding a value of that path's type.
/// A path without a segment is refused, and so are two paths that end in
/// the same identifier.
pub fn event_enum(input: EventEnumInput) -> (r: Result<String, Error>)
    ensures
        match enum_definition(
            texts(input.attributes@),
            optional_text(input.visibility),
            input.ident@,
            path_views(input.event_paths@),
            Error::DuplicateEventName,
        ) {
            Ok(text) => r matches Ok(out) && out@ == text,
            Err(e) => r == Err::<String, Error>(e),
        },
{
    define_enum(
        &input.attributes,
        &input.visibility,
        &input.ident,
        &input.event_paths,
        Error::DuplicateEventName,
    )
}

} // verus!
