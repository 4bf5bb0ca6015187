//! The definition of a sum type with one variant for each path, named by
//! the last identifier of the path and holding a value of the path's type.

use crate::error::Error;
use crate::syntax::{
    all_named, append_spaced, append_spaced_option, has_name_clash, name_clash, optional_text,
    path_views, spaced, spaced_option, texts, Path, PathView,
};
use vstd::prelude::*;
use vstd::string::*;

verus! {

/// The variants of the first `n` paths, each followed by a comma.
pub open spec fn variants_text(paths: Seq<PathView>, n: nat) -> Seq<char>
    decreases n,
{
    if n == 0 {
        Seq::empty()
    } else {
        variants_text(paths, (n - 1) as nat) + paths[n - 1].last_ident()->0 + "("@ + paths[n
            - 1].text() + "), "@
    }
}

/// The source text of the sum type `ident` over `paths`.
pub open spec fn enum_text(
    attributes: Seq<Seq<char>>,
    visibility: Option<Seq<char>>,
    ident: Seq<char>,
    paths: Seq<PathView>,
) -> Seq<char> {
    spaced(attributes, attributes.len()) + spaced_option(visibility) + "enum "@ + ident + " { "@
        + variants_text(paths, paths.len()) + "}"@
}

/// The sum type `ident` over `paths`. A path that has no segment to name
/// its variant by is refused, and so are two paths that end in the same
/// identifier, with `clash`: the names of the variants of a sum type are
/// unique.
pub open spec fn enum_definition(
    attributes: Seq<Seq<char>>,
    visibility: Option<Seq<char>>,
    ident: Seq<char>,
    paths: Seq<PathView>,
    clash: Error,
) -> Result<Seq<char>, Error> {
    if !all_named(paths) {
        Err(Error::EmptyVariantPath)
    } else if name_clash(paths) {
        Err(clash)
    } else {
        Ok(enum_text(attributes, visibility, ident, paths))
    }
}

/// Writes the sum type `ident` over `paths`.
pub fn define_enum(
    attributes: &Vec<String>,
    visibility: &Option<String>,
    ident: &String,
    paths: &Vec<Path>,
    clash: Error,
) -> (r: Result<String, Error>)
    ensures
        match enum_definition(
            texts(attributes@),
            optional_text(*visibility),
            ident@,
            path_views(paths@),
            clash,
        ) {
            Ok(text) => r matches Ok(out) && out@ == text,
            Err(e) => r == Err::<String, Error>(e),
        },
{
    let mut variants = String::new();
    let mut i: usize = 0;
    while i < paths.len()
        invariant
            i <= paths.len(),
            forall|k: int|
                0 <= k < i ==> (#[trigger] path_views(paths@)[k]).last_ident() is Some,
            variants@ == variants_text(path_views(paths@), i as nat),
        decreases paths.len() - i,
    {
        assert(path_views(paths@)[i as int] == paths[i as int]@);
        match paths[i].last_ident() {
            Some(name) => {
                variants.append(name.as_str());
                variants.append("(");
                let text = paths[i].text();
                variants.append(text.as_str());
                variants.append("), ");
            },
            None => {
                return Err(Error::EmptyVariantPath);
            },
        }
        i += 1;
    }
    if has_name_clash(paths) {
        return Err(clash);
    }
    let mut out = String::new();
    append_spaced(&mut out, attributes);
    append_spaced_option(&mut out, visibility);
    out.append("enum ");
    out.append(ident.as_str());
    out.append(" { ");
    out.append(variants.as_str());
    out.append("}");
    proof {
        let attrs = texts(attributes@);
        assert(Seq::<char>::empty() + spaced(attrs, attrs.len()) =~= spaced(attrs, attrs.len()));
    }
    Ok(out)
}

} // verus!
