//! The parts of Rust syntax that a machine description is made of, held as
//! plain values: paths, and trait definitions down to the shape of their
//! function signatures.

use crate::text::{copy_of, same_text};
use vstd::prelude::*;
use vstd::string::*;

verus! {

/// One segment of a path: its identifier, and the source text of its generic
/// arguments, empty where it has none.
#[derive(Debug, PartialEq, Eq)]
pub struct PathSegment {
    pub ident: String,
    pub arguments: String,
}

/// A path such as `crate::lights::Red`.
#[derive(Debug, PartialEq, Eq)]
pub struct Path {
    pub leading_colon: bool,
    pub segments: Vec<PathSegment>,
}

/// What a `PathSegment` holds.
pub struct PathSegmentView {
    pub ident: Seq<char>,
    pub arguments: Seq<char>,
}

/// What a `Path` holds.
pub struct PathView {
    pub leading_colon: bool,
    pub segments: Seq<PathSegmentView>,
}

impl View for PathSegment {
    type V = PathSegmentView;

    open spec fn view(&self) -> PathSegmentView {
        PathSegmentView { ident: self.ident@, arguments: self.arguments@ }
    }
}

impl View for Path {
    type V = PathView;

    open spec fn view(&self) -> PathView {
        PathView {
            leading_colon: self.leading_colon,
            segments: self.segments@.map_values(|segment: PathSegment| segment@),
        }
    }
}

/// The text of the first `n` segments, joined by `::`.
pub open spec fn segments_text(segments: Seq<PathSegmentView>, n: nat) -> Seq<char>
    decreases n,
{
    if n == 0 {
        Seq::empty()
    } else {
        segments_text(segments, (n - 1) as nat) + (if n == 1 {
            Seq::empty()
        } else {
            "::"@
        }) + segments[n - 1].ident + segments[n - 1].arguments
    }
}

impl PathView {
    /// The path with the one segment `ident`, without arguments.
    pub open spec fn of_ident(ident: Seq<char>) -> PathView {
        PathView {
            leading_colon: false,
            segments: seq![PathSegmentView { ident, arguments: Seq::empty() }],
        }
    }

    /// The identifier of the last segment.
    pub open spec fn last_ident(self) -> Option<Seq<char>> {
        if self.segments.len() == 0 {
            None
        } else {
            Some(self.segments.last().ident)
        }
    }

    /// The source text of the path.
    pub open spec fn text(self) -> Seq<char> {
        (if self.leading_colon {
            "::"@
        } else {
            Seq::empty()
        }) + segments_text(self.segments, self.segments.len())
    }
}

impl Path {
    /// The path that is the single identifier `ident`.
    pub fn from_ident(ident: &str) -> (path: Path)
        ensures
            path@ == PathView::of_ident(ident@),
    {
        let mut segments = Vec::new();
        segments.push(PathSegment { ident: String::from_str(ident), arguments: String::new() });
        let path = Path { leading_colon: false, segments };
        assert(path@.segments =~= PathView::of_ident(ident@).segments);
        path
    }

    /// The identifier of the last segment, if the path has a segment.
    pub fn last_ident(&self) -> (ident: Option<&String>)
        ensures
            match ident {
                Some(ident) => self@.last_ident() == Some(ident@),
                None => self@.last_ident() is None,
            },
    {
        if self.segments.len() == 0 {
            None
        } else {
            Some(&self.segments[self.segments.len() - 1].ident)
        }
    }

    /// Whether the two paths are the same: both or neither start with `::`,
    /// and their segments agree in identifier and arguments.
    pub fn same_as(&self, other: &Path) -> (same: bool)
        ensures
            same == (self@ == other@),
    {
        if self.leading_colon != other.leading_colon || self.segments.len()
            != other.segments.len() {
            assert(self@.segments.len() != other@.segments.len() || self@.leading_colon
                != other@.leading_colon);
            return false;
        }
        let mut i: usize = 0;
        while i < self.segments.len()
            invariant
                i <= self.segments.len() == other.segments.len(),
                forall|j: int| 0 <= j < i ==> self@.segments[j] == other@.segments[j],
            decreases self.segments.len() - i,
        {
            if !(self.segments[i].ident == other.segments[i].ident && self.segments[i].arguments
                == other.segments[i].arguments) {
                assert(self@.segments[i as int] != other@.segments[i as int]);
                return false;
            }
            i += 1;
        }
        assert(self@.segments =~= other@.segments);
        true
    }

    /// Whether the path is the single identifier `ident`.
    pub fn is_ident(&self, ident: &str) -> (is: bool)
        ensures
            is == (self@ == PathView::of_ident(ident@)),
    {
        let is = !self.leading_colon && self.segments.len() == 1 && same_text(
            self.segments[0].ident.as_str(),
            ident,
        ) && same_text(self.segments[0].arguments.as_str(), "");
        proof {
            reveal_strlit("");
            let single = PathView::of_ident(ident@);
            assert(single.segments.len() == 1);
            assert(self@.segments.len() == self.segments.len());
            if !self.leading_colon && self.segments.len() == 1 {
                assert(self@.segments[0] == self.segments[0]@);
                assert(""@ =~= Seq::<char>::empty());
                if is {
                    assert(self@.segments =~= single.segments);
                } else {
                    assert(self@.segments[0] != single.segments[0]);
                }
            }
        }
        is
    }

    /// A copy of the path.
    pub fn duplicate(&self) -> (copy: Path)
        ensures
            copy@ == self@,
    {
        let mut segments: Vec<PathSegment> = Vec::new();
        let mut i: usize = 0;
        while i < self.segments.len()
            invariant
                i <= self.segments.len(),
                segments.len() == i,
                forall|j: int| 0 <= j < i ==> segments[j]@ == self.segments[j]@,
            decreases self.segments.len() - i,
        {
            segments.push(
                PathSegment {
                    ident: copy_of(&self.segments[i].ident),
                    arguments: copy_of(&self.segments[i].arguments),
                },
            );
            i += 1;
        }
        let copy = Path { leading_colon: self.leading_colon, segments };
        assert(copy@.segments =~= self@.segments);
        copy
    }

    /// The source text of the path.
    pub fn text(&self) -> (text: String)
        ensures
            text@ == self@.text(),
    {
        let mut text = if self.leading_colon {
            String::from_str("::")
        } else {
            String::new()
        };
        let ghost lead = text@;
        let mut body = String::new();
        let mut i: usize = 0;
        while i < self.segments.len()
            invariant
                i <= self.segments.len(),
                body@ == segments_text(self@.segments, i as nat),
            decreases self.segments.len() - i,
        {
            if i > 0 {
                body.append("::");
            } else {
                assert(body@ + Seq::<char>::empty() =~= body@);
            }
            body.append(self.segments[i].ident.as_str());
            body.append(self.segments[i].arguments.as_str());
            i += 1;
        }
        text.append(body.as_str());
        text
    }
}


/// The type of a function argument, as far as a lifecycle hook is checked:
/// a reference, a plain path, or something else.
#[derive(Debug, PartialEq, Eq)]
pub enum Type {
    /// `&T` or `&mut T`; `elem` is the path of `T` where `T` is a path type.
    Reference { mutability: bool, elem: Option<Path> },
    /// A path type that is no reference.
    Path(Path),
    /// Any other type.
    Other,
}

/// One argument of a function signature.
#[derive(Debug, PartialEq, Eq)]
pub enum FnArg {
    /// `self`, with `&` before it where `reference` is set and with `mut`
    /// where `mutability` is set.
    Receiver { reference: bool, mutability: bool },
    /// A pattern with its type; `pat` is the source text of the pattern.
    Typed { pat: String, ty: Type },
}

/// The return type of a function signature.
#[derive(Debug, PartialEq, Eq)]
pub enum ReturnType {
    /// Nothing is written: the function returns `()`.
    Default,
    /// `-> T`.
    Type(Type),
}

/// A function signature; `text` is its source text, from its qualifiers to
/// the end of its return type.
#[derive(Debug, PartialEq, Eq)]
pub struct Signature {
    pub ident: String,
    pub asyncness: bool,
    pub inputs: Vec<FnArg>,
    pub output: ReturnType,
    pub text: String,
}

/// A function of a trait; `text` is the source text of the whole item.
#[derive(Debug, PartialEq, Eq)]
pub struct TraitItemFn {
    pub sig: Signature,
    pub text: String,
}

/// An item of a trait: a function, or anything else as source text.
#[derive(Debug, PartialEq, Eq)]
pub enum TraitItem {
    Fn(TraitItemFn),
    Other(String),
}

/// A trait definition. `attrs` holds the source text of each attribute,
/// `head` the text from the visibility to the last token before the body.
#[derive(Debug, PartialEq, Eq)]
pub struct ItemTrait {
    pub attrs: Vec<String>,
    pub head: String,
    pub ident: String,
    pub items: Vec<TraitItem>,
}

/// What a `Type` holds.
pub enum TypeView {
    Reference { mutability: bool, elem: Option<PathView> },
    Path(PathView),
    Other,
}

/// What a `FnArg` holds.
pub enum FnArgView {
    Receiver { reference: bool, mutability: bool },
    Typed { pat: Seq<char>, ty: TypeView },
}

/// What a `ReturnType` holds.
pub enum ReturnTypeView {
    Default,
    Type(TypeView),
}

/// What a `Signature` holds.
pub struct SignatureView {
    pub ident: Seq<char>,
    pub asyncness: bool,
    pub inputs: Seq<FnArgView>,
    pub output: ReturnTypeView,
    pub text: Seq<char>,
}

/// What a `TraitItemFn` holds.
pub struct TraitItemFnView {
    pub sig: SignatureView,
    pub text: Seq<char>,
}

/// What a `TraitItem` holds.
pub enum TraitItemView {
    Fn(TraitItemFnView),
    Other(Seq<char>),
}

/// What an `ItemTrait` holds.
pub struct ItemTraitView {
    pub attrs: Seq<Seq<char>>,
    pub head: Seq<char>,
    pub ident: Seq<char>,
    pub items: Seq<TraitItemView>,
}

impl View for Type {
    type V = TypeView;

    open spec fn view(&self) -> TypeView {
        match self {
            Type::Reference { mutability, elem } => TypeView::Reference {
                mutability: *mutability,
                elem: match elem {
                    Some(path) => Some(path@),
                    None => None,
                },
            },
            Type::Path(path) => TypeView::Path(path@),
            Type::Other => TypeView::Other,
        }
    }
}

impl View for FnArg {
    type V = FnArgView;

    open spec fn view(&self) -> FnArgView {
        match self {
            FnArg::Receiver { reference, mutability } => FnArgView::Receiver {
                reference: *reference,
                mutability: *mutability,
            },
            FnArg::Typed { pat, ty } => FnArgView::Typed { pat: pat@, ty: ty@ },
        }
    }
}

impl View for ReturnType {
    type V = ReturnTypeView;

    open spec fn view(&self) -> ReturnTypeView {
        match self {
            ReturnType::Default => ReturnTypeView::Default,
            ReturnType::Type(ty) => ReturnTypeView::Type(ty@),
        }
    }
}

impl View for Signature {
    type V = SignatureView;

    open spec fn view(&self) -> SignatureView {
        SignatureView {
            ident: self.ident@,
            asyncness: self.asyncness,
            inputs: self.inputs@.map_values(|input: FnArg| input@),
            output: self.output@,
            text: self.text@,
        }
    }
}

impl View for TraitItemFn {
    type V = TraitItemFnView;

    open spec fn view(&self) -> TraitItemFnView {
        TraitItemFnView { sig: self.sig@, text: self.text@ }
    }
}

impl View for TraitItem {
    type V = TraitItemView;

    open spec fn view(&self) -> TraitItemView {
        match self {
            TraitItem::Fn(function) => TraitItemView::Fn(function@),
            TraitItem::Other(text) => TraitItemView::Other(text@),
        }
    }
}

impl View for ItemTrait {
    type V = ItemTraitView;

    open spec fn view(&self) -> ItemTraitView {
        ItemTraitView {
            attrs: self.attrs@.map_values(|attr: String| attr@),
            head: self.head@,
            ident: self.ident@,
            items: self.items@.map_values(|item: TraitItem| item@),
        }
    }
}

/// The position of the first function named `name` at or after `from`.
pub open spec fn find_fn(items: Seq<TraitItemView>, name: Seq<char>, from: int) -> Option<int>
    decreases items.len() - from,
{
    if from < 0 || from >= items.len() {
        None
    } else if items[from] matches TraitItemView::Fn(function) && function.sig.ident == name {
        Some(from)
    } else {
        find_fn(items, name, from + 1)
    }
}

impl ItemTrait {
    /// The first function named `name`, with its position.
    pub fn find_fn(&self, name: &str) -> (found: Option<(usize, &TraitItemFn)>)
        ensures
            match found {
                Some((i, function)) => find_fn(self@.items, name@, 0) == Some(i as int)
                    && self@.items[i as int] == TraitItemView::Fn(function@),
                None => find_fn(self@.items, name@, 0) is None,
            },
    {
        let mut i: usize = 0;
        while i < self.items.len()
            invariant
                i <= self.items.len(),
                find_fn(self@.items, name@, 0) == find_fn(self@.items, name@, i as int),
            decreases self.items.len() - i,
        {
            assert(self@.items[i as int] == self.items[i as int]@);
            if let TraitItem::Fn(function) = &self.items[i] {
                if same_text(function.sig.ident.as_str(), name) {
                    return Some((i, function));
                }
            }
            i += 1;
        }
        None
    }
}


/// The texts that `strings` hold.
pub open spec fn texts(strings: Seq<String>) -> Seq<Seq<char>> {
    strings.map_values(|text: String| text@)
}

/// What `paths` hold.
pub open spec fn path_views(paths: Seq<Path>) -> Seq<PathView> {
    paths.map_values(|path: Path| path@)
}

/// What an optional text holds.
pub open spec fn optional_text(text: Option<String>) -> Option<Seq<char>> {
    match text {
        Some(text) => Some(text@),
        None => None,
    }
}

/// Whether each of `paths` has a segment.
pub open spec fn all_named(paths: Seq<PathView>) -> bool {
    forall|i: int| 0 <= i < paths.len() ==> (#[trigger] paths[i]).last_ident() is Some
}

/// Whether each of `paths` has a segment.
pub fn are_all_named(paths: &Vec<Path>) -> (named: bool)
    ensures
        named == all_named(path_views(paths@)),
{
    let mut i: usize = 0;
    while i < paths.len()
        invariant
            i <= paths.len(),
            forall|k: int| 0 <= k < i ==> (#[trigger] path_views(paths@)[k]).last_ident() is Some,
        decreases paths.len() - i,
    {
        assert(path_views(paths@)[i as int] == paths[i as int]@);
        if paths[i].last_ident().is_none() {
            return false;
        }
        i += 1;
    }
    true
}


/// Whether two of `paths` end in the same identifier.
pub open spec fn name_clash(paths: Seq<PathView>) -> bool {
    exists|i: int, j: int|
        0 <= i < j < paths.len() && (#[trigger] paths[i]).last_ident() == (
        #[trigger] paths[j]).last_ident()
}

/// Whether two of `paths` end in the same identifier.
pub fn has_name_clash(paths: &Vec<Path>) -> (clash: bool)
    ensures
        clash == name_clash(path_views(paths@)),
{
    let mut j: usize = 0;
    while j < paths.len()
        invariant
            j <= paths.len(),
            forall|a: int, b: int|
                0 <= a < b < j ==> (#[trigger] path_views(paths@)[a]).last_ident() != (
                #[trigger] path_views(paths@)[b]).last_ident(),
        decreases paths.len() - j,
    {
        let mut i: usize = 0;
        while i < j
            invariant
                i <= j < paths.len(),
                forall|a: int|
                    0 <= a < i ==> (#[trigger] path_views(paths@)[a]).last_ident() != path_views(
                        paths@,
                    )[j as int].last_ident(),
            decreases j - i,
        {
            assert(path_views(paths@)[i as int] == paths[i as int]@);
            assert(path_views(paths@)[j as int] == paths[j as int]@);
            let same = match (paths[i].last_ident(), paths[j].last_ident()) {
                (Some(left), Some(right)) => same_text(left.as_str(), right.as_str()),
                (None, None) => true,
                _ => false,
            };
            if same {
                return true;
            }
            i += 1;
        }
        j += 1;
    }
    false
}

/// The first `n` of `parts`, each followed by a space.
pub open spec fn spaced(parts: Seq<Seq<char>>, n: nat) -> Seq<char>
    decreases n,
{
    if n == 0 {
        Seq::empty()
    } else {
        spaced(parts, (n - 1) as nat) + parts[n - 1] + " "@
    }
}

/// `text` followed by a space, or nothing.
pub open spec fn spaced_option(text: Option<Seq<char>>) -> Seq<char> {
    match text {
        Some(text) => text + " "@,
        None => Seq::empty(),
    }
}

/// Appends each of `parts` to `out`, with a space after it.
pub fn append_spaced(out: &mut String, parts: &Vec<String>)
    ensures
        final(out)@ == old(out)@ + spaced(texts(parts@), parts@.len()),
{
    let mut i: usize = 0;
    let mut run = String::new();
    while i < parts.len()
        invariant
            i <= parts.len(),
            run@ == spaced(texts(parts@), i as nat),
        decreases parts.len() - i,
    {
        run.append(parts[i].as_str());
        run.append(" ");
        i += 1;
    }
    out.append(run.as_str());
}

/// Appends `text` to `out`, with a space after it, where there is one.
pub fn append_spaced_option(out: &mut String, text: &Option<String>)
    ensures
        final(out)@ == old(out)@ + spaced_option(optional_text(*text)),
{
    let mut run = String::new();
    match text {
        Some(text) => {
            run.append(text.as_str());
            run.append(" ");
            assert(run@ =~= text@ + " "@);
        },
        None => {},
    }
    out.append(run.as_str());
}

} // verus!
