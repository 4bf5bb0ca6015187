//! The lifecycle contract: the five hooks, the signature that each must
//! have, and the default that stands in for a hook that is not declared.

use crate::error::{Error, Hook, Mismatch};
use crate::syntax::{
    find_fn, FnArg, FnArgView, ItemTrait, ItemTraitView, Path, PathView, ReturnType,
    ReturnTypeView, Signature, SignatureView, TraitItem, TraitItemFn, TraitItemFnView,
    TraitItemView, Type, TypeView,
};
use crate::text::copy_of;
use vstd::prelude::*;
use vstd::string::*;

verus! {

/// The name under which a trait declares `hook`.
pub open spec fn hook_name(hook: Hook) -> Seq<char> {
    match hook {
        Hook::ShouldExit => "should_exit"@,
        Hook::OnExit => "on_exit"@,
        Hook::PreTransition => "pre_transition"@,
        Hook::PostTransition => "post_transition"@,
        Hook::OnEnter => "on_enter"@,
    }
}

/// Whether `arg` is `&self` (`mutable` unset) or `&mut self` (`mutable` set).
pub open spec fn is_receiver(arg: FnArgView, mutable: bool) -> bool {
    arg == (FnArgView::Receiver { reference: true, mutability: mutable })
}

/// Whether `arg` has the type `&target` (`mutable` unset) or `&mut target`
/// (`mutable` set).
pub open spec fn is_reference_to(arg: FnArgView, mutable: bool, target: PathView) -> bool {
    arg matches FnArgView::Typed { ty, .. } && ty == (TypeView::Reference {
        mutability: mutable,
        elem: Some(target),
    })
}

/// The first departure of `sig` from the signature of a mutating hook,
/// `(&mut self, &mut Context)` without a return type.
pub open spec fn mutating_mismatch(sig: SignatureView, context: PathView) -> Option<Mismatch> {
    if sig.inputs.len() < 1 || !is_receiver(sig.inputs[0], true) {
        Some(Mismatch::FirstArgument)
    } else if sig.inputs.len() < 2 || !is_reference_to(sig.inputs[1], true, context) {
        Some(Mismatch::SecondArgument)
    } else if sig.inputs.len() > 2 {
        Some(Mismatch::ArgumentCount)
    } else if sig.output != ReturnTypeView::Default {
        Some(Mismatch::ReturnType)
    } else {
        None
    }
}

/// The first departure of `sig` from the signature of `should_exit`,
/// `(&self, &Context, &EventEnum) -> bool`.
pub open spec fn should_exit_mismatch(
    sig: SignatureView,
    context: PathView,
    event_enum: Seq<char>,
) -> Option<Mismatch> {
    if sig.inputs.len() < 1 || !is_receiver(sig.inputs[0], false) {
        Some(Mismatch::FirstArgument)
    } else if sig.inputs.len() < 2 || !is_reference_to(sig.inputs[1], false, context) {
        Some(Mismatch::SecondArgument)
    } else if sig.inputs.len() < 3 || !is_reference_to(
        sig.inputs[2],
        false,
        PathView::of_ident(event_enum),
    ) {
        Some(Mismatch::ThirdArgument)
    } else if sig.inputs.len() > 3 {
        Some(Mismatch::ArgumentCount)
    } else if sig.output != ReturnTypeView::Type(TypeView::Path(PathView::of_ident("bool"@))) {
        Some(Mismatch::ReturnType)
    } else {
        None
    }
}

/// The first departure of `sig` from the signature that `hook` must have.
pub open spec fn hook_mismatch(
    hook: Hook,
    sig: SignatureView,
    context: PathView,
    event_enum: Seq<char>,
) -> Option<Mismatch> {
    if hook == Hook::ShouldExit {
        should_exit_mismatch(sig, context, event_enum)
    } else {
        mutating_mismatch(sig, context)
    }
}

/// `async `, where `asyncness` is set.
pub open spec fn async_prefix(asyncness: bool) -> Seq<char> {
    if asyncness {
        "async "@
    } else {
        Seq::empty()
    }
}

/// The source text of the signature of the default of `hook`.
pub open spec fn default_signature_text(
    hook: Hook,
    asyncness: bool,
    context: PathView,
    event_enum: Seq<char>,
) -> Seq<char> {
    match hook {
        Hook::ShouldExit => async_prefix(asyncness) + "fn should_exit(&self, context: &"@
            + context.text() + ", event: &"@ + event_enum + ") -> bool"@,
        Hook::OnExit => async_prefix(asyncness) + "fn on_exit(&mut self, context: &mut "@
            + context.text() + ")"@,
        Hook::PreTransition => async_prefix(asyncness)
            + "fn pre_transition(&mut self, _context: &mut "@ + context.text() + ")"@,
        Hook::PostTransition => async_prefix(asyncness)
            + "fn post_transition(&mut self, _context: &mut "@ + context.text() + ")"@,
        Hook::OnEnter => async_prefix(asyncness) + "fn on_enter(&mut self, context: &mut "@
            + context.text() + ")"@,
    }
}

/// The arguments of the default of `hook`.
pub open spec fn default_inputs(hook: Hook, context: PathView, event_enum: Seq<char>) -> Seq<
    FnArgView,
> {
    match hook {
        Hook::ShouldExit => seq![
            FnArgView::Receiver { reference: true, mutability: false },
            FnArgView::Typed {
                pat: "context"@,
                ty: TypeView::Reference { mutability: false, elem: Some(context) },
            },
            FnArgView::Typed {
                pat: "event"@,
                ty: TypeView::Reference {
                    mutability: false,
                    elem: Some(PathView::of_ident(event_enum)),
                },
            },
        ],
        Hook::PreTransition | Hook::PostTransition => seq![
            FnArgView::Receiver { reference: true, mutability: true },
            FnArgView::Typed {
                pat: "_context"@,
                ty: TypeView::Reference { mutability: true, elem: Some(context) },
            },
        ],
        Hook::OnExit | Hook::OnEnter => seq![
            FnArgView::Receiver { reference: true, mutability: true },
            FnArgView::Typed {
                pat: "context"@,
                ty: TypeView::Reference { mutability: true, elem: Some(context) },
            },
        ],
    }
}

/// The default of `hook`: `should_exit` answers `true`, every other hook
/// does nothing.
pub open spec fn default_hook(
    hook: Hook,
    asyncness: bool,
    context: PathView,
    event_enum: Seq<char>,
) -> TraitItemView {
    TraitItemView::Fn(
        TraitItemFnView {
            sig: SignatureView {
                ident: hook_name(hook),
                asyncness,
                inputs: default_inputs(hook, context, event_enum),
                output: if hook == Hook::ShouldExit {
                    ReturnTypeView::Type(TypeView::Path(PathView::of_ident("bool"@)))
                } else {
                    ReturnTypeView::Default
                },
                text: default_signature_text(hook, asyncness, context, event_enum),
            },
            text: default_signature_text(hook, asyncness, context, event_enum) + (if hook
                == Hook::ShouldExit {
                " { true }"@
            } else {
                " {}"@
            }),
        },
    )
}

/// The items of a trait after `hook` has been seen to: unchanged, with the
/// mismatch, where the trait declares the hook with a wrong signature;
/// unchanged where it declares it rightly; with the default added at the end
/// where it does not declare it.
pub open spec fn ensure_hook(
    items: Seq<TraitItemView>,
    hook: Hook,
    asyncness: bool,
    context: PathView,
    event_enum: Seq<char>,
) -> (Seq<TraitItemView>, Option<Error>) {
    match find_fn(items, hook_name(hook), 0) {
        Some(i) => match hook_mismatch(hook, items[i]->Fn_0.sig, context, event_enum) {
            Some(mismatch) => (items, Some(Error::Hook(hook, mismatch))),
            None => (items, None),
        },
        None => (items.push(default_hook(hook, asyncness, context, event_enum)), None),
    }
}

/// `first`, and after it `hook` where `first` left no error.
pub open spec fn then_ensure_hook(
    first: (Seq<TraitItemView>, Option<Error>),
    hook: Hook,
    asyncness: bool,
    context: PathView,
    event_enum: Seq<char>,
) -> (Seq<TraitItemView>, Option<Error>) {
    if first.1 is Some {
        first
    } else {
        ensure_hook(first.0, hook, asyncness, context, event_enum)
    }
}

/// `trait_` with `items` in place of its items.
pub open spec fn with_items(trait_: ItemTraitView, items: Seq<TraitItemView>) -> ItemTraitView {
    ItemTraitView { attrs: trait_.attrs, head: trait_.head, ident: trait_.ident, items }
}

/// The name under which a trait declares `hook`.
pub fn hook_ident(hook: Hook) -> (name: &'static str)
    ensures
        name@ == hook_name(hook),
{
    match hook {
        Hook::ShouldExit => "should_exit",
        Hook::OnExit => "on_exit",
        Hook::PreTransition => "pre_transition",
        Hook::PostTransition => "post_transition",
        Hook::OnEnter => "on_enter",
    }
}

/// Whether `arg` is `&self` or, with `mutable` set, `&mut self`.
fn arg_is_receiver(arg: &FnArg, mutable: bool) -> (is: bool)
    ensures
        is == is_receiver(arg@, mutable),
{
    match arg {
        FnArg::Receiver { reference, mutability } => *reference && *mutability == mutable,
        FnArg::Typed { .. } => false,
    }
}

/// Whether `arg` has the type `&target` or, with `mutable` set,
/// `&mut target`.
fn arg_is_reference_to(arg: &FnArg, mutable: bool, target: &Path) -> (is: bool)
    ensures
        is == is_reference_to(arg@, mutable, target@),
{
    match arg {
        FnArg::Typed { pat: _, ty: Type::Reference { mutability, elem: Some(path) } } => {
            *mutability == mutable && path.same_as(target)
        },
        _ => false,
    }
}

/// Holds `sig` against the signature of a mutating hook.
pub fn check_mutating(sig: &Signature, context: &Path) -> (mismatch: Option<Mismatch>)
    ensures
        mismatch == mutating_mismatch(sig@, context@),
{
    proof {
        assert forall|i: int| 0 <= i < sig.inputs.len() implies sig@.inputs[i]
            == sig.inputs[i]@ by {}
    }
    if sig.inputs.len() < 1 || !arg_is_receiver(&sig.inputs[0], true) {
        Some(Mismatch::FirstArgument)
    } else if sig.inputs.len() < 2 || !arg_is_reference_to(&sig.inputs[1], true, context) {
        Some(Mismatch::SecondArgument)
    } else if sig.inputs.len() > 2 {
        Some(Mismatch::ArgumentCount)
    } else {
        match sig.output {
            ReturnType::Default => None,
            ReturnType::Type(_) => Some(Mismatch::ReturnType),
        }
    }
}

/// Holds `sig` against the signature of `should_exit`.
pub fn check_should_exit(sig: &Signature, context: &Path, event_enum: &str) -> (mismatch: Option<
    Mismatch,
>)
    ensures
        mismatch == should_exit_mismatch(sig@, context@, event_enum@),
{
    proof {
        assert forall|i: int| 0 <= i < sig.inputs.len() implies sig@.inputs[i]
            == sig.inputs[i]@ by {}
    }
    let event_path = Path::from_ident(event_enum);
    if sig.inputs.len() < 1 || !arg_is_receiver(&sig.inputs[0], false) {
        Some(Mismatch::FirstArgument)
    } else if sig.inputs.len() < 2 || !arg_is_reference_to(&sig.inputs[1], false, context) {
        Some(Mismatch::SecondArgument)
    } else if sig.inputs.len() < 3 || !arg_is_reference_to(&sig.inputs[2], false, &event_path) {
        Some(Mismatch::ThirdArgument)
    } else if sig.inputs.len() > 3 {
        Some(Mismatch::ArgumentCount)
    } else {
        let returns_bool = match &sig.output {
            ReturnType::Type(Type::Path(path)) => path.is_ident("bool"),
            _ => false,
        };
        if returns_bool {
            None
        } else {
            Some(Mismatch::ReturnType)
        }
    }
}

/// Holds `sig` against the signature that `hook` must have.
pub fn check_hook(hook: Hook, sig: &Signature, context: &Path, event_enum: &str) -> (mismatch:
    Option<Mismatch>)
    ensures
        mismatch == hook_mismatch(hook, sig@, context@, event_enum@),
{
    match hook {
        Hook::ShouldExit => check_should_exit(sig, context, event_enum),
        _ => check_mutating(sig, context),
    }
}

/// Builds the default of `hook`.
pub fn make_default_hook(hook: Hook, asyncness: bool, context: &Path, event_enum: &str) -> (item:
    TraitItem)
    ensures
        item@ == default_hook(hook, asyncness, context@, event_enum@),
{
    let mut text = if asyncness {
        String::from_str("async ")
    } else {
        String::new()
    };
    let context_text = context.text();
    let mut inputs: Vec<FnArg> = Vec::new();
    let output;
    let body;
    match hook {
        Hook::ShouldExit => {
            text.append("fn should_exit(&self, context: &");
            text.append(context_text.as_str());
            text.append(", event: &");
            text.append(event_enum);
            text.append(") -> bool");
            inputs.push(FnArg::Receiver { reference: true, mutability: false });
            inputs.push(
                FnArg::Typed {
                    pat: String::from_str("context"),
                    ty: Type::Reference { mutability: false, elem: Some(context.duplicate()) },
                },
            );
            inputs.push(
                FnArg::Typed {
                    pat: String::from_str("event"),
                    ty: Type::Reference {
                        mutability: false,
                        elem: Some(Path::from_ident(event_enum)),
                    },
                },
            );
            output = ReturnType::Type(Type::Path(Path::from_ident("bool")));
            body = " { true }";
        },
        Hook::OnExit | Hook::OnEnter => {
            match hook {
                Hook::OnExit => text.append("fn on_exit(&mut self, context: &mut "),
                _ => text.append("fn on_enter(&mut self, context: &mut "),
            }
            text.append(context_text.as_str());
            text.append(")");
            inputs.push(FnArg::Receiver { reference: true, mutability: true });
            inputs.push(
                FnArg::Typed {
                    pat: String::from_str("context"),
                    ty: Type::Reference { mutability: true, elem: Some(context.duplicate()) },
                },
            );
            output = ReturnType::Default;
            body = " {}";
        },
        Hook::PreTransition | Hook::PostTransition => {
            match hook {
                Hook::PreTransition => text.append(
                    "fn pre_transition(&mut self, _context: &mut ",
                ),
                _ => text.append("fn post_transition(&mut self, _context: &mut "),
            }
            text.append(context_text.as_str());
            text.append(")");
            inputs.push(FnArg::Receiver { reference: true, mutability: true });
            inputs.push(
                FnArg::Typed {
                    pat: String::from_str("_context"),
                    ty: Type::Reference { mutability: true, elem: Some(context.duplicate()) },
                },
            );
            output = ReturnType::Default;
            body = " {}";
        },
    }
    let mut item_text = copy_of(&text);
    item_text.append(body);
    let sig = Signature {
        ident: String::from_str(hook_ident(hook)),
        asyncness,
        inputs,
        output,
        text,
    };
    proof {
        assert(sig@.inputs =~= default_inputs(hook, context@, event_enum@));
        assert(Seq::<char>::empty() + "fn should_exit(&self, context: &"@
            =~= "fn should_exit(&self, context: &"@);
    }
    TraitItem::Fn(TraitItemFn { sig, text: item_text })
}

/// Sees to `hook` in `trait_`: checks its signature where the trait
/// declares it, and adds its default where it does not.
pub fn ensure_hook_fn(
    hook: Hook,
    asyncness: bool,
    trait_: &mut ItemTrait,
    context: &Path,
    event_enum: &str,
) -> (r: Result<(), Error>)
    ensures
        ({
            let (items, error) = ensure_hook(
                old(trait_)@.items,
                hook,
                asyncness,
                context@,
                event_enum@,
            );
            &&& final(trait_)@ == with_items(old(trait_)@, items)
            &&& r == match error {
                Some(e) => Err::<(), Error>(e),
                None => Ok(()),
            }
        }),
{
    let verdict = match trait_.find_fn(hook_ident(hook)) {
        Some((_, function)) => Some(check_hook(hook, &function.sig, context, event_enum)),
        None => None,
    };
    match verdict {
        Some(Some(mismatch)) => Err(Error::Hook(hook, mismatch)),
        Some(None) => Ok(()),
        None => {
            let item = make_default_hook(hook, asyncness, context, event_enum);
            trait_.items.push(item);
            assert(trait_@.items =~= old(trait_)@.items.push(item@));
            Ok(())
        },
    }
}

} // verus!
