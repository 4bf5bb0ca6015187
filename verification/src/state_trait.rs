//! Completion and validation of the state trait: `on_enter`, `on_exit` and
//! `should_exit`.

use crate::error::{Error, Hook};
use crate::lifecycle::{ensure_hook, ensure_hook_fn, then_ensure_hook, with_items};
use crate::syntax::{ItemTrait, Path, PathView, TraitItemView};
use vstd::prelude::*;

verus! {

/// The items of a state trait after its three hooks have been seen to, in
/// the order `on_enter`, `on_exit`, `should_exit`, up to the first error.
pub open spec fn state_hooks(
    items: Seq<TraitItemView>,
    asyncness: bool,
    context: PathView,
    event_enum: Seq<char>,
) -> (Seq<TraitItemView>, Option<Error>) {
    then_ensure_hook(
        then_ensure_hook(
            ensure_hook(items, Hook::OnEnter, asyncness, context, ""@),
            Hook::OnExit,
            asyncness,
            context,
            ""@,
        ),
        Hook::ShouldExit,
        asyncness,
        context,
        event_enum,
    )
}

/// Makes `trait_` a state trait: each of `on_enter`, `on_exit` and
/// `should_exit` must have the signature of the lifecycle contract where the
/// trait declares it, and gets its default, `async` where `asyncness` is
/// set, where the trait does not. Stops at the first hook that fails.
pub fn ensure_state_trait(
    asyncness: bool,
    trait_: &mut ItemTrait,
    context_path: &Path,
    event_enum_ident: &str,
) -> (r: Result<(), Error>)
    ensures
        ({
            let (items, error) = state_hooks(
                old(trait_)@.items,
                asyncness,
                context_path@,
                event_enum_ident@,
            );
            &&& final(trait_)@ == with_items(old(trait_)@, items)
            &&& r == match error {
                Some(e) => Err::<(), Error>(e),
                None => Ok(()),
            }
        }),
{
    match ensure_on_enter_fn(asyncness, trait_, context_path) {
        Ok(()) => {},
        Err(e) => {
            return Err(e);
        },
    }
    match ensure_on_exit_fn(asyncness, trait_, context_path) {
        Ok(()) => {},
        Err(e) => {
            return Err(e);
        },
    }
    ensure_should_exit_fn(asyncness, trait_, context_path, event_enum_ident)
}

/// Sees to `on_enter`: `(&mut self, &mut Context)`, nothing returned.
pub fn ensure_on_enter_fn(asyncness: bool, trait_: &mut ItemTrait, context_path: &Path) -> (r:
    Result<(), Error>)
    ensures
        ({
            let (items, error) = ensure_hook(
                old(trait_)@.items,
                Hook::OnEnter,
                asyncness,
                context_path@,
                ""@,
            );
            &&& final(trait_)@ == with_items(old(trait_)@, items)
            &&& r == match error {
                Some(e) => Err::<(), Error>(e),
                None => Ok(()),
            }
        }),
{
    ensure_hook_fn(Hook::OnEnter, asyncness, trait_, context_path, "")
}

/// Sees to `on_exit`: `(&mut self, &mut Context)`, nothing returned.
pub fn ensure_on_exit_fn(asyncness: bool, trait_: &mut ItemTrait, context_path: &Path) -> (r:
    Result<(), Error>)
    ensures
        ({
            let (items, error) = ensure_hook(
                old(trait_)@.items,
                Hook::OnExit,
                asyncness,
                context_path@,
                ""@,
            );
            &&& final(trait_)@ == with_items(old(trait_)@, items)
            &&& r == match error {
                Some(e) => Err::<(), Error>(e),
                None => Ok(()),
            }
        }),
{
    ensure_hook_fn(Hook::OnExit, asyncness, trait_, context_path, "")
}

/// Sees to `should_exit`: `(&self, &Context, &EventEnum) -> bool`.
pub fn ensure_should_exit_fn(
    asyncness: bool,
    trait_: &mut ItemTrait,
    context_path: &Path,
    event_enum_ident: &str,
) -> (r: Result<(), Error>)
    ensures
        ({
            let (items, error) = ensure_hook(
                old(trait_)@.items,
                Hook::ShouldExit,
                asyncness,
                context_path@,
                event_enum_ident@,
            );
            &&& final(trait_)@ == with_items(old(trait_)@, items)
            &&& r == match error {
                Some(e) => Err::<(), Error>(e),
                None => Ok(()),
            }
        }),
{
    ensure_hook_fn(Hook::ShouldExit, asyncness, trait_, context_path, event_enum_ident)
}

} // verus!
