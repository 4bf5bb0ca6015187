//! Completion and validation of the event trait: `pre_transition` and
//! `post_transition`.

use crate::error::{Error, Hook, Mismatch};
use crate::lifecycle::{
    check_mutating, ensure_hook, ensure_hook_fn, mutating_mismatch, then_ensure_hook, with_items,
};
use crate::syntax::{ItemTrait, Path, PathView, TraitItemFn, TraitItemView};
use vstd::prelude::*;

verus! {

/// The items of an event trait after its two hooks have been seen to, in
/// the order `pre_transition`, `post_transition`, up to the first error.
pub open spec fn event_hooks(items: Seq<TraitItemView>, context: PathView) -> (
    Seq<TraitItemView>,
    Option<Error>,
) {
    then_ensure_hook(
        ensure_hook(items, Hook::PreTransition, false, context, ""@),
        Hook::PostTransition,
        false,
        context,
        ""@,
    )
}

/// Makes `trait_` an event trait: each of `pre_transition` and
/// `post_transition` must have the signature of the lifecycle contract
/// where the trait declares it, and gets its default where the trait does
/// not. Stops at the first hook that fails.
pub fn ensure_event_trait(trait_: &mut ItemTrait, context_path: &Path) -> (r: Result<(), Error>)
    ensures
        ({
            let (items, error) = event_hooks(old(trait_)@.items, context_path@);
            &&& final(trait_)@ == with_items(old(trait_)@, items)
            &&& r == match error {
                Some(e) => Err::<(), Error>(e),
                None => Ok(()),
            }
        }),
{
    match ensure_pre_transition_fn(trait_, context_path) {
        Ok(()) => {},
        Err(e) => {
            return Err(e);
        },
    }
    ensure_post_transition_fn(trait_, context_path)
}

/// Sees to `pre_transition`.
pub fn ensure_pre_transition_fn(trait_: &mut ItemTrait, context_path: &Path) -> (r: Result<
    (),
    Error,
>)
    ensures
        ({
            let (items, error) = ensure_hook(
                old(trait_)@.items,
                Hook::PreTransition,
                false,
                context_path@,
                ""@,
            );
            &&& final(trait_)@ == with_items(old(trait_)@, items)
            &&& r == match error {
                Some(e) => Err::<(), Error>(e),
                None => Ok(()),
            }
        }),
{
    ensure_hook_fn(Hook::PreTransition, false, trait_, context_path, "")
}

/// Sees to `post_transition`.
pub fn ensure_post_transition_fn(trait_: &mut ItemTrait, context_path: &Path) -> (r: Result<
    (),
    Error,
>)
    ensures
        ({
            let (items, error) = ensure_hook(
                old(trait_)@.items,
                Hook::PostTransition,
                false,
                context_path@,
                ""@,
            );
            &&& final(trait_)@ == with_items(old(trait_)@, items)
            &&& r == match error {
                Some(e) => Err::<(), Error>(e),
                None => Ok(()),
            }
        }),
{
    ensure_hook_fn(Hook::PostTransition, false, trait_, context_path, "")
}

/// Holds a declared transition hook against `(&mut self, &mut Context)`
/// without a return type, and names the first part that departs from it.
pub fn check_transition_fn(func: &TraitItemFn, context_path: &Path) -> (r: Result<(), Mismatch>)
    ensures
        r == match mutating_mismatch(func@.sig, context_path@) {
            Some(mismatch) => Err::<(), Mismatch>(mismatch),
            None => Ok(()),
        },
{
    match check_mutating(&func.sig, context_path) {
        Some(mismatch) => Err(mismatch),
        None => Ok(()),
    }
}

} // verus!
