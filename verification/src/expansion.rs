//! The source text of an event-driven machine, piece by piece: the
//! conversions into the sum types, the forwarding of the trait functions,
//! the arms of the dispatch, and the machine itself.

use crate::error::{Error, Hook};
use crate::event_driven_state_machine::{Machine, MachineView};
use crate::lifecycle::{async_prefix, hook_ident, hook_name};
use crate::naming::{handler_ident, handler_name};
use crate::syntax::{
    append_spaced, append_spaced_option, find_fn, path_views, spaced, spaced_option, FnArg,
    FnArgView, ItemTrait, ItemTraitView, Path, PathView, Signature, SignatureView, TraitItem,
    TraitItemView,
};
use crate::synthesis::{state_event_views, StateEvent, StateEventView};
use crate::text::{append_if, copy_of};
use vstd::prelude::*;
use vstd::string::*;

verus! {

/// The name of the variant that holds a value of the type `path`: the last
/// identifier of the path.
pub open spec fn variant_name(path: PathView) -> Seq<char> {
    match path.last_ident() {
        Some(ident) => ident,
        None => Seq::empty(),
    }
}

/// The conversion from the type `path` into the sum type `enum_ident`.
pub open spec fn from_impl(binder: Seq<char>, enum_ident: Seq<char>, path: PathView) -> Seq<char> {
    "impl From<"@ + path.text() + "> for "@ + enum_ident + " { fn from("@ + binder + ": "@
        + path.text() + ") -> Self { Self::"@ + variant_name(path) + "("@ + binder + ") } } "@
}

/// The conversions from the first `n` of `paths` into `enum_ident`.
pub open spec fn from_impls(
    binder: Seq<char>,
    enum_ident: Seq<char>,
    paths: Seq<PathView>,
    n: nat,
) -> Seq<char>
    decreases n,
{
    if n == 0 {
        Seq::empty()
    } else {
        from_impls(binder, enum_ident, paths, (n - 1) as nat) + from_impl(
            binder,
            enum_ident,
            paths[n - 1],
        )
    }
}

/// The arguments that a forwarding function hands on: the pattern of each
/// of the first `n` inputs but the receiver, each after a comma. A second
/// receiver is refused.
pub open spec fn forwarded_arguments(inputs: Seq<FnArgView>, n: nat) -> Result<Seq<char>, Error>
    decreases n,
{
    if n <= 1 {
        Ok(Seq::empty())
    } else {
        match forwarded_arguments(inputs, (n - 1) as nat) {
            Err(e) => Err(e),
            Ok(before) => match inputs[n - 1] {
                FnArgView::Typed { pat, .. } => Ok(before + ", "@ + pat),
                FnArgView::Receiver { .. } => Err(Error::ExpectedTypedInput),
            },
        }
    }
}

/// `.await`, where `awaited` is set.
pub open spec fn await_suffix(awaited: bool) -> Seq<char> {
    if awaited {
        ".await"@
    } else {
        Seq::empty()
    }
}

/// The arms by which the function `call` of a sum type forwards to the
/// first `n` of its variants.
pub open spec fn forwarding_arms(
    binder: Seq<char>,
    call: Seq<char>,
    arguments: Seq<char>,
    awaited: bool,
    paths: Seq<PathView>,
    n: nat,
) -> Seq<char>
    decreases n,
{
    if n == 0 {
        Seq::empty()
    } else {
        forwarding_arms(binder, call, arguments, awaited, paths, (n - 1) as nat) + "Self::"@
            + variant_name(paths[n - 1]) + "("@ + binder + ") => "@ + paths[n - 1].text() + "::"@
            + call + "("@ + binder + arguments + ")"@ + await_suffix(awaited) + ", "@
    }
}

/// The implementation of the trait function `sig` for a sum type over
/// `paths`: it matches on the active variant and calls the function of the
/// type that the variant holds.
pub open spec fn forwarding_fn(binder: Seq<char>, sig: SignatureView, paths: Seq<PathView>)
    -> Result<Seq<char>, Error> {
    match forwarded_arguments(sig.inputs, sig.inputs.len()) {
        Err(e) => Err(e),
        Ok(arguments) => Ok(
            sig.text + " { match self { "@ + forwarding_arms(
                binder,
                sig.ident,
                arguments,
                sig.asyncness,
                paths,
                paths.len(),
            ) + "} } "@,
        ),
    }
}

/// The forwarding functions for the functions among `items` from the one at
/// `from` on, each after `prefix`, added to `found`.
pub open spec fn forwarding_fns(
    binder: Seq<char>,
    prefix: Seq<char>,
    items: Seq<TraitItemView>,
    paths: Seq<PathView>,
    from: int,
    found: Seq<char>,
) -> Result<Seq<char>, Error>
    decreases items.len() - from,
{
    if from < 0 || from >= items.len() {
        Ok(found)
    } else {
        match items[from] {
            TraitItemView::Other(_) => forwarding_fns(
                binder,
                prefix,
                items,
                paths,
                from + 1,
                found,
            ),
            TraitItemView::Fn(function) => match forwarding_fn(binder, function.sig, paths) {
                Err(e) => Err(e),
                Ok(text) => forwarding_fns(
                    binder,
                    prefix,
                    items,
                    paths,
                    from + 1,
                    found + prefix + text,
                ),
            },
        }
    }
}

/// The attribute that makes a trait, or an implementation of one, take
/// `async` functions.
pub open spec fn async_trait_attribute() -> Seq<char> {
    "#[::async_trait::async_trait]"@
}

/// The implementation of the trait `trait_ident` for the sum type
/// `enum_ident`, with the functions `functions`.
pub open spec fn trait_impl(
    asyncness: bool,
    trait_ident: Seq<char>,
    enum_ident: Seq<char>,
    functions: Seq<char>,
) -> Seq<char> {
    (if asyncness {
        "#[::async_trait::async_trait] "@
    } else {
        Seq::empty()
    }) + "impl "@ + trait_ident + " for "@ + enum_ident + " { "@ + functions + "} "@
}

/// The source text of the first `n` of `items`.
pub open spec fn items_text(items: Seq<TraitItemView>, n: nat) -> Seq<char>
    decreases n,
{
    if n == 0 {
        Seq::empty()
    } else {
        items_text(items, (n - 1) as nat) + (match items[n - 1] {
            TraitItemView::Fn(function) => function.text,
            TraitItemView::Other(text) => text,
        }) + " "@
    }
}

/// The source text of the trait `trait_`.
pub open spec fn trait_text(trait_: ItemTraitView) -> Seq<char> {
    spaced(trait_.attrs, trait_.attrs.len()) + trait_.head + " { "@ + items_text(
        trait_.items,
        trait_.items.len(),
    ) + "} "@
}

/// Whether a call of `hook` is awaited: in an asynchronous machine, where
/// the trait declares the hook `async`.
pub open spec fn hook_awaited(asyncness: bool, items: Seq<TraitItemView>, hook: Hook) -> bool {
    asyncness && (find_fn(items, hook_name(hook), 0) matches Some(i)
        && items[i]->Fn_0.sig.asyncness)
}

/// The arm of the dispatch for the transition `state_event`. The sugar
/// builds the default of its target; a block stands in a function of its
/// own, which gets the state, the event and the context.
pub open spec fn dispatch_arm(state_event: StateEventView, machine: MachineView) -> Seq<char> {
    match state_event.target {
        Some(target) => "("@ + machine.state_enum_ident + "::"@ + state_event.state_ident
            + "(state), "@ + machine.event_enum_ident + "::"@ + state_event.event_ident
            + "(event)) => { { "@ + target.text() + "::default() }.into() } "@,
        None => "("@ + machine.state_enum_ident + "::"@ + state_event.state_ident
            + "(state), "@ + machine.event_enum_ident + "::"@ + state_event.event_ident
            + "(event)) => { #[allow(non_snake_case)] "@ + async_prefix(machine.asyncness)
            + "fn "@ + handler_name(state_event.state_ident, state_event.event_ident)
            + "(mut state: "@ + state_event.state_path.text() + ", event: &mut "@
            + state_event.event_path.text() + ", context: &mut "@ + machine.context_path.text()
            + ") -> impl Into<"@ + machine.state_enum_ident + "> "@ + state_event.block
            + handler_name(state_event.state_ident, state_event.event_ident)
            + "(state, event, &mut self.context)"@ + await_suffix(machine.asyncness)
            + ".into() } "@,
    }
}

/// The arms of the dispatch for the first `n` of `state_events`.
pub open spec fn dispatch_arms(state_events: Seq<StateEventView>, machine: MachineView, n: nat)
    -> Seq<char>
    decreases n,
{
    if n == 0 {
        Seq::empty()
    } else {
        dispatch_arms(state_events, machine, (n - 1) as nat) + dispatch_arm(
            state_events[n - 1],
            machine,
        )
    }
}

/// The last arm of the dispatch: the catch-all block, in a function of its
/// own, for every pair that no arm before it takes.
pub open spec fn catch_all_arm(block: Option<Seq<char>>, machine: MachineView) -> Seq<char> {
    match block {
        None => Seq::empty(),
        Some(block) => "(state, event) => { #[allow(non_snake_case)] "@ + async_prefix(
            machine.asyncness,
        ) + "fn handle__unhandled_event(mut state: "@ + machine.state_enum_ident
            + ", event: &mut "@ + machine.event_enum_ident + ", context: &mut "@
            + machine.context_path.text() + ") -> impl Into<"@ + machine.state_enum_ident + "> "@
            + block + "handle__unhandled_event(state, event, &mut self.context)"@ + await_suffix(
            machine.asyncness,
        ) + ".into() } "@,
    }
}

/// The definition of the machine: a context, and a slot for the state.
pub open spec fn struct_text(machine: MachineView) -> Seq<char> {
    spaced(machine.attributes, machine.attributes.len()) + spaced_option(machine.visibility)
        + "struct "@ + machine.name + " { context: "@ + machine.context_path.text()
        + ", state: ::core::option::Option<"@ + machine.state_enum_ident + ">, } "@
}

/// The constructor and the accessors of the machine.
pub open spec fn accessors_text(machine: MachineView, state_trait: Seq<char>) -> Seq<char> {
    "pub fn new<State: Into<"@ + machine.state_enum_ident + "> + "@ + state_trait
        + ">(state: State, context: "@ + machine.context_path.text()
        + ") -> Self { Self { context, state: ::core::option::Option::Some(state.into()) } } pub fn context(&self) -> &"@
        + machine.context_path.text() + " { &self.context } pub fn state(&self) -> &"@
        + machine.state_enum_ident
        + " { self.state.as_ref().expect(\"state is missing\") } pub fn into_context(self) -> "@
        + machine.context_path.text() + " { self.context } pub fn into_state(self) -> "@
        + machine.state_enum_ident
        + " { self.state.expect(\"state is missing\") } pub fn into_parts(self) -> ("@
        + machine.state_enum_ident + ", "@ + machine.context_path.text()
        + ") { let Self { context, state } = self; let state = state.expect(\"state is missing\"); (state, context) } "@
}

/// The function that handles an event: it takes the state out of its
/// slot, asks `should_exit`, and where that agrees calls `on_exit` and
/// `pre_transition`, computes the new state by the arms of the dispatch,
/// calls `post_transition` and `on_enter`, and fills the slot again.
pub open spec fn handle_event_text(
    machine: MachineView,
    state_trait: ItemTraitView,
    event_trait: ItemTraitView,
    arms: Seq<char>,
) -> Seq<char> {
    "pub "@ + async_prefix(machine.asyncness) + "fn handle_event<Event: Into<"@
        + machine.event_enum_ident + "> + "@ + event_trait.ident
        + ">(&mut self, event: Event) -> &mut Self { let mut event = event.into(); let mut state = self.state.take().expect(\"state is missing\"); if !"@
        + machine.state_enum_ident + "::should_exit(&state, &self.context, &event)"@
        + await_suffix(hook_awaited(machine.asyncness, state_trait.items, Hook::ShouldExit))
        + " { self.state = ::core::option::Option::Some(state); return self; } "@
        + state_trait.ident + "::on_exit(&mut state, &mut self.context)"@ + await_suffix(
        hook_awaited(machine.asyncness, state_trait.items, Hook::OnExit),
    ) + "; "@ + event_trait.ident + "::pre_transition(&mut event, &mut self.context)"@
        + await_suffix(hook_awaited(machine.asyncness, event_trait.items, Hook::PreTransition))
        + "; let mut state: "@ + machine.state_enum_ident + " = match (state, &mut event) { "@
        + arms + "}; "@ + event_trait.ident
        + "::post_transition(&mut event, &mut self.context)"@ + await_suffix(
        hook_awaited(machine.asyncness, event_trait.items, Hook::PostTransition),
    ) + "; "@ + state_trait.ident + "::on_enter(&mut state, &mut self.context)"@ + await_suffix(
        hook_awaited(machine.asyncness, state_trait.items, Hook::OnEnter),
    ) + "; self.state = ::core::option::Option::Some(state); self } "@
}


/// The name of the variant that holds a value of the type `path`.
pub fn variant_ident(path: &Path) -> (name: String)
    ensures
        name@ == variant_name(path@),
{
    match path.last_ident() {
        Some(ident) => copy_of(ident),
        None => String::new(),
    }
}

/// Writes the conversion from the type `path` into the sum type
/// `enum_ident`.
pub fn write_from_impl(binder: &str, enum_ident: &str, path: &Path) -> (out: String)
    ensures
        out@ == from_impl(binder@, enum_ident@, path@),
{
    let text = path.text();
    let name = variant_ident(path);
    let mut out = String::from_str("impl From<");
    out.append(text.as_str());
    out.append("> for ");
    out.append(enum_ident);
    out.append(" { fn from(");
    out.append(binder);
    out.append(": ");
    out.append(text.as_str());
    out.append(") -> Self { Self::");
    out.append(name.as_str());
    out.append("(");
    out.append(binder);
    out.append(") } } ");
    out
}

/// Writes the conversions from `paths` into the sum type `enum_ident`.
pub fn write_from_impls(binder: &str, enum_ident: &str, paths: &Vec<Path>) -> (out: String)
    ensures
        out@ == from_impls(binder@, enum_ident@, path_views(paths@), paths@.len()),
{
    let mut out = String::new();
    let mut i: usize = 0;
    while i < paths.len()
        invariant
            i <= paths.len(),
            out@ == from_impls(binder@, enum_ident@, path_views(paths@), i as nat),
        decreases paths.len() - i,
    {
        assert(path_views(paths@)[i as int] == paths[i as int]@);
        let piece = write_from_impl(binder, enum_ident, &paths[i]);
        out.append(piece.as_str());
        i += 1;
    }
    out
}

/// Writes the arguments that a forwarding function hands on.
pub fn write_forwarded_arguments(inputs: &Vec<FnArg>) -> (r: Result<String, Error>)
    ensures
        match forwarded_arguments(inputs@.map_values(|input: FnArg| input@), inputs@.len()) {
            Ok(text) => r matches Ok(out) && out@ == text,
            Err(e) => r == Err::<String, Error>(e),
        },
{
    let mut out = String::new();
    let mut i: usize = 1;
    let ghost views = inputs@.map_values(|input: FnArg| input@);
    if inputs.len() <= 1 {
        return Ok(out);
    }
    while i < inputs.len()
        invariant
            1 <= i <= inputs.len(),
            views == inputs@.map_values(|input: FnArg| input@),
            forwarded_arguments(views, i as nat) == Ok::<Seq<char>, Error>(out@),
        decreases inputs.len() - i,
    {
        assert(views[i as int] == inputs[i as int]@);
        match &inputs[i] {
            FnArg::Typed { pat, ty: _ } => {
                out.append(", ");
                out.append(pat.as_str());
            },
            FnArg::Receiver { .. } => {
                proof {
                    lemma_forwarded_arguments_fail(views, (i + 1) as nat, inputs@.len());
                }
                return Err(Error::ExpectedTypedInput);
            },
        }
        i += 1;
    }
    Ok(out)
}

/// Once the arguments cannot be forwarded, more inputs do not mend it.
proof fn lemma_forwarded_arguments_fail(inputs: Seq<FnArgView>, n: nat, m: nat)
    requires
        n <= m,
        forwarded_arguments(inputs, n) is Err,
    ensures
        forwarded_arguments(inputs, m) == Err::<Seq<char>, Error>(Error::ExpectedTypedInput),
    decreases m,
{
    if n < m {
        lemma_forwarded_arguments_fail(inputs, n, (m - 1) as nat);
    } else {
        lemma_forwarded_arguments_error(inputs, n);
    }
}

/// The arguments can fail to be forwarded for one reason only.
proof fn lemma_forwarded_arguments_error(inputs: Seq<FnArgView>, n: nat)
    requires
        forwarded_arguments(inputs, n) is Err,
    ensures
        forwarded_arguments(inputs, n) == Err::<Seq<char>, Error>(Error::ExpectedTypedInput),
    decreases n,
{
    if n > 1 && forwarded_arguments(inputs, (n - 1) as nat) is Err {
        lemma_forwarded_arguments_error(inputs, (n - 1) as nat);
    }
}

/// Writes the implementation of the trait function `sig` for a sum type
/// over `paths`.
pub fn write_forwarding_fn(binder: &str, sig: &Signature, paths: &Vec<Path>) -> (r: Result<
    String,
    Error,
>)
    ensures
        match forwarding_fn(binder@, sig@, path_views(paths@)) {
            Ok(text) => r matches Ok(out) && out@ == text,
            Err(e) => r == Err::<String, Error>(e),
        },
{
    let arguments = match write_forwarded_arguments(&sig.inputs) {
        Err(e) => {
            return Err(e);
        },
        Ok(arguments) => arguments,
    };
    let mut arms = String::new();
    let mut i: usize = 0;
    while i < paths.len()
        invariant
            i <= paths.len(),
            arms@ == forwarding_arms(
                binder@,
                sig@.ident,
                arguments@,
                sig@.asyncness,
                path_views(paths@),
                i as nat,
            ),
        decreases paths.len() - i,
    {
        assert(path_views(paths@)[i as int] == paths[i as int]@);
        let name = variant_ident(&paths[i]);
        let text = paths[i].text();
        arms.append("Self::");
        arms.append(name.as_str());
        arms.append("(");
        arms.append(binder);
        arms.append(") => ");
        arms.append(text.as_str());
        arms.append("::");
        arms.append(sig.ident.as_str());
        arms.append("(");
        arms.append(binder);
        arms.append(arguments.as_str());
        arms.append(")");
        append_if(&mut arms, sig.asyncness, ".await");
        arms.append(", ");
        i += 1;
    }
    let mut out = copy_of(&sig.text);
    out.append(" { match self { ");
    out.append(arms.as_str());
    out.append("} } ");
    Ok(out)
}

/// Writes the forwarding functions for the functions among `items`, each
/// after `prefix`.
pub fn write_forwarding_fns(
    binder: &str,
    prefix: &str,
    items: &Vec<TraitItem>,
    paths: &Vec<Path>,
) -> (r: Result<String, Error>)
    ensures
        match forwarding_fns(
            binder@,
            prefix@,
            items@.map_values(|item: TraitItem| item@),
            path_views(paths@),
            0,
            Seq::empty(),
        ) {
            Ok(text) => r matches Ok(out) && out@ == text,
            Err(e) => r == Err::<String, Error>(e),
        },
{
    let mut out = String::new();
    let mut i: usize = 0;
    let ghost views = items@.map_values(|item: TraitItem| item@);
    while i < items.len()
        invariant
            i <= items.len(),
            views == items@.map_values(|item: TraitItem| item@),
            forwarding_fns(binder@, prefix@, views, path_views(paths@), 0, Seq::empty())
                == forwarding_fns(binder@, prefix@, views, path_views(paths@), i as int, out@),
        decreases items.len() - i,
    {
        assert(views[i as int] == items[i as int]@);
        match &items[i] {
            TraitItem::Other(_) => {},
            TraitItem::Fn(function) => match write_forwarding_fn(binder, &function.sig, paths) {
                Err(e) => {
                    return Err(e);
                },
                Ok(text) => {
                    out.append(prefix);
                    out.append(text.as_str());
                },
            },
        }
        i += 1;
    }
    Ok(out)
}

/// Writes the implementation of the trait `trait_ident` for the sum type
/// `enum_ident`.
pub fn write_trait_impl(
    asyncness: bool,
    trait_ident: &str,
    enum_ident: &str,
    functions: &str,
) -> (out: String)
    ensures
        out@ == trait_impl(asyncness, trait_ident@, enum_ident@, functions@),
{
    let mut out = String::new();
    append_if(&mut out, asyncness, "#[::async_trait::async_trait] ");
    assert(out@ =~= (if asyncness {
        "#[::async_trait::async_trait] "@
    } else {
        Seq::empty()
    }));
    out.append("impl ");
    out.append(trait_ident);
    out.append(" for ");
    out.append(enum_ident);
    out.append(" { ");
    out.append(functions);
    out.append("} ");
    out
}

/// Writes the trait `trait_`.
pub fn write_trait(trait_: &ItemTrait) -> (out: String)
    ensures
        out@ == trait_text(trait_@),
{
    let mut items = String::new();
    let mut i: usize = 0;
    while i < trait_.items.len()
        invariant
            i <= trait_.items.len(),
            items@ == items_text(trait_@.items, i as nat),
        decreases trait_.items.len() - i,
    {
        assert(trait_@.items[i as int] == trait_.items[i as int]@);
        match &trait_.items[i] {
            TraitItem::Fn(function) => items.append(function.text.as_str()),
            TraitItem::Other(text) => items.append(text.as_str()),
        }
        items.append(" ");
        i += 1;
    }
    let mut out = String::new();
    append_spaced(&mut out, &trait_.attrs);
    assert(out@ =~= spaced(trait_@.attrs, trait_@.attrs.len()));
    out.append(trait_.head.as_str());
    out.append(" { ");
    out.append(items.as_str());
    out.append("} ");
    out
}

/// Whether a call of `hook` is awaited.
pub fn is_hook_awaited(asyncness: bool, trait_: &ItemTrait, hook: Hook) -> (awaited: bool)
    ensures
        awaited == hook_awaited(asyncness, trait_@.items, hook),
{
    asyncness && match trait_.find_fn(hook_ident(hook)) {
        Some((_, function)) => function.sig.asyncness,
        None => false,
    }
}

/// Writes the arm of the dispatch for the transition `state_event`.
pub fn write_dispatch_arm(state_event: &StateEvent, machine: &Machine) -> (out: String)
    ensures
        out@ == dispatch_arm(state_event@, machine@),
{
    let mut out = String::from_str("(");
    out.append(machine.state_enum_ident.as_str());
    out.append("::");
    out.append(state_event.state_ident.as_str());
    out.append("(state), ");
    out.append(machine.event_enum_ident.as_str());
    out.append("::");
    out.append(state_event.event_ident.as_str());
    match &state_event.target {
        Some(target) => {
            let text = target.text();
            out.append("(event)) => { { ");
            out.append(text.as_str());
            out.append("::default() }.into() } ");
        },
        None => {
            let name = handler_ident(
                state_event.state_ident.as_str(),
                state_event.event_ident.as_str(),
            );
            let state_text = state_event.state_path.text();
            let event_text = state_event.event_path.text();
            let context_text = machine.context_path.text();
            out.append("(event)) => { #[allow(non_snake_case)] ");
            append_if(&mut out, machine.asyncness, "async ");
            out.append("fn ");
            out.append(name.as_str());
            out.append("(mut state: ");
            out.append(state_text.as_str());
            out.append(", event: &mut ");
            out.append(event_text.as_str());
            out.append(", context: &mut ");
            out.append(context_text.as_str());
            out.append(") -> impl Into<");
            out.append(machine.state_enum_ident.as_str());
            out.append("> ");
            out.append(state_event.block.as_str());
            out.append(name.as_str());
            out.append("(state, event, &mut self.context)");
            append_if(&mut out, machine.asyncness, ".await");
            out.append(".into() } ");
        },
    }
    out
}

/// Writes the arms of the dispatch for `state_events`.
pub fn write_dispatch_arms(state_events: &Vec<StateEvent>, machine: &Machine) -> (out: String)
    ensures
        out@ == dispatch_arms(state_event_views(state_events@), machine@, state_events@.len()),
{
    let mut out = String::new();
    let mut i: usize = 0;
    while i < state_events.len()
        invariant
            i <= state_events.len(),
            out@ == dispatch_arms(state_event_views(state_events@), machine@, i as nat),
        decreases state_events.len() - i,
    {
        assert(state_event_views(state_events@)[i as int] == state_events[i as int]@);
        let piece = write_dispatch_arm(&state_events[i], machine);
        out.append(piece.as_str());
        i += 1;
    }
    out
}

/// Writes the last arm of the dispatch, for the catch-all block.
pub fn write_catch_all_arm(block: &Option<String>, machine: &Machine) -> (out: String)
    ensures
        out@ == catch_all_arm(crate::syntax::optional_text(*block), machine@),
{
    match block {
        None => String::new(),
        Some(block) => {
            let context_text = machine.context_path.text();
            let mut out = String::from_str("(state, event) => { #[allow(non_snake_case)] ");
            append_if(&mut out, machine.asyncness, "async ");
            out.append("fn handle__unhandled_event(mut state: ");
            out.append(machine.state_enum_ident.as_str());
            out.append(", event: &mut ");
            out.append(machine.event_enum_ident.as_str());
            out.append(", context: &mut ");
            out.append(context_text.as_str());
            out.append(") -> impl Into<");
            out.append(machine.state_enum_ident.as_str());
            out.append("> ");
            out.append(block.as_str());
            out.append("handle__unhandled_event(state, event, &mut self.context)");
            append_if(&mut out, machine.asyncness, ".await");
            out.append(".into() } ");
            out
        },
    }
}

/// Writes the definition of the machine.
pub fn write_struct(machine: &Machine) -> (out: String)
    ensures
        out@ == struct_text(machine@),
{
    let context_text = machine.context_path.text();
    let mut out = String::new();
    append_spaced(&mut out, &machine.attributes);
    assert(out@ =~= spaced(machine@.attributes, machine@.attributes.len()));
    append_spaced_option(&mut out, &machine.visibility);
    out.append("struct ");
    out.append(machine.name.as_str());
    out.append(" { context: ");
    out.append(context_text.as_str());
    out.append(", state: ::core::option::Option<");
    out.append(machine.state_enum_ident.as_str());
    out.append(">, } ");
    out
}

/// Writes the constructor and the accessors of the machine.
pub fn write_accessors(machine: &Machine, state_trait: &str) -> (out: String)
    ensures
        out@ == accessors_text(machine@, state_trait@),
{
    let context_text = machine.context_path.text();
    let mut out = String::from_str("pub fn new<State: Into<");
    out.append(machine.state_enum_ident.as_str());
    out.append("> + ");
    out.append(state_trait);
    out.append(">(state: State, context: ");
    out.append(context_text.as_str());
    out.append(
        ") -> Self { Self { context, state: ::core::option::Option::Some(state.into()) } } pub fn context(&self) -> &",
    );
    out.append(context_text.as_str());
    out.append(" { &self.context } pub fn state(&self) -> &");
    out.append(machine.state_enum_ident.as_str());
    out.append(
        " { self.state.as_ref().expect(\"state is missing\") } pub fn into_context(self) -> ",
    );
    out.append(context_text.as_str());
    out.append(" { self.context } pub fn into_state(self) -> ");
    out.append(machine.state_enum_ident.as_str());
    out.append(" { self.state.expect(\"state is missing\") } pub fn into_parts(self) -> (");
    out.append(machine.state_enum_ident.as_str());
    out.append(", ");
    out.append(context_text.as_str());
    out.append(
        ") { let Self { context, state } = self; let state = state.expect(\"state is missing\"); (state, context) } ",
    );
    out
}

/// Writes the function that handles an event.
pub fn write_handle_event(
    machine: &Machine,
    state_trait: &ItemTrait,
    event_trait: &ItemTrait,
    arms: &str,
) -> (out: String)
    ensures
        out@ == handle_event_text(machine@, state_trait@, event_trait@, arms@),
{
    let mut out = String::from_str("pub ");
    append_if(&mut out, machine.asyncness, "async ");
    out.append("fn handle_event<Event: Into<");
    out.append(machine.event_enum_ident.as_str());
    out.append("> + ");
    out.append(event_trait.ident.as_str());
    out.append(
        ">(&mut self, event: Event) -> &mut Self { let mut event = event.into(); let mut state = self.state.take().expect(\"state is missing\"); if !",
    );
    out.append(machine.state_enum_ident.as_str());
    out.append("::should_exit(&state, &self.context, &event)");
    append_if(
        &mut out,
        is_hook_awaited(machine.asyncness, state_trait, Hook::ShouldExit),
        ".await",
    );
    out.append(" { self.state = ::core::option::Option::Some(state); return self; } ");
    out.append(state_trait.ident.as_str());
    out.append("::on_exit(&mut state, &mut self.context)");
    append_if(&mut out, is_hook_awaited(machine.asyncness, state_trait, Hook::OnExit), ".await");
    out.append("; ");
    out.append(event_trait.ident.as_str());
    out.append("::pre_transition(&mut event, &mut self.context)");
    append_if(
        &mut out,
        is_hook_awaited(machine.asyncness, event_trait, Hook::PreTransition),
        ".await",
    );
    out.append("; let mut state: ");
    out.append(machine.state_enum_ident.as_str());
    out.append(" = match (state, &mut event) { ");
    out.append(arms);
    out.append("}; ");
    out.append(event_trait.ident.as_str());
    out.append("::post_transition(&mut event, &mut self.context)");
    append_if(
        &mut out,
        is_hook_awaited(machine.asyncness, event_trait, Hook::PostTransition),
        ".await",
    );
    out.append("; ");
    out.append(state_trait.ident.as_str());
    out.append("::on_enter(&mut state, &mut self.context)");
    append_if(&mut out, is_hook_awaited(machine.asyncness, state_trait, Hook::OnEnter), ".await");
    out.append("; self.state = ::core::option::Option::Some(state); self } ");
    out
}

} // verus!
