use machine_factory::error::{Error, Hook, Mismatch};
use machine_factory::event_trait::{
    check_transition_fn, ensure_event_trait, ensure_post_transition_fn, ensure_pre_transition_fn,
};
use machine_factory::lifecycle::{check_hook, hook_ident};
use machine_factory::state_trait::{
    ensure_on_enter_fn, ensure_on_exit_fn, ensure_should_exit_fn, ensure_state_trait,
};
use machine_factory::syntax::{
    FnArg, ItemTrait, Path, PathSegment, ReturnType, Signature, TraitItem, TraitItemFn, Type,
};

fn path(text: &str) -> Path {
    Path {
        leading_colon: false,
        segments: text
            .split("::")
            .map(|ident| PathSegment { ident: ident.to_string(), arguments: String::new() })
            .collect(),
    }
}

fn receiver(reference: bool, mutability: bool) -> FnArg {
    FnArg::Receiver { reference, mutability }
}

fn reference(pat: &str, mutability: bool, to: &str) -> FnArg {
    FnArg::Typed { pat: pat.to_string(), ty: Type::Reference { mutability, elem: Some(path(to)) } }
}

fn function(ident: &str, inputs: Vec<FnArg>, output: ReturnType) -> TraitItemFn {
    TraitItemFn {
        sig: Signature {
            ident: ident.to_string(),
            asyncness: false,
            inputs,
            output,
            text: format!("fn {}()", ident),
        },
        text: format!("fn {}();", ident),
    }
}

fn trait_with(items: Vec<TraitItem>) -> ItemTrait {
    ItemTrait {
        attrs: vec!["#[doc = \"states\"]".to_string()],
        head: "pub trait Lifecycle".to_string(),
        ident: "Lifecycle".to_string(),
        items,
    }
}

fn names(trait_: &ItemTrait) -> Vec<String> {
    trait_
        .items
        .iter()
        .map(|item| match item {
            TraitItem::Fn(function) => function.sig.ident.clone(),
            TraitItem::Other(text) => text.clone(),
        })
        .collect()
}

fn text_of(trait_: &ItemTrait, ident: &str) -> String {
    trait_
        .items
        .iter()
        .find_map(|item| match item {
            TraitItem::Fn(function) if function.sig.ident == ident => Some(function.text.clone()),
            _ => None,
        })
        .expect("the trait declares the function")
}

fn good_mutating(ident: &str) -> TraitItemFn {
    function(
        ident,
        vec![receiver(true, true), reference("context", true, "app::Context")],
        ReturnType::Default,
    )
}

fn good_should_exit() -> TraitItemFn {
    function(
        "should_exit",
        vec![
            receiver(true, false),
            reference("context", false, "app::Context"),
            reference("event", false, "Events"),
        ],
        ReturnType::Type(Type::Path(path("bool"))),
    )
}

#[test]
fn an_empty_state_trait_gets_the_three_defaults() {
    let mut trait_ = trait_with(vec![TraitItem::Other("type Output;".to_string())]);
    assert_eq!(ensure_state_trait(true, &mut trait_, &path("app::Context"), "Events"), Ok(()));
    assert_eq!(names(&trait_), vec!["type Output;", "on_enter", "on_exit", "should_exit"]);
    assert_eq!(
        text_of(&trait_, "on_enter"),
        "async fn on_enter(&mut self, context: &mut app::Context) {}"
    );
    assert_eq!(
        text_of(&trait_, "on_exit"),
        "async fn on_exit(&mut self, context: &mut app::Context) {}"
    );
    assert_eq!(
        text_of(&trait_, "should_exit"),
        "async fn should_exit(&self, context: &app::Context, event: &Events) -> bool { true }"
    );
    assert_eq!(trait_.attrs, vec!["#[doc = \"states\"]"]);
    assert_eq!(trait_.head, "pub trait Lifecycle");
    assert_eq!(trait_.ident, "Lifecycle");
    for item in &trait_.items {
        if let TraitItem::Fn(function) = item {
            assert!(function.sig.asyncness);
            assert_eq!(function.text.starts_with(&function.sig.text), true);
        }
    }
}

#[test]
fn the_defaults_pass_their_own_check() {
    let mut trait_ = trait_with(Vec::new());
    assert_eq!(ensure_state_trait(false, &mut trait_, &path("Context"), "Events"), Ok(()));
    assert_eq!(ensure_event_trait(&mut trait_, &path("Context")), Ok(()));
    assert_eq!(trait_.items.len(), 5);
    assert_eq!(ensure_state_trait(false, &mut trait_, &path("Context"), "Events"), Ok(()));
    assert_eq!(ensure_event_trait(&mut trait_, &path("Context")), Ok(()));
    assert_eq!(trait_.items.len(), 5);
    for hook in [Hook::ShouldExit, Hook::OnExit, Hook::PreTransition, Hook::PostTransition, Hook::OnEnter] {
        let declared = trait_.find_fn(hook_ident(hook)).expect("the hook is declared").1;
        assert_eq!(check_hook(hook, &declared.sig, &path("Context"), "Events"), None);
    }
}

#[test]
fn an_empty_event_trait_gets_the_two_defaults_which_are_not_async() {
    let mut trait_ = trait_with(Vec::new());
    assert_eq!(ensure_event_trait(&mut trait_, &path("Context")), Ok(()));
    assert_eq!(names(&trait_), vec!["pre_transition", "post_transition"]);
    assert_eq!(
        text_of(&trait_, "pre_transition"),
        "fn pre_transition(&mut self, _context: &mut Context) {}"
    );
    assert_eq!(
        text_of(&trait_, "post_transition"),
        "fn post_transition(&mut self, _context: &mut Context) {}"
    );
}

#[test]
fn a_declared_hook_with_the_right_signature_is_kept_as_it_is() {
    let mut trait_ = trait_with(vec![
        TraitItem::Fn(good_mutating("on_exit")),
        TraitItem::Fn(good_should_exit()),
    ]);
    assert_eq!(ensure_state_trait(false, &mut trait_, &path("app::Context"), "Events"), Ok(()));
    assert_eq!(names(&trait_), vec!["on_exit", "should_exit", "on_enter"]);
    assert_eq!(text_of(&trait_, "on_exit"), "fn on_exit();");
}

#[test]
fn each_departure_of_a_mutating_hook_is_named() {
    let context = path("app::Context");
    let cases: Vec<(Vec<FnArg>, ReturnType, Mismatch)> = vec![
        (vec![], ReturnType::Default, Mismatch::FirstArgument),
        (vec![reference("context", true, "app::Context")], ReturnType::Default, Mismatch::FirstArgument),
        (vec![receiver(true, false)], ReturnType::Default, Mismatch::FirstArgument),
        (vec![receiver(false, true)], ReturnType::Default, Mismatch::FirstArgument),
        (vec![receiver(true, true)], ReturnType::Default, Mismatch::SecondArgument),
        (vec![receiver(true, true), receiver(true, true)], ReturnType::Default, Mismatch::SecondArgument),
        (
            vec![receiver(true, true), reference("context", false, "app::Context")],
            ReturnType::Default,
            Mismatch::SecondArgument,
        ),
        (
            vec![receiver(true, true), reference("context", true, "Context")],
            ReturnType::Default,
            Mismatch::SecondArgument,
        ),
        (
            vec![
                receiver(true, true),
                FnArg::Typed { pat: "context".to_string(), ty: Type::Path(path("app::Context")) },
            ],
            ReturnType::Default,
            Mismatch::SecondArgument,
        ),
        (
            vec![
                receiver(true, true),
                FnArg::Typed {
                    pat: "context".to_string(),
                    ty: Type::Reference { mutability: true, elem: None },
                },
            ],
            ReturnType::Default,
            Mismatch::SecondArgument,
        ),
        (
            vec![
                receiver(true, true),
                reference("context", true, "app::Context"),
                reference("extra", true, "app::Context"),
            ],
            ReturnType::Default,
            Mismatch::ArgumentCount,
        ),
        (
            vec![receiver(true, true), reference("context", true, "app::Context")],
            ReturnType::Type(Type::Other),
            Mismatch::ReturnType,
        ),
    ];
    for (inputs, output, mismatch) in cases {
        for (hook, ident) in [(Hook::OnEnter, "on_enter"), (Hook::OnExit, "on_exit")] {
            let declared = function(ident, clone_args(&inputs), clone_output(&output));
            let mut trait_ = trait_with(vec![TraitItem::Fn(declared)]);
            let checked = match hook {
                Hook::OnEnter => ensure_on_enter_fn(false, &mut trait_, &context),
                _ => ensure_on_exit_fn(false, &mut trait_, &context),
            };
            assert_eq!(checked, Err(Error::Hook(hook, mismatch)));
            assert_eq!(trait_.items.len(), 1);
        }
        for (hook, ident) in [(Hook::PreTransition, "pre_transition"), (Hook::PostTransition, "post_transition")] {
            let declared = function(ident, clone_args(&inputs), clone_output(&output));
            assert_eq!(check_transition_fn(&declared, &context), Err(mismatch));
            let mut trait_ = trait_with(vec![TraitItem::Fn(declared)]);
            let checked = match hook {
                Hook::PreTransition => ensure_pre_transition_fn(&mut trait_, &context),
                _ => ensure_post_transition_fn(&mut trait_, &context),
            };
            assert_eq!(checked, Err(Error::Hook(hook, mismatch)));
        }
    }
    assert_eq!(check_transition_fn(&good_mutating("pre_transition"), &context), Ok(()));
}

fn clone_args(inputs: &[FnArg]) -> Vec<FnArg> {
    inputs
        .iter()
        .map(|input| match input {
            FnArg::Receiver { reference, mutability } => {
                FnArg::Receiver { reference: *reference, mutability: *mutability }
            }
            FnArg::Typed { pat, ty } => FnArg::Typed { pat: pat.clone(), ty: clone_type(ty) },
        })
        .collect()
}

fn clone_type(ty: &Type) -> Type {
    match ty {
        Type::Reference { mutability, elem } => Type::Reference {
            mutability: *mutability,
            elem: elem.as_ref().map(|path| path.duplicate()),
        },
        Type::Path(path) => Type::Path(path.duplicate()),
        Type::Other => Type::Other,
    }
}

fn clone_output(output: &ReturnType) -> ReturnType {
    match output {
        ReturnType::Default => ReturnType::Default,
        ReturnType::Type(ty) => ReturnType::Type(clone_type(ty)),
    }
}

#[test]
fn each_departure_of_should_exit_is_named() {
    let context = path("app::Context");
    let good = || {
        vec![
            receiver(true, false),
            reference("context", false, "app::Context"),
            reference("event", false, "Events"),
        ]
    };
    let returns_bool = || ReturnType::Type(Type::Path(path("bool")));
    let mut cases: Vec<(Vec<FnArg>, ReturnType, Mismatch)> = vec![
        (vec![], returns_bool(), Mismatch::FirstArgument),
        (vec![receiver(true, true)], returns_bool(), Mismatch::FirstArgument),
        (vec![receiver(false, false)], returns_bool(), Mismatch::FirstArgument),
        (vec![receiver(true, false)], returns_bool(), Mismatch::SecondArgument),
        (
            vec![receiver(true, false), reference("context", true, "app::Context")],
            returns_bool(),
            Mismatch::SecondArgument,
        ),
        (
            vec![receiver(true, false), reference("context", false, "app::Context")],
            returns_bool(),
            Mismatch::ThirdArgument,
        ),
        (
            vec![
                receiver(true, false),
                reference("context", false, "app::Context"),
                reference("event", true, "Events"),
            ],
            returns_bool(),
            Mismatch::ThirdArgument,
        ),
        (
            vec![
                receiver(true, false),
                reference("context", false, "app::Context"),
                reference("event", false, "app::Events"),
            ],
            returns_bool(),
            Mismatch::ThirdArgument,
        ),
        (good(), ReturnType::Default, Mismatch::ReturnType),
        (good(), ReturnType::Type(Type::Path(path("u8"))), Mismatch::ReturnType),
        (good(), ReturnType::Type(Type::Reference { mutability: false, elem: Some(path("bool")) }), Mismatch::ReturnType),
    ];
    let mut too_many = good();
    too_many.push(reference("more", false, "Events"));
    cases.push((too_many, returns_bool(), Mismatch::ArgumentCount));
    for (inputs, output, mismatch) in cases {
        let mut trait_ = trait_with(vec![TraitItem::Fn(function("should_exit", inputs, output))]);
        assert_eq!(
            ensure_should_exit_fn(false, &mut trait_, &context, "Events"),
            Err(Error::Hook(Hook::ShouldExit, mismatch))
        );
    }
    let mut trait_ = trait_with(vec![TraitItem::Fn(good_should_exit())]);
    assert_eq!(ensure_should_exit_fn(false, &mut trait_, &context, "Events"), Ok(()));
    assert_eq!(trait_.items.len(), 1);
}

#[test]
fn the_first_faulty_hook_stops_the_completion() {
    let mut trait_ = trait_with(vec![
        TraitItem::Fn(function("should_exit", vec![], ReturnType::Default)),
        TraitItem::Fn(function("on_exit", vec![receiver(true, true)], ReturnType::Default)),
    ]);
    assert_eq!(
        ensure_state_trait(false, &mut trait_, &path("Context"), "Events"),
        Err(Error::Hook(Hook::OnExit, Mismatch::SecondArgument))
    );
    assert_eq!(names(&trait_), vec!["should_exit", "on_exit", "on_enter"]);
    let mut trait_ = trait_with(vec![TraitItem::Fn(function(
        "post_transition",
        vec![receiver(true, true)],
        ReturnType::Default,
    ))]);
    assert_eq!(
        ensure_event_trait(&mut trait_, &path("Context")),
        Err(Error::Hook(Hook::PostTransition, Mismatch::SecondArgument))
    );
    assert_eq!(names(&trait_), vec!["post_transition", "pre_transition"]);
}

#[test]
fn the_first_function_of_a_name_is_the_hook() {
    let mut trait_ = trait_with(vec![
        TraitItem::Fn(good_mutating("on_enter")),
        TraitItem::Fn(function("on_enter", vec![], ReturnType::Default)),
    ]);
    assert_eq!(ensure_on_enter_fn(false, &mut trait_, &path("app::Context")), Ok(()));
    assert_eq!(trait_.find_fn("on_enter").map(|found| found.0), Some(0));
    assert!(trait_.find_fn("on_exit").is_none());
}

#[test]
fn the_messages_name_the_hook_and_the_shape() {
    assert_eq!(
        Error::Hook(Hook::OnEnter, Mismatch::FirstArgument).message(),
        "`on_enter` must accept `&mut self` as the first argument"
    );
    assert_eq!(
        Error::Hook(Hook::OnExit, Mismatch::SecondArgument).message(),
        "`on_exit` must accept `&mut {Context}` as the second argument"
    );
    assert_eq!(
        Error::Hook(Hook::PreTransition, Mismatch::ArgumentCount).message(),
        "`pre_transition` must not have more than two arguments"
    );
    assert_eq!(
        Error::Hook(Hook::PostTransition, Mismatch::ReturnType).message(),
        "`post_transition` must not have a return type"
    );
    assert_eq!(
        Error::Hook(Hook::ShouldExit, Mismatch::FirstArgument).message(),
        "`should_exit` must accept `&self` as the first argument"
    );
    assert_eq!(
        Error::Hook(Hook::ShouldExit, Mismatch::SecondArgument).message(),
        "`should_exit` must accept `&{Context}` as the second argument"
    );
    assert_eq!(
        Error::Hook(Hook::ShouldExit, Mismatch::ThirdArgument).message(),
        "`should_exit` must accept `&{EventEnum}` as the third argument"
    );
    assert_eq!(
        Error::Hook(Hook::ShouldExit, Mismatch::ArgumentCount).message(),
        "`should_exit` must not have more than three arguments"
    );
    assert_eq!(
        Error::Hook(Hook::ShouldExit, Mismatch::ReturnType).message(),
        "`should_exit` must return a `bool`"
    );
}
