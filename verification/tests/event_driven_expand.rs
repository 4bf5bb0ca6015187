use machine_factory::dispatch::TableError;
use machine_factory::error::{Error, Expected, Hook, Mismatch};
use machine_factory::event_driven_state_machine::{event_driven_state_machine, expand, Machine};
use machine_factory::grammar::parse_path;
use machine_factory::syntax::{
    FnArg, ItemTrait, Path, ReturnType, Signature, TraitItem, TraitItemFn, Type,
};
use machine_factory::token::{render_tokens, Delimiter, Token};
use quote::ToTokens;

fn tokens_of(stream: proc_macro2::TokenStream) -> Vec<Token> {
    stream
        .into_iter()
        .map(|tree| match tree {
            proc_macro2::TokenTree::Group(group) => {
                let delimiter = match group.delimiter() {
                    proc_macro2::Delimiter::Parenthesis => Delimiter::Parenthesis,
                    proc_macro2::Delimiter::Brace => Delimiter::Brace,
                    proc_macro2::Delimiter::Bracket => Delimiter::Bracket,
                    proc_macro2::Delimiter::None => Delimiter::Invisible,
                };
                Token::Group(delimiter, tokens_of(group.stream()))
            }
            proc_macro2::TokenTree::Ident(ident) => Token::Ident(ident.to_string()),
            proc_macro2::TokenTree::Punct(punct) => {
                Token::Punct(punct.as_char(), punct.spacing() == proc_macro2::Spacing::Joint)
            }
            proc_macro2::TokenTree::Literal(literal) => Token::Literal(literal.to_string()),
        })
        .collect()
}

fn lex(source: &str) -> Vec<Token> {
    tokens_of(source.parse::<proc_macro2::TokenStream>().expect("the source is lexed"))
}

fn text_of(stream: proc_macro2::TokenStream) -> String {
    let tokens = tokens_of(stream);
    render_tokens(&tokens, 0, tokens.len())
}

fn path_of(path: &syn::Path) -> Option<Path> {
    let tokens = tokens_of(path.to_token_stream());
    match parse_path(&tokens, 0) {
        Ok((read, end)) if end == tokens.len() => Some(read),
        _ => None,
    }
}

fn type_of(ty: &syn::Type) -> Type {
    match ty {
        syn::Type::Reference(reference) => Type::Reference {
            mutability: reference.mutability.is_some(),
            elem: match &*reference.elem {
                syn::Type::Path(path) => path_of(&path.path),
                _ => None,
            },
        },
        syn::Type::Path(path) => match path_of(&path.path) {
            Some(path) => Type::Path(path),
            None => Type::Other,
        },
        _ => Type::Other,
    }
}

fn signature_of(sig: &syn::Signature) -> Signature {
    Signature {
        ident: sig.ident.to_string(),
        asyncness: sig.asyncness.is_some(),
        inputs: sig
            .inputs
            .iter()
            .map(|input| match input {
                syn::FnArg::Receiver(receiver) => FnArg::Receiver {
                    reference: receiver.reference.is_some(),
                    mutability: receiver.mutability.is_some(),
                },
                syn::FnArg::Typed(typed) => FnArg::Typed {
                    pat: text_of(typed.pat.to_token_stream()),
                    ty: type_of(&typed.ty),
                },
            })
            .collect(),
        output: match &sig.output {
            syn::ReturnType::Default => ReturnType::Default,
            syn::ReturnType::Type(_, ty) => ReturnType::Type(type_of(ty)),
        },
        text: text_of(sig.to_token_stream()),
    }
}

fn trait_of(source: &str) -> ItemTrait {
    let item: syn::ItemTrait = syn::parse_str(source).expect("a trait definition");
    let mut head = proc_macro2::TokenStream::new();
    item.vis.to_tokens(&mut head);
    item.unsafety.to_tokens(&mut head);
    item.auto_token.to_tokens(&mut head);
    item.trait_token.to_tokens(&mut head);
    item.ident.to_tokens(&mut head);
    item.generics.to_tokens(&mut head);
    item.colon_token.to_tokens(&mut head);
    item.supertraits.to_tokens(&mut head);
    item.generics.where_clause.to_tokens(&mut head);
    ItemTrait {
        attrs: item.attrs.iter().map(|attr| text_of(attr.to_token_stream())).collect(),
        head: text_of(head),
        ident: item.ident.to_string(),
        items: item
            .items
            .iter()
            .map(|item| match item {
                syn::TraitItem::Fn(function) => TraitItem::Fn(TraitItemFn {
                    sig: signature_of(&function.sig),
                    text: text_of(function.to_token_stream()),
                }),
                other => TraitItem::Other(text_of(other.to_token_stream())),
            })
            .collect(),
    }
}

fn compile(source: &str) -> Result<String, Error> {
    event_driven_state_machine(&lex(source))
}

const TRAFFIC_LIGHT: &str = r#"
    #[derive(Debug)]
    pub async struct TrafficLight {
        context: TrafficLightContext,
        state_enum: #[derive(Debug, Clone)] TrafficLightState,
        state_trait: pub trait TrafficLightStateTrait {
            fn should_exit(&self, context: &TrafficLightContext, event: &TrafficLightEvent) -> bool {
                !context.in_emergency
            }
            fn color(&self) -> TrafficLightColor;
        },
        event_enum: TrafficLightEvent,
        event_trait: pub trait TrafficLightEventTrait: Send {
            fn is_emergency(&self) -> bool { false }
        },
        states: [
            Red {
                Next -> Green,
                EmergencyVehicleApproaching { Yellow {}.into() },
            },
            Yellow { Next -> Red },
            Green { Next -> Yellow, },
            _ { state }
        ],
        events: [ CarPassed, ],
    }
"#;

#[test]
fn the_expansion_is_rust() {
    let text = compile(TRAFFIC_LIGHT).expect("the description is sound");
    let file: syn::File = syn::parse_str(&text).expect("the expansion parses as Rust");
    let names: Vec<String> = file
        .items
        .iter()
        .map(|item| match item {
            syn::Item::Trait(item) => format!("trait {}", item.ident),
            syn::Item::Enum(item) => format!("enum {}", item.ident),
            syn::Item::Struct(item) => format!("struct {}", item.ident),
            syn::Item::Impl(item) => format!(
                "impl {}",
                item.self_ty.to_token_stream().to_string()
            ),
            _ => "other".to_string(),
        })
        .collect();
    assert_eq!(
        names,
        vec![
            "trait TrafficLightEventTrait",
            "enum TrafficLightEvent",
            "impl TrafficLightEvent",
            "impl TrafficLightEvent",
            "impl TrafficLightEvent",
            "impl TrafficLightEvent",
            "trait TrafficLightStateTrait",
            "enum TrafficLightState",
            "impl TrafficLightState",
            "impl TrafficLightState",
            "impl TrafficLightState",
            "impl TrafficLightState",
            "struct TrafficLight",
            "impl TrafficLight",
        ]
    );
}

#[test]
fn the_sum_types_list_each_variant_once_in_order() {
    let text = compile(TRAFFIC_LIGHT).expect("the description is sound");
    assert!(text.contains(
        "enum TrafficLightEvent { Next(Next), \
         EmergencyVehicleApproaching(EmergencyVehicleApproaching), CarPassed(CarPassed), }"
    ));
    assert!(text.contains(
        "# [derive (Debug , Clone ) ]  pub  enum TrafficLightState { Red(Red), Yellow(Yellow), Green(Green), }"
    ));
}

#[test]
fn an_explicit_block_stands_in_a_function_named_by_heck() {
    let text = compile(TRAFFIC_LIGHT).expect("the description is sound");
    assert!(text.contains(
        "(TrafficLightState::Red(state), TrafficLightEvent::EmergencyVehicleApproaching(event)) => \
         { #[allow(non_snake_case)] async fn handle__red__emergency_vehicle_approaching(mut state: Red, \
         event: &mut EmergencyVehicleApproaching, context: &mut TrafficLightContext) -> \
         impl Into<TrafficLightState> { Yellow { } . into () } \
         handle__red__emergency_vehicle_approaching(state, event, &mut self.context).await.into() } "
    ));
}

#[test]
fn the_sugar_builds_the_default_of_its_target() {
    let text = compile(TRAFFIC_LIGHT).expect("the description is sound");
    assert!(text.contains(
        "(TrafficLightState::Yellow(state), TrafficLightEvent::Next(event)) => \
         { { Red::default() }.into() } "
    ));
}

#[test]
fn missing_hooks_get_their_defaults() {
    let text = compile(TRAFFIC_LIGHT).expect("the description is sound");
    assert!(text.contains("async fn on_enter(&mut self, context: &mut TrafficLightContext) {}"));
    assert!(text.contains("async fn on_exit(&mut self, context: &mut TrafficLightContext) {}"));
    assert!(text.contains("fn pre_transition(&mut self, _context: &mut TrafficLightContext) {}"));
    assert!(text.contains("fn post_transition(&mut self, _context: &mut TrafficLightContext) {}"));
    assert!(!text.contains("async fn should_exit"));
}

#[test]
fn only_async_hooks_are_awaited() {
    let text = compile(TRAFFIC_LIGHT).expect("the description is sound");
    assert!(text.contains(
        "if !TrafficLightState::should_exit(&state, &self.context, &event) { self.state"
    ));
    assert!(text.contains(
        "TrafficLightStateTrait::on_exit(&mut state, &mut self.context).await; \
         TrafficLightEventTrait::pre_transition(&mut event, &mut self.context); "
    ));
    assert!(text.contains(
        "TrafficLightEventTrait::post_transition(&mut event, &mut self.context); \
         TrafficLightStateTrait::on_enter(&mut state, &mut self.context).await; "
    ));
}

#[test]
fn a_wrong_hook_signature_is_refused() {
    let source = TRAFFIC_LIGHT.replace(
        "fn color(&self) -> TrafficLightColor;",
        "fn on_exit(&mut self, context: &TrafficLightContext);",
    );
    assert_eq!(
        compile(&source).unwrap_err(),
        Error::Hook(Hook::OnExit, Mismatch::SecondArgument)
    );
}

#[test]
fn a_second_catch_all_is_refused() {
    let source = TRAFFIC_LIGHT.replace("_ { state }", "_ { state }, _ { state }");
    assert_eq!(compile(&source).unwrap_err(), Error::MultipleCatchAll);
}

#[test]
fn a_gap_without_a_catch_all_is_refused() {
    let source = TRAFFIC_LIGHT.replace("_ { state }", "");
    assert_eq!(compile(&source).unwrap_err(), Error::Table(TableError::Gap(0, 2)));
}

#[test]
fn a_pair_declared_twice_is_refused() {
    let source = TRAFFIC_LIGHT.replace("Yellow { Next -> Red }", "Yellow { Next -> Red, Next -> Green }");
    assert_eq!(compile(&source).unwrap_err(), Error::Table(TableError::Duplicate(3)));
}

#[test]
fn two_states_of_one_name_are_refused() {
    let source = TRAFFIC_LIGHT.replace("Yellow { Next -> Red }", "other::Red { Next -> Red }");
    assert_eq!(compile(&source).unwrap_err(), Error::DuplicateStateName);
}

#[test]
fn a_trait_function_with_a_second_receiver_is_not_forwarded() {
    let mut machine = Machine::parse(&lex(TRAFFIC_LIGHT)).expect("well formed");
    if let TraitItem::Fn(function) = &mut machine.event_trait.items[0] {
        function.sig.inputs.push(FnArg::Receiver { reference: true, mutability: false });
    }
    assert_eq!(expand(machine).unwrap_err(), Error::ExpectedTypedInput);
}

fn shape(trait_: &ItemTrait) -> Vec<String> {
    let mut lines = vec![format!("trait {} with {} attributes", trait_.ident, trait_.attrs.len())];
    for item in &trait_.items {
        lines.push(match item {
            TraitItem::Fn(function) => format!(
                "fn {} async={} inputs={:?} output={:?}",
                function.sig.ident,
                function.sig.asyncness,
                function
                    .sig
                    .inputs
                    .iter()
                    .map(|input| match input {
                        FnArg::Receiver { reference, mutability } => {
                            format!("self {} {}", reference, mutability)
                        }
                        FnArg::Typed { pat, ty } => format!("{}: {:?}", pat.trim(), ty),
                    })
                    .collect::<Vec<_>>(),
                function.sig.output
            ),
            TraitItem::Other(_) => "other".to_string(),
        });
    }
    lines
}

#[test]
fn a_trait_is_read_as_syn_reads_it() {
    let traits = [
        "trait Plain {}",
        "trait Sized<const N: usize = { 1 }> { fn on_enter(&mut self, context: &mut Ctx) {} }",
        "#[doc = \"the states\"] pub(crate) unsafe trait States<T: Clone>: Send + Sync where T: Default { \
             type Output: Clone; \
             const LIMIT: usize = { 4 }; \
             const CALL: fn(u8) -> u8; \
             fn on_enter(&mut self, context: &mut app::Context<T>) {} \
             async fn on_exit<'a>(&'a mut self, _context: &'a mut Context) -> (); \
             fn should_exit(&self, context: &Context, event: &Events) -> bool where Self: Sized { true } \
             #[inline] unsafe extern \"C\" fn raw(self: Box<Self>, mut count: usize, (a, b): (u8, u8)) -> Option<Vec<u8>>; \
             fn shared(self, other: &dyn Fn(u8) -> u8, table: &mut [u8; 4], all: &&Context) -> &'static str; \
             fn generic<F: Fn(u8, u8) -> u8>(mut self, f: F, map: ::std::collections::HashMap<u8, Vec<Vec<u8>>>) -> F; \
         }",
    ];
    for source in traits {
        let description = format!(
            "Light {{ context: Ctx, state_enum: S, state_trait: {}, event_enum: E, \
             event_trait: trait Et {{}}, states: [] }}",
            source
        );
        let machine = Machine::parse(&lex(&description)).expect("well formed");
        assert_eq!(shape(&machine.state_trait), shape(&trait_of(source)), "{}", source);
    }
}

#[test]
fn where_a_trait_is_no_rust() {
    let cases = [
        ("trait St { fn on_enter(&mut self, 7) {} }", Error::Syntax(Expected::Trait, 2)),
        ("trait St { type; }", Error::Syntax(Expected::Trait, 2)),
        ("trait St { fn on_enter(&mut self) -> {} }", Error::Syntax(Expected::Trait, 2)),
    ];
    for (source, error) in cases {
        let description = format!("Light {{ state_trait: {} }}", source);
        assert_eq!(Machine::parse(&lex(&description)).unwrap_err(), error, "{}", source);
    }
}
