use machine_factory::deterministic_state_machine::{deterministic_state_machine, Machine};
use machine_factory::error::{Error, Expected, Field};
use machine_factory::token::{Delimiter, Token};

fn tokens_of(stream: proc_macro2::TokenStream) -> Vec<Token> {
    stream
        .into_iter()
        .map(|tree| match tree {
            proc_macro2::TokenTree::Group(group) => {
                let delimiter = match group.delimiter() {
                    proc_macro2::Delimiter::Parenthesis => Delimiter::Parenthesis,
                    proc_macro2::Delimiter::Brace => Delimiter::Brace,
                    proc_macro2::Delimiter::Bracket => Delimiter::Bracket,
                    proc_macro2::Delimiter::None => Delimiter::Invisible,
                };
                Token::Group(delimiter, tokens_of(group.stream()))
            }
            proc_macro2::TokenTree::Ident(ident) => Token::Ident(ident.to_string()),
            proc_macro2::TokenTree::Punct(punct) => {
                Token::Punct(punct.as_char(), punct.spacing() == proc_macro2::Spacing::Joint)
            }
            proc_macro2::TokenTree::Literal(literal) => Token::Literal(literal.to_string()),
        })
        .collect()
}

fn lex(source: &str) -> Vec<Token> {
    tokens_of(source.parse::<proc_macro2::TokenStream>().expect("the source is lexed"))
}

const TRAFFIC_LIGHT: &str = r#"
    #[derive(Debug)]
    #[derive(Clone)]
    pub struct TrafficLight {
        context: TrafficLightContext,
        state_trait: pub trait TrafficLightStateTrait {
            fn color(&self) -> String;
        },
        states: [
            Red {
                pub fn change(self) -> TrafficLight<Green> {
                    let Self { mut context, .. } = self;
                    context.changes_count += 1;
                    TrafficLight { context, state: Green }
                }
            },
            Yellow {
                pub fn change(self) -> TrafficLight<Red> {
                    TrafficLight { context: self.context, state: Red }
                }

                pub async fn back_to_green(self) -> Result<TrafficLight<Green>, Fault> {
                    Ok(TrafficLight { context: self.context, state: Green })
                }
            },
            Green {},
        ],
    }
"#;

#[test]
fn reads_a_deterministic_description() {
    let machine = Machine::parse(&lex(TRAFFIC_LIGHT)).expect("well formed");
    assert_eq!(machine.attributes.len(), 2);
    assert_eq!(machine.visibility.as_deref(), Some("pub "));
    assert_eq!(machine.name, "TrafficLight");
    assert_eq!(machine.context.text(), "TrafficLightContext");
    assert_eq!(machine.state_trait.as_ref().map(|t| t.ident.as_str()), Some("TrafficLightStateTrait"));
    let states: Vec<(String, Vec<String>)> = machine
        .state_transitions
        .iter()
        .map(|state| {
            (state.state.text(), state.transitions.iter().map(|f| f.name.clone()).collect())
        })
        .collect();
    assert_eq!(
        states,
        vec![
            ("Red".to_string(), vec!["change".to_string()]),
            ("Yellow".to_string(), vec!["change".to_string(), "back_to_green".to_string()]),
            ("Green".to_string(), Vec::new()),
        ]
    );
    assert_eq!(
        machine.state_transitions[1].transitions[0].text,
        "pub fn change (self ) -> TrafficLight < Red > { TrafficLight { context : self . context , state : Red } } "
    );
}

#[test]
fn writes_the_machine_generic_in_its_state() {
    let text = deterministic_state_machine(&lex(
        "Door { context: Log, states: [ Open { fn close(self) -> Door<Closed> { todo() } }, Closed {} ] }",
    ))
    .expect("well formed");
    assert_eq!(
        text,
        "struct Door<State> { context: Log, state: State, } impl<State> Door<State> \
         { pub fn new(intial_state: State, context: Log) -> Self { Self { context, state: intial_state, } } \
         pub fn context(&self) -> &Log { &self.context } \
         pub fn state(&self) -> &State { &self.state } \
         pub fn into_context(self) -> Log { self.context } \
         pub fn into_state(self) -> State { self.state } \
         pub fn into_parts(self) -> (State, Log) { (self.state, self.context) } } \
         impl Door<Open> { fn close (self ) -> Door < Closed > { todo () } } \
         impl Door<Closed> { } "
    );
}

#[test]
fn the_state_trait_bounds_the_states() {
    let text = deterministic_state_machine(&lex(TRAFFIC_LIGHT)).expect("well formed");
    assert!(text.starts_with(
        "# [derive (Debug ) ]  # [derive (Clone ) ]  pub  struct TrafficLight<State> \
         where State: TrafficLightStateTrait { context: TrafficLightContext, state: State, } \
         impl<State> TrafficLight<State> where State: TrafficLightStateTrait { pub fn new("
    ));
    assert!(text.contains("} pub trait TrafficLightStateTrait { fn color (& self ) -> String ; } impl TrafficLight<Red> { "));
    let file: syn::File = syn::parse_str(&text).expect("the expansion parses as Rust");
    assert_eq!(file.items.len(), 6);
}

#[test]
fn the_required_fields_of_a_deterministic_machine() {
    assert_eq!(
        deterministic_state_machine(&lex("Door { states: [] }")),
        Err(Error::MissingField(Field::Context))
    );
    assert_eq!(
        deterministic_state_machine(&lex("Door { context: Log, }")),
        Err(Error::MissingField(Field::States))
    );
    assert_eq!(
        deterministic_state_machine(&lex("Door { context: Log, states: [], states: [] }")),
        Err(Error::DuplicateField(Field::States))
    );
    assert_eq!(
        deterministic_state_machine(&lex("Door { context: Log, events: [] }")),
        Err(Error::UnrecognizedLabel(4))
    );
    assert!(deterministic_state_machine(&lex("Door { context: Log, states: [],, }")).is_ok());
}

#[test]
fn where_a_deterministic_description_is_malformed() {
    let cases: Vec<(&str, Error)> = vec![
        ("#derive Door {}", Error::Syntax(Expected::Attribute, 1)),
        ("pub struct {}", Error::Syntax(Expected::Identifier, 2)),
        ("Door []", Error::Syntax(Expected::Braces, 1)),
        ("Door { context Log }", Error::Syntax(Expected::Colon, 1)),
        ("Door { context: 7 }", Error::Syntax(Expected::Path, 2)),
        ("Door { context: a:: }", Error::Syntax(Expected::Path, 5)),
        ("Door { context: Log<u8 }", Error::Syntax(Expected::ClosingAngle, 3)),
        ("Door { context: Log, states: {} }", Error::Syntax(Expected::Brackets, 6)),
        ("Door { context: Log, states: [ Open ] }", Error::Syntax(Expected::Braces, 1)),
        ("Door { context: Log, states: [ Open {} Closed {} ] }", Error::Syntax(Expected::Comma, 2)),
        ("Door { context: Log, states: [ Open { struct X {} } ] }", Error::Syntax(Expected::Function, 0)),
        ("Door { context: Log, states: [ Open { fn } ] }", Error::Syntax(Expected::Function, 0)),
        ("Door { context: Log, states: [ Open { fn fn {} } ] }", Error::Syntax(Expected::Function, 0)),
        ("Door { context: Log, state_trait: trait {}, states: [] }", Error::Syntax(Expected::Trait, 6)),
        ("Door { context: Log, state_trait: Bound, states: [] }", Error::Syntax(Expected::Trait, 6)),
        ("Door { context: Log, states: [] ; }", Error::Syntax(Expected::End, 7)),
        ("Door { context: Log, states: [] } extra", Error::Syntax(Expected::End, 2)),
    ];
    for (source, error) in cases {
        assert_eq!(deterministic_state_machine(&lex(source)), Err(error), "{}", source);
    }
}

#[test]
fn the_functions_of_a_state_must_be_rust() {
    assert_eq!(
        deterministic_state_machine(&lex(
            "Door { context: Log, states: [ Open { fn close(self) -> { } } ] }"
        )),
        Err(Error::Syntax(Expected::Function, 0))
    );
    assert_eq!(
        deterministic_state_machine(&lex(
            "Door { context: Log, states: [ Open { fn close(self) { } fn open(self) -> Door<Open> { self } } ] }"
        ))
        .map(|text| text.contains("impl Door<Open> { fn close (self ) { } fn open (self ) -> Door < Open > { self } } ")),
        Ok(true)
    );
}

#[test]
fn the_delegate_and_the_shared_error_are_recorded() {
    let source = "Door { context: Log, acceptor_trait: pub trait DoorAcceptor { fn close(log: &mut Log) -> Result<(), Fault>; }, \
         acceptor_struct: doors::Hinges<u8>, error: doors::Fault, \
         transitions: [ Open { fn close(mut self) -> Result<Door<Closed>, Fault> { \
             <doors::Hinges<u8> as DoorAcceptor>::close(&mut self.context)?; \
             Ok(Door { context: self.context, state: Closed }) } }, Closed {} ] }";
    let machine = Machine::parse(&lex(source)).expect("well formed");
    assert_eq!(machine.acceptor_trait.as_ref().map(|t| t.ident.as_str()), Some("DoorAcceptor"));
    assert_eq!(machine.acceptor_struct.as_ref().map(|p| p.text()), Some("doors::Hinges< u8 > ".to_string()));
    assert_eq!(machine.error.as_ref().map(|p| p.text()), Some("doors::Fault".to_string()));
    assert_eq!(machine.state_trait, None);
    assert_eq!(machine.state_transitions.len(), 2);
    let text = deterministic_state_machine(&lex(source)).expect("well formed");
    assert!(text.contains(
        "(self.state, self.context) } } pub trait DoorAcceptor { fn close (log : & mut Log ) -> Result < () , Fault >; } impl Door<Open> { "
    ));
    let file: syn::File = syn::parse_str(&text).expect("the expansion parses as Rust");
    assert_eq!(file.items.len(), 5);
    let plain = Machine::parse(&lex("Door { context: Log, states: [] }")).expect("well formed");
    assert_eq!((plain.acceptor_trait, plain.acceptor_struct, plain.error), (None, None, None));
}

#[test]
fn the_optional_fields_of_a_deterministic_machine() {
    let cases: Vec<(&str, Error)> = vec![
        ("Door { acceptor_trait: trait A {}, acceptor_trait: trait B {} }", Error::DuplicateField(Field::AcceptorTrait)),
        ("Door { acceptor_struct: A, acceptor_struct: B }", Error::DuplicateField(Field::AcceptorStruct)),
        ("Door { error: A, error: B }", Error::DuplicateField(Field::Error)),
        ("Door { states: [], transitions: [] }", Error::DuplicateField(Field::States)),
        ("Door { acceptor_trait: A }", Error::Syntax(Expected::Trait, 2)),
        ("Door { acceptor_struct: trait A {} }", Error::Syntax(Expected::Path, 2)),
        ("Door { error: 7 }", Error::Syntax(Expected::Path, 2)),
        ("Door { error: Fault, acceptor_struct: Hinges }", Error::MissingField(Field::Context)),
    ];
    for (source, error) in cases {
        assert_eq!(deterministic_state_machine(&lex(source)), Err(error), "{}", source);
    }
    assert!(deterministic_state_machine(&lex("Door { context: Log, transitions: [] }")).is_ok());
}

#[test]
fn a_body_is_the_group_in_braces_that_ends_what_syn_reads() {
    let source = "Door { context: Log, \
         state_trait: trait Sized<const N: usize = { 1 }> { fn size(&self) -> usize { N } }, \
         states: [ Open { fn size(self) -> Buffer<{ 1 + 1 }> { Buffer::new() } fn close(self) -> Door<Closed> { todo() } } ] }";
    let machine = Machine::parse(&lex(source)).expect("well formed");
    let state_trait = machine.state_trait.expect("a state trait");
    assert_eq!(state_trait.ident, "Sized");
    assert!(state_trait.text.ends_with("{ fn size (& self ) -> usize { N } } "));
    let names: Vec<&str> =
        machine.state_transitions[0].transitions.iter().map(|f| f.name.as_str()).collect();
    assert_eq!(names, vec!["size", "close"]);
    assert_eq!(
        machine.state_transitions[0].transitions[0].text,
        "fn size (self ) -> Buffer < { 1 + 1 } > { Buffer :: new () } "
    );
}
