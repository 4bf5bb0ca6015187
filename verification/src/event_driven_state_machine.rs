//! The description of an event-driven machine: its grammar, and the source
//! text of the machine that it describes.

use crate::error::{Error, Expected, Field};
use crate::grammar::{
    accept, attributes, group, group_at, has_punct, has_word, header, is_joint, is_punct,
    is_word, name, name_at, parse_attributes, parse_header, parse_path, parse_path_list, path,
    path_list, Header,
};
use crate::syntax::{optional_text, path_views, texts, ItemTrait, ItemTraitView, Path, PathView};
use crate::trait_grammar::{parse_trait_definition, trait_definition};
use crate::text::{copy_of, same_text};
use crate::rust_syntax::{is_block, reads_as_block};
use crate::token::{render, render_tokens, token_views, Delimiter, Token, TokenView};
use vstd::prelude::*;
use vstd::string::*;

verus! {

/// What a transition computes: the default of a target state, or a block
/// of logic, held as source text.
#[derive(Debug, PartialEq, Eq)]
pub enum TransitionBlock {
    Default(Path),
    Block(String),
}

/// A transition: the event that takes it, and what it computes.
#[derive(Debug, PartialEq, Eq)]
pub struct Transition {
    pub event_path: Path,
    pub block: TransitionBlock,
}

/// The transitions out of one state.
#[derive(Debug, PartialEq, Eq)]
pub struct StateStateTransitions {
    pub state_path: Path,
    pub transitions: Vec<Transition>,
}

/// An item of the list of states: the transitions out of a state, or the
/// catch-all block, held as source text.
#[derive(Debug, PartialEq, Eq)]
pub enum StateTransitions {
    Default(String),
    State(StateStateTransitions),
}

/// A parsed description of an event-driven machine. Attributes, visibility
/// and blocks are held as source text, the two traits down to the
/// signatures of their functions.
#[derive(Debug, PartialEq, Eq)]
pub struct Machine {
    pub attributes: Vec<String>,
    pub visibility: Option<String>,
    pub asyncness: bool,
    pub name: String,
    pub context_path: Path,
    pub state_enum_attrs: Vec<String>,
    pub state_enum_ident: String,
    pub state_trait: ItemTrait,
    pub event_enum_attrs: Vec<String>,
    pub event_enum_ident: String,
    pub event_trait: ItemTrait,
    pub state_transitions: Vec<StateTransitions>,
    pub other_events: Vec<Path>,
}

/// What a `TransitionBlock` holds.
pub enum TransitionBlockView {
    Default(PathView),
    Block(Seq<char>),
}

/// What a `Transition` holds.
pub struct TransitionView {
    pub event_path: PathView,
    pub block: TransitionBlockView,
}

/// What a `StateStateTransitions` holds.
pub struct StateStateTransitionsView {
    pub state_path: PathView,
    pub transitions: Seq<TransitionView>,
}

/// What a `StateTransitions` holds.
pub enum StateTransitionsView {
    Default(Seq<char>),
    State(StateStateTransitionsView),
}

/// What a `Machine` holds.
pub struct MachineView {
    pub attributes: Seq<Seq<char>>,
    pub visibility: Option<Seq<char>>,
    pub asyncness: bool,
    pub name: Seq<char>,
    pub context_path: PathView,
    pub state_enum_attrs: Seq<Seq<char>>,
    pub state_enum_ident: Seq<char>,
    pub state_trait: ItemTraitView,
    pub event_enum_attrs: Seq<Seq<char>>,
    pub event_enum_ident: Seq<char>,
    pub event_trait: ItemTraitView,
    pub state_transitions: Seq<StateTransitionsView>,
    pub other_events: Seq<PathView>,
}

impl View for TransitionBlock {
    type V = TransitionBlockView;

    open spec fn view(&self) -> TransitionBlockView {
        match self {
            TransitionBlock::Default(target) => TransitionBlockView::Default(target@),
            TransitionBlock::Block(block) => TransitionBlockView::Block(block@),
        }
    }
}

impl View for Transition {
    type V = TransitionView;

    open spec fn view(&self) -> TransitionView {
        TransitionView { event_path: self.event_path@, block: self.block@ }
    }
}

/// What `transitions` hold.
pub open spec fn transition_views(transitions: Seq<Transition>) -> Seq<TransitionView> {
    transitions.map_values(|transition: Transition| transition@)
}

impl View for StateStateTransitions {
    type V = StateStateTransitionsView;

    open spec fn view(&self) -> StateStateTransitionsView {
        StateStateTransitionsView {
            state_path: self.state_path@,
            transitions: transition_views(self.transitions@),
        }
    }
}

impl View for StateTransitions {
    type V = StateTransitionsView;

    open spec fn view(&self) -> StateTransitionsView {
        match self {
            StateTransitions::Default(block) => StateTransitionsView::Default(block@),
            StateTransitions::State(state) => StateTransitionsView::State(state@),
        }
    }
}

/// What `states` hold.
pub open spec fn state_views(states: Seq<StateTransitions>) -> Seq<StateTransitionsView> {
    states.map_values(|state: StateTransitions| state@)
}

impl View for Machine {
    type V = MachineView;

    open spec fn view(&self) -> MachineView {
        MachineView {
            attributes: texts(self.attributes@),
            visibility: optional_text(self.visibility),
            asyncness: self.asyncness,
            name: self.name@,
            context_path: self.context_path@,
            state_enum_attrs: texts(self.state_enum_attrs@),
            state_enum_ident: self.state_enum_ident@,
            state_trait: self.state_trait@,
            event_enum_attrs: texts(self.event_enum_attrs@),
            event_enum_ident: self.event_enum_ident@,
            event_trait: self.event_trait@,
            state_transitions: state_views(self.state_transitions@),
            other_events: path_views(self.other_events@),
        }
    }
}

/// The transition at `at` and the position after it: the path of an event,
/// then `->` and the path of the target state, or a group in braces that
/// `syn` reads as a block.
pub open spec fn transition(tokens: Seq<TokenView>, at: int) -> Result<
    (TransitionView, int),
    Error,
> {
    match path(tokens, at) {
        Err(e) => Err(e),
        Ok((event_path, end)) => if is_joint(tokens, end, '-') && is_punct(tokens, end + 1, '>') {
            match path(tokens, end + 2) {
                Err(e) => Err(e),
                Ok((target, after)) => Ok(
                    (
                        TransitionView { event_path, block: TransitionBlockView::Default(target) },
                        after,
                    ),
                ),
            }
        } else if group(tokens, end, Delimiter::Brace) is Some {
            if reads_as_block(render(tokens, end, end + 1)) {
                Ok(
                    (
                        TransitionView {
                            event_path,
                            block: TransitionBlockView::Block(render(tokens, end, end + 1)),
                        },
                        end + 1,
                    ),
                )
            } else {
                Err(Error::Syntax(Expected::Block, end as usize))
            }
        } else {
            Err(Error::Syntax(Expected::ArrowOrBlock, end as usize))
        },
    }
}

/// The transitions from `at` to the end of `tokens`, added to `found`:
/// transitions with a comma between them, and perhaps one after the last.
pub open spec fn transition_list(
    tokens: Seq<TokenView>,
    at: int,
    found: Seq<TransitionView>,
) -> Result<Seq<TransitionView>, Error>
    decreases tokens.len() - at,
{
    if at < 0 || at >= tokens.len() {
        Ok(found)
    } else {
        match transition(tokens, at) {
            Err(e) => Err(e),
            Ok((next, end)) => if end >= tokens.len() {
                Ok(found.push(next))
            } else if at < end && is_punct(tokens, end, ',') {
                transition_list(tokens, end + 1, found.push(next))
            } else {
                Err(Error::Syntax(Expected::Comma, end as usize))
            },
        }
    }
}

/// The item of the list of states at `at` and the position after it: `_`
/// and the catch-all, a group in braces that `syn` reads as a block, or the
/// path of a state and its transitions in braces.
pub open spec fn state_transitions(tokens: Seq<TokenView>, at: int) -> Result<
    (StateTransitionsView, int),
    Error,
> {
    if is_word(tokens, at, "_"@) {
        if group(tokens, at + 1, Delimiter::Brace) is None {
            Err(Error::Syntax(Expected::Braces, (at + 1) as usize))
        } else if reads_as_block(render(tokens, at + 1, at + 2)) {
            Ok((StateTransitionsView::Default(render(tokens, at + 1, at + 2)), at + 2))
        } else {
            Err(Error::Syntax(Expected::Block, (at + 1) as usize))
        }
    } else {
        match path(tokens, at) {
            Err(e) => Err(e),
            Ok((state_path, end)) => match group(tokens, end, Delimiter::Brace) {
                None => Err(Error::Syntax(Expected::Braces, end as usize)),
                Some(inner) => match transition_list(inner, 0, Seq::empty()) {
                    Err(e) => Err(e),
                    Ok(transitions) => Ok(
                        (
                            StateTransitionsView::State(
                                StateStateTransitionsView { state_path, transitions },
                            ),
                            end + 1,
                        ),
                    ),
                },
            },
        }
    }
}

/// The items of the list of states from `at` to the end of `tokens`, added
/// to `found`: items with a comma between them, and perhaps one after the
/// last.
pub open spec fn state_list(
    tokens: Seq<TokenView>,
    at: int,
    found: Seq<StateTransitionsView>,
) -> Result<Seq<StateTransitionsView>, Error>
    decreases tokens.len() - at,
{
    if at < 0 || at >= tokens.len() {
        Ok(found)
    } else {
        match state_transitions(tokens, at) {
            Err(e) => Err(e),
            Ok((next, end)) => if end >= tokens.len() {
                Ok(found.push(next))
            } else if at < end && is_punct(tokens, end, ',') {
                state_list(tokens, end + 1, found.push(next))
            } else {
                Err(Error::Syntax(Expected::Comma, end as usize))
            },
        }
    }
}

impl Transition {
    /// Reads the transition at `at`.
    pub fn parse(tokens: &Vec<Token>, at: usize) -> (r: Result<(Transition, usize), Error>)
        ensures
            match transition(token_views(tokens@), at as int) {
                Ok((found, end)) => r matches Ok((read, after)) && read@ == found && after == end
                    && at < after <= tokens.len(),
                Err(e) => r == Err::<(Transition, usize), Error>(e),
            },
    {
        match parse_path(tokens, at) {
            Err(e) => Err(e),
            Ok((event_path, end)) => {
                if crate::grammar::has_joint(tokens, end, '-') && has_punct(tokens, end + 1, '>') {
                    match parse_path(tokens, end + 2) {
                        Err(e) => Err(e),
                        Ok((target, after)) => Ok(
                            (
                                Transition { event_path, block: TransitionBlock::Default(target) },
                                after,
                            ),
                        ),
                    }
                } else if group_at(tokens, end, Delimiter::Brace).is_some() {
                    let block = render_tokens(tokens, end, end + 1);
                    let accepts = is_block(block.as_str());
                    accept(
                        (Transition { event_path, block: TransitionBlock::Block(block) }, end + 1),
                        accepts,
                        Expected::Block,
                        end,
                    )
                } else {
                    Err(Error::Syntax(Expected::ArrowOrBlock, end))
                }
            },
        }
    }

    /// Reads the transitions that `tokens` list.
    pub fn parse_list(tokens: &Vec<Token>) -> (r: Result<Vec<Transition>, Error>)
        ensures
            match transition_list(token_views(tokens@), 0, Seq::empty()) {
                Ok(found) => r matches Ok(read) && transition_views(read@) == found,
                Err(e) => r == Err::<Vec<Transition>, Error>(e),
            },
    {
        let mut pos: usize = 0;
        let mut found: Vec<Transition> = Vec::new();
        assert(transition_views(found@) =~= Seq::empty());
        while pos < tokens.len()
            invariant
                transition_list(token_views(tokens@), 0, Seq::empty()) == transition_list(
                    token_views(tokens@),
                    pos as int,
                    transition_views(found@),
                ),
            decreases tokens.len() - pos,
        {
            match Transition::parse(tokens, pos) {
                Err(e) => {
                    return Err(e);
                },
                Ok((next, end)) => {
                    let ghost before = transition_views(found@);
                    found.push(next);
                    assert(transition_views(found@) =~= before.push(next@));
                    if end >= tokens.len() {
                        return Ok(found);
                    } else if has_punct(tokens, end, ',') {
                        pos = end + 1;
                    } else {
                        return Err(Error::Syntax(Expected::Comma, end));
                    }
                },
            }
        }
        Ok(found)
    }
}

impl StateTransitions {
    /// Reads the item of the list of states at `at`.
    pub fn parse(tokens: &Vec<Token>, at: usize) -> (r: Result<(StateTransitions, usize), Error>)
        ensures
            match state_transitions(token_views(tokens@), at as int) {
                Ok((found, end)) => r matches Ok((read, after)) && read@ == found && after == end
                    && at < after <= tokens.len(),
                Err(e) => r == Err::<(StateTransitions, usize), Error>(e),
            },
    {
        if has_word(tokens, at, "_") {
            if group_at(tokens, at + 1, Delimiter::Brace).is_none() {
                return Err(Error::Syntax(Expected::Braces, at + 1));
            }
            let block = render_tokens(tokens, at + 1, at + 2);
            let accepts = is_block(block.as_str());
            accept((StateTransitions::Default(block), at + 2), accepts, Expected::Block, at + 1)
        } else {
            match parse_path(tokens, at) {
                Err(e) => Err(e),
                Ok((state_path, end)) => match group_at(tokens, end, Delimiter::Brace) {
                    None => Err(Error::Syntax(Expected::Braces, end)),
                    Some(inner) => match Transition::parse_list(inner) {
                        Err(e) => Err(e),
                        Ok(transitions) => Ok(
                            (
                                StateTransitions::State(
                                    StateStateTransitions { state_path, transitions },
                                ),
                                end + 1,
                            ),
                        ),
                    },
                },
            }
        }
    }

    /// Reads the list of states that `tokens` hold.
    pub fn parse_list(tokens: &Vec<Token>) -> (r: Result<Vec<StateTransitions>, Error>)
        ensures
            match state_list(token_views(tokens@), 0, Seq::empty()) {
                Ok(found) => r matches Ok(read) && state_views(read@) == found,
                Err(e) => r == Err::<Vec<StateTransitions>, Error>(e),
            },
    {
        let mut pos: usize = 0;
        let mut found: Vec<StateTransitions> = Vec::new();
        assert(state_views(found@) =~= Seq::empty());
        while pos < tokens.len()
            invariant
                state_list(token_views(tokens@), 0, Seq::empty()) == state_list(
                    token_views(tokens@),
                    pos as int,
                    state_views(found@),
                ),
            decreases tokens.len() - pos,
        {
            match StateTransitions::parse(tokens, pos) {
                Err(e) => {
                    return Err(e);
                },
                Ok((next, end)) => {
                    let ghost before = state_views(found@);
                    found.push(next);
                    assert(state_views(found@) =~= before.push(next@));
                    if end >= tokens.len() {
                        return Ok(found);
                    } else if has_punct(tokens, end, ',') {
                        pos = end + 1;
                    } else {
                        return Err(Error::Syntax(Expected::Comma, end));
                    }
                },
            }
        }
        Ok(found)
    }
}


/// The labelled fields read so far.
#[derive(Debug, PartialEq, Eq)]
pub struct Fields {
    pub context: Option<Path>,
    pub state_enum: Option<(Vec<String>, String)>,
    pub state_trait: Option<ItemTrait>,
    pub event_enum: Option<(Vec<String>, String)>,
    pub event_trait: Option<ItemTrait>,
    pub states: Option<Vec<StateTransitions>>,
    pub events: Option<Vec<Path>>,
}

/// What `Fields` hold.
pub struct FieldsView {
    pub context: Option<PathView>,
    pub state_enum: Option<(Seq<Seq<char>>, Seq<char>)>,
    pub state_trait: Option<ItemTraitView>,
    pub event_enum: Option<(Seq<Seq<char>>, Seq<char>)>,
    pub event_trait: Option<ItemTraitView>,
    pub states: Option<Seq<StateTransitionsView>>,
    pub events: Option<Seq<PathView>>,
}

/// What the name of a sum type, with its attributes, holds.
pub open spec fn enum_name_view(read: Option<(Vec<String>, String)>) -> Option<
    (Seq<Seq<char>>, Seq<char>),
> {
    match read {
        Some((attrs, ident)) => Some((texts(attrs@), ident@)),
        None => None,
    }
}

impl View for Fields {
    type V = FieldsView;

    open spec fn view(&self) -> FieldsView {
        FieldsView {
            context: match self.context {
                Some(path) => Some(path@),
                None => None,
            },
            state_enum: enum_name_view(self.state_enum),
            state_trait: match self.state_trait {
                Some(source) => Some(source@),
                None => None,
            },
            event_enum: enum_name_view(self.event_enum),
            event_trait: match self.event_trait {
                Some(source) => Some(source@),
                None => None,
            },
            states: match self.states {
                Some(states) => Some(state_views(states@)),
                None => None,
            },
            events: match self.events {
                Some(events) => Some(path_views(events@)),
                None => None,
            },
        }
    }
}

/// No field read yet.
pub open spec fn no_fields() -> FieldsView {
    FieldsView {
        context: None,
        state_enum: None,
        state_trait: None,
        event_enum: None,
        event_trait: None,
        states: None,
        events: None,
    }
}

/// The name of a sum type at `at`, with the attributes before it, and the
/// position after it.
pub open spec fn enum_name(tokens: Seq<TokenView>, at: int) -> Result<
    ((Seq<Seq<char>>, Seq<char>), int),
    Error,
> {
    match attributes(tokens, at, Seq::empty()) {
        Err(e) => Err(e),
        Ok((attrs, end)) => match name(tokens, end) {
            None => Err(Error::Syntax(Expected::Identifier, end as usize)),
            Some(ident) => Ok(((attrs, ident), end + 1)),
        },
    }
}

/// The fields with the value of the field `label`, which stands at `at`,
/// and the position after that value. The list of states goes by either of
/// the labels `states` and `transitions`. A label that is not known and a
/// field that has been read before are refused.
pub open spec fn field(
    tokens: Seq<TokenView>,
    at: int,
    label: Seq<char>,
    read: FieldsView,
) -> Result<(FieldsView, int), Error> {
    if label == "context"@ {
        if read.context is Some {
            Err(Error::DuplicateField(Field::Context))
        } else {
            match path(tokens, at + 2) {
                Err(e) => Err(e),
                Ok((value, end)) => Ok((FieldsView { context: Some(value), ..read }, end)),
            }
        }
    } else if label == "state_enum"@ {
        if read.state_enum is Some {
            Err(Error::DuplicateField(Field::StateEnum))
        } else {
            match enum_name(tokens, at + 2) {
                Err(e) => Err(e),
                Ok((value, end)) => Ok((FieldsView { state_enum: Some(value), ..read }, end)),
            }
        }
    } else if label == "state_trait"@ {
        if read.state_trait is Some {
            Err(Error::DuplicateField(Field::StateTrait))
        } else {
            match trait_definition(tokens, at + 2) {
                Err(e) => Err(e),
                Ok((value, end)) => Ok((FieldsView { state_trait: Some(value), ..read }, end)),
            }
        }
    } else if label == "event_enum"@ {
        if read.event_enum is Some {
            Err(Error::DuplicateField(Field::EventEnum))
        } else {
            match enum_name(tokens, at + 2) {
                Err(e) => Err(e),
                Ok((value, end)) => Ok((FieldsView { event_enum: Some(value), ..read }, end)),
            }
        }
    } else if label == "event_trait"@ {
        if read.event_trait is Some {
            Err(Error::DuplicateField(Field::EventTrait))
        } else {
            match trait_definition(tokens, at + 2) {
                Err(e) => Err(e),
                Ok((value, end)) => Ok((FieldsView { event_trait: Some(value), ..read }, end)),
            }
        }
    } else if label == "states"@ || label == "transitions"@ {
        if read.states is Some {
            Err(Error::DuplicateField(Field::States))
        } else {
            match group(tokens, at + 2, Delimiter::Bracket) {
                None => Err(Error::Syntax(Expected::Brackets, (at + 2) as usize)),
                Some(inner) => match state_list(inner, 0, Seq::empty()) {
                    Err(e) => Err(e),
                    Ok(value) => Ok((FieldsView { states: Some(value), ..read }, at + 3)),
                },
            }
        }
    } else if label == "events"@ {
        if read.events is Some {
            Err(Error::DuplicateField(Field::Events))
        } else {
            match group(tokens, at + 2, Delimiter::Bracket) {
                None => Err(Error::Syntax(Expected::Brackets, (at + 2) as usize)),
                Some(inner) => match path_list(inner, 0, Seq::empty()) {
                    Err(e) => Err(e),
                    Ok(value) => Ok((FieldsView { events: Some(value), ..read }, at + 3)),
                },
            }
        }
    } else {
        Err(Error::UnrecognizedLabel(at as usize))
    }
}

/// The fields from `at` on, added to `read`, and the position after them:
/// each a label, `:` and a value, with perhaps a comma after it. The fields
/// end where no identifier stands.
pub open spec fn fields(tokens: Seq<TokenView>, at: int, read: FieldsView) -> Result<
    (FieldsView, int),
    Error,
>
    decreases tokens.len() - at,
{
    match name(tokens, at) {
        None => Ok((read, at)),
        Some(label) => if !is_punct(tokens, at + 1, ':') {
            Err(Error::Syntax(Expected::Colon, (at + 1) as usize))
        } else {
            match field(tokens, at, label, read) {
                Err(e) => Err(e),
                Ok((with_value, end)) => {
                    let next = if is_punct(tokens, end, ',') {
                        end + 1
                    } else {
                        end
                    };
                    if at < next <= tokens.len() {
                        fields(tokens, next, with_value)
                    } else {
                        Ok((with_value, next))
                    }
                },
            }
        },
    }
}

/// The first required field that `read` lacks.
pub open spec fn missing_field(read: FieldsView) -> Option<Field> {
    if read.context is None {
        Some(Field::Context)
    } else if read.state_enum is None {
        Some(Field::StateEnum)
    } else if read.state_trait is None {
        Some(Field::StateTrait)
    } else if read.event_enum is None {
        Some(Field::EventEnum)
    } else if read.event_trait is None {
        Some(Field::EventTrait)
    } else if read.states is None {
        Some(Field::States)
    } else {
        None
    }
}

/// The machine that `tokens` describe: attributes, a visibility, `async`
/// and `struct`, each of which may be left out, then the name of the
/// machine and its fields in braces, and nothing after them. `context`,
/// `state_enum`, `state_trait`, `event_enum`, `event_trait` and `states`
/// are required; `events` is empty where it is not given.
pub open spec fn machine(tokens: Seq<TokenView>) -> Result<MachineView, Error> {
    match header(tokens, true) {
        Err(e) => Err(e),
        Ok(head) => match name(tokens, head.name_at) {
            None => Err(Error::Syntax(Expected::Identifier, head.name_at as usize)),
            Some(ident) => match group(tokens, head.name_at + 1, Delimiter::Brace) {
                None => Err(Error::Syntax(Expected::Braces, (head.name_at + 1) as usize)),
                Some(inner) => match fields(inner, 0, no_fields()) {
                    Err(e) => Err(e),
                    Ok((read, end)) => if missing_field(read) is Some {
                        Err(Error::MissingField(missing_field(read)->0))
                    } else if end < inner.len() {
                        Err(Error::Syntax(Expected::End, end as usize))
                    } else if head.name_at + 2 < tokens.len() {
                        Err(Error::Syntax(Expected::End, (head.name_at + 2) as usize))
                    } else {
                        Ok(
                            MachineView {
                                attributes: head.attributes,
                                visibility: head.visibility,
                                asyncness: head.asyncness,
                                name: ident,
                                context_path: read.context->0,
                                state_enum_attrs: read.state_enum.unwrap().0,
                                state_enum_ident: read.state_enum.unwrap().1,
                                state_trait: read.state_trait->0,
                                event_enum_attrs: read.event_enum.unwrap().0,
                                event_enum_ident: read.event_enum.unwrap().1,
                                event_trait: read.event_trait->0,
                                state_transitions: read.states->0,
                                other_events: match read.events {
                                    Some(events) => events,
                                    None => Seq::empty(),
                                },
                            },
                        )
                    },
                },
            },
        },
    }
}

/// Reads the name of a sum type at `at`, with the attributes before it.
fn parse_enum_name(tokens: &Vec<Token>, at: usize) -> (r: Result<
    ((Vec<String>, String), usize),
    Error,
>)
    requires
        at <= tokens.len(),
    ensures
        match enum_name(token_views(tokens@), at as int) {
            Ok((found, end)) => r matches Ok((read, after)) && enum_name_view(Some(read)) == Some(
                found,
            ) && after == end && at < after <= tokens.len(),
            Err(e) => r == Err::<((Vec<String>, String), usize), Error>(e),
        },
{
    match parse_attributes(tokens, at) {
        Err(e) => Err(e),
        Ok((attrs, end)) => match name_at(tokens, end) {
            None => Err(Error::Syntax(Expected::Identifier, end)),
            Some(ident) => Ok(((attrs, copy_of(ident)), end + 1)),
        },
    }
}

/// Reads the value of the field `label`, which stands at `at`, into `read`.
fn parse_field(tokens: &Vec<Token>, at: usize, label: &str, read: &mut Fields) -> (r: Result<
    usize,
    Error,
>)
    requires
        at + 1 < tokens.len(),
    ensures
        match field(token_views(tokens@), at as int, label@, old(read)@) {
            Ok((with_value, end)) => r == Ok::<usize, Error>(end as usize) && final(read)@
                == with_value && at < end <= tokens.len(),
            Err(e) => r == Err::<usize, Error>(e),
        },
{
    if same_text(label, "context") {
        if read.context.is_some() {
            return Err(Error::DuplicateField(Field::Context));
        }
        match parse_path(tokens, at + 2) {
            Err(e) => Err(e),
            Ok((value, end)) => {
                read.context = Some(value);
                Ok(end)
            },
        }
    } else if same_text(label, "state_enum") {
        if read.state_enum.is_some() {
            return Err(Error::DuplicateField(Field::StateEnum));
        }
        match parse_enum_name(tokens, at + 2) {
            Err(e) => Err(e),
            Ok((value, end)) => {
                read.state_enum = Some(value);
                Ok(end)
            },
        }
    } else if same_text(label, "state_trait") {
        if read.state_trait.is_some() {
            return Err(Error::DuplicateField(Field::StateTrait));
        }
        match parse_trait_definition(tokens, at + 2) {
            Err(e) => Err(e),
            Ok((value, end)) => {
                read.state_trait = Some(value);
                Ok(end)
            },
        }
    } else if same_text(label, "event_enum") {
        if read.event_enum.is_some() {
            return Err(Error::DuplicateField(Field::EventEnum));
        }
        match parse_enum_name(tokens, at + 2) {
            Err(e) => Err(e),
            Ok((value, end)) => {
                read.event_enum = Some(value);
                Ok(end)
            },
        }
    } else if same_text(label, "event_trait") {
        if read.event_trait.is_some() {
            return Err(Error::DuplicateField(Field::EventTrait));
        }
        match parse_trait_definition(tokens, at + 2) {
            Err(e) => Err(e),
            Ok((value, end)) => {
                read.event_trait = Some(value);
                Ok(end)
            },
        }
    } else if same_text(label, "states") || same_text(label, "transitions") {
        if read.states.is_some() {
            return Err(Error::DuplicateField(Field::States));
        }
        match group_at(tokens, at + 2, Delimiter::Bracket) {
            None => Err(Error::Syntax(Expected::Brackets, at + 2)),
            Some(inner) => match StateTransitions::parse_list(inner) {
                Err(e) => Err(e),
                Ok(value) => {
                    read.states = Some(value);
                    Ok(at + 3)
                },
            },
        }
    } else if same_text(label, "events") {
        if read.events.is_some() {
            return Err(Error::DuplicateField(Field::Events));
        }
        match group_at(tokens, at + 2, Delimiter::Bracket) {
            None => Err(Error::Syntax(Expected::Brackets, at + 2)),
            Some(inner) => match parse_path_list(inner) {
                Err(e) => Err(e),
                Ok(value) => {
                    read.events = Some(value);
                    Ok(at + 3)
                },
            },
        }
    } else {
        Err(Error::UnrecognizedLabel(at))
    }
}

/// Reads the fields that `tokens` start with.
fn parse_fields(tokens: &Vec<Token>) -> (r: Result<(Fields, usize), Error>)
    ensures
        match fields(token_views(tokens@), 0, no_fields()) {
            Ok((found, end)) => r matches Ok((read, after)) && read@ == found && after == end
                && after <= tokens.len(),
            Err(e) => r == Err::<(Fields, usize), Error>(e),
        },
{
    let mut read = Fields {
        context: None,
        state_enum: None,
        state_trait: None,
        event_enum: None,
        event_trait: None,
        states: None,
        events: None,
    };
    let mut pos: usize = 0;
    loop
        invariant
            pos <= tokens.len(),
            fields(token_views(tokens@), 0, no_fields()) == fields(
                token_views(tokens@),
                pos as int,
                read@,
            ),
        decreases tokens.len() - pos,
    {
        match name_at(tokens, pos) {
            None => {
                return Ok((read, pos));
            },
            Some(label) => {
                if !has_punct(tokens, pos + 1, ':') {
                    return Err(Error::Syntax(Expected::Colon, pos + 1));
                }
                match parse_field(tokens, pos, label.as_str(), &mut read) {
                    Err(e) => {
                        return Err(e);
                    },
                    Ok(end) => {
                        pos = if has_punct(tokens, end, ',') {
                            end + 1
                        } else {
                            end
                        };
                    },
                }
            },
        }
    }
}

impl Machine {
    /// Reads the description of an event-driven machine.
    pub fn parse(tokens: &Vec<Token>) -> (r: Result<Machine, Error>)
        ensures
            match machine(token_views(tokens@)) {
                Ok(described) => r matches Ok(read) && read@ == described,
                Err(e) => r == Err::<Machine, Error>(e),
            },
    {
        let Header { attributes, visibility, asyncness, name_at: at } = match parse_header(
            tokens,
            true,
        ) {
            Err(e) => {
                return Err(e);
            },
            Ok(head) => head,
        };
        let name = match name_at(tokens, at) {
            None => {
                return Err(Error::Syntax(Expected::Identifier, at));
            },
            Some(ident) => copy_of(ident),
        };
        let inner = match group_at(tokens, at + 1, Delimiter::Brace) {
            None => {
                return Err(Error::Syntax(Expected::Braces, at + 1));
            },
            Some(inner) => inner,
        };
        let (read, end) = match parse_fields(inner) {
            Err(e) => {
                return Err(e);
            },
            Ok(read) => read,
        };
        let Fields { context, state_enum, state_trait, event_enum, event_trait, states, events } =
            read;
        let context_path = match context {
            None => {
                return Err(Error::MissingField(Field::Context));
            },
            Some(value) => value,
        };
        let (state_enum_attrs, state_enum_ident) = match state_enum {
            None => {
                return Err(Error::MissingField(Field::StateEnum));
            },
            Some(value) => value,
        };
        let state_trait = match state_trait {
            None => {
                return Err(Error::MissingField(Field::StateTrait));
            },
            Some(value) => value,
        };
        let (event_enum_attrs, event_enum_ident) = match event_enum {
            None => {
                return Err(Error::MissingField(Field::EventEnum));
            },
            Some(value) => value,
        };
        let event_trait = match event_trait {
            None => {
                return Err(Error::MissingField(Field::EventTrait));
            },
            Some(value) => value,
        };
        let state_transitions = match states {
            None => {
                return Err(Error::MissingField(Field::States));
            },
            Some(value) => value,
        };
        if end < inner.len() {
            return Err(Error::Syntax(Expected::End, end));
        }
        if at + 2 < tokens.len() {
            return Err(Error::Syntax(Expected::End, at + 2));
        }
        let other_events = match events {
            Some(value) => value,
            None => {
                let none: Vec<Path> = Vec::new();
                assert(path_views(none@) =~= Seq::empty());
                none
            },
        };
        Ok(
            Machine {
                attributes,
                visibility,
                asyncness,
                name,
                context_path,
                state_enum_attrs,
                state_enum_ident,
                state_trait,
                event_enum_attrs,
                event_enum_ident,
                event_trait,
                state_transitions,
                other_events,
            },
        )
    }
}


/// The trait `trait_` as the machine defines it: with `items` for its
/// items, and in an asynchronous machine with the attribute that lets a
/// trait have `async` functions.
pub open spec fn completed(
    trait_: ItemTraitView,
    items: Seq<crate::syntax::TraitItemView>,
    asyncness: bool,
) -> ItemTraitView {
    ItemTraitView {
        attrs: if asyncness {
            trait_.attrs.push(crate::expansion::async_trait_attribute())
        } else {
            trait_.attrs
        },
        head: trait_.head,
        ident: trait_.ident,
        items,
    }
}

/// Why `machine` describes no machine, if it describes none: a hook of the
/// state trait with a wrong signature, then one of the event trait, then a
/// fault in the list of states.
pub open spec fn unsound(machine: MachineView) -> Option<Error> {
    let state_hooks = crate::state_trait::state_hooks(
        machine.state_trait.items,
        machine.asyncness,
        machine.context_path,
        machine.event_enum_ident,
    );
    let event_hooks = crate::event_trait::event_hooks(
        machine.event_trait.items,
        machine.context_path,
    );
    if state_hooks.1 is Some {
        state_hooks.1
    } else if event_hooks.1 is Some {
        event_hooks.1
    } else {
        crate::synthesis::synthesis_error(machine.state_transitions, machine.other_events)
    }
}

/// `machine` with its two traits as the machine defines them: each with
/// every hook of the lifecycle contract.
pub open spec fn with_hooks(machine: MachineView) -> MachineView {
    MachineView {
        state_trait: completed(
            machine.state_trait,
            crate::state_trait::state_hooks(
                machine.state_trait.items,
                machine.asyncness,
                machine.context_path,
                machine.event_enum_ident,
            ).0,
            machine.asyncness,
        ),
        event_trait: completed(
            machine.event_trait,
            crate::event_trait::event_hooks(machine.event_trait.items, machine.context_path).0,
            machine.asyncness,
        ),
        ..machine
    }
}

/// The source text of the sound machine `machine`, whose traits hold every
/// hook, or the refusal of a trait function that cannot be forwarded.
///
/// The text holds, in this order: the event trait, the event sum type, the
/// conversions into it and its implementation of the event trait; the same
/// four for the states; the machine, with its constructor, its accessors
/// and `handle_event`.
pub open spec fn machine_text(machine: MachineView) -> Result<Seq<char>, Error> {
    let found = crate::synthesis::state_events(machine.state_transitions)->Ok_0;
    let states = crate::synthesis::discovered_states(machine.state_transitions, found);
    let events = crate::synthesis::discovered_events(found, machine.other_events);
    let blocks = crate::synthesis::catch_all_blocks(
        machine.state_transitions,
        machine.state_transitions.len(),
    );
    let arms = crate::expansion::dispatch_arms(found, machine, found.len())
        + crate::expansion::catch_all_arm(
        if blocks.len() == 1 {
            Some(blocks[0])
        } else {
            None
        },
        machine,
    );
    match crate::expansion::forwarding_fns(
        "event"@,
        Seq::empty(),
        machine.event_trait.items,
        events,
        0,
        Seq::empty(),
    ) {
        Err(e) => Err(e),
        Ok(event_fns) => match crate::expansion::forwarding_fns(
            "state"@,
            "#[allow(clippy::used_underscore_binding)] "@,
            machine.state_trait.items,
            states,
            0,
            Seq::empty(),
        ) {
            Err(e) => Err(e),
            Ok(state_fns) => match crate::sum_type::enum_definition(
                machine.event_enum_attrs,
                machine.visibility,
                machine.event_enum_ident,
                events,
                Error::DuplicateEventName,
            ) {
                Err(e) => Err(e),
                Ok(event_enum) => match crate::sum_type::enum_definition(
                    machine.state_enum_attrs,
                    machine.visibility,
                    machine.state_enum_ident,
                    states,
                    Error::DuplicateStateName,
                ) {
                    Err(e) => Err(e),
                    Ok(state_enum) => Ok(
                        crate::expansion::trait_text(machine.event_trait) + event_enum + " "@
                            + crate::expansion::from_impls(
                            "event"@,
                            machine.event_enum_ident,
                            events,
                            events.len(),
                        ) + crate::expansion::trait_impl(
                            machine.asyncness,
                            machine.event_trait.ident,
                            machine.event_enum_ident,
                            event_fns,
                        ) + crate::expansion::trait_text(machine.state_trait) + state_enum + " "@
                            + crate::expansion::from_impls(
                            "state"@,
                            machine.state_enum_ident,
                            states,
                            states.len(),
                        ) + crate::expansion::trait_impl(
                            machine.asyncness,
                            machine.state_trait.ident,
                            machine.state_enum_ident,
                            state_fns,
                        ) + crate::expansion::struct_text(machine) + "impl "@ + machine.name
                            + " { "@ + crate::expansion::accessors_text(
                            machine,
                            machine.state_trait.ident,
                        ) + crate::expansion::handle_event_text(
                            machine,
                            machine.state_trait,
                            machine.event_trait,
                            arms,
                        ) + "} "@,
                    ),
                },
            },
        },
    }
}

/// The source text of the machine that `machine` describes, or the first
/// reason why there is none.
pub open spec fn expansion(machine: MachineView) -> Result<Seq<char>, Error> {
    match unsound(machine) {
        Some(e) => Err(e),
        None => machine_text(with_hooks(machine)),
    }
}

/// Writes the source text of the event-driven machine that `machine`
/// describes: completes and checks its two traits, works out its sum types
/// and its dispatch table, and writes the machine.
pub fn expand(machine: Machine) -> (r: Result<String, Error>)
    ensures
        match expansion(machine@) {
            Ok(text) => r matches Ok(out) && out@ == text,
            Err(e) => r == Err::<String, Error>(e),
        },
{
    proof {
        reveal_strlit("");
        assert(""@ =~= Seq::<char>::empty());
    }
    let ghost described = machine@;
    let mut machine = machine;
    match crate::state_trait::ensure_state_trait(
        machine.asyncness,
        &mut machine.state_trait,
        &machine.context_path,
        machine.event_enum_ident.as_str(),
    ) {
        Err(e) => {
            return Err(e);
        },
        Ok(()) => {},
    }
    match crate::event_trait::ensure_event_trait(&mut machine.event_trait, &machine.context_path) {
        Err(e) => {
            return Err(e);
        },
        Ok(()) => {},
    }
    if machine.asyncness {
        let ghost state_attrs = texts(machine.state_trait.attrs@);
        let ghost event_attrs = texts(machine.event_trait.attrs@);
        let attribute = String::from_str("#[::async_trait::async_trait]");
        machine.state_trait.attrs.push(attribute);
        assert(texts(machine.state_trait.attrs@) =~= state_attrs.push(
            crate::expansion::async_trait_attribute(),
        ));
        let attribute = String::from_str("#[::async_trait::async_trait]");
        machine.event_trait.attrs.push(attribute);
        assert(texts(machine.event_trait.attrs@) =~= event_attrs.push(
            crate::expansion::async_trait_attribute(),
        ));
    }
    let synthesis = match crate::synthesis::synthesize(
        &machine.state_transitions,
        &machine.other_events,
    ) {
        Err(e) => {
            return Err(e);
        },
        Ok(synthesis) => synthesis,
    };
    assert(machine@ == with_hooks(described));
    let event_fns = match crate::expansion::write_forwarding_fns(
        "event",
        "",
        &machine.event_trait.items,
        &synthesis.events,
    ) {
        Err(e) => {
            return Err(e);
        },
        Ok(text) => text,
    };
    let state_fns = match crate::expansion::write_forwarding_fns(
        "state",
        "#[allow(clippy::used_underscore_binding)] ",
        &machine.state_trait.items,
        &synthesis.states,
    ) {
        Err(e) => {
            return Err(e);
        },
        Ok(text) => text,
    };
    let event_enum = match crate::sum_type::define_enum(
        &machine.event_enum_attrs,
        &machine.visibility,
        &machine.event_enum_ident,
        &synthesis.events,
        Error::DuplicateEventName,
    ) {
        Err(e) => {
            return Err(e);
        },
        Ok(text) => text,
    };
    let state_enum = match crate::sum_type::define_enum(
        &machine.state_enum_attrs,
        &machine.visibility,
        &machine.state_enum_ident,
        &synthesis.states,
        Error::DuplicateStateName,
    ) {
        Err(e) => {
            return Err(e);
        },
        Ok(text) => text,
    };
    let mut arms = crate::expansion::write_dispatch_arms(&synthesis.state_events, &machine);
    let last_arm = crate::expansion::write_catch_all_arm(&synthesis.catch_all, &machine);
    arms.append(last_arm.as_str());
    let mut out = crate::expansion::write_trait(&machine.event_trait);
    out.append(event_enum.as_str());
    out.append(" ");
    let event_from = crate::expansion::write_from_impls(
        "event",
        machine.event_enum_ident.as_str(),
        &synthesis.events,
    );
    out.append(event_from.as_str());
    let event_impl = crate::expansion::write_trait_impl(
        machine.asyncness,
        machine.event_trait.ident.as_str(),
        machine.event_enum_ident.as_str(),
        event_fns.as_str(),
    );
    out.append(event_impl.as_str());
    let state_text = crate::expansion::write_trait(&machine.state_trait);
    out.append(state_text.as_str());
    out.append(state_enum.as_str());
    out.append(" ");
    let state_from = crate::expansion::write_from_impls(
        "state",
        machine.state_enum_ident.as_str(),
        &synthesis.states,
    );
    out.append(state_from.as_str());
    let state_impl = crate::expansion::write_trait_impl(
        machine.asyncness,
        machine.state_trait.ident.as_str(),
        machine.state_enum_ident.as_str(),
        state_fns.as_str(),
    );
    out.append(state_impl.as_str());
    let machine_text = crate::expansion::write_struct(&machine);
    out.append(machine_text.as_str());
    out.append("impl ");
    out.append(machine.name.as_str());
    out.append(" { ");
    let accessors = crate::expansion::write_accessors(
        &machine,
        machine.state_trait.ident.as_str(),
    );
    out.append(accessors.as_str());
    let handle_event = crate::expansion::write_handle_event(
        &machine,
        &machine.state_trait,
        &machine.event_trait,
        arms.as_str(),
    );
    out.append(handle_event.as_str());
    out.append("} ");
    Ok(out)
}

/// Compiles the description of an event-driven machine into the source
/// text of the machine, or says why the description does not give one.
pub fn event_driven_state_machine(input: &Vec<Token>) -> (r: Result<String, Error>)
    ensures
        match machine(token_views(input@)) {
            Err(e) => r == Err::<String, Error>(e),
            Ok(described) => match expansion(described) {
                Ok(text) => r matches Ok(out) && out@ == text,
                Err(e) => r == Err::<String, Error>(e),
            },
        },
{
    match Machine::parse(input) {
        Err(e) => Err(e),
        Ok(described) => expand(described),
    }
}

} // verus!
