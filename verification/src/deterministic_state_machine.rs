//! The description of a deterministic machine: its grammar, and the source
//! text of the machine that it describes. Each state of such a machine is a
//! type of its own, and the transitions out of a state are functions of the
//! machine in that state.
//!
//! A description may name a delegate, by the trait that it implements and
//! by its type, for the functions of the states to hand their work to, and
//! an error type that the transitions that can fail share. Both are
//! recorded with the machine; the trait of the delegate is written out with
//! the machine, and the functions refer to the delegate and to the error
//! type by the names that the description gives them.

use crate::error::{Error, Expected, Field};
use crate::grammar::{
    accept, find_brace, find_word, first_brace, first_word, group, group_at, has_punct, header,
    is_punct, name, name_at, parse_header, parse_path, parse_trait_source, path, trait_source,
    Header, TraitSource, TraitSourceView,
};
use crate::syntax::{
    append_spaced, append_spaced_option, optional_text, spaced, spaced_option, texts, Path,
    PathView,
};
use crate::text::{copy_of, same_text};
use crate::rust_syntax::{is_function, reads_as_function};
use crate::token::{render, render_tokens, token_views, Delimiter, Token, TokenView};
use vstd::prelude::*;
use vstd::string::*;

verus! {

/// A function of the machine in one state: its name, and its source text.
#[derive(Debug, PartialEq, Eq)]
pub struct Function {
    pub name: String,
    pub text: String,
}

/// A state and the functions of the machine in that state.
#[derive(Debug, PartialEq, Eq)]
pub struct StateTransitions {
    pub state: Path,
    pub transitions: Vec<Function>,
}

/// A parsed description of a deterministic machine. Attributes and
/// visibility are held as source text.
#[derive(Debug, PartialEq, Eq)]
pub struct Machine {
    pub attributes: Vec<String>,
    pub visibility: Option<String>,
    pub name: String,
    pub context: Path,
    pub state_trait: Option<TraitSource>,
    pub acceptor_trait: Option<TraitSource>,
    pub acceptor_struct: Option<Path>,
    pub error: Option<Path>,
    pub state_transitions: Vec<StateTransitions>,
}

/// What a `Function` holds.
pub struct FunctionView {
    pub name: Seq<char>,
    pub text: Seq<char>,
}

/// What a `StateTransitions` holds.
pub struct StateTransitionsView {
    pub state: PathView,
    pub transitions: Seq<FunctionView>,
}

/// What a `Machine` holds.
pub struct MachineView {
    pub attributes: Seq<Seq<char>>,
    pub visibility: Option<Seq<char>>,
    pub name: Seq<char>,
    pub context: PathView,
    pub state_trait: Option<TraitSourceView>,
    pub acceptor_trait: Option<TraitSourceView>,
    pub acceptor_struct: Option<PathView>,
    pub error: Option<PathView>,
    pub state_transitions: Seq<StateTransitionsView>,
}

impl View for Function {
    type V = FunctionView;

    open spec fn view(&self) -> FunctionView {
        FunctionView { name: self.name@, text: self.text@ }
    }
}

/// What `functions` hold.
pub open spec fn function_views(functions: Seq<Function>) -> Seq<FunctionView> {
    functions.map_values(|function: Function| function@)
}

impl View for StateTransitions {
    type V = StateTransitionsView;

    open spec fn view(&self) -> StateTransitionsView {
        StateTransitionsView {
            state: self.state@,
            transitions: function_views(self.transitions@),
        }
    }
}

/// What `states` hold.
pub open spec fn state_views(states: Seq<StateTransitions>) -> Seq<StateTransitionsView> {
    states.map_values(|state: StateTransitions| state@)
}

/// What an optional path holds.
pub open spec fn optional_path(path: Option<Path>) -> Option<PathView> {
    match path {
        Some(path) => Some(path@),
        None => None,
    }
}

/// What an optional trait definition holds.
pub open spec fn optional_trait(source: Option<TraitSource>) -> Option<TraitSourceView> {
    match source {
        Some(source) => Some(source@),
        None => None,
    }
}

impl View for Machine {
    type V = MachineView;

    open spec fn view(&self) -> MachineView {
        MachineView {
            attributes: texts(self.attributes@),
            visibility: optional_text(self.visibility),
            name: self.name@,
            context: self.context@,
            state_trait: optional_trait(self.state_trait),
            acceptor_trait: optional_trait(self.acceptor_trait),
            acceptor_struct: optional_path(self.acceptor_struct),
            error: optional_path(self.error),
            state_transitions: state_views(self.state_transitions@),
        }
    }
}

/// The position of the body of the function that starts at `at`: the first
/// group in braces, at or after `from`, up to and with which `syn` reads the
/// tokens as a function with a body.
pub open spec fn function_body(tokens: Seq<TokenView>, at: int, from: int) -> Option<int>
    decreases tokens.len() - from,
{
    match first_brace(tokens, from) {
        None => None,
        Some(body) => if reads_as_function(render(tokens, at, body + 1)) {
            Some(body)
        } else if from <= body < tokens.len() {
            function_body(tokens, at, body + 1)
        } else {
            None
        },
    }
}

/// The function at `at` and the position after it: the tokens up to and
/// with its body, among them the word `fn` with the name of the function
/// after it.
pub open spec fn function(tokens: Seq<TokenView>, at: int) -> Result<(FunctionView, int), Error> {
    match function_body(tokens, at, at) {
        None => Err(Error::Syntax(Expected::Function, at as usize)),
        Some(body) => match first_word(tokens, "fn"@, at, body) {
            None => Err(Error::Syntax(Expected::Function, at as usize)),
            Some(keyword) => match name(tokens, keyword + 1) {
                None => Err(Error::Syntax(Expected::Function, (keyword + 1) as usize)),
                Some(ident) => Ok(
                    (FunctionView { name: ident, text: render(tokens, at, body + 1) }, body + 1),
                ),
            },
        },
    }
}

/// The functions from `at` to the end of `tokens`, added to `found`.
pub open spec fn function_list(tokens: Seq<TokenView>, at: int, found: Seq<FunctionView>) -> Result<
    Seq<FunctionView>,
    Error,
>
    decreases tokens.len() - at,
{
    if at < 0 || at >= tokens.len() {
        Ok(found)
    } else {
        match function(tokens, at) {
            Err(e) => Err(e),
            Ok((next, end)) => if at < end <= tokens.len() {
                function_list(tokens, end, found.push(next))
            } else {
                Ok(found.push(next))
            },
        }
    }
}

/// The item of the list of states at `at` and the position after it: the
/// path of a state, and the functions of the machine in that state, in
/// braces.
pub open spec fn state_transitions(tokens: Seq<TokenView>, at: int) -> Result<
    (StateTransitionsView, int),
    Error,
> {
    match path(tokens, at) {
        Err(e) => Err(e),
        Ok((state, end)) => match group(tokens, end, Delimiter::Brace) {
            None => Err(Error::Syntax(Expected::Braces, end as usize)),
            Some(inner) => match function_list(inner, 0, Seq::empty()) {
                Err(e) => Err(e),
                Ok(transitions) => Ok((StateTransitionsView { state, transitions }, end + 1)),
            },
        },
    }
}

/// The items of the list of states from `at` to the end of `tokens`, added
/// to `found`: items with a comma between them, and perhaps one after the
/// last.
pub open spec fn state_list(
    tokens: Seq<TokenView>,
    at: int,
    found: Seq<StateTransitionsView>,
) -> Result<Seq<StateTransitionsView>, Error>
    decreases tokens.len() - at,
{
    if at < 0 || at >= tokens.len() {
        Ok(found)
    } else {
        match state_transitions(tokens, at) {
            Err(e) => Err(e),
            Ok((next, end)) => if end >= tokens.len() {
                Ok(found.push(next))
            } else if at < end && is_punct(tokens, end, ',') {
                state_list(tokens, end + 1, found.push(next))
            } else {
                Err(Error::Syntax(Expected::Comma, end as usize))
            },
        }
    }
}

/// The labelled fields read so far.
#[derive(Debug, PartialEq, Eq)]
pub struct Fields {
    pub context: Option<Path>,
    pub state_trait: Option<TraitSource>,
    pub acceptor_trait: Option<TraitSource>,
    pub acceptor_struct: Option<Path>,
    pub error: Option<Path>,
    pub states: Option<Vec<StateTransitions>>,
}

/// What `Fields` hold.
pub struct FieldsView {
    pub context: Option<PathView>,
    pub state_trait: Option<TraitSourceView>,
    pub acceptor_trait: Option<TraitSourceView>,
    pub acceptor_struct: Option<PathView>,
    pub error: Option<PathView>,
    pub states: Option<Seq<StateTransitionsView>>,
}

/// No field read yet.
pub open spec fn no_fields() -> FieldsView {
    FieldsView {
        context: None,
        state_trait: None,
        acceptor_trait: None,
        acceptor_struct: None,
        error: None,
        states: None,
    }
}

impl View for Fields {
    type V = FieldsView;

    open spec fn view(&self) -> FieldsView {
        FieldsView {
            context: optional_path(self.context),
            state_trait: optional_trait(self.state_trait),
            acceptor_trait: optional_trait(self.acceptor_trait),
            acceptor_struct: optional_path(self.acceptor_struct),
            error: optional_path(self.error),
            states: match self.states {
                Some(states) => Some(state_views(states@)),
                None => None,
            },
        }
    }
}

/// The fields with the value of the field `label`, which stands at `at`,
/// and the position after that value: a path for `context`,
/// `acceptor_struct` and `error`, a trait definition for `state_trait` and
/// `acceptor_trait`, the list of states for either of `states` and
/// `transitions`. A label that is not known and a field that has been read
/// before are refused.
pub open spec fn field(
    tokens: Seq<TokenView>,
    at: int,
    label: Seq<char>,
    read: FieldsView,
) -> Result<(FieldsView, int), Error> {
    if label == "context"@ {
        if read.context is Some {
            Err(Error::DuplicateField(Field::Context))
        } else {
            match path(tokens, at + 2) {
                Err(e) => Err(e),
                Ok((value, end)) => Ok((FieldsView { context: Some(value), ..read }, end)),
            }
        }
    } else if label == "state_trait"@ {
        if read.state_trait is Some {
            Err(Error::DuplicateField(Field::StateTrait))
        } else {
            match trait_source(tokens, at + 2) {
                Err(e) => Err(e),
                Ok((value, end)) => Ok((FieldsView { state_trait: Some(value), ..read }, end)),
            }
        }
    } else if label == "acceptor_trait"@ {
        if read.acceptor_trait is Some {
            Err(Error::DuplicateField(Field::AcceptorTrait))
        } else {
            match trait_source(tokens, at + 2) {
                Err(e) => Err(e),
                Ok((value, end)) => Ok((FieldsView { acceptor_trait: Some(value), ..read }, end)),
            }
        }
    } else if label == "acceptor_struct"@ {
        if read.acceptor_struct is Some {
            Err(Error::DuplicateField(Field::AcceptorStruct))
        } else {
            match path(tokens, at + 2) {
                Err(e) => Err(e),
                Ok((value, end)) => Ok((FieldsView { acceptor_struct: Some(value), ..read }, end)),
            }
        }
    } else if label == "error"@ {
        if read.error is Some {
            Err(Error::DuplicateField(Field::Error))
        } else {
            match path(tokens, at + 2) {
                Err(e) => Err(e),
                Ok((value, end)) => Ok((FieldsView { error: Some(value), ..read }, end)),
            }
        }
    } else if label == "states"@ || label == "transitions"@ {
        if read.states is Some {
            Err(Error::DuplicateField(Field::States))
        } else {
            match group(tokens, at + 2, Delimiter::Bracket) {
                None => Err(Error::Syntax(Expected::Brackets, (at + 2) as usize)),
                Some(inner) => match state_list(inner, 0, Seq::empty()) {
                    Err(e) => Err(e),
                    Ok(value) => Ok((FieldsView { states: Some(value), ..read }, at + 3)),
                },
            }
        }
    } else {
        Err(Error::UnrecognizedLabel(at as usize))
    }
}

/// The fields from `at` on, added to `read`, and the position after them:
/// each a label, `:` and a value, with perhaps a comma after it. The fields
/// end where no identifier stands.
pub open spec fn fields(tokens: Seq<TokenView>, at: int, read: FieldsView) -> Result<
    (FieldsView, int),
    Error,
>
    decreases tokens.len() - at,
{
    match name(tokens, at) {
        None => Ok((read, at)),
        Some(label) => if !is_punct(tokens, at + 1, ':') {
            Err(Error::Syntax(Expected::Colon, (at + 1) as usize))
        } else {
            match field(tokens, at, label, read) {
                Err(e) => Err(e),
                Ok((with_value, end)) => {
                    let next = if is_punct(tokens, end, ',') {
                        end + 1
                    } else {
                        end
                    };
                    if at < next <= tokens.len() {
                        fields(tokens, next, with_value)
                    } else {
                        Ok((with_value, next))
                    }
                },
            }
        },
    }
}

/// The machine that `tokens` describe: attributes, a visibility and
/// `struct`, each of which may be left out, then the name of the machine
/// and its fields in braces, and nothing after them. `context` and the
/// list of states are required; `state_trait`, `acceptor_trait`,
/// `acceptor_struct` and `error` are not. One more comma may follow the
/// fields.
pub open spec fn machine(tokens: Seq<TokenView>) -> Result<MachineView, Error> {
    match header(tokens, false) {
        Err(e) => Err(e),
        Ok(head) => match name(tokens, head.name_at) {
            None => Err(Error::Syntax(Expected::Identifier, head.name_at as usize)),
            Some(ident) => match group(tokens, head.name_at + 1, Delimiter::Brace) {
                None => Err(Error::Syntax(Expected::Braces, (head.name_at + 1) as usize)),
                Some(inner) => match fields(inner, 0, no_fields()) {
                    Err(e) => Err(e),
                    Ok((read, after_fields)) => {
                        let end = if is_punct(inner, after_fields, ',') {
                            after_fields + 1
                        } else {
                            after_fields
                        };
                        if read.context is None {
                            Err(Error::MissingField(Field::Context))
                        } else if read.states is None {
                            Err(Error::MissingField(Field::States))
                        } else if end < inner.len() {
                            Err(Error::Syntax(Expected::End, end as usize))
                        } else if head.name_at + 2 < tokens.len() {
                            Err(Error::Syntax(Expected::End, (head.name_at + 2) as usize))
                        } else {
                            Ok(
                                MachineView {
                                    attributes: head.attributes,
                                    visibility: head.visibility,
                                    name: ident,
                                    context: read.context->0,
                                    state_trait: read.state_trait,
                                    acceptor_trait: read.acceptor_trait,
                                    acceptor_struct: read.acceptor_struct,
                                    error: read.error,
                                    state_transitions: read.states->0,
                                },
                            )
                        }
                    },
                },
            },
        },
    }
}

/// Reads the function at `at`.
fn parse_function(tokens: &Vec<Token>, at: usize) -> (r: Result<(Function, usize), Error>)
    ensures
        match function(token_views(tokens@), at as int) {
            Ok((found, end)) => r matches Ok((read, after)) && read@ == found && after == end && at
                < after <= tokens.len(),
            Err(e) => r == Err::<(Function, usize), Error>(e),
        },
{
    let (body, text) = match find_function_body(tokens, at) {
        None => {
            return Err(Error::Syntax(Expected::Function, at));
        },
        Some(found) => found,
    };
    let keyword = match find_word(tokens, "fn", at, body) {
        None => {
            return Err(Error::Syntax(Expected::Function, at));
        },
        Some(keyword) => keyword,
    };
    match name_at(tokens, keyword + 1) {
        None => Err(Error::Syntax(Expected::Function, keyword + 1)),
        Some(ident) => Ok((Function { name: copy_of(ident), text }, body + 1)),
    }
}

/// Finds the body of the function that starts at `at`, and gives the
/// source text of the function with it.
fn find_function_body(tokens: &Vec<Token>, at: usize) -> (found: Option<(usize, String)>)
    ensures
        match found {
            Some((body, text)) => function_body(token_views(tokens@), at as int, at as int)
                == Some(body as int) && at <= body < tokens.len() && text@ == render(
                token_views(tokens@),
                at as int,
                body + 1,
            ),
            None => function_body(token_views(tokens@), at as int, at as int) is None,
        },
{
    let mut from = at;
    loop
        invariant
            at <= from,
            from <= tokens.len() || from == at,
            function_body(token_views(tokens@), at as int, at as int) == function_body(
                token_views(tokens@),
                at as int,
                from as int,
            ),
        decreases tokens.len() - from,
    {
        match find_brace(tokens, from) {
            None => {
                return None;
            },
            Some(body) => {
                let text = render_tokens(tokens, at, body + 1);
                let accepts = is_function(text.as_str());
                match accept((body, text), accepts, Expected::Function, at) {
                    Ok(found) => {
                        return Some(found);
                    },
                    Err(_) => {
                        from = body + 1;
                    },
                }
            },
        }
    }
}

/// Reads the functions that `tokens` hold.
fn parse_function_list(tokens: &Vec<Token>) -> (r: Result<Vec<Function>, Error>)
    ensures
        match function_list(token_views(tokens@), 0, Seq::empty()) {
            Ok(found) => r matches Ok(read) && function_views(read@) == found,
            Err(e) => r == Err::<Vec<Function>, Error>(e),
        },
{
    let mut pos: usize = 0;
    let mut found: Vec<Function> = Vec::new();
    assert(function_views(found@) =~= Seq::empty());
    while pos < tokens.len()
        invariant
            function_list(token_views(tokens@), 0, Seq::empty()) == function_list(
                token_views(tokens@),
                pos as int,
                function_views(found@),
            ),
        decreases tokens.len() - pos,
    {
        match parse_function(tokens, pos) {
            Err(e) => {
                return Err(e);
            },
            Ok((next, end)) => {
                let ghost before = function_views(found@);
                found.push(next);
                assert(function_views(found@) =~= before.push(next@));
                pos = end;
            },
        }
    }
    Ok(found)
}

impl StateTransitions {
    /// Reads the item of the list of states at `at`.
    pub fn parse(tokens: &Vec<Token>, at: usize) -> (r: Result<(StateTransitions, usize), Error>)
        ensures
            match state_transitions(token_views(tokens@), at as int) {
                Ok((found, end)) => r matches Ok((read, after)) && read@ == found && after == end
                    && at < after <= tokens.len(),
                Err(e) => r == Err::<(StateTransitions, usize), Error>(e),
            },
    {
        match parse_path(tokens, at) {
            Err(e) => Err(e),
            Ok((state, end)) => match group_at(tokens, end, Delimiter::Brace) {
                None => Err(Error::Syntax(Expected::Braces, end)),
                Some(inner) => match parse_function_list(inner) {
                    Err(e) => Err(e),
                    Ok(transitions) => Ok((StateTransitions { state, transitions }, end + 1)),
                },
            },
        }
    }

    /// Reads the list of states that `tokens` hold.
    pub fn parse_list(tokens: &Vec<Token>) -> (r: Result<Vec<StateTransitions>, Error>)
        ensures
            match state_list(token_views(tokens@), 0, Seq::empty()) {
                Ok(found) => r matches Ok(read) && state_views(read@) == found,
                Err(e) => r == Err::<Vec<StateTransitions>, Error>(e),
            },
    {
        let mut pos: usize = 0;
        let mut found: Vec<StateTransitions> = Vec::new();
        assert(state_views(found@) =~= Seq::empty());
        while pos < tokens.len()
            invariant
                state_list(token_views(tokens@), 0, Seq::empty()) == state_list(
                    token_views(tokens@),
                    pos as int,
                    state_views(found@),
                ),
            decreases tokens.len() - pos,
        {
            match StateTransitions::parse(tokens, pos) {
                Err(e) => {
                    return Err(e);
                },
                Ok((next, end)) => {
                    let ghost before = state_views(found@);
                    found.push(next);
                    assert(state_views(found@) =~= before.push(next@));
                    if end >= tokens.len() {
                        return Ok(found);
                    } else if has_punct(tokens, end, ',') {
                        pos = end + 1;
                    } else {
                        return Err(Error::Syntax(Expected::Comma, end));
                    }
                },
            }
        }
        Ok(found)
    }
}

/// Reads the value of the field `label`, which stands at `at`, into `read`.
fn parse_field(tokens: &Vec<Token>, at: usize, label: &str, read: &mut Fields) -> (r: Result<
    usize,
    Error,
>)
    requires
        at + 1 < tokens.len(),
    ensures
        match field(token_views(tokens@), at as int, label@, old(read)@) {
            Ok((with_value, end)) => r == Ok::<usize, Error>(end as usize) && final(read)@
                == with_value && at < end <= tokens.len(),
            Err(e) => r == Err::<usize, Error>(e),
        },
{
    if same_text(label, "context") {
        if read.context.is_some() {
            return Err(Error::DuplicateField(Field::Context));
        }
        match parse_path(tokens, at + 2) {
            Err(e) => Err(e),
            Ok((value, end)) => {
                read.context = Some(value);
                Ok(end)
            },
        }
    } else if same_text(label, "state_trait") {
        if read.state_trait.is_some() {
            return Err(Error::DuplicateField(Field::StateTrait));
        }
        match parse_trait_source(tokens, at + 2) {
            Err(e) => Err(e),
            Ok((value, end)) => {
                read.state_trait = Some(value);
                Ok(end)
            },
        }
    } else if same_text(label, "acceptor_trait") {
        if read.acceptor_trait.is_some() {
            return Err(Error::DuplicateField(Field::AcceptorTrait));
        }
        match parse_trait_source(tokens, at + 2) {
            Err(e) => Err(e),
            Ok((value, end)) => {
                read.acceptor_trait = Some(value);
                Ok(end)
            },
        }
    } else if same_text(label, "acceptor_struct") {
        if read.acceptor_struct.is_some() {
            return Err(Error::DuplicateField(Field::AcceptorStruct));
        }
        match parse_path(tokens, at + 2) {
            Err(e) => Err(e),
            Ok((value, end)) => {
                read.acceptor_struct = Some(value);
                Ok(end)
            },
        }
    } else if same_text(label, "error") {
        if read.error.is_some() {
            return Err(Error::DuplicateField(Field::Error));
        }
        match parse_path(tokens, at + 2) {
            Err(e) => Err(e),
            Ok((value, end)) => {
                read.error = Some(value);
                Ok(end)
            },
        }
    } else if same_text(label, "states") || same_text(label, "transitions") {
        if read.states.is_some() {
            return Err(Error::DuplicateField(Field::States));
        }
        match group_at(tokens, at + 2, Delimiter::Bracket) {
            None => Err(Error::Syntax(Expected::Brackets, at + 2)),
            Some(inner) => match StateTransitions::parse_list(inner) {
                Err(e) => Err(e),
                Ok(value) => {
                    read.states = Some(value);
                    Ok(at + 3)
                },
            },
        }
    } else {
        Err(Error::UnrecognizedLabel(at))
    }
}

/// Reads the fields that `tokens` start with.
fn parse_fields(tokens: &Vec<Token>) -> (r: Result<(Fields, usize), Error>)
    ensures
        match fields(token_views(tokens@), 0, no_fields()) {
            Ok((found, end)) => r matches Ok((read, after)) && read@ == found && after == end
                && after <= tokens.len(),
            Err(e) => r == Err::<(Fields, usize), Error>(e),
        },
{
    let mut read = Fields {
        context: None,
        state_trait: None,
        acceptor_trait: None,
        acceptor_struct: None,
        error: None,
        states: None,
    };
    let mut pos: usize = 0;
    loop
        invariant
            pos <= tokens.len(),
            fields(token_views(tokens@), 0, no_fields()) == fields(
                token_views(tokens@),
                pos as int,
                read@,
            ),
        decreases tokens.len() - pos,
    {
        match name_at(tokens, pos) {
            None => {
                return Ok((read, pos));
            },
            Some(label) => {
                if !has_punct(tokens, pos + 1, ':') {
                    return Err(Error::Syntax(Expected::Colon, pos + 1));
                }
                match parse_field(tokens, pos, label.as_str(), &mut read) {
                    Err(e) => {
                        return Err(e);
                    },
                    Ok(end) => {
                        pos = if has_punct(tokens, end, ',') {
                            end + 1
                        } else {
                            end
                        };
                    },
                }
            },
        }
    }
}

impl Machine {
    /// Reads the description of a deterministic machine.
    pub fn parse(tokens: &Vec<Token>) -> (r: Result<Machine, Error>)
        ensures
            match machine(token_views(tokens@)) {
                Ok(described) => r matches Ok(read) && read@ == described,
                Err(e) => r == Err::<Machine, Error>(e),
            },
    {
        let Header { attributes, visibility, asyncness: _, name_at: at } = match parse_header(
            tokens,
            false,
        ) {
            Err(e) => {
                return Err(e);
            },
            Ok(head) => head,
        };
        let name = match name_at(tokens, at) {
            None => {
                return Err(Error::Syntax(Expected::Identifier, at));
            },
            Some(ident) => copy_of(ident),
        };
        let inner = match group_at(tokens, at + 1, Delimiter::Brace) {
            None => {
                return Err(Error::Syntax(Expected::Braces, at + 1));
            },
            Some(inner) => inner,
        };
        let (read, after_fields) = match parse_fields(inner) {
            Err(e) => {
                return Err(e);
            },
            Ok(read) => read,
        };
        let end = if has_punct(inner, after_fields, ',') {
            after_fields + 1
        } else {
            after_fields
        };
        let Fields { context, state_trait, acceptor_trait, acceptor_struct, error, states } = read;
        let context = match context {
            None => {
                return Err(Error::MissingField(Field::Context));
            },
            Some(value) => value,
        };
        let state_transitions = match states {
            None => {
                return Err(Error::MissingField(Field::States));
            },
            Some(value) => value,
        };
        if end < inner.len() {
            return Err(Error::Syntax(Expected::End, end));
        }
        if at + 2 < tokens.len() {
            return Err(Error::Syntax(Expected::End, at + 2));
        }
        Ok(
            Machine {
                attributes,
                visibility,
                name,
                context,
                state_trait,
                acceptor_trait,
                acceptor_struct,
                error,
                state_transitions,
            },
        )
    }
}

/// The bound that holds the states of a machine to its state trait.
pub open spec fn where_clause(state_trait: Option<TraitSourceView>) -> Seq<char> {
    match state_trait {
        Some(source) => "where State: "@ + source.ident + " "@,
        None => Seq::empty(),
    }
}

/// The source text of the first `n` of `functions`.
pub open spec fn functions_text(functions: Seq<FunctionView>, n: nat) -> Seq<char>
    decreases n,
{
    if n == 0 {
        Seq::empty()
    } else {
        functions_text(functions, (n - 1) as nat) + functions[n - 1].text
    }
}

/// The functions of the machine `machine_name` in each of the first `n` of
/// `states`.
pub open spec fn state_impls(machine_name: Seq<char>, states: Seq<StateTransitionsView>, n: nat)
    -> Seq<char>
    decreases n,
{
    if n == 0 {
        Seq::empty()
    } else {
        state_impls(machine_name, states, (n - 1) as nat) + "impl "@ + machine_name + "<"@
            + states[n - 1].state.text() + "> { "@ + functions_text(
            states[n - 1].transitions,
            states[n - 1].transitions.len(),
        ) + "} "@
    }
}

/// The source text of the machine that `machine` describes: the machine,
/// generic in its state; its constructor and accessors; the state trait,
/// where one is given; and for each state the functions of the machine in
/// that state. The trait of the delegate, where one is given, stands after
/// the state trait.
pub open spec fn expansion(machine: MachineView) -> Seq<char> {
    spaced(machine.attributes, machine.attributes.len()) + spaced_option(machine.visibility)
        + "struct "@ + machine.name + "<State> "@ + where_clause(machine.state_trait)
        + "{ context: "@ + machine.context.text() + ", state: State, } impl<State> "@
        + machine.name + "<State> "@ + where_clause(machine.state_trait)
        + "{ pub fn new(intial_state: State, context: "@ + machine.context.text()
        + ") -> Self { Self { context, state: intial_state, } } pub fn context(&self) -> &"@
        + machine.context.text()
        + " { &self.context } pub fn state(&self) -> &State { &self.state } pub fn into_context(self) -> "@
        + machine.context.text()
        + " { self.context } pub fn into_state(self) -> State { self.state } pub fn into_parts(self) -> (State, "@
        + machine.context.text() + ") { (self.state, self.context) } } "@ + (
    match machine.state_trait {
        Some(source) => source.text,
        None => Seq::empty(),
    }) + (match machine.acceptor_trait {
        Some(source) => source.text,
        None => Seq::empty(),
    }) + state_impls(machine.name, machine.state_transitions, machine.state_transitions.len())
}

/// Writes the bound that holds the states of a machine to its state trait.
fn write_where_clause(out: &mut String, state_trait: &Option<TraitSource>)
    ensures
        final(out)@ == old(out)@ + where_clause(optional_trait(*state_trait)),
{
    let mut clause = String::new();
    match state_trait {
        Some(source) => {
            clause.append("where State: ");
            clause.append(source.ident.as_str());
            clause.append(" ");
            assert(clause@ =~= "where State: "@ + source.ident@ + " "@);
        },
        None => {},
    }
    out.append(clause.as_str());
}

/// Writes the functions of the machine in each state.
fn write_state_impls(machine_name: &str, states: &Vec<StateTransitions>) -> (out: String)
    ensures
        out@ == state_impls(machine_name@, state_views(states@), states@.len()),
{
    let mut out = String::new();
    let mut i: usize = 0;
    while i < states.len()
        invariant
            i <= states.len(),
            out@ == state_impls(machine_name@, state_views(states@), i as nat),
        decreases states.len() - i,
    {
        assert(state_views(states@)[i as int] == states[i as int]@);
        let state = &states[i];
        let mut functions = String::new();
        let mut j: usize = 0;
        while j < state.transitions.len()
            invariant
                j <= state.transitions.len(),
                functions@ == functions_text(state@.transitions, j as nat),
            decreases state.transitions.len() - j,
        {
            assert(state@.transitions[j as int] == state.transitions[j as int]@);
            functions.append(state.transitions[j].text.as_str());
            j += 1;
        }
        let state_text = state.state.text();
        out.append("impl ");
        out.append(machine_name);
        out.append("<");
        out.append(state_text.as_str());
        out.append("> { ");
        out.append(functions.as_str());
        out.append("} ");
        i += 1;
    }
    out
}

/// Writes the source text of the machine that `machine` describes.
pub fn expand(machine: &Machine) -> (out: String)
    ensures
        out@ == expansion(machine@),
{
    let context_text = machine.context.text();
    let mut out = String::new();
    append_spaced(&mut out, &machine.attributes);
    assert(out@ =~= spaced(machine@.attributes, machine@.attributes.len()));
    append_spaced_option(&mut out, &machine.visibility);
    out.append("struct ");
    out.append(machine.name.as_str());
    out.append("<State> ");
    write_where_clause(&mut out, &machine.state_trait);
    out.append("{ context: ");
    out.append(context_text.as_str());
    out.append(", state: State, } impl<State> ");
    out.append(machine.name.as_str());
    out.append("<State> ");
    write_where_clause(&mut out, &machine.state_trait);
    out.append("{ pub fn new(intial_state: State, context: ");
    out.append(context_text.as_str());
    out.append(") -> Self { Self { context, state: intial_state, } } pub fn context(&self) -> &");
    out.append(context_text.as_str());
    out.append(
        " { &self.context } pub fn state(&self) -> &State { &self.state } pub fn into_context(self) -> ",
    );
    out.append(context_text.as_str());
    out.append(
        " { self.context } pub fn into_state(self) -> State { self.state } pub fn into_parts(self) -> (State, ",
    );
    out.append(context_text.as_str());
    out.append(") { (self.state, self.context) } } ");
    let mut trait_text = String::new();
    match &machine.state_trait {
        Some(source) => {
            trait_text.append(source.text.as_str());
            assert(trait_text@ =~= source.text@);
        },
        None => {},
    }
    out.append(trait_text.as_str());
    let mut acceptor_text = String::new();
    match &machine.acceptor_trait {
        Some(source) => {
            acceptor_text.append(source.text.as_str());
            assert(acceptor_text@ =~= source.text@);
        },
        None => {},
    }
    out.append(acceptor_text.as_str());
    let impls = write_state_impls(machine.name.as_str(), &machine.state_transitions);
    out.append(impls.as_str());
    out
}

/// Compiles the description of a deterministic machine into the source
/// text of the machine, or says why the description is malformed.
pub fn deterministic_state_machine(input: &Vec<Token>) -> (r: Result<String, Error>)
    ensures
        match machine(token_views(input@)) {
            Ok(described) => r matches Ok(out) && out@ == expansion(described),
            Err(e) => r == Err::<String, Error>(e),
        },
{
    match Machine::parse(input) {
        Err(e) => Err(e),
        Ok(described) => Ok(expand(&described)),
    }
}

} // verus!
