//! The errors that stop the compilation of a machine description.

use crate::dispatch::TableError;
use vstd::prelude::*;
use vstd::string::*;

verus! {

/// A lifecycle hook.
#[derive(Clone, Copy, Debug, PartialEq, Eq)]
pub enum Hook {
    ShouldExit,
    OnExit,
    PreTransition,
    PostTransition,
    OnEnter,
}

/// The part of a hook's signature that is not as the contract wants it.
#[derive(Clone, Copy, Debug, PartialEq, Eq)]
pub enum Mismatch {
    FirstArgument,
    SecondArgument,
    ThirdArgument,
    ArgumentCount,
    ReturnType,
}

/// A labelled field of a machine description.
#[derive(Clone, Copy, Debug, PartialEq, Eq)]
pub enum Field {
    Context,
    StateEnum,
    StateTrait,
    EventEnum,
    EventTrait,
    States,
    Events,
    AcceptorTrait,
    AcceptorStruct,
    Error,
}

/// What a description was expected to hold at the place where parsing
/// stopped.
#[derive(Clone, Copy, Debug, PartialEq, Eq)]
pub enum Expected {
    /// An attribute: `#` and a group in square brackets.
    Attribute,
    /// A visibility.
    Visibility,
    /// An identifier that is no reserved word.
    Identifier,
    /// A group in braces.
    Braces,
    /// A group in square brackets.
    Brackets,
    /// `:` after a label.
    Colon,
    /// `,` between two items of a list.
    Comma,
    /// A path.
    Path,
    /// `>` closing the generic arguments of a path segment.
    ClosingAngle,
    /// A trait definition: the word `trait`, a name and a body in braces.
    Trait,
    /// An item of a trait.
    TraitItem,
    /// The signature of a function: a name and arguments in parentheses.
    Signature,
    /// An argument of a function.
    Argument,
    /// A type.
    Type,
    /// `->` or a block after the event of a transition.
    ArrowOrBlock,
    /// A block of Rust.
    Block,
    /// A function after the functions of a state.
    Function,
    /// The end of the description.
    End,
}

/// Why a machine description cannot be compiled.
#[derive(Clone, Copy, Debug, PartialEq, Eq)]
pub enum Error {
    /// The description is malformed at the token with this position in its
    /// group.
    Syntax(Expected, usize),
    /// A label that the description does not know.
    UnrecognizedLabel(usize),
    /// A field is given twice.
    DuplicateField(Field),
    /// A required field is missing.
    MissingField(Field),
    /// More than one catch-all block.
    MultipleCatchAll,
    /// A state path without a segment.
    EmptyStatePath,
    /// An event path without a segment.
    EmptyEventPath,
    /// A path of an enum input without a segment.
    EmptyVariantPath,
    /// Two different state paths end in the same identifier.
    DuplicateStateName,
    /// Two different event paths end in the same identifier.
    DuplicateEventName,
    /// A hook is declared with a signature that the contract refuses.
    Hook(Hook, Mismatch),
    /// A trait function has a second `self` argument.
    ExpectedTypedInput,
    /// The transitions are no dispatch table.
    Table(TableError),
    /// The states of a description are not the variants of the state sum
    /// type, name for name and in order.
    StatesDiffer,
    /// The events of a description are not the variants of the event sum
    /// type, name for name and in order.
    EventsDiffer,
}


/// The name of `field` in a description.
pub open spec fn field_name(field: Field) -> Seq<char> {
    match field {
        Field::Context => "context"@,
        Field::StateEnum => "state_enum"@,
        Field::StateTrait => "state_trait"@,
        Field::EventEnum => "event_enum"@,
        Field::EventTrait => "event_trait"@,
        Field::States => "states"@,
        Field::Events => "events"@,
        Field::AcceptorTrait => "acceptor_trait"@,
        Field::AcceptorStruct => "acceptor_struct"@,
        Field::Error => "error"@,
    }
}

/// The name of `hook` in a trait.
pub open spec fn hook_label(hook: Hook) -> Seq<char> {
    match hook {
        Hook::ShouldExit => "`should_exit` "@,
        Hook::OnExit => "`on_exit` "@,
        Hook::PreTransition => "`pre_transition` "@,
        Hook::PostTransition => "`post_transition` "@,
        Hook::OnEnter => "`on_enter` "@,
    }
}

/// What the signature of `hook` must be like where `mismatch` was found.
pub open spec fn expected_shape(hook: Hook, mismatch: Mismatch) -> Seq<char> {
    match mismatch {
        Mismatch::FirstArgument => if hook == Hook::ShouldExit {
            "must accept `&self` as the first argument"@
        } else {
            "must accept `&mut self` as the first argument"@
        },
        Mismatch::SecondArgument => if hook == Hook::ShouldExit {
            "must accept `&{Context}` as the second argument"@
        } else {
            "must accept `&mut {Context}` as the second argument"@
        },
        Mismatch::ThirdArgument => "must accept `&{EventEnum}` as the third argument"@,
        Mismatch::ArgumentCount => if hook == Hook::ShouldExit {
            "must not have more than three arguments"@
        } else {
            "must not have more than two arguments"@
        },
        Mismatch::ReturnType => if hook == Hook::ShouldExit {
            "must return a `bool`"@
        } else {
            "must not have a return type"@
        },
    }
}

/// What the description was expected to hold.
pub open spec fn expectation(expected: Expected) -> Seq<char> {
    match expected {
        Expected::Attribute => "expected attribute"@,
        Expected::Visibility => "expected visibility"@,
        Expected::Identifier => "expected identifier"@,
        Expected::Braces => "expected curly braces"@,
        Expected::Brackets => "expected square brackets"@,
        Expected::Colon => "expected `:`"@,
        Expected::Comma => "expected `,`"@,
        Expected::Path => "expected path"@,
        Expected::ClosingAngle => "expected `>`"@,
        Expected::Trait => "expected trait definition"@,
        Expected::TraitItem => "expected trait item"@,
        Expected::Signature => "expected function signature"@,
        Expected::Argument => "expected function argument"@,
        Expected::Type => "expected type"@,
        Expected::ArrowOrBlock => "expected -> or {"@,
        Expected::Block => "expected block"@,
        Expected::Function => "expected function"@,
        Expected::End => "unexpected token"@,
    }
}

/// What is wrong with the transitions.
pub open spec fn table_fault(error: TableError) -> Seq<char> {
    match error {
        TableError::OutOfRange(_) => "transition names an unknown state or event"@,
        TableError::Duplicate(_) => "transition is declared twice"@,
        TableError::Gap(_, _) => "a state has no transition for an event, and there is no `_` block"@,
    }
}

/// The message of `error`.
pub open spec fn message(error: Error) -> Seq<char> {
    match error {
        Error::Syntax(expected, _) => expectation(expected),
        Error::UnrecognizedLabel(_) => "unrecognized label"@,
        Error::DuplicateField(field) => "machine has more than one "@ + field_name(field),
        Error::MissingField(field) => "machine is missing "@ + field_name(field),
        Error::MultipleCatchAll => "multiple unhandled_event blocks"@,
        Error::EmptyStatePath => "state path is empty"@,
        Error::EmptyEventPath => "event path is empty"@,
        Error::EmptyVariantPath => "expected path to have at least one segment"@,
        Error::DuplicateStateName => "two states have the same name"@,
        Error::DuplicateEventName => "two events have the same name"@,
        Error::Hook(hook, mismatch) => hook_label(hook) + expected_shape(hook, mismatch),
        Error::ExpectedTypedInput => "expected typed input"@,
        Error::Table(error) => table_fault(error),
        Error::StatesDiffer => "the states are not the variants of the state enum"@,
        Error::EventsDiffer => "the events are not the variants of the event enum"@,
    }
}

impl Error {
    /// The message of the error, fit for the author of the description.
    pub fn message(&self) -> (text: String)
        ensures
            text@ == message(*self),
    {
        match self {
            Error::Syntax(expected, _) => String::from_str(
                match expected {
                    Expected::Attribute => "expected attribute",
                    Expected::Visibility => "expected visibility",
                    Expected::Identifier => "expected identifier",
                    Expected::Braces => "expected curly braces",
                    Expected::Brackets => "expected square brackets",
                    Expected::Colon => "expected `:`",
                    Expected::Comma => "expected `,`",
                    Expected::Path => "expected path",
                    Expected::ClosingAngle => "expected `>`",
                    Expected::Trait => "expected trait definition",
                    Expected::TraitItem => "expected trait item",
                    Expected::Signature => "expected function signature",
                    Expected::Argument => "expected function argument",
                    Expected::Type => "expected type",
                    Expected::ArrowOrBlock => "expected -> or {",
                    Expected::Block => "expected block",
                    Expected::Function => "expected function",
                    Expected::End => "unexpected token",
                },
            ),
            Error::UnrecognizedLabel(_) => String::from_str("unrecognized label"),
            Error::DuplicateField(field) => {
                let mut text = String::from_str("machine has more than one ");
                text.append(field_ident(*field));
                text
            },
            Error::MissingField(field) => {
                let mut text = String::from_str("machine is missing ");
                text.append(field_ident(*field));
                text
            },
            Error::MultipleCatchAll => String::from_str("multiple unhandled_event blocks"),
            Error::EmptyStatePath => String::from_str("state path is empty"),
            Error::EmptyEventPath => String::from_str("event path is empty"),
            Error::EmptyVariantPath => String::from_str(
                "expected path to have at least one segment",
            ),
            Error::DuplicateStateName => String::from_str("two states have the same name"),
            Error::DuplicateEventName => String::from_str("two events have the same name"),
            Error::Hook(hook, mismatch) => {
                let should_exit = match hook {
                    Hook::ShouldExit => true,
                    _ => false,
                };
                let mut text = String::from_str(
                    match hook {
                        Hook::ShouldExit => "`should_exit` ",
                        Hook::OnExit => "`on_exit` ",
                        Hook::PreTransition => "`pre_transition` ",
                        Hook::PostTransition => "`post_transition` ",
                        Hook::OnEnter => "`on_enter` ",
                    },
                );
                text.append(
                    match mismatch {
                        Mismatch::FirstArgument => if should_exit {
                            "must accept `&self` as the first argument"
                        } else {
                            "must accept `&mut self` as the first argument"
                        },
                        Mismatch::SecondArgument => if should_exit {
                            "must accept `&{Context}` as the second argument"
                        } else {
                            "must accept `&mut {Context}` as the second argument"
                        },
                        Mismatch::ThirdArgument => "must accept `&{EventEnum}` as the third argument",
                        Mismatch::ArgumentCount => if should_exit {
                            "must not have more than three arguments"
                        } else {
                            "must not have more than two arguments"
                        },
                        Mismatch::ReturnType => if should_exit {
                            "must return a `bool`"
                        } else {
                            "must not have a return type"
                        },
                    },
                );
                text
            },
            Error::ExpectedTypedInput => String::from_str("expected typed input"),
            Error::StatesDiffer => String::from_str(
                "the states are not the variants of the state enum",
            ),
            Error::EventsDiffer => String::from_str(
                "the events are not the variants of the event enum",
            ),
            Error::Table(error) => String::from_str(
                match error {
                    TableError::OutOfRange(_) => "transition names an unknown state or event",
                    TableError::Duplicate(_) => "transition is declared twice",
                    TableError::Gap(_, _) => "a state has no transition for an event, and there is no `_` block",
                },
            ),
        }
    }
}

/// The name of `field` in a description.
fn field_ident(field: Field) -> (name: &'static str)
    ensures
        name@ == field_name(field),
{
    match field {
        Field::Context => "context",
        Field::StateEnum => "state_enum",
        Field::StateTrait => "state_trait",
        Field::EventEnum => "event_enum",
        Field::EventTrait => "event_trait",
        Field::States => "states",
        Field::Events => "events",
        Field::AcceptorTrait => "acceptor_trait",
        Field::AcceptorStruct => "acceptor_struct",
        Field::Error => "error",
    }
}

} // verus!
