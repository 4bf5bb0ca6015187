//! State machines from declarative descriptions.
//!
//! A description names a context, the states and events of a machine and
//! the transitions between them. This crate reads such a description from
//! its tokens ([`token`], [`grammar`], [`trait_grammar`], [`rust_syntax`],
//! [`event_driven_state_machine`], [`deterministic_state_machine`]),
//! completes and checks the lifecycle hooks of its traits ([`syntax`],
//! [`lifecycle`], [`state_trait`], [`event_trait`]), works out its sum types
//! and its dispatch table ([`synthesis`], [`dispatch`]), and writes the
//! source text of the machine ([`expansion`], [`sum_type`], [`state_enum`],
//! [`event_enum`], [`naming`]).
//!
//! The protocol that a machine follows when it handles an event stands in
//! [`event_driven`], and [`trace`] makes the calls of a machine visible;
//! [`deterministic`] holds the machine whose state is part of its type.

pub mod deterministic;
pub mod deterministic_state_machine;
pub mod dispatch;
pub mod error;
pub mod event_driven;
pub mod event_driven_state_machine;
pub mod event_enum;
pub mod event_trait;
pub mod expansion;
pub mod grammar;
pub mod lifecycle;
pub mod naming;
pub mod rust_syntax;
pub mod state_enum;
pub mod state_trait;
pub mod sum_type;
pub mod synthesis;
pub mod syntax;
mod text;
pub mod token;
pub mod trait_grammar;
pub mod trace;

pub use crate::deterministic_state_machine::deterministic_state_machine;
pub use crate::event_driven_state_machine::event_driven_state_machine;
