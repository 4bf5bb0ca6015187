//! Names of the functions that the generated dispatch code declares.

use vstd::prelude::*;
use vstd::string::*;

verus! {

/// The snake-case form that `heck` gives to a name.
pub uninterp spec fn snake_case(name: Seq<char>) -> Seq<char>;

/// Calls `heck::ToSnakeCase::to_snake_case` on `name`. The conversion reads
/// nothing but its argument, so its result is named by `snake_case`.
#[verifier::external_body]
fn to_snake_case(name: &str) -> (r: String)
    ensures
        r@ == snake_case(name@),
{
    heck::ToSnakeCase::to_snake_case(name)
}

/// The name of a handler, made of the snake-case forms of the names of a
/// state and of an event.
pub open spec fn joined_name(state: Seq<char>, event: Seq<char>) -> Seq<char> {
    "handle__"@ + state + "__"@ + event
}

/// The name of the function that holds the body of the transition taken in
/// `state` on `event`.
pub open spec fn handler_name(state: Seq<char>, event: Seq<char>) -> Seq<char> {
    joined_name(snake_case(state), snake_case(event))
}

/// Joins the snake-case forms of the names of a state and of an event to
/// the name of their handler.
pub fn join_name(state: &str, event: &str) -> (r: String)
    ensures
        r@ == joined_name(state@, event@),
{
    let mut name = String::from_str("handle__");
    name.append(state);
    name.append("__");
    name.append(event);
    name
}

/// Builds the name of the function that holds the body of the transition
/// taken in `state` on `event`.
pub fn handler_ident(state: &str, event: &str) -> (r: String)
    ensures
        r@ == handler_name(state@, event@),
{
    let state_part = to_snake_case(state);
    let event_part = to_snake_case(event);
    join_name(state_part.as_str(), event_part.as_str())
}

} // verus!
