//! The deterministic machine: a context and a state whose type says where
//! the machine stands. A transition consumes the machine and gives the
//! machine in its target state, so only declared transitions can be taken.
//!
//! What a transition does is an operation handed to the machine: a closure
//! written in place, or the function of a delegate that is held elsewhere.
//! A transition that may fail gives a `Result`, whose error type is fixed
//! where the transition is written; a chain of such transitions ends at the
//! first that fails.

use vstd::prelude::*;

verus! {

/// A machine in the state `State`.
pub struct Machine<State, Context> {
    context: Context,
    state: State,
}

impl<State, Context> Machine<State, Context> {
    /// The context.
    pub closed spec fn context_spec(&self) -> Context {
        self.context
    }

    /// The state.
    pub closed spec fn state_spec(&self) -> State {
        self.state
    }

    /// A machine in `initial_state`, with `context`.
    pub fn new(initial_state: State, context: Context) -> (machine: Self)
        ensures
            machine.state_spec() == initial_state,
            machine.context_spec() == context,
    {
        Machine { context, state: initial_state }
    }

    /// The context.
    pub fn context(&self) -> (context: &Context)
        ensures
            *context == self.context_spec(),
    {
        &self.context
    }

    /// The state.
    pub fn state(&self) -> (state: &State)
        ensures
            *state == self.state_spec(),
    {
        &self.state
    }

    /// Gives the machine up for its context.
    pub fn into_context(self) -> (context: Context)
        ensures
            context == self.context_spec(),
    {
        self.context
    }

    /// Gives the machine up for its state.
    pub fn into_state(self) -> (state: State)
        ensures
            state == self.state_spec(),
    {
        self.state
    }

    /// Gives the machine up for its state and its context.
    pub fn into_parts(self) -> (parts: (State, Context))
        ensures
            parts == (self.state_spec(), self.context_spec()),
    {
        (self.state, self.context)
    }

    /// Takes the transition `operation`, which cannot fail: the machine in
    /// the target state is some outcome of `operation` on this state and
    /// context.
    pub fn transition<Target, F: FnOnce(State, Context) -> (Target, Context)>(
        self,
        operation: F,
    ) -> (next: Machine<Target, Context>)
        requires
            call_requires(operation, (self.state_spec(), self.context_spec())),
        ensures
            call_ensures(
                operation,
                (self.state_spec(), self.context_spec()),
                (next.state_spec(), next.context_spec()),
            ),
    {
        let (state, context) = operation(self.state, self.context);
        Machine { context, state }
    }

    /// Takes the fallible transition `operation`: the machine in the target
    /// state where `operation` succeeds, and its error, as it is, where it
    /// fails.
    pub fn try_transition<
        Target,
        Error,
        F: FnOnce(State, Context) -> Result<(Target, Context), Error>,
    >(self, operation: F) -> (next: Result<Machine<Target, Context>, Error>)
        requires
            call_requires(operation, (self.state_spec(), self.context_spec())),
        ensures
            match next {
                Ok(machine) => call_ensures(
                    operation,
                    (self.state_spec(), self.context_spec()),
                    Ok((machine.state_spec(), machine.context_spec())),
                ),
                Err(error) => call_ensures(
                    operation,
                    (self.state_spec(), self.context_spec()),
                    Err(error),
                ),
            },
    {
        match operation(self.state, self.context) {
            Ok((state, context)) => Ok(Machine { context, state }),
            Err(error) => Err(error),
        }
    }
}

/// Whether `next` can come of continuing a chain that stands at `previous`
/// with `operation`: after a failure only that failure, unchanged, whatever
/// `operation` is; after a success whatever `operation` can give on the
/// machine reached.
pub open spec fn continues<
    State,
    Target,
    Context,
    Error,
    F: FnOnce(Machine<State, Context>) -> Result<Machine<Target, Context>, Error>,
>(
    previous: Result<Machine<State, Context>, Error>,
    operation: F,
    next: Result<Machine<Target, Context>, Error>,
) -> bool {
    match previous {
        Ok(machine) => call_ensures(operation, (machine,), next),
        Err(error) => next == Err::<Machine<Target, Context>, Error>(error),
    }
}

/// Continues a chain of fallible transitions with `operation`. After a
/// failure the chain is over: the error comes out unchanged, and `operation`
/// is not called, so nothing is asked of it. After a success the result is
/// that of `operation` on the machine reached.
pub fn and_then<
    State,
    Target,
    Context,
    Error,
    F: FnOnce(Machine<State, Context>) -> Result<Machine<Target, Context>, Error>,
>(previous: Result<Machine<State, Context>, Error>, operation: F) -> (next: Result<
    Machine<Target, Context>,
    Error,
>)
    requires
        previous matches Ok(machine) ==> call_requires(operation, (machine,)),
    ensures
        continues(previous, operation, next),
{
    match previous {
        Ok(machine) => operation(machine),
        Err(error) => Err(error),
    }
}

/// A chain of fallible operations stops at the first error: once a step
/// has failed with `error`, the chain ends in that same error however many
/// operations follow, and whatever they are.
pub proof fn law_chain_stops_at_the_first_error<
    First,
    Second,
    Third,
    Context,
    Error,
    F: FnOnce(Machine<First, Context>) -> Result<Machine<Second, Context>, Error>,
    G: FnOnce(Machine<Second, Context>) -> Result<Machine<Third, Context>, Error>,
>(
    start: Result<Machine<First, Context>, Error>,
    first: F,
    after_first: Result<Machine<Second, Context>, Error>,
    second: G,
    after_second: Result<Machine<Third, Context>, Error>,
    error: Error,
)
    requires
        continues(start, first, after_first),
        continues(after_first, second, after_second),
        start == Err::<Machine<First, Context>, Error>(error) || after_first == Err::<
            Machine<Second, Context>,
            Error,
        >(error),
    ensures
        after_second == Err::<Machine<Third, Context>, Error>(error),
{
}

} // verus!
