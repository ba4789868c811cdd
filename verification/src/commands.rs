//! Backend operations that the frontend may invoke by name.
//!
//! The shell offers none. The framework asks for each invocation what the
//! application makes of it, and turns the invocation down where the
//! application does not know the command.

use vstd::prelude::*;

verus! {

/// What the application makes of an invocation.
#[derive(Clone, Copy, Debug, PartialEq, Eq, Structural)]
pub enum Dispatch {
    /// The command is registered and the application answers it.
    Handled,
    /// No command of that name is registered.
    UnknownCommand,
}

/// The names under which backend operations are registered: none.
pub open spec fn registered_commands() -> Set<Seq<char>> {
    Set::empty()
}

/// What the application makes of an invocation of `name`: it handles the
/// registered commands and knows no other.
pub open spec fn outcome_of(name: Seq<char>) -> Dispatch {
    if registered_commands().contains(name) {
        Dispatch::Handled
    } else {
        Dispatch::UnknownCommand
    }
}

/// Decides what becomes of an invocation of `name`.
pub fn dispatch(name: &str) -> (outcome: Dispatch)
    ensures
        outcome == outcome_of(name@),
{
    Dispatch::UnknownCommand
}

/// No command is registered, so every invocation, whatever its name, is
/// turned down as an unknown command.
pub proof fn law_every_command_is_unknown(name: Seq<char>)
    ensures
        !registered_commands().contains(name),
        outcome_of(name) == Dispatch::UnknownCommand,
{
}

} // verus!
