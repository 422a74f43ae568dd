use crate::machine::{Action, Message};
use vstd::prelude::*;

verus! {

/// Entry point of the second stage, reached with the registers that the
/// first stage established: it prints its greeting and halts.
pub fn stage_2_main() -> (r: Action)
    ensures
        r == Action::Halt(Message::Greeting),
{
    Action::Halt(Message::Greeting)
}

} // verus!
