//! Dialogue states of the user bot.

use vstd::prelude::*;

verus! {

/// The state machine of a dialogue; the bot is stateless, so the only
/// state is `Idle`.
#[derive(Clone, Debug, PartialEq, Eq, Structural)]
pub enum State {
    Idle,
}

impl Default for State {
    fn default() -> (s: State)
        ensures
            s == State::Idle,
    {
        State::Idle
    }
}

} // verus!
