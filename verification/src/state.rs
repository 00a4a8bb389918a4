//! The turn state machine that sequences the per-turn passes.

use vstd::prelude::*;

verus! {

/// Where the game loop stands within a turn.
#[derive(Clone, Copy, Debug, PartialEq, Eq, Structural)]
pub enum RunState {
    PreRun,
    /// The player only declares their intent here.
    AwaitingInput,
    /// The declared changes propagate into the game.
    PlayerTurn,
    MonsterTurn,
    /// Show the whole map, then wait for input again.
    RevealMap,
    GameOver,
}

/// The successor of each state once its passes have run. `AwaitingInput`
/// holds until input handling decides otherwise, and `GameOver` is final.
pub open spec fn spec_tick_transition(state: RunState) -> RunState {
    match state {
        RunState::PreRun => RunState::AwaitingInput,
        RunState::AwaitingInput => RunState::AwaitingInput,
        RunState::PlayerTurn => RunState::MonsterTurn,
        RunState::MonsterTurn => RunState::AwaitingInput,
        RunState::RevealMap => RunState::AwaitingInput,
        RunState::GameOver => RunState::GameOver,
    }
}

pub fn tick_transition(state: RunState) -> (r: RunState)
    ensures
        r == spec_tick_transition(state),
{
    match state {
        RunState::PreRun => RunState::AwaitingInput,
        RunState::AwaitingInput => RunState::AwaitingInput,
        RunState::PlayerTurn => RunState::MonsterTurn,
        RunState::MonsterTurn => RunState::AwaitingInput,
        RunState::RevealMap => RunState::AwaitingInput,
        RunState::GameOver => RunState::GameOver,
    }
}

} // verus!
