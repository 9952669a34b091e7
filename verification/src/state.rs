use vstd::prelude::*;

verus! {

/// The screens the game moves between.
#[derive(PartialEq, Eq, Structural, Clone, Copy, Debug)]
pub enum GameState {
    Menu,
    Alive,
    Dead,
    Won,
}

impl Default for GameState {
    fn default() -> (s: Self)
        ensures
            s == GameState::Menu,
    {
        GameState::Menu
    }
}

/// The state after a requested change: a change of `None` leaves the state as it is.
pub open spec fn apply_change(state: GameState, change: Option<GameState>) -> GameState {
    match change {
        Some(next) => next,
        None => state,
    }
}

/// The change a game over asks for: the `Dead` screen, unless the game is already there.
pub open spec fn game_over_change(state: GameState) -> Option<GameState> {
    if state == GameState::Dead { None } else { Some(GameState::Dead) }
}

/// The change a restart request asks for: back to `Alive`, unless the game is already alive.
pub open spec fn restart_change(state: GameState) -> Option<GameState> {
    if state == GameState::Alive { None } else { Some(GameState::Alive) }
}

/// On a game over the game moves to the `Dead` screen, unless it is already there.
pub fn on_game_over(state: GameState) -> (next: Option<GameState>)
    ensures
        next == game_over_change(state),
{
    if state == GameState::Dead {
        None
    } else {
        Some(GameState::Dead)
    }
}

/// On a restart request the game moves to the `Alive` state, unless it is already there.
pub fn on_restart_click(state: GameState) -> (next: Option<GameState>)
    ensures
        next == restart_change(state),
{
    if state == GameState::Alive {
        None
    } else {
        Some(GameState::Alive)
    }
}

/// Whatever the state, a game over leaves the game on the `Dead` screen, a second
/// game over changes nothing, and a restart request then brings the game back to life.
pub proof fn lemma_game_over_then_restart(state: GameState)
    ensures
        apply_change(state, game_over_change(state)) == GameState::Dead,
        game_over_change(apply_change(state, game_over_change(state))) is None,
        apply_change(
            apply_change(state, game_over_change(state)),
            restart_change(apply_change(state, game_over_change(state))),
        ) == GameState::Alive,
{
}

} // verus!
