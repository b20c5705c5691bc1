use vstd::prelude::*;

verus! {

/// The phase a game is in. A freshly built world is `Ready`; starting it
/// moves it to `Playing`; `Won` (grid full) and `GameOver` (self-collision)
/// are terminal.
#[derive(Clone, Copy, PartialEq, Eq, Structural, Debug)]
pub enum GameState {
    Playing,
    Won,
    GameOver,
    Ready,
}

/// The small integer code for a game state, for a numeric front-end
/// protocol.
pub open spec fn state_code(state: GameState) -> u8 {
    match state {
        GameState::Playing => 0,
        GameState::Won => 1,
        GameState::GameOver => 2,
        GameState::Ready => 3,
    }
}

/// Finite-state machine over `GameState`; the world consults it to decide
/// whether simulation steps have any effect.
pub struct GameEngine {
    pub state: GameState,
}

impl GameEngine {
    /// Creates a new game engine in the `Ready` state.
    pub fn new() -> (engine: GameEngine)
        ensures
            engine.state == GameState::Ready,
    {
        GameEngine { state: GameState::Ready }
    }

    /// True exactly when the game is running.
    pub fn is_playing(&self) -> (r: bool)
        ensures
            r == (self.state is Playing),
    {
        matches!(self.state, GameState::Playing)
    }

    /// True exactly when the game has not been started yet.
    pub fn is_ready(&self) -> (r: bool)
        ensures
            r == (self.state is Ready),
    {
        matches!(self.state, GameState::Ready)
    }

    /// The current game state.
    pub fn get_state(&self) -> (state: GameState)
        ensures
            state == self.state,
    {
        self.state
    }

    /// Moves the machine into `state`; the world alone drives transitions.
    pub fn set_state(&mut self, state: GameState)
        ensures
            final(self).state == state,
    {
        self.state = state;
    }

    /// The current game state as its integer code.
    pub fn get_state_as_number(&self) -> (code: u8)
        ensures
            code == state_code(self.state),
    {
        match self.state {
            GameState::Playing => 0,
            GameState::Won => 1,
            GameState::GameOver => 2,
            GameState::Ready => 3,
        }
    }
}

} // verus!
