use vstd::prelude::*;

verus! {

/// The phase of the whole application.
#[derive(Clone, Copy, Debug, PartialEq, Eq, Hash, Structural)]
pub enum AppState {
    AssetLoading,
    InGame,
    EndGame,
    WinGame,
}

impl Default for AppState {
    fn default() -> (s: AppState)
        ensures
            s == AppState::AssetLoading,
    {
        AppState::AssetLoading
    }
}

/// The phase of a turn, while a game is being played.
#[derive(Clone, Copy, Debug, PartialEq, Eq, Hash, Structural)]
pub enum GameState {
    /// The player is choosing an action.
    PlayerIdle,
    /// The player's move, or the first half of a jump, is playing.
    PlayerActionInProgress,
    /// The logs are rolling.
    GameTurnInProgress,
    /// The player is landing from a jump.
    PlayerFinishingJump,
    Paused,
}

impl Default for GameState {
    fn default() -> (s: GameState)
        ensures
            s == GameState::PlayerIdle,
    {
        GameState::PlayerIdle
    }
}

/// What kind of thing a body on the board is. Only bodies of different kinds
/// collide.
#[derive(Clone, Copy, Debug, PartialEq, Eq, Structural)]
pub enum GameObjectType {
    Player,
    Log,
    Rock,
}

/// How a game ended.
#[derive(Clone, Copy, Debug, PartialEq, Eq, Structural)]
pub enum GameEvent {
    Over,
    Win,
}

impl GameEvent {
    /// The message shown for the event.
    pub open spec fn spec_text(self) -> Seq<char> {
        match self {
            GameEvent::Over => "GAME OVER"@,
            GameEvent::Win => "ALL BIRDS RESCUED"@,
        }
    }

    pub fn text(&self) -> (message: String)
        ensures
            message@ == self.spec_text(),
    {
        match self {
            GameEvent::Over => "GAME OVER".to_owned(),
            GameEvent::Win => "ALL BIRDS RESCUED".to_owned(),
        }
    }
}

} // verus!
