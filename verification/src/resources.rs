//! Resources that games share.

use vstd::prelude::*;

verus! {

/// Volumes in thousandths of full volume, and the difficulty.
#[derive(Clone, Copy, Debug, PartialEq, Eq, Structural)]
pub struct GameSettings {
    pub master_volume: u32,
    pub sfx_volume: u32,
    pub music_volume: u32,
    pub difficulty: Difficulty,
}

#[derive(Clone, Copy, Debug, PartialEq, Eq, Structural)]
pub enum Difficulty {
    Easy,
    Normal,
    Hard,
}

#[derive(Clone, Copy, Debug, PartialEq, Eq, Structural)]
pub struct Score {
    pub current: u32,
    pub high_score: u32,
}

#[derive(Clone, Copy, Debug, PartialEq, Eq, Hash, Structural)]
pub enum GameState {
    MainMenu,
    InGame,
    Paused,
    GameOver,
}

impl Default for GameSettings {
    /// Full master and effects volume, music at seven tenths, normal
    /// difficulty.
    fn default() -> (settings: GameSettings)
        ensures
            settings == (GameSettings {
                master_volume: 1_000,
                sfx_volume: 1_000,
                music_volume: 700,
                difficulty: Difficulty::Normal,
            }),
    {
        GameSettings {
            master_volume: 1_000,
            sfx_volume: 1_000,
            music_volume: 700,
            difficulty: Difficulty::Normal,
        }
    }
}

impl Default for Score {
    fn default() -> (score: Score)
        ensures
            score == (Score { current: 0, high_score: 0 }),
    {
        Score { current: 0, high_score: 0 }
    }
}

impl Default for GameState {
    fn default() -> (state: GameState)
        ensures
            state == GameState::MainMenu,
    {
        GameState::MainMenu
    }
}

} // verus!
