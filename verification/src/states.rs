//! Top-level phases of the game's lifecycle.

use vstd::prelude::*;

verus! {

/// Which phase the game as a whole is in. The simulation core only runs
/// during `Level`; the other phases belong to loading, menus and the
/// animated hand-over between levels.
#[derive(Debug, Clone, Copy, PartialEq, Eq, Structural, Hash)]
pub enum GameState {
    Loading,
    MainMenu,
    Level,
    LevelTransition,
    LevelReload,
}

impl Default for GameState {
    /// The game starts out loading its assets.
    fn default() -> (r: Self)
        ensures
            r == GameState::Loading,
    {
        GameState::Loading
    }
}

} // verus!
