//! The screens around the levels: the title menu and the screen between
//! levels, the game state they move between, and their background music.

use vstd::prelude::*;
use crate::level::LevelSettings;
use crate::session::Score;
use crate::sides::{UnlockedSides, unlock_spec};

verus! {

/// Top-level state of the game.
#[derive(PartialEq, Eq, Structural, Clone, Copy, Debug, Hash)]
pub enum GameState {
    Menu,
    GameLoading,
    Game,
    BetweenLevels,
}

/// Background music tracks.
#[derive(PartialEq, Eq, Structural, Clone, Copy, Debug)]
pub enum Music {
    /// Plays on the menu and between levels
    MenuMusic,
    /// Plays during a level
    GameMusic,
}

/// The background track that is playing, if any.
#[derive(PartialEq, Eq, Structural, Clone, Copy, Debug)]
pub struct MusicController(pub Option<Music>);

/// Starts `track` as the background music.
pub fn start_background_music(music_controller: &mut MusicController, track: Music)
    ensures
        *final(music_controller) == MusicController(Some(track)),
{
    music_controller.0 = Some(track);
}

/// Stops the background music; returns the track that has to be stopped, if one was playing.
pub fn stop_background_music(music_controller: &mut MusicController) -> (r: Option<Music>)
    ensures
        r == old(music_controller).0,
        *final(music_controller) == MusicController(None),
{
    let playing = music_controller.0;
    music_controller.0 = None;
    playing
}

/// Text of the title screen.
#[derive(PartialEq, Eq, Clone, Copy, Debug)]
pub struct MenuScreen {
    pub title: &'static str,
    pub start_button_label: &'static str,
}

/// Builds the title screen's text.
pub fn menu_setup() -> (r: MenuScreen)
    ensures
        r.title@ == "Extreme Bounce Party 2000"@,
        r.start_button_label@ == "let's bounce"@,
{
    MenuScreen { title: "Extreme Bounce Party 2000", start_button_label: "let's bounce" }
}

/// The title screen.
#[derive(PartialEq, Eq, Structural, Clone, Copy, Debug)]
pub struct MenuPlugin;

impl MenuPlugin {
    /// The state that a click on the start button leads to.
    pub fn start_button_system(&self) -> (r: GameState)
        ensures
            r == GameState::GameLoading,
    {
        GameState::GameLoading
    }

    /// Leaving the title screen stops its music.
    pub fn exit(&self, music_controller: &mut MusicController) -> (r: Option<Music>)
        ensures
            r == old(music_controller).0,
            *final(music_controller) == MusicController(None),
    {
        stop_background_music(music_controller)
    }
}

/// Unlocks the sides a level offers if its final score completed it.
pub fn unlock_sides(score: &Score, level_settings: &LevelSettings, unlocked_sides: &mut UnlockedSides)
    ensures
        score.0 >= level_settings.min_score ==> final(unlocked_sides).0@ == unlock_spec(
            old(unlocked_sides).0@,
            level_settings.sides_to_unlock@,
        ),
        score.0 < level_settings.min_score ==> final(unlocked_sides).0@ == old(unlocked_sides).0@,
{
    if score.0 >= level_settings.min_score {
        unlocked_sides.unlock(&level_settings.sides_to_unlock);
    }
}

/// The screen between levels.
#[derive(PartialEq, Eq, Structural, Clone, Copy, Debug)]
pub struct BetweenLevelsPlugin;

impl BetweenLevelsPlugin {
    /// Entering the screen after a level: the level's sides are unlocked if
    /// the score completed it, and the menu music starts.
    pub fn enter(
        &self,
        score: &Score,
        level_settings: &LevelSettings,
        unlocked_sides: &mut UnlockedSides,
        music_controller: &mut MusicController,
    )
        ensures
            score.0 >= level_settings.min_score ==> final(unlocked_sides).0@ == unlock_spec(
                old(unlocked_sides).0@,
                level_settings.sides_to_unlock@,
            ),
            score.0 < level_settings.min_score ==> final(unlocked_sides).0@ == old(
                unlocked_sides,
            ).0@,
            *final(music_controller) == MusicController(Some(Music::MenuMusic)),
    {
        unlock_sides(score, level_settings, unlocked_sides);
        start_background_music(music_controller, Music::MenuMusic);
    }

    /// A click on the next-level button: the settings move on to the next
    /// level and the game starts it.
    pub fn next_level_button_system(&self, level_settings: &mut LevelSettings) -> (r: GameState)
        requires
            old(level_settings).wf(),
            old(level_settings).can_advance(),
        ensures
            final(level_settings)@ == crate::level::next_level_view(old(level_settings)@),
            final(level_settings).wf(),
            r == GameState::Game,
    {
        *level_settings = level_settings.next_level();
        GameState::Game
    }

    /// A click on the restart button: the game starts the same level again.
    pub fn restart_level_button_system(&self) -> (r: GameState)
        ensures
            r == GameState::Game,
    {
        GameState::Game
    }

    /// Leaving the screen stops its music.
    pub fn exit(&self, music_controller: &mut MusicController) -> (r: Option<Music>)
        ensures
            r == old(music_controller).0,
            *final(music_controller) == MusicController(None),
    {
        stop_background_music(music_controller)
    }
}

} // verus!
