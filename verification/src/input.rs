//! Input: the keys a host can report, and what each means in each mode.

use vstd::prelude::*;
use crate::stimulation::GameMode;

verus! {

/// A key of the keyboard, as far as the game tells keys apart.
#[derive(Clone, Copy, Debug, PartialEq, Eq, Structural)]
pub enum Key {
    /// The letter P.
    P,
    /// The letter Q.
    Q,
    /// The letter M.
    M,
    /// The letter L.
    L,
    /// Any other key.
    Other,
}

/// What the player asked for in one frame.
#[derive(Clone, Copy, Debug, PartialEq, Eq, Structural)]
pub enum KeyEvent {
    /// Start a game.
    Play,
    /// Leave the program.
    Quit,
    /// Leave the game for the menu.
    BackToMenu,
    /// Add a land to the world.
    AddLand,
    /// Add a person to the world.
    AddPerson,
    /// No key, or a key without a meaning.
    NoKey,
}

/// What `key` means while the game is in `mode`. The letter P starts a game
/// from the menu and from the end screen, and adds a person during play; the
/// other letters mean the same in every mode.
pub open spec fn meaning(mode: GameMode, key: Option<Key>) -> KeyEvent {
    match key {
        Some(Key::P) => match mode {
            GameMode::Playing => KeyEvent::AddPerson,
            _ => KeyEvent::Play,
        },
        Some(Key::Q) => KeyEvent::Quit,
        Some(Key::M) => KeyEvent::BackToMenu,
        Some(Key::L) => KeyEvent::AddLand,
        _ => KeyEvent::NoKey,
    }
}

/// Turns the key of one frame, if there was one, into the event it stands
/// for in `mode`.
pub fn interpret(mode: GameMode, key: Option<Key>) -> (event: KeyEvent)
    ensures
        event == meaning(mode, key),
{
    match key {
        Some(Key::P) => match mode {
            GameMode::Playing => KeyEvent::AddPerson,
            _ => KeyEvent::Play,
        },
        Some(Key::Q) => KeyEvent::Quit,
        Some(Key::M) => KeyEvent::BackToMenu,
        Some(Key::L) => KeyEvent::AddLand,
        _ => KeyEvent::NoKey,
    }
}

} // verus!
