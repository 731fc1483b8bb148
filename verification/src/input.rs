//! Keyboard handling: which keys steer the paddle, restart or quit.
use vstd::prelude::*;
use crate::game::Game;

verus! {

/// The keys the game responds to; every other key is `Other`.
#[derive(Clone, Copy, PartialEq, Eq, Debug, Structural)]
pub enum Key {
    KeyA,
    KeyD,
    KeyW,
    KeyS,
    KeyR,
    ArrowLeft,
    ArrowRight,
    ArrowUp,
    ArrowDown,
    Escape,
    Other,
}

/// Pressing Escape quits the game.
pub fn quits(key: Key, pressed: bool) -> (q: bool)
    ensures
        q == (key is Escape && pressed),
{
    match key {
        Key::Escape => pressed,
        _ => false,
    }
}

impl Game {
    /// Applies a key going down (`pressed`) or up: A or Left holds left, D or
    /// Right holds right, W or Up holds up, S or Down holds down; pressing R
    /// restarts the match; any other key changes nothing. Returns whether
    /// the match restarted.
    pub fn set_key(&mut self, key: Key, pressed: bool) -> (restarted: bool)
        ensures
            restarted == (key is KeyR && pressed),
            old(self).wf() ==> final(self).wf(),
            match key {
                Key::KeyA | Key::ArrowLeft => *final(self) == (Game {
                    move_left: pressed,
                    ..*old(self)
                }),
                Key::KeyD | Key::ArrowRight => *final(self) == (Game {
                    move_right: pressed,
                    ..*old(self)
                }),
                Key::KeyW | Key::ArrowUp => *final(self) == (Game { move_up: pressed, ..*old(self) }),
                Key::KeyS | Key::ArrowDown => *final(self) == (Game {
                    move_down: pressed,
                    ..*old(self)
                }),
                Key::KeyR => if pressed {
                    final(self).restarted_from(*old(self))
                } else {
                    *final(self) == *old(self)
                },
                _ => *final(self) == *old(self),
            },
    {
        match key {
            Key::KeyA | Key::ArrowLeft => {
                self.move_left = pressed;
                false
            },
            Key::KeyD | Key::ArrowRight => {
                self.move_right = pressed;
                false
            },
            Key::KeyW | Key::ArrowUp => {
                self.move_up = pressed;
                false
            },
            Key::KeyS | Key::ArrowDown => {
                self.move_down = pressed;
                false
            },
            Key::KeyR => {
                if pressed {
                    self.restart();
                }
                pressed
            },
            _ => false,
        }
    }
}

} // verus!
