//! The player of the platformer: which keys move it, how fast it runs,
//! when it jumps, which way its sprite looks and which animation plays.

use vstd::prelude::*;
use crate::input::Key;

verus! {

/// What becomes of the sign of the sprite's horizontal scale.
#[derive(Clone, Copy, Debug, PartialEq, Eq, Structural)]
pub enum Facing {
    /// The sprite keeps the side it shows.
    Keep,
    /// The horizontal scale is made negative.
    Negative,
    /// The horizontal scale is made positive.
    Positive,
}

/// How the player's body and sprite are set in one frame.
#[derive(Clone, Copy, Debug, PartialEq, Eq, Structural)]
pub struct Motion {
    /// The horizontal speed of the body.
    pub x_speed: i32,
    /// The vertical speed to give the body; `None` leaves it as it is.
    pub y_speed: Option<i32>,
    /// The side that the sprite shows.
    pub facing: Facing,
}

/// The player of the platformer.
#[derive(Clone, Copy, Debug, PartialEq, Eq, Structural)]
pub struct Player {
    pub move_left: bool,
    pub move_right: bool,
    pub jump: bool,
    /// The place of the animation that plays, among the player's
    /// animations: 0 while running, 1 while standing.
    pub current_animation: u32,
}

impl Player {
    /// The player after `key` was pressed or released.
    pub open spec fn key_spec(self, key: Key, pressed: bool) -> Player {
        match key {
            Key::A => Player { move_left: pressed, ..self },
            Key::D => Player { move_right: pressed, ..self },
            Key::Space => Player { jump: pressed, ..self },
            _ => self,
        }
    }

    /// The horizontal speed that the held keys ask for. Left goes before
    /// right.
    pub open spec fn x_speed_spec(self) -> int {
        if self.move_left {
            3
        } else if self.move_right {
            -3
        } else {
            0
        }
    }

    /// How the body and sprite are set for the held keys.
    pub open spec fn motion_spec(self) -> Motion {
        Motion {
            x_speed: self.x_speed_spec() as i32,
            y_speed: if self.jump {
                Some(4i32)
            } else {
                None
            },
            facing: if self.x_speed_spec() > 0 {
                Facing::Negative
            } else if self.x_speed_spec() < 0 {
                Facing::Positive
            } else {
                Facing::Keep
            },
        }
    }

    /// A player at rest, with its first animation chosen.
    pub fn new() -> (player: Player)
        ensures
            player == (Player {
                move_left: false,
                move_right: false,
                jump: false,
                current_animation: 0,
            }),
    {
        Player { move_left: false, move_right: false, jump: false, current_animation: 0 }
    }

    /// Records that a key was pressed or released. A and D run left and
    /// right, the space bar jumps; any other key changes nothing.
    pub fn on_os_event(&mut self, key: Key, pressed: bool)
        ensures
            *final(self) == old(self).key_spec(key, pressed),
    {
        match key {
            Key::A => {
                self.move_left = pressed;
            },
            Key::D => {
                self.move_right = pressed;
            },
            Key::Space => {
                self.jump = pressed;
            },
            _ => {},
        }
    }

    /// Decides the frame of a player that has a body. The running
    /// animation is chosen while the player runs and the standing one
    /// while it stands; the sprite is turned against the horizontal speed.
    pub fn on_update(&mut self) -> (motion: Motion)
        ensures
            motion == old(self).motion_spec(),
            final(self).current_animation == (if old(self).x_speed_spec() != 0 {
                0u32
            } else {
                1u32
            }),
            final(self).move_left == old(self).move_left,
            final(self).move_right == old(self).move_right,
            final(self).jump == old(self).jump,
    {
        let x_speed: i32 = if self.move_left {
            3
        } else if self.move_right {
            -3
        } else {
            0
        };
        if x_speed != 0 {
            self.current_animation = 0;
        } else {
            self.current_animation = 1;
        }
        let y_speed: Option<i32> = if self.jump {
            Some(4)
        } else {
            None
        };
        let facing = if x_speed > 0 {
            Facing::Negative
        } else if x_speed < 0 {
            Facing::Positive
        } else {
            Facing::Keep
        };
        Motion { x_speed, y_speed, facing }
    }
}

} // verus!
