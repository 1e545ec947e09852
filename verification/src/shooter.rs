//! The player of the first-person shooter: which keys and buttons move it
//! and fire its weapon, and what a shot hits.

use vstd::prelude::*;
use crate::input::{Button, Heading, Key};
use crate::scene::Handle;

verus! {

/// The keys and the button that are held down.
#[derive(Clone, Copy, Debug, PartialEq, Eq, Structural)]
pub struct InputController {
    pub move_forward: bool,
    pub move_backward: bool,
    pub move_left: bool,
    pub move_right: bool,
    pub shoot: bool,
}

/// Something that the player did with the keyboard or the mouse buttons.
#[derive(Clone, Copy, Debug, PartialEq, Eq, Structural)]
pub enum InputEvent {
    /// A key was pressed or released.
    Key { key: Key, pressed: bool },
    /// A mouse button was pressed or released.
    Button { button: Button, pressed: bool },
}

impl InputController {
    /// The controller after an event.
    pub open spec fn event_spec(self, event: InputEvent) -> InputController {
        match event {
            InputEvent::Key { key: Key::W, pressed } => InputController {
                move_forward: pressed,
                ..self
            },
            InputEvent::Key { key: Key::S, pressed } => InputController {
                move_backward: pressed,
                ..self
            },
            InputEvent::Key { key: Key::A, pressed } => InputController {
                move_left: pressed,
                ..self
            },
            InputEvent::Key { key: Key::D, pressed } => InputController {
                move_right: pressed,
                ..self
            },
            InputEvent::Button { button: Button::Left, pressed } => InputController {
                shoot: pressed,
                ..self
            },
            _ => self,
        }
    }

    /// How often the look vector counts in the player's velocity.
    pub open spec fn look_spec(self) -> int {
        (if self.move_forward { 1int } else { 0 }) - (if self.move_backward { 1int } else { 0 })
    }

    /// How often the side vector counts in the player's velocity.
    pub open spec fn side_spec(self) -> int {
        (if self.move_left { 1int } else { 0 }) - (if self.move_right { 1int } else { 0 })
    }
}

/// What the player does in one frame.
#[derive(Clone, Copy, Debug, PartialEq, Eq, Structural)]
pub struct PlayerStep {
    /// The horizontal direction of the player's velocity.
    pub heading: Heading,
    /// Whether the player asks its weapon to fire.
    pub shoot: bool,
}

/// The player of the shooter.
#[derive(Clone, Copy, Debug, PartialEq, Eq, Structural)]
pub struct Player {
    pub controller: InputController,
    /// The player's own collider, which its shots pass through.
    pub collider: Handle,
}

impl Player {
    /// A player at rest with the given collider.
    pub fn new(collider: Handle) -> (player: Player)
        ensures
            player.collider == collider,
            player.controller == (InputController {
                move_forward: false,
                move_backward: false,
                move_left: false,
                move_right: false,
                shoot: false,
            }),
    {
        Player {
            controller: InputController {
                move_forward: false,
                move_backward: false,
                move_left: false,
                move_right: false,
                shoot: false,
            },
            collider,
        }
    }

    /// Records an event. W, S, A and D move the player and the left mouse
    /// button fires; any other key or button changes nothing.
    pub fn process_input_event(&mut self, event: InputEvent)
        ensures
            final(self).controller == old(self).controller.event_spec(event),
            final(self).collider == old(self).collider,
    {
        match event {
            InputEvent::Key { key, pressed } => match key {
                Key::W => {
                    self.controller.move_forward = pressed;
                },
                Key::S => {
                    self.controller.move_backward = pressed;
                },
                Key::A => {
                    self.controller.move_left = pressed;
                },
                Key::D => {
                    self.controller.move_right = pressed;
                },
                _ => {},
            },
            InputEvent::Button { button, pressed } => match button {
                Button::Left => {
                    self.controller.shoot = pressed;
                },
                _ => {},
            },
        }
    }

    /// Decides the frame: the direction in which the held keys move the
    /// player, opposite keys cancelling each other, and whether it fires.
    pub fn update(&self) -> (step: PlayerStep)
        ensures
            step.heading.look == self.controller.look_spec(),
            step.heading.side == self.controller.side_spec(),
            step.shoot == self.controller.shoot,
    {
        let mut look: i8 = 0;
        let mut side: i8 = 0;
        if self.controller.move_forward {
            look = look + 1;
        }
        if self.controller.move_backward {
            look = look - 1;
        }
        if self.controller.move_left {
            side = side + 1;
        }
        if self.controller.move_right {
            side = side - 1;
        }
        PlayerStep { heading: Heading { look, side }, shoot: self.controller.shoot }
    }

    /// Of the colliders that a shot meets, nearest first, the place of the
    /// one that it hits: the first that is not the player's own.
    pub fn first_hit(&self, colliders: &Vec<Handle>) -> (hit: Option<usize>)
        ensures
            match hit {
                Some(at) => {
                    &&& at < colliders@.len()
                    &&& colliders@[at as int] != self.collider
                    &&& forall|i: int| 0 <= i < at ==> colliders@[i] == self.collider
                },
                None => forall|i: int| 0 <= i < colliders@.len() ==> colliders@[i] == self.collider,
            },
            hit.is_some() <==> exists|i: int|
                0 <= i < colliders@.len() && colliders@[i] != self.collider,
    {
        let mut at: usize = 0;
        while at < colliders.len()
            invariant
                at <= colliders@.len(),
                forall|i: int| 0 <= i < at ==> colliders@[i] == self.collider,
            decreases colliders@.len() - at,
        {
            let collider = colliders[at];
            if collider.index != self.collider.index || collider.generation
                != self.collider.generation {
                return Some(at);
            }
            at = at + 1;
        }
        None
    }
}

} // verus!
