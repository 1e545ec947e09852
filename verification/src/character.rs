//! The walking character of the role-playing game: which keys move it,
//! where it heads, how its model is turned and what drives its animation
//! machine.

use vstd::prelude::*;
use crate::input::{Heading, Key};
use crate::machine::{Layout, RuleSetting, State, Transition};

verus! {

/// The walking keys that are held down.
#[derive(Clone, Copy, Debug, PartialEq, Eq, Structural)]
pub struct InputController {
    pub walk_forward: bool,
    pub walk_backward: bool,
    pub walk_left: bool,
    pub walk_right: bool,
}

impl InputController {
    /// The keys held after `key` was pressed or released.
    pub open spec fn key_spec(self, key: Key, pressed: bool) -> InputController {
        match key {
            Key::W => InputController { walk_forward: pressed, ..self },
            Key::S => InputController { walk_backward: pressed, ..self },
            Key::A => InputController { walk_left: pressed, ..self },
            Key::D => InputController { walk_right: pressed, ..self },
            _ => self,
        }
    }

    /// How often the look vector counts in the direction of the walk.
    pub open spec fn look_spec(self) -> int {
        (if self.walk_forward { 1int } else { 0 }) - (if self.walk_backward { 1int } else { 0 })
    }

    /// How often the side vector counts in the direction of the walk.
    pub open spec fn side_spec(self) -> int {
        (if self.walk_left { 1int } else { 0 }) - (if self.walk_right { 1int } else { 0 })
    }

    /// The angle, in degrees, by which the model is turned about the
    /// vertical axis so that it faces the way it walks. Left goes before
    /// right; beside either, forward goes before backward; with neither,
    /// backward alone turns the model round.
    pub open spec fn angle_spec(self) -> int {
        if self.walk_left {
            if self.walk_forward {
                45
            } else if self.walk_backward {
                135
            } else {
                90
            }
        } else if self.walk_right {
            if self.walk_forward {
                -45
            } else if self.walk_backward {
                -135
            } else {
                -90
            }
        } else if self.walk_backward {
            180
        } else {
            0
        }
    }

    /// Whether any walking key is held.
    pub open spec fn any_spec(self) -> bool {
        self.walk_left || self.walk_right || self.walk_forward || self.walk_backward
    }
}

/// What the character's animation machine is told each frame.
#[derive(Clone, Copy, Debug, PartialEq, Eq, Structural)]
pub struct AnimationMachineInput {
    /// Whether the character is walking.
    pub walk: bool,
}

/// What the character does in one frame.
#[derive(Clone, Copy, Debug, PartialEq, Eq, Structural)]
pub struct PlayerStep {
    /// The angle in degrees to turn the model by, if it is turned at all.
    pub model_angle: Option<i32>,
    /// What the animation machine is told.
    pub input: AnimationMachineInput,
}

/// The character that the player walks about.
#[derive(Clone, Copy, Debug, PartialEq, Eq, Structural)]
pub struct Player {
    pub input_controller: InputController,
}

impl Player {
    /// A character at rest: no key is held.
    pub fn new() -> (player: Player)
        ensures
            player.input_controller == (InputController {
                walk_forward: false,
                walk_backward: false,
                walk_left: false,
                walk_right: false,
            }),
    {
        Player {
            input_controller: InputController {
                walk_forward: false,
                walk_backward: false,
                walk_left: false,
                walk_right: false,
            },
        }
    }

    /// Records that a key was pressed or released. W, S, A and D are the
    /// walking keys; any other key changes nothing.
    pub fn handle_key_event(&mut self, key: Key, pressed: bool)
        ensures
            final(self).input_controller == old(self).input_controller.key_spec(key, pressed),
    {
        match key {
            Key::W => {
                self.input_controller.walk_forward = pressed;
            },
            Key::S => {
                self.input_controller.walk_backward = pressed;
            },
            Key::A => {
                self.input_controller.walk_left = pressed;
            },
            Key::D => {
                self.input_controller.walk_right = pressed;
            },
            _ => {},
        }
    }

    /// The direction in which the held keys move the character. Opposite
    /// keys cancel each other.
    pub fn heading(&self) -> (heading: Heading)
        ensures
            heading.look == self.input_controller.look_spec(),
            heading.side == self.input_controller.side_spec(),
    {
        let mut look: i8 = 0;
        let mut side: i8 = 0;
        if self.input_controller.walk_right {
            side = side - 1;
        }
        if self.input_controller.walk_left {
            side = side + 1;
        }
        if self.input_controller.walk_forward {
            look = look + 1;
        }
        if self.input_controller.walk_backward {
            look = look - 1;
        }
        Heading { look, side }
    }

    /// The angle in degrees by which the model is turned to face the way
    /// it walks: a multiple of 45 from -135 to 180.
    pub fn model_angle(&self) -> (angle: i32)
        ensures
            angle == self.input_controller.angle_spec(),
            -135 <= angle <= 180,
            angle % 45 == 0,
    {
        let keys = &self.input_controller;
        if keys.walk_left {
            if keys.walk_forward {
                45
            } else if keys.walk_backward {
                135
            } else {
                90
            }
        } else if keys.walk_right {
            if keys.walk_forward {
                -45
            } else if keys.walk_backward {
                -135
            } else {
                -90
            }
        } else if keys.walk_backward {
            180
        } else {
            0
        }
    }

    /// Whether any walking key is held.
    pub fn is_running(&self) -> (running: bool)
        ensures
            running == self.input_controller.any_spec(),
    {
        let keys = &self.input_controller;
        keys.walk_left || keys.walk_right || keys.walk_forward || keys.walk_backward
    }

    /// Decides the frame, given whether the character's velocity is other
    /// than zero. A moving character has its model turned to face the way
    /// it walks; one at rest keeps the turn it has.
    pub fn update(&self, is_moving: bool) -> (step: PlayerStep)
        ensures
            step.input.walk == is_moving,
            is_moving ==> step.model_angle == Some(self.input_controller.angle_spec() as i32),
            !is_moving ==> step.model_angle.is_none(),
    {
        let model_angle = if is_moving {
            Some(self.model_angle())
        } else {
            None
        };
        PlayerStep { model_angle, input: AnimationMachineInput { walk: is_moving } }
    }
}

/// The name of the parameter that tells a machine built in the editor
/// whether the character runs.
pub fn running_rule() -> (name: &'static str)
    ensures
        name@ == "Running"@,
{
    "Running"
}

/// The character's animation machine: an idle clip, a walking clip and a
/// transition each way.
#[derive(Debug)]
pub struct AnimationMachine {
    pub layout: Layout,
}

impl AnimationMachine {
    /// The states of the machine, in the order they are added.
    pub open spec fn states_spec() -> Seq<State> {
        seq![State::Idle, State::Walk]
    }

    /// The transitions of the machine, in the order they are added.
    pub open spec fn transitions_spec() -> Seq<Transition> {
        seq![Transition::IdleToWalk, Transition::WalkToIdle]
    }

    /// The rules as they are set for an input, in the order they are set.
    pub open spec fn settings_spec(input: AnimationMachineInput) -> Seq<RuleSetting> {
        seq![
            RuleSetting { transition: Transition::WalkToIdle, value: !input.walk },
            RuleSetting { transition: Transition::IdleToWalk, value: input.walk },
        ]
    }

    /// The state that an input asks for.
    pub open spec fn wanted_spec(input: AnimationMachineInput) -> State {
        if input.walk {
            State::Walk
        } else {
            State::Idle
        }
    }

    /// The machine as it is built: it starts idle.
    pub fn new() -> (machine: AnimationMachine)
        ensures
            machine.layout.states@ == Self::states_spec(),
            machine.layout.transitions@ == Self::transitions_spec(),
            machine.layout.entry_state == State::Idle,
            machine.layout.wf(),
    {
        let mut states: Vec<State> = Vec::new();
        states.push(State::Idle);
        states.push(State::Walk);
        let mut transitions: Vec<Transition> = Vec::new();
        transitions.push(Transition::IdleToWalk);
        transitions.push(Transition::WalkToIdle);
        proof {
            assert(states@ =~= Self::states_spec());
            assert(transitions@ =~= Self::transitions_spec());
            assert(states@[0] == State::Idle);
            assert(states@[1] == State::Walk);
        }
        AnimationMachine { layout: Layout { states, transitions, entry_state: State::Idle } }
    }

    /// How each rule of the machine is set for an input.
    pub fn update(&self, input: AnimationMachineInput) -> (settings: Vec<RuleSetting>)
        ensures
            settings@ == Self::settings_spec(input),
    {
        let mut settings: Vec<RuleSetting> = Vec::new();
        settings.push(RuleSetting { transition: Transition::WalkToIdle, value: !input.walk });
        settings.push(RuleSetting { transition: Transition::IdleToWalk, value: input.walk });
        proof {
            assert(settings@ =~= Self::settings_spec(input));
        }
        settings
    }
}

/// Of the character's two rules exactly one is set for any input: the one
/// whose transition leads to the state that the input asks for.
pub proof fn character_machine_heads_for_wanted(input: AnimationMachineInput, i: int)
    requires
        0 <= i < AnimationMachine::settings_spec(input).len(),
    ensures
        AnimationMachine::settings_spec(input)[i].value == (AnimationMachine::settings_spec(
            input,
        )[i].transition.target_spec() == AnimationMachine::wanted_spec(input)),
        AnimationMachine::settings_spec(input)[i].value
            ==> AnimationMachine::settings_spec(input)[i].transition.source_spec()
            != AnimationMachine::wanted_spec(input),
{
}

} // verus!
