//! The pursuing bot: when it starts to follow its target, when it turns
//! and advances, and what it tells its animation machine.

use vstd::prelude::*;
use crate::machine::{Layout, RuleSetting, State, Transition};

verus! {

/// How the distance to the target compares with the bot's reach.
#[derive(Clone, Copy, Debug, PartialEq, Eq, Structural)]
pub enum Reach {
    /// The target is closer than the bot's reach.
    Within,
    /// The target is neither closer nor farther than the bot's reach.
    Edge,
    /// The target is farther than the bot's reach.
    Beyond,
}

/// What a bot knows of the distance to its target in one frame.
#[derive(Clone, Copy, Debug, PartialEq, Eq, Structural)]
pub struct Sighting {
    /// The distance is other than zero.
    pub apart: bool,
    /// The distance is less than the bot's range of sight.
    pub near: bool,
    /// The distance against the bot's reach.
    pub reach: Reach,
}

/// What the bot's animation machine is told each frame.
#[derive(Clone, Copy, Debug, PartialEq, Eq, Structural)]
pub struct BotAnimationMachineInput {
    /// Whether the bot is walking.
    pub walk: bool,
    /// Whether the bot is attacking.
    pub attack: bool,
}

/// What a bot does in one frame.
#[derive(Clone, Copy, Debug, PartialEq, Eq, Structural)]
pub struct BotStep {
    /// The bot turns to face its target.
    pub face_target: bool,
    /// The bot moves towards its target.
    pub advance: bool,
    /// What the animation machine is told.
    pub input: BotAnimationMachineInput,
}

/// A bot that follows its target along a straight line once it has come
/// near, and attacks it when in reach.
#[derive(Clone, Copy, Debug, PartialEq, Eq, Structural)]
pub struct Bot {
    /// Whether the bot has noticed its target. A bot never forgets it.
    pub follow_target: bool,
}

impl Bot {
    /// Whether a bot that followed its target or not before a sighting
    /// follows it afterwards.
    pub open spec fn follows_after(followed: bool, sighting: Sighting) -> bool {
        followed || (sighting.apart && sighting.near)
    }

    /// What a bot does on a sighting, given whether it follows its target
    /// once the sighting is taken in.
    pub open spec fn step_spec(follows: bool, sighting: Sighting) -> BotStep {
        BotStep {
            face_target: follows && sighting.apart,
            advance: follows && sighting.apart && sighting.reach == Reach::Beyond,
            input: BotAnimationMachineInput {
                walk: follows && sighting.reach == Reach::Beyond,
                attack: sighting.reach == Reach::Within,
            },
        }
    }

    /// A bot that has not noticed its target yet.
    pub fn new() -> (bot: Bot)
        ensures
            !bot.follow_target,
    {
        Bot { follow_target: false }
    }

    /// Takes in one sighting of the target and decides the frame.
    ///
    /// The bot never walks and attacks at once, advances only while its
    /// animation walks, and keeps following once it has begun.
    pub fn update(&mut self, sighting: Sighting) -> (step: BotStep)
        ensures
            final(self).follow_target == Self::follows_after(old(self).follow_target, sighting),
            step == Self::step_spec(final(self).follow_target, sighting),
            old(self).follow_target ==> final(self).follow_target,
            !(step.input.walk && step.input.attack),
            step.advance ==> step.face_target && step.input.walk,
    {
        if sighting.apart && sighting.near {
            self.follow_target = true;
        }
        let beyond = match sighting.reach {
            Reach::Beyond => true,
            _ => false,
        };
        let within = match sighting.reach {
            Reach::Within => true,
            _ => false,
        };
        let face_target = self.follow_target && sighting.apart;
        BotStep {
            face_target,
            advance: face_target && beyond,
            input: BotAnimationMachineInput { walk: self.follow_target && beyond, attack: within },
        }
    }
}

/// The bot's animation machine: three clips and a transition between each
/// two of them.
#[derive(Debug)]
pub struct BotAnimationMachine {
    pub layout: Layout,
}

impl BotAnimationMachine {
    /// The states of the machine, in the order they are added.
    pub open spec fn states_spec() -> Seq<State> {
        seq![State::Idle, State::Walk, State::Attack]
    }

    /// The transitions of the machine, in the order they are added.
    pub open spec fn transitions_spec() -> Seq<Transition> {
        seq![
            Transition::IdleToWalk,
            Transition::WalkToIdle,
            Transition::WalkToAttack,
            Transition::IdleToAttack,
            Transition::AttackToIdle,
            Transition::AttackToWalk,
        ]
    }

    /// Whether a transition is open under an input.
    pub open spec fn open_spec(input: BotAnimationMachineInput, transition: Transition) -> bool {
        match transition {
            Transition::WalkToIdle => !input.walk,
            Transition::IdleToWalk => input.walk,
            Transition::WalkToAttack => input.attack,
            Transition::IdleToAttack => input.attack,
            Transition::AttackToIdle => !input.attack,
            Transition::AttackToWalk => !input.attack,
        }
    }

    /// The rules as they are set for an input, in the order they are set.
    pub open spec fn settings_spec(input: BotAnimationMachineInput) -> Seq<RuleSetting> {
        seq![
            RuleSetting { transition: Transition::WalkToIdle, value: !input.walk },
            RuleSetting { transition: Transition::IdleToWalk, value: input.walk },
            RuleSetting { transition: Transition::WalkToAttack, value: input.attack },
            RuleSetting { transition: Transition::IdleToAttack, value: input.attack },
            RuleSetting { transition: Transition::AttackToIdle, value: !input.attack },
            RuleSetting { transition: Transition::AttackToWalk, value: !input.attack },
        ]
    }

    /// The state that an input asks for.
    pub open spec fn wanted_spec(input: BotAnimationMachineInput) -> State {
        if input.attack {
            State::Attack
        } else if input.walk {
            State::Walk
        } else {
            State::Idle
        }
    }

    /// The machine as it is built: it starts idle.
    pub fn new() -> (machine: BotAnimationMachine)
        ensures
            machine.layout.states@ == Self::states_spec(),
            machine.layout.transitions@ == Self::transitions_spec(),
            machine.layout.entry_state == State::Idle,
            machine.layout.wf(),
    {
        let mut states: Vec<State> = Vec::new();
        states.push(State::Idle);
        states.push(State::Walk);
        states.push(State::Attack);
        let mut transitions: Vec<Transition> = Vec::new();
        transitions.push(Transition::IdleToWalk);
        transitions.push(Transition::WalkToIdle);
        transitions.push(Transition::WalkToAttack);
        transitions.push(Transition::IdleToAttack);
        transitions.push(Transition::AttackToIdle);
        transitions.push(Transition::AttackToWalk);
        proof {
            assert(states@ =~= Self::states_spec());
            assert(transitions@ =~= Self::transitions_spec());
            assert(states@[0] == State::Idle);
            assert(states@[1] == State::Walk);
            assert(states@[2] == State::Attack);
        }
        BotAnimationMachine { layout: Layout { states, transitions, entry_state: State::Idle } }
    }

    /// How each rule of the machine is set for an input.
    pub fn update(&self, input: BotAnimationMachineInput) -> (settings: Vec<RuleSetting>)
        ensures
            settings@ == Self::settings_spec(input),
    {
        let mut settings: Vec<RuleSetting> = Vec::new();
        settings.push(RuleSetting { transition: Transition::WalkToIdle, value: !input.walk });
        settings.push(RuleSetting { transition: Transition::IdleToWalk, value: input.walk });
        settings.push(RuleSetting { transition: Transition::WalkToAttack, value: input.attack });
        settings.push(RuleSetting { transition: Transition::IdleToAttack, value: input.attack });
        settings.push(RuleSetting { transition: Transition::AttackToIdle, value: !input.attack });
        settings.push(RuleSetting { transition: Transition::AttackToWalk, value: !input.attack });
        proof {
            assert(settings@ =~= Self::settings_spec(input));
        }
        settings
    }
}

/// Every rule of the bot's machine is set once for an input, to the value
/// that says whether its transition is open.
pub proof fn bot_settings_cover_transitions(input: BotAnimationMachineInput, transition: Transition)
    ensures
        exists|i: int|
            0 <= i < BotAnimationMachine::settings_spec(input).len()
                && #[trigger] BotAnimationMachine::settings_spec(input)[i] == (RuleSetting {
                transition,
                value: BotAnimationMachine::open_spec(input, transition),
            }),
        forall|i: int, j: int|
            0 <= i < j < BotAnimationMachine::settings_spec(input).len()
                ==> BotAnimationMachine::settings_spec(input)[i].transition
                != BotAnimationMachine::settings_spec(input)[j].transition,
{
    let settings = BotAnimationMachine::settings_spec(input);
    let i: int = match transition {
        Transition::WalkToIdle => 0,
        Transition::IdleToWalk => 1,
        Transition::WalkToAttack => 2,
        Transition::IdleToAttack => 3,
        Transition::AttackToIdle => 4,
        Transition::AttackToWalk => 5,
    };
    assert(settings[i] == (RuleSetting {
        transition,
        value: BotAnimationMachine::open_spec(input, transition),
    }));
}

/// While the bot's machine is in the state that the input asks for, no
/// transition out of that state is open.
pub proof fn bot_machine_rests(input: BotAnimationMachineInput, transition: Transition)
    requires
        transition.source_spec() == BotAnimationMachine::wanted_spec(input),
    ensures
        !BotAnimationMachine::open_spec(input, transition),
{
}

/// While the bot's machine is in another state than the input asks for,
/// some transition out of that state is open.
pub proof fn bot_machine_moves(input: BotAnimationMachineInput, state: State) -> (transition:
    Transition)
    requires
        state != BotAnimationMachine::wanted_spec(input),
    ensures
        transition.source_spec() == state,
        BotAnimationMachine::open_spec(input, transition),
{
    match state {
        State::Idle => if input.attack {
            Transition::IdleToAttack
        } else {
            Transition::IdleToWalk
        },
        State::Walk => if input.attack {
            Transition::WalkToAttack
        } else {
            Transition::WalkToIdle
        },
        State::Attack => Transition::AttackToIdle,
    }
}

} // verus!
