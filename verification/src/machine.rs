//! What an animation state machine is built from: its states, the
//! transitions between them, and the rule that opens each transition.
//!
//! A transition is taken by the engine while its rule is set. The games
//! decide each frame how every rule is set; blending the clips is the
//! engine's work.

use vstd::prelude::*;

verus! {

/// A state of an animation machine: one clip played in a loop.
#[derive(Clone, Copy, Debug, PartialEq, Eq, Structural)]
pub enum State {
    Idle,
    Walk,
    Attack,
}

impl State {
    /// The name under which the state is added to the machine.
    pub open spec fn name_spec(self) -> Seq<char> {
        match self {
            State::Idle => "Idle"@,
            State::Walk => "Walk"@,
            State::Attack => "Attack"@,
        }
    }

    /// The name under which the state is added to the machine.
    pub fn name(self) -> (name: &'static str)
        ensures
            name@ == self.name_spec(),
    {
        match self {
            State::Idle => "Idle",
            State::Walk => "Walk",
            State::Attack => "Attack",
        }
    }
}

/// A transition between two different states. Each has a rule of its own.
#[derive(Clone, Copy, Debug, PartialEq, Eq, Structural)]
pub enum Transition {
    IdleToWalk,
    WalkToIdle,
    WalkToAttack,
    IdleToAttack,
    AttackToIdle,
    AttackToWalk,
}

impl Transition {
    /// The state that the transition leaves.
    pub open spec fn source_spec(self) -> State {
        match self {
            Transition::IdleToWalk | Transition::IdleToAttack => State::Idle,
            Transition::WalkToIdle | Transition::WalkToAttack => State::Walk,
            Transition::AttackToIdle | Transition::AttackToWalk => State::Attack,
        }
    }

    /// The state that the transition enters.
    pub open spec fn target_spec(self) -> State {
        match self {
            Transition::WalkToIdle | Transition::AttackToIdle => State::Idle,
            Transition::IdleToWalk | Transition::AttackToWalk => State::Walk,
            Transition::WalkToAttack | Transition::IdleToAttack => State::Attack,
        }
    }

    /// The name of the transition, shown when the machine is debugged.
    pub open spec fn name_spec(self) -> Seq<char> {
        match self {
            Transition::IdleToWalk => "Idle->Walk"@,
            Transition::WalkToIdle => "Walk->Idle"@,
            Transition::WalkToAttack => "Walk->Attack"@,
            Transition::IdleToAttack => "Idle->Attack"@,
            Transition::AttackToIdle => "Attack->Idle"@,
            Transition::AttackToWalk => "Attack->Walk"@,
        }
    }

    /// The name of the parameter that holds the transition's rule.
    pub open spec fn rule_spec(self) -> Seq<char> {
        match self {
            Transition::IdleToWalk => "IdleToWalk"@,
            Transition::WalkToIdle => "WalkToIdle"@,
            Transition::WalkToAttack => "WalkToAttack"@,
            Transition::IdleToAttack => "IdleToAttack"@,
            Transition::AttackToIdle => "AttackToIdle"@,
            Transition::AttackToWalk => "AttackToWalk"@,
        }
    }

    /// The state that the transition leaves.
    pub fn source(self) -> (state: State)
        ensures
            state == self.source_spec(),
    {
        match self {
            Transition::IdleToWalk | Transition::IdleToAttack => State::Idle,
            Transition::WalkToIdle | Transition::WalkToAttack => State::Walk,
            Transition::AttackToIdle | Transition::AttackToWalk => State::Attack,
        }
    }

    /// The state that the transition enters.
    pub fn target(self) -> (state: State)
        ensures
            state == self.target_spec(),
    {
        match self {
            Transition::WalkToIdle | Transition::AttackToIdle => State::Idle,
            Transition::IdleToWalk | Transition::AttackToWalk => State::Walk,
            Transition::WalkToAttack | Transition::IdleToAttack => State::Attack,
        }
    }

    /// The name of the transition, shown when the machine is debugged.
    pub fn name(self) -> (name: &'static str)
        ensures
            name@ == self.name_spec(),
    {
        match self {
            Transition::IdleToWalk => "Idle->Walk",
            Transition::WalkToIdle => "Walk->Idle",
            Transition::WalkToAttack => "Walk->Attack",
            Transition::IdleToAttack => "Idle->Attack",
            Transition::AttackToIdle => "Attack->Idle",
            Transition::AttackToWalk => "Attack->Walk",
        }
    }

    /// The name of the parameter that holds the transition's rule.
    pub fn rule(self) -> (name: &'static str)
        ensures
            name@ == self.rule_spec(),
    {
        match self {
            Transition::IdleToWalk => "IdleToWalk",
            Transition::WalkToIdle => "WalkToIdle",
            Transition::WalkToAttack => "WalkToAttack",
            Transition::IdleToAttack => "IdleToAttack",
            Transition::AttackToIdle => "AttackToIdle",
            Transition::AttackToWalk => "AttackToWalk",
        }
    }
}

/// One rule and the value it is set to.
#[derive(Clone, Copy, Debug, PartialEq, Eq, Structural)]
pub struct RuleSetting {
    /// The transition whose rule is set.
    pub transition: Transition,
    /// Whether the transition is open.
    pub value: bool,
}

/// The build of a machine: its states in the order they are added, its
/// transitions in the order they are added, and the state it starts in.
#[derive(Debug)]
pub struct Layout {
    pub states: Vec<State>,
    pub transitions: Vec<Transition>,
    pub entry_state: State,
}

impl Layout {
    /// The machine starts in one of its states, and every transition joins
    /// two of them.
    pub open spec fn wf(&self) -> bool {
        &&& self.states@.contains(self.entry_state)
        &&& forall|i: int|
            0 <= i < self.transitions@.len() ==> {
                &&& self.states@.contains((#[trigger] self.transitions@[i]).source_spec())
                &&& self.states@.contains(self.transitions@[i].target_spec())
            }
    }
}

/// A transition never leads back to the state it leaves.
pub proof fn transition_changes_state(transition: Transition)
    ensures
        transition.source_spec() != transition.target_spec(),
{
}

/// Between two different states there is exactly one transition.
pub proof fn transition_between(source: State, target: State) -> (transition: Transition)
    requires
        source != target,
    ensures
        transition.source_spec() == source,
        transition.target_spec() == target,
        forall|other: Transition|
            other.source_spec() == source && other.target_spec() == target ==> other
                == transition,
{
    match (source, target) {
        (State::Idle, State::Walk) => Transition::IdleToWalk,
        (State::Idle, State::Attack) => Transition::IdleToAttack,
        (State::Walk, State::Idle) => Transition::WalkToIdle,
        (State::Walk, State::Attack) => Transition::WalkToAttack,
        (State::Attack, State::Idle) => Transition::AttackToIdle,
        _ => Transition::AttackToWalk,
    }
}

} // verus!
