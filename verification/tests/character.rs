use tutorial_games::character::{
    running_rule, AnimationMachine, AnimationMachineInput, InputController, Player,
};
use tutorial_games::input::{Heading, Key};
use tutorial_games::machine::{RuleSetting, State, Transition};

fn holding(keys: &[Key]) -> Player {
    let mut player = Player::new();
    for key in keys {
        player.handle_key_event(*key, true);
    }
    player
}

#[test]
fn new_character_holds_no_key() {
    let player = Player::new();
    assert_eq!(
        player.input_controller,
        InputController {
            walk_forward: false,
            walk_backward: false,
            walk_left: false,
            walk_right: false,
        }
    );
    assert!(!player.is_running());
}

#[test]
fn walking_keys_set_their_flags() {
    let mut player = Player::new();
    player.handle_key_event(Key::W, true);
    assert!(player.input_controller.walk_forward);
    player.handle_key_event(Key::S, true);
    assert!(player.input_controller.walk_backward);
    player.handle_key_event(Key::A, true);
    assert!(player.input_controller.walk_left);
    player.handle_key_event(Key::D, true);
    assert!(player.input_controller.walk_right);
    player.handle_key_event(Key::W, false);
    assert!(!player.input_controller.walk_forward);
    assert!(player.input_controller.walk_backward);
    assert!(player.input_controller.walk_left);
    assert!(player.input_controller.walk_right);
}

#[test]
fn character_ignores_other_keys() {
    let mut player = Player::new();
    player.handle_key_event(Key::Space, true);
    player.handle_key_event(Key::Other, true);
    assert_eq!(player, Player::new());
}

#[test]
fn heading_counts_the_held_keys() {
    assert_eq!(holding(&[]).heading(), Heading { look: 0, side: 0 });
    assert_eq!(holding(&[Key::W]).heading(), Heading { look: 1, side: 0 });
    assert_eq!(holding(&[Key::S]).heading(), Heading { look: -1, side: 0 });
    assert_eq!(holding(&[Key::A]).heading(), Heading { look: 0, side: 1 });
    assert_eq!(holding(&[Key::D]).heading(), Heading { look: 0, side: -1 });
    assert_eq!(holding(&[Key::W, Key::D]).heading(), Heading { look: 1, side: -1 });
    assert_eq!(holding(&[Key::S, Key::A]).heading(), Heading { look: -1, side: 1 });
}

#[test]
fn opposite_keys_cancel_each_other() {
    assert_eq!(holding(&[Key::W, Key::S]).heading(), Heading { look: 0, side: 0 });
    assert_eq!(holding(&[Key::A, Key::D]).heading(), Heading { look: 0, side: 0 });
    assert_eq!(
        holding(&[Key::W, Key::S, Key::A, Key::D]).heading(),
        Heading { look: 0, side: 0 }
    );
}

#[test]
fn model_angle_follows_the_table() {
    assert_eq!(holding(&[]).model_angle(), 0);
    assert_eq!(holding(&[Key::W]).model_angle(), 0);
    assert_eq!(holding(&[Key::S]).model_angle(), 180);
    assert_eq!(holding(&[Key::A]).model_angle(), 90);
    assert_eq!(holding(&[Key::A, Key::W]).model_angle(), 45);
    assert_eq!(holding(&[Key::A, Key::S]).model_angle(), 135);
    assert_eq!(holding(&[Key::D]).model_angle(), -90);
    assert_eq!(holding(&[Key::D, Key::W]).model_angle(), -45);
    assert_eq!(holding(&[Key::D, Key::S]).model_angle(), -135);
}

#[test]
fn model_angle_with_opposite_keys_held() {
    assert_eq!(holding(&[Key::A, Key::D]).model_angle(), 90);
    assert_eq!(holding(&[Key::A, Key::D, Key::S]).model_angle(), 135);
    assert_eq!(holding(&[Key::W, Key::S]).model_angle(), 180);
    assert_eq!(holding(&[Key::A, Key::W, Key::S]).model_angle(), 45);
    assert_eq!(holding(&[Key::D, Key::W, Key::S]).model_angle(), -45);
}

#[test]
fn is_running_while_any_key_is_held() {
    assert!(holding(&[Key::W]).is_running());
    assert!(holding(&[Key::S]).is_running());
    assert!(holding(&[Key::A]).is_running());
    assert!(holding(&[Key::D]).is_running());
    assert!(holding(&[Key::W, Key::S]).is_running());
    assert!(!holding(&[Key::Space]).is_running());
}

#[test]
fn moving_character_turns_its_model_and_walks() {
    let step = holding(&[Key::A, Key::S]).update(true);
    assert_eq!(step.model_angle, Some(135));
    assert_eq!(step.input, AnimationMachineInput { walk: true });
}

#[test]
fn resting_character_keeps_its_turn_and_idles() {
    let step = holding(&[Key::A, Key::S]).update(false);
    assert_eq!(step.model_angle, None);
    assert_eq!(step.input, AnimationMachineInput { walk: false });
}

#[test]
fn running_rule_is_named_running() {
    assert_eq!(running_rule(), "Running");
}

#[test]
fn character_machine_has_two_states_and_starts_idle() {
    let machine = AnimationMachine::new();
    assert_eq!(machine.layout.states, vec![State::Idle, State::Walk]);
    assert_eq!(
        machine.layout.transitions,
        vec![Transition::IdleToWalk, Transition::WalkToIdle]
    );
    assert_eq!(machine.layout.entry_state, State::Idle);
}

#[test]
fn character_machine_opens_the_way_to_walk() {
    let machine = AnimationMachine::new();
    assert_eq!(
        machine.update(AnimationMachineInput { walk: true }),
        vec![
            RuleSetting { transition: Transition::WalkToIdle, value: false },
            RuleSetting { transition: Transition::IdleToWalk, value: true },
        ]
    );
}

#[test]
fn character_machine_opens_the_way_to_idle() {
    let machine = AnimationMachine::new();
    assert_eq!(
        machine.update(AnimationMachineInput { walk: false }),
        vec![
            RuleSetting { transition: Transition::WalkToIdle, value: true },
            RuleSetting { transition: Transition::IdleToWalk, value: false },
        ]
    );
}

#[test]
fn character_machine_sets_only_the_rule_that_leads_to_the_wanted_state() {
    let machine = AnimationMachine::new();
    for (walk, wanted) in [(false, State::Idle), (true, State::Walk)] {
        for setting in machine.update(AnimationMachineInput { walk }) {
            assert_eq!(setting.value, setting.transition.target() == wanted);
            if setting.value {
                assert_ne!(setting.transition.source(), wanted);
            }
        }
    }
}

#[test]
fn character_machine_joins_its_own_states_only() {
    let machine = AnimationMachine::new();
    assert!(machine.layout.states.contains(&machine.layout.entry_state));
    for transition in machine.layout.transitions.iter() {
        assert!(machine.layout.states.contains(&transition.source()));
        assert!(machine.layout.states.contains(&transition.target()));
    }
}
