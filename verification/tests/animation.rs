use tutorial_games::animation::Animation;

fn walk_cycle(frames: Vec<&'static str>, current_frame: u32) -> Animation<&'static str> {
    let mut animation = Animation::new();
    animation.keyframes = frames;
    animation.current_frame = current_frame;
    animation
}

#[test]
fn new_animation_is_unnamed_and_empty() {
    let animation: Animation<u8> = Animation::new();
    assert_eq!(animation.name, "Unnamed");
    assert!(animation.keyframes.is_empty());
    assert_eq!(animation.current_frame, 0);
    assert!(animation.current_frame().is_none());
}

#[test]
fn current_frame_is_the_frame_at_the_current_place() {
    let animation = walk_cycle(vec!["a", "b", "c"], 1);
    assert_eq!(animation.current_frame(), Some(&"b"));
}

#[test]
fn current_frame_beyond_the_frames_is_none() {
    let animation = walk_cycle(vec!["a", "b", "c"], 3);
    assert_eq!(animation.current_frame(), None);
}

#[test]
fn update_steps_to_the_next_frame() {
    let mut animation = walk_cycle(vec!["a", "b", "c"], 0);
    animation.update(true);
    assert_eq!(animation.current_frame, 1);
    assert_eq!(animation.current_frame(), Some(&"b"));
}

#[test]
fn update_wraps_round_after_the_last_frame() {
    let mut animation = walk_cycle(vec!["a", "b", "c"], 2);
    animation.update(true);
    assert_eq!(animation.current_frame, 0);
}

#[test]
fn update_brings_a_stray_place_back_among_the_frames() {
    let mut animation = walk_cycle(vec!["a", "b", "c"], 7);
    animation.update(true);
    assert_eq!(animation.current_frame, 2);
}

#[test]
fn update_within_a_cycle_changes_nothing() {
    let mut animation = walk_cycle(vec!["a", "b"], 1);
    animation.update(false);
    assert_eq!(animation.current_frame, 1);
    assert_eq!(animation.keyframes, vec!["a", "b"]);
    assert_eq!(animation.name, "Unnamed");
}

#[test]
fn update_within_a_cycle_needs_no_frames() {
    let mut animation: Animation<u8> = Animation::new();
    animation.update(false);
    assert_eq!(animation.current_frame, 0);
}

#[test]
fn single_frame_animation_stays_on_its_frame() {
    let mut animation = walk_cycle(vec!["only"], 0);
    animation.update(true);
    assert_eq!(animation.current_frame, 0);
}
