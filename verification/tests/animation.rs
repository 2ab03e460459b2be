use lane_runner::animation::animation_patcher_system;
use lane_runner::animation::player_animate;
use lane_runner::animation::AnimationState;
use lane_runner::animation::Clip;

const STATES: [AnimationState; 3] =
    [AnimationState::Running, AnimationState::Jumping, AnimationState::Falling];

#[test]
fn on_the_ground_the_player_runs() {
    for before in [AnimationState::Running, AnimationState::Jumping] {
        let mut state = before;
        assert_eq!(player_animate(&mut state, None), Clip::Run);
        assert_eq!(state, AnimationState::Running);
    }
}

#[test]
fn landing_after_a_fall_rolls() {
    let mut state = AnimationState::Falling;
    assert_eq!(player_animate(&mut state, None), Clip::Roll);
    assert_eq!(state, AnimationState::Running);
}

#[test]
fn roll_lasts_one_frame() {
    let mut state = AnimationState::Falling;
    assert_eq!(player_animate(&mut state, None), Clip::Roll);
    assert_eq!(player_animate(&mut state, None), Clip::Run);
    assert_eq!(player_animate(&mut state, None), Clip::Run);
}

#[test]
fn rising_player_jumps() {
    for before in STATES {
        let mut state = before;
        assert_eq!(player_animate(&mut state, Some(true)), Clip::Flip);
        assert_eq!(state, AnimationState::Jumping);
    }
}

#[test]
fn sinking_player_falls() {
    for before in STATES {
        let mut state = before;
        assert_eq!(player_animate(&mut state, Some(false)), Clip::Flip);
        assert_eq!(state, AnimationState::Falling);
    }
}

#[test]
fn a_whole_jump() {
    let mut state = AnimationState::Running;
    let clips: Vec<Clip> = [None, Some(true), Some(true), Some(false), None, None]
        .into_iter()
        .map(|rising| player_animate(&mut state, rising))
        .collect();
    assert_eq!(
        clips,
        vec![Clip::Run, Clip::Flip, Clip::Flip, Clip::Flip, Clip::Roll, Clip::Run]
    );
}

#[test]
fn clip_names() {
    assert_eq!(Clip::Roll.name(), "ROLL");
    assert_eq!(Clip::Run.name(), "RUN");
    assert_eq!(Clip::Flip.name(), "FLIP");
}

#[test]
fn clip_speeds() {
    assert_eq!(Clip::Roll.speed_percent(), 250);
    assert_eq!(Clip::Run.speed_percent(), 200);
    assert_eq!(Clip::Flip.speed_percent(), 250);
}

#[test]
fn only_running_is_blended_in() {
    assert_eq!(Clip::Roll.transition_millis(), None);
    assert_eq!(Clip::Run.transition_millis(), Some(2000));
    assert_eq!(Clip::Flip.transition_millis(), None);
}

#[test]
fn only_running_repeats() {
    assert!(!Clip::Roll.repeats());
    assert!(Clip::Run.repeats());
    assert!(!Clip::Flip.repeats());
}

#[test]
fn patcher_finds_nothing_on_an_empty_way() {
    assert_eq!(animation_patcher_system(&Vec::new()), None);
}

#[test]
fn patcher_finds_nothing_without_a_handler() {
    assert_eq!(animation_patcher_system(&vec![false, false, false]), None);
}

#[test]
fn patcher_finds_the_animation_player_itself() {
    assert_eq!(animation_patcher_system(&vec![true, false, true]), Some(0));
}

#[test]
fn patcher_finds_the_nearest_ancestor() {
    assert_eq!(animation_patcher_system(&vec![false, false, true, true, false]), Some(2));
    assert_eq!(animation_patcher_system(&vec![false, false, false, true]), Some(3));
}
