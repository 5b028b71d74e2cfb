use project_z::player::animations::{
    animation_state_for, playback_for, AnimationDirective, AnimationPlayback, ControllerAction, JumpPhase,
    PlayerAnimationSet, PlayerAnimationState, PlayerAnimations, WalkBasisState,
};
use project_z::player::input::{
    default_map, jump_command, movement_intent, AxisDirection, InputBinding, Key, LeftStick, MovementIntent,
    PlayerAction, PressedActions, JUMP_HEIGHT,
};

fn none_pressed() -> PressedActions {
    PressedActions { up: false, down: false, left: false, right: false, jump: false, run: false }
}

fn basis(standing: bool, above_still_speed: bool, above_walk_speed: bool) -> Option<WalkBasisState> {
    Some(WalkBasisState { standing, above_still_speed, above_walk_speed })
}

#[test]
fn state_names_and_variants() {
    let names: Vec<&str> = PlayerAnimationState::variants().iter().map(|s| s.name()).collect();
    assert_eq!(names, vec!["Idle", "Walking", "FastRunning", "Jumping"]);
    assert_eq!(PlayerAnimationState::FastRunning.to_string(), "FastRunning");
}

#[test]
fn names_parse_back_to_their_state() {
    for state in PlayerAnimationState::variants() {
        assert_eq!(PlayerAnimationState::from_name(state.name()), Some(state));
    }
    assert_eq!(PlayerAnimationState::from_name("idle"), None);
    assert_eq!(PlayerAnimationState::from_name("Running"), None);
    assert_eq!(PlayerAnimationState::from_name(""), None);
    assert_eq!(PlayerAnimationState::from_name("Jumping "), None);
}

#[test]
fn animation_nodes_stay_in_sync() {
    let mut animations = PlayerAnimations::default();
    for state in PlayerAnimationState::variants() {
        assert_eq!(animations.node(state), 0);
    }
    for (i, state) in PlayerAnimationState::variants().into_iter().enumerate() {
        animations.set_node(state, i as u32 + 1);
    }
    assert_eq!(animations.node(PlayerAnimationState::Idle), 1);
    assert_eq!(animations.node(PlayerAnimationState::Walking), 2);
    assert_eq!(animations.node(PlayerAnimationState::FastRunning), 3);
    assert_eq!(animations.node(PlayerAnimationState::Jumping), 4);
    animations.set_node(PlayerAnimationState::Walking, 9);
    assert_eq!(animations.node(PlayerAnimationState::Walking), 9);
    assert_eq!(animations.node(PlayerAnimationState::Idle), 1);
    assert_eq!(animations.node(PlayerAnimationState::Jumping), 4);
    assert_eq!(PlayerAnimationSet::default(), PlayerAnimationSet::Setup);
}

#[test]
fn jumps_animate_as_jumping_unless_no_jump() {
    assert_eq!(animation_state_for(ControllerAction::Jump(JumpPhase::NoJump), basis(true, false, false)), None);
    for phase in [
        JumpPhase::StartingJump,
        JumpPhase::SlowDownTooFastSlopeJump,
        JumpPhase::MaintainingJump,
        JumpPhase::StoppedMaintainingJump,
        JumpPhase::FallSection,
    ] {
        assert_eq!(animation_state_for(ControllerAction::Jump(phase), None), Some(PlayerAnimationState::Jumping));
    }
}

#[test]
fn walk_basis_decides_without_action() {
    let act = ControllerAction::NoAction;
    assert_eq!(animation_state_for(act, None), None);
    assert_eq!(animation_state_for(act, basis(false, true, true)), Some(PlayerAnimationState::Jumping));
    assert_eq!(animation_state_for(act, basis(true, false, false)), Some(PlayerAnimationState::Idle));
    assert_eq!(animation_state_for(act, basis(true, true, false)), Some(PlayerAnimationState::Walking));
    assert_eq!(animation_state_for(act, basis(true, true, true)), Some(PlayerAnimationState::FastRunning));
}

#[test]
fn playback_of_each_state() {
    let mut animations = PlayerAnimations::default();
    animations.set_node(PlayerAnimationState::Idle, 1);
    animations.set_node(PlayerAnimationState::Walking, 2);
    animations.set_node(PlayerAnimationState::FastRunning, 3);
    animations.set_node(PlayerAnimationState::Jumping, 4);
    let alter = |state| AnimationDirective::Alter { old_state: None, state };
    assert_eq!(
        playback_for(alter(PlayerAnimationState::Idle), &animations),
        Some(AnimationPlayback { node: 1, transition_ms: 200, normal_speed: true, repeat: true })
    );
    assert_eq!(
        playback_for(alter(PlayerAnimationState::Walking), &animations),
        Some(AnimationPlayback { node: 2, transition_ms: 200, normal_speed: true, repeat: true })
    );
    assert_eq!(
        playback_for(alter(PlayerAnimationState::FastRunning), &animations),
        Some(AnimationPlayback { node: 3, transition_ms: 250, normal_speed: false, repeat: true })
    );
    assert_eq!(
        playback_for(
            AnimationDirective::Alter { old_state: Some(PlayerAnimationState::Idle), state: PlayerAnimationState::Jumping },
            &animations
        ),
        Some(AnimationPlayback { node: 4, transition_ms: 0, normal_speed: true, repeat: false })
    );
    assert_eq!(
        playback_for(AnimationDirective::Maintain { state: PlayerAnimationState::FastRunning }, &animations),
        None
    );
}

#[test]
fn action_directions_and_speeds() {
    assert_eq!(PlayerAction::Up.direction_3d(), Some(AxisDirection { x: 0, y: 0, z: -1 }));
    assert_eq!(PlayerAction::Down.direction_3d(), Some(AxisDirection { x: 0, y: 0, z: 1 }));
    assert_eq!(PlayerAction::Left.direction_3d(), Some(AxisDirection { x: -1, y: 0, z: 0 }));
    assert_eq!(PlayerAction::Right.direction_3d(), Some(AxisDirection { x: 1, y: 0, z: 0 }));
    assert_eq!(PlayerAction::Jump.direction_3d(), Some(AxisDirection { x: 0, y: 1, z: 0 }));
    assert_eq!(PlayerAction::Run.direction_3d(), None);
    assert_eq!(PlayerAction::Run.speed(), 12);
    assert_eq!(PlayerAction::Up.speed(), 8);
    assert_eq!(PlayerAction::RUN_SPEED, PlayerAction::WALK_SPEED * 3 / 2);
    assert_eq!(
        PlayerAction::directions(),
        [PlayerAction::Up, PlayerAction::Down, PlayerAction::Left, PlayerAction::Right]
    );
}

#[test]
fn default_bindings() {
    let map = default_map();
    assert_eq!(map.len(), 10);
    assert_eq!(map[0], (PlayerAction::Up, InputBinding::Key(Key::KeyW)));
    assert_eq!(map[1], (PlayerAction::Up, InputBinding::LeftStick(LeftStick::Up)));
    assert_eq!(map[4], (PlayerAction::Left, InputBinding::Key(Key::KeyA)));
    assert_eq!(map[7], (PlayerAction::Right, InputBinding::LeftStick(LeftStick::Right)));
    assert_eq!(map[8], (PlayerAction::Jump, InputBinding::Key(Key::Space)));
    assert_eq!(map[9], (PlayerAction::Run, InputBinding::Key(Key::ShiftLeft)));
    for action in [
        PlayerAction::Up,
        PlayerAction::Down,
        PlayerAction::Left,
        PlayerAction::Right,
        PlayerAction::Jump,
        PlayerAction::Run,
    ] {
        assert!(map.iter().any(|(a, _)| *a == action));
    }
}

#[test]
fn movement_sums_held_directions() {
    let mut pressed = none_pressed();
    assert_eq!(movement_intent(&pressed, PlayerAction::WALK_SPEED), MovementIntent { x: 0, y: 0, z: 0, speed: 8 });
    pressed.up = true;
    pressed.right = true;
    assert_eq!(movement_intent(&pressed, PlayerAction::WALK_SPEED), MovementIntent { x: 1, y: 0, z: -1, speed: 8 });
    pressed.down = true;
    pressed.left = true;
    assert_eq!(movement_intent(&pressed, PlayerAction::WALK_SPEED), MovementIntent { x: 0, y: 0, z: 0, speed: 8 });
    pressed.jump = true;
    assert_eq!(movement_intent(&pressed, PlayerAction::WALK_SPEED).y, 0);
}

#[test]
fn running_switches_to_run_speed() {
    let mut pressed = none_pressed();
    pressed.run = true;
    pressed.left = true;
    assert_eq!(movement_intent(&pressed, PlayerAction::WALK_SPEED), MovementIntent { x: -1, y: 0, z: 0, speed: 12 });
    let idle = none_pressed();
    assert_eq!(movement_intent(&idle, PlayerAction::RUN_SPEED).speed, PlayerAction::RUN_SPEED);
    assert!(idle.pressed(PlayerAction::Jump) == false && pressed.pressed(PlayerAction::Run));
}

#[test]
fn jump_only_when_just_pressed() {
    assert_eq!(jump_command(true), Some(7));
    assert_eq!(JUMP_HEIGHT, 7);
    assert_eq!(jump_command(false), None);
}
