//! Input handling for the player: the actions, the keys and sticks bound to them, and what
//! the pressed actions ask of the character's controller.

use vstd::prelude::*;

verus! {

/// The actions the player can take.
#[derive(Debug, Clone, Copy, PartialEq, Eq, Structural, Hash)]
pub enum PlayerAction {
    Up,
    Down,
    Left,
    Right,
    Jump,
    Run,
}

/// A unit direction along one of the world's axes, as signed components.
#[derive(Debug, Clone, Copy, PartialEq, Eq, Structural)]
pub struct AxisDirection {
    pub x: i8,
    pub y: i8,
    pub z: i8,
}

/// The direction an action points to: forward (up) is towards `-z`, down towards `+z`,
/// left towards `-x`, right towards `+x` and jumping towards `+y`; running has none.
pub open spec fn spec_direction_3d(action: PlayerAction) -> Option<AxisDirection> {
    match action {
        PlayerAction::Up => Some(AxisDirection { x: 0, y: 0, z: -1i8 }),
        PlayerAction::Down => Some(AxisDirection { x: 0, y: 0, z: 1 }),
        PlayerAction::Left => Some(AxisDirection { x: -1i8, y: 0, z: 0 }),
        PlayerAction::Right => Some(AxisDirection { x: 1, y: 0, z: 0 }),
        PlayerAction::Jump => Some(AxisDirection { x: 0, y: 1, z: 0 }),
        PlayerAction::Run => None,
    }
}

/// The movement actions, in the order they are read.
pub open spec fn spec_directions() -> Seq<PlayerAction> {
    seq![PlayerAction::Up, PlayerAction::Down, PlayerAction::Left, PlayerAction::Right]
}

impl PlayerAction {
    /// The speed of the player when walking, in metres per second.
    pub const WALK_SPEED: u32 = 8;

    /// The speed of the player when running, in metres per second: one and a half times the
    /// walking speed.
    pub const RUN_SPEED: u32 = Self::WALK_SPEED * 3 / 2;

    /// The movement actions, in the order they are read.
    pub fn directions() -> (all: [PlayerAction; 4])
        ensures
            all@ == spec_directions(),
    {
        let all = [PlayerAction::Up, PlayerAction::Down, PlayerAction::Left, PlayerAction::Right];
        assert(all@ =~= spec_directions());
        all
    }

    /// The direction the action points to, if any.
    pub fn direction_3d(self) -> (dir: Option<AxisDirection>)
        ensures
            dir == spec_direction_3d(self),
    {
        match self {
            PlayerAction::Up => Some(AxisDirection { x: 0, y: 0, z: -1 }),
            PlayerAction::Down => Some(AxisDirection { x: 0, y: 0, z: 1 }),
            PlayerAction::Left => Some(AxisDirection { x: -1, y: 0, z: 0 }),
            PlayerAction::Right => Some(AxisDirection { x: 1, y: 0, z: 0 }),
            PlayerAction::Jump => Some(AxisDirection { x: 0, y: 1, z: 0 }),
            _ => None,
        }
    }

    /// Returns the speed of the player based on the action
    pub fn speed(self) -> (speed: u32)
        ensures
            speed == (if self == PlayerAction::Run { Self::RUN_SPEED } else { Self::WALK_SPEED }),
    {
        match self {
            PlayerAction::Run => Self::RUN_SPEED,
            _ => Self::WALK_SPEED,
        }
    }
}

/// A keyboard key the player's actions are bound to.
#[derive(Debug, Clone, Copy, PartialEq, Eq, Structural, Hash)]
pub enum Key {
    KeyW,
    KeyA,
    KeyS,
    KeyD,
    Space,
    ShiftLeft,
}

/// A direction of the gamepad's left stick.
#[derive(Debug, Clone, Copy, PartialEq, Eq, Structural, Hash)]
pub enum LeftStick {
    Up,
    Down,
    Left,
    Right,
}

/// An input that triggers an action.
#[derive(Debug, Clone, Copy, PartialEq, Eq, Structural, Hash)]
pub enum InputBinding {
    /// A keyboard key.
    Key(Key),
    /// A direction of the gamepad's left stick.
    LeftStick(LeftStick),
}

/// The default bindings, in the order they are added to the player's input map: `W`/`S`/
/// `A`/`D` and the left stick move, `Space` jumps and left `Shift` runs.
pub open spec fn spec_default_map() -> Seq<(PlayerAction, InputBinding)> {
    seq![
        (PlayerAction::Up, InputBinding::Key(Key::KeyW)),
        (PlayerAction::Up, InputBinding::LeftStick(LeftStick::Up)),
        (PlayerAction::Down, InputBinding::Key(Key::KeyS)),
        (PlayerAction::Down, InputBinding::LeftStick(LeftStick::Down)),
        (PlayerAction::Left, InputBinding::Key(Key::KeyA)),
        (PlayerAction::Left, InputBinding::LeftStick(LeftStick::Left)),
        (PlayerAction::Right, InputBinding::Key(Key::KeyD)),
        (PlayerAction::Right, InputBinding::LeftStick(LeftStick::Right)),
        (PlayerAction::Jump, InputBinding::Key(Key::Space)),
        (PlayerAction::Run, InputBinding::Key(Key::ShiftLeft)),
    ]
}

/// The action an input stands for: `W` and the stick up move up, `S` and the stick down move
/// down, `A` and the stick left move left, `D` and the stick right move right, `Space` jumps and
/// left `Shift` runs.
pub open spec fn intended_action(binding: InputBinding) -> PlayerAction {
    match binding {
        InputBinding::Key(Key::KeyW) => PlayerAction::Up,
        InputBinding::Key(Key::KeyS) => PlayerAction::Down,
        InputBinding::Key(Key::KeyA) => PlayerAction::Left,
        InputBinding::Key(Key::KeyD) => PlayerAction::Right,
        InputBinding::Key(Key::Space) => PlayerAction::Jump,
        InputBinding::Key(Key::ShiftLeft) => PlayerAction::Run,
        InputBinding::LeftStick(LeftStick::Up) => PlayerAction::Up,
        InputBinding::LeftStick(LeftStick::Down) => PlayerAction::Down,
        InputBinding::LeftStick(LeftStick::Left) => PlayerAction::Left,
        InputBinding::LeftStick(LeftStick::Right) => PlayerAction::Right,
    }
}

/// `binding` is among the bindings of `map`.
pub open spec fn is_bound(map: Seq<(PlayerAction, InputBinding)>, binding: InputBinding) -> bool {
    exists|i: int| 0 <= i < map.len() && (#[trigger] map[i]).1 == binding
}

/// Every input the game knows is bound, each to exactly one action: the one it stands for.
pub open spec fn binds_as_intended(map: Seq<(PlayerAction, InputBinding)>) -> bool {
    &&& forall|i: int| 0 <= i < map.len() ==> (#[trigger] map[i]).0 == intended_action(map[i].1)
    &&& forall|i: int, j: int| 0 <= i < j < map.len() ==> (#[trigger] map[i]).1 != (#[trigger] map[j]).1
    &&& forall|b: InputBinding| #[trigger] is_bound(map, b)
}

/// The default bindings bind every key and stick direction, each to the action it stands for
/// and to no other.
pub proof fn default_bindings_match_their_inputs()
    ensures
        binds_as_intended(spec_default_map()),
{
    let m = spec_default_map();
    assert forall|b: InputBinding| #[trigger] is_bound(m, b) by {
        match b {
            InputBinding::Key(Key::KeyW) => assert(m[0].1 == b),
            InputBinding::LeftStick(LeftStick::Up) => assert(m[1].1 == b),
            InputBinding::Key(Key::KeyS) => assert(m[2].1 == b),
            InputBinding::LeftStick(LeftStick::Down) => assert(m[3].1 == b),
            InputBinding::Key(Key::KeyA) => assert(m[4].1 == b),
            InputBinding::LeftStick(LeftStick::Left) => assert(m[5].1 == b),
            InputBinding::Key(Key::KeyD) => assert(m[6].1 == b),
            InputBinding::LeftStick(LeftStick::Right) => assert(m[7].1 == b),
            InputBinding::Key(Key::Space) => assert(m[8].1 == b),
            InputBinding::Key(Key::ShiftLeft) => assert(m[9].1 == b),
        }
    }
}

/// Default input map for the player, as the list of its bindings in insertion order.
pub fn default_map() -> (map: Vec<(PlayerAction, InputBinding)>)
    ensures
        map@ == spec_default_map(),
        binds_as_intended(map@),
{
    proof {
        default_bindings_match_their_inputs();
    }
    let mut map: Vec<(PlayerAction, InputBinding)> = Vec::new();
    map.push((PlayerAction::Up, InputBinding::Key(Key::KeyW)));
    map.push((PlayerAction::Up, InputBinding::LeftStick(LeftStick::Up)));
    map.push((PlayerAction::Down, InputBinding::Key(Key::KeyS)));
    map.push((PlayerAction::Down, InputBinding::LeftStick(LeftStick::Down)));
    map.push((PlayerAction::Left, InputBinding::Key(Key::KeyA)));
    map.push((PlayerAction::Left, InputBinding::LeftStick(LeftStick::Left)));
    map.push((PlayerAction::Right, InputBinding::Key(Key::KeyD)));
    map.push((PlayerAction::Right, InputBinding::LeftStick(LeftStick::Right)));
    map.push((PlayerAction::Jump, InputBinding::Key(Key::Space)));
    map.push((PlayerAction::Run, InputBinding::Key(Key::ShiftLeft)));
    assert(map@ =~= spec_default_map());
    map
}

/// Every action of the player is bound in the default map, and each movement action is
/// bound to exactly one key and one stick direction.
pub proof fn default_map_binds_every_action(action: PlayerAction)
    ensures
        exists|i: int| 0 <= i < spec_default_map().len() && (#[trigger] spec_default_map()[i]).0 == action,
        spec_directions().contains(action) ==> {
            &&& exists|i: int| 0 <= i < spec_default_map().len()
                && (#[trigger] spec_default_map()[i]).0 == action && spec_default_map()[i].1 is Key
            &&& exists|i: int| 0 <= i < spec_default_map().len()
                && (#[trigger] spec_default_map()[i]).0 == action && spec_default_map()[i].1 is LeftStick
        },
{
    let m = spec_default_map();
    match action {
        PlayerAction::Up => { assert(m[0].0 == action && m[1].0 == action); },
        PlayerAction::Down => { assert(m[2].0 == action && m[3].0 == action); },
        PlayerAction::Left => { assert(m[4].0 == action && m[5].0 == action); },
        PlayerAction::Right => { assert(m[6].0 == action && m[7].0 == action); },
        PlayerAction::Jump => { assert(m[8].0 == action); },
        PlayerAction::Run => { assert(m[9].0 == action); },
    }
}

/// Which of the player's actions are held down this frame.
#[derive(Debug, Clone, Copy, PartialEq, Eq, Structural)]
pub struct PressedActions {
    pub up: bool,
    pub down: bool,
    pub left: bool,
    pub right: bool,
    pub jump: bool,
    pub run: bool,
}

impl PressedActions {
    /// Whether `action` is held down.
    pub open spec fn spec_pressed(self, action: PlayerAction) -> bool {
        match action {
            PlayerAction::Up => self.up,
            PlayerAction::Down => self.down,
            PlayerAction::Left => self.left,
            PlayerAction::Right => self.right,
            PlayerAction::Jump => self.jump,
            PlayerAction::Run => self.run,
        }
    }

    /// Whether `action` is held down.
    pub fn pressed(&self, action: PlayerAction) -> (held: bool)
        ensures
            held == self.spec_pressed(action),
    {
        match action {
            PlayerAction::Up => self.up,
            PlayerAction::Down => self.down,
            PlayerAction::Left => self.left,
            PlayerAction::Right => self.right,
            PlayerAction::Jump => self.jump,
            PlayerAction::Run => self.run,
        }
    }
}

/// What one player's held actions add to the frame's movement: the sum of the directions
/// of the held movement actions (before it is normalised), and the speed to move at.
#[derive(Debug, Clone, Copy, PartialEq, Eq, Structural)]
pub struct MovementIntent {
    pub x: i8,
    pub y: i8,
    pub z: i8,
    pub speed: u32,
}

/// 1 when `b` holds, else 0.
pub open spec fn indicator(b: bool) -> int {
    if b { 1 } else { 0 }
}

/// Reads one player's held actions: each held movement action adds its direction, and
/// holding `Run` switches the speed to the running speed; otherwise the speed stays
/// `speed` (the speed the frame's previous player left, the walking speed at first).
pub fn movement_intent(pressed: &PressedActions, speed: u32) -> (intent: MovementIntent)
    ensures
        intent.x == indicator(pressed.right) - indicator(pressed.left),
        intent.y == 0,
        intent.z == indicator(pressed.down) - indicator(pressed.up),
        intent.speed == (if pressed.run { PlayerAction::RUN_SPEED } else { speed }),
{
    let mut x: i8 = 0;
    let mut y: i8 = 0;
    let mut z: i8 = 0;
    let mut cur_speed: u32 = speed;
    let directions = PlayerAction::directions();
    let mut k: usize = 0;
    while k < 4
        invariant
            k <= 4,
            directions@ == spec_directions(),
            x == (if k > 2 { indicator(pressed.left) * -1 } else { 0 }) + (if k > 3 { indicator(pressed.right) } else { 0 }),
            z == (if k > 0 { -indicator(pressed.up) } else { 0 }) + (if k > 1 { indicator(pressed.down) } else { 0 }),
            y == 0,
            cur_speed == (if k > 0 && pressed.run { PlayerAction::RUN_SPEED } else { speed }),
        decreases 4 - k,
    {
        let input_direction = directions[k];
        if pressed.pressed(input_direction) {
            if let Some(dir) = input_direction.direction_3d() {
                x = x + dir.x;
                y = y + dir.y;
                z = z + dir.z;
            }
        }
        if pressed.pressed(PlayerAction::Run) {
            cur_speed = PlayerAction::Run.speed();
        }
        k += 1;
    }
    MovementIntent { x, y, z, speed: cur_speed }
}

/// The height of the player's jump, in metres.
pub const JUMP_HEIGHT: u32 = 7;

/// The jump to feed the character's controller this frame: a jump of `JUMP_HEIGHT` when
/// the jump action was just pressed, otherwise none.
pub fn jump_command(jump_just_pressed: bool) -> (height: Option<u32>)
    ensures
        height == (if jump_just_pressed { Some(JUMP_HEIGHT) } else { None::<u32> }),
{
    if jump_just_pressed {
        Some(JUMP_HEIGHT)
    } else {
        None
    }
}

} // verus!
