//! Player animations: the animation states and their names, where each animation sits in
//! the animation graph, which state the character's controller calls for, and how a change
//! of state is played.

use vstd::prelude::*;

verus! {

/// System Set to encapsulate all player animation systems
#[derive(Debug, Clone, Copy, PartialEq, Eq, Structural, Hash)]
pub enum PlayerAnimationSet {
    /// Setting up the player animations
    Setup,
    /// Updating the player animations
    Update,
}

impl Default for PlayerAnimationSet {
    fn default() -> (set: Self)
        ensures
            set == PlayerAnimationSet::Setup,
    {
        PlayerAnimationSet::Setup
    }
}

/// The current state of the player's animation
// Should be kept in sync with the `PlayerAnimations` resource
#[derive(Debug, Clone, Copy, PartialEq, Eq, Structural, Hash)]
pub enum PlayerAnimationState {
    /// Currently idle, not moving
    Idle,
    /// Walking at a normal pace
    Walking,
    /// Running at a fast pace
    FastRunning,
    /// Jumping in the air or falling
    Jumping,
}

/// The name of a state, which is also the name of its animation clip in the player's model.
pub open spec fn spec_state_name(state: PlayerAnimationState) -> Seq<char> {
    match state {
        PlayerAnimationState::Idle => "Idle"@,
        PlayerAnimationState::Walking => "Walking"@,
        PlayerAnimationState::FastRunning => "FastRunning"@,
        PlayerAnimationState::Jumping => "Jumping"@,
    }
}

/// All the states, in declaration order.
pub open spec fn spec_variants() -> Seq<PlayerAnimationState> {
    seq![
        PlayerAnimationState::Idle,
        PlayerAnimationState::Walking,
        PlayerAnimationState::FastRunning,
        PlayerAnimationState::Jumping,
    ]
}

/// Whether two strings hold the same characters.
fn same_text(a: &str, b: &str) -> (same: bool)
    ensures
        same == (a@ == b@),
{
    let n: usize = a.unicode_len();
    if n != b.unicode_len() {
        return false;
    }
    let mut i: usize = 0;
    while i < n
        invariant
            n == a@.len(),
            n == b@.len(),
            i <= n,
            forall|k: int| 0 <= k < i ==> a@[k] == b@[k],
        decreases n - i,
    {
        if a.get_char(i) != b.get_char(i) {
            return false;
        }
        i += 1;
    }
    assert(a@ =~= b@);
    true
}

impl PlayerAnimationState {
    /// All the states, in declaration order.
    pub fn variants() -> (all: [PlayerAnimationState; 4])
        ensures
            all@ == spec_variants(),
    {
        let all = [
            PlayerAnimationState::Idle,
            PlayerAnimationState::Walking,
            PlayerAnimationState::FastRunning,
            PlayerAnimationState::Jumping,
        ];
        assert(all@ =~= spec_variants());
        all
    }

    /// The name of the state, which is also the name of its animation clip.
    pub fn name(&self) -> (name: &'static str)
        ensures
            name@ == spec_state_name(*self),
    {
        match self {
            PlayerAnimationState::Idle => "Idle",
            PlayerAnimationState::Walking => "Walking",
            PlayerAnimationState::FastRunning => "FastRunning",
            PlayerAnimationState::Jumping => "Jumping",
        }
    }

    /// The name of the state, as an owned string.
    pub fn to_string(&self) -> (text: String)
        ensures
            text@ == spec_state_name(*self),
    {
        String::from_str(self.name())
    }

    /// The state whose name is exactly `name`, if any.
    pub fn from_name(name: &str) -> (state: Option<PlayerAnimationState>)
        ensures
            match state {
                Some(s) => spec_state_name(s) == name@,
                None => forall|s: PlayerAnimationState| spec_state_name(s) != name@,
            },
    {
        proof {
            reveal_strlit("Idle");
            reveal_strlit("Walking");
            reveal_strlit("FastRunning");
            reveal_strlit("Jumping");
        }
        if same_text(name, "Idle") {
            Some(PlayerAnimationState::Idle)
        } else if same_text(name, "Walking") {
            Some(PlayerAnimationState::Walking)
        } else if same_text(name, "FastRunning") {
            Some(PlayerAnimationState::FastRunning)
        } else if same_text(name, "Jumping") {
            Some(PlayerAnimationState::Jumping)
        } else {
            assert forall|s: PlayerAnimationState| spec_state_name(s) != name@ by {
                match s {
                    PlayerAnimationState::Idle => {},
                    PlayerAnimationState::Walking => {},
                    PlayerAnimationState::FastRunning => {},
                    PlayerAnimationState::Jumping => {},
                }
            }
            None
        }
    }
}

/// Two states with the same name are the same state: a state's name parses back to it.
pub proof fn state_names_identify_states(s: PlayerAnimationState, t: PlayerAnimationState)
    requires
        spec_state_name(s) == spec_state_name(t),
    ensures
        s == t,
{
    reveal_strlit("Idle");
    reveal_strlit("Walking");
    reveal_strlit("FastRunning");
    reveal_strlit("Jumping");
    assert("Idle"@.len() == 4);
    assert("Walking"@.len() == 7);
    assert("FastRunning"@.len() == 11);
    assert("Jumping"@.len() == 7);
    assert("Walking"@[0] == 'W');
    assert("Jumping"@[0] == 'J');
}

/// Every state is among the variants, exactly once.
pub proof fn variants_list_each_state_once(s: PlayerAnimationState)
    ensures
        spec_variants().contains(s),
        forall|i: int, j: int|
            0 <= i < j < spec_variants().len() ==> spec_variants()[i] != spec_variants()[j],
{
    match s {
        PlayerAnimationState::Idle => assert(spec_variants()[0] == s),
        PlayerAnimationState::Walking => assert(spec_variants()[1] == s),
        PlayerAnimationState::FastRunning => assert(spec_variants()[2] == s),
        PlayerAnimationState::Jumping => assert(spec_variants()[3] == s),
    }
}

/// Where each of the player's animations sits in the player's animation graph (the index
/// of its clip node).
#[derive(Debug, Clone, Copy, PartialEq, Eq, Structural)]
pub struct PlayerAnimations {
    /// Name: `Idle`
    idle: u32,
    /// Name: `Walking`
    walking: u32,
    /// Name: `FastRunning`
    fast_running: u32,
    /// Name: `Jumping`
    jumping: u32,
}

impl PlayerAnimations {
    /// The graph node of the animation of `state`.
    pub closed spec fn spec_node(self, state: PlayerAnimationState) -> u32 {
        match state {
            PlayerAnimationState::Idle => self.idle,
            PlayerAnimationState::Walking => self.walking,
            PlayerAnimationState::FastRunning => self.fast_running,
            PlayerAnimationState::Jumping => self.jumping,
        }
    }

    /// The graph node of the animation of `state`.
    pub fn node(&self, state: PlayerAnimationState) -> (node: u32)
        ensures
            node == self.spec_node(state),
    {
        match state {
            PlayerAnimationState::Idle => self.idle,
            PlayerAnimationState::Walking => self.walking,
            PlayerAnimationState::FastRunning => self.fast_running,
            PlayerAnimationState::Jumping => self.jumping,
        }
    }

    /// Records that the animation of `state` sits at graph node `node`.
    pub fn set_node(&mut self, state: PlayerAnimationState, node: u32)
        ensures
            final(self).spec_node(state) == node,
            forall|other: PlayerAnimationState|
                other != state ==> final(self).spec_node(other) == old(self).spec_node(other),
    {
        match state {
            PlayerAnimationState::Idle => self.idle = node,
            PlayerAnimationState::Walking => self.walking = node,
            PlayerAnimationState::FastRunning => self.fast_running = node,
            PlayerAnimationState::Jumping => self.jumping = node,
        }
    }
}

impl Default for PlayerAnimations {
    fn default() -> (animations: Self)
        ensures
            forall|state: PlayerAnimationState| animations.spec_node(state) == 0,
    {
        PlayerAnimations { idle: 0, walking: 0, fast_running: 0, jumping: 0 }
    }
}

/// The phase of a jump the character's controller is performing.
#[derive(Debug, Clone, Copy, PartialEq, Eq, Structural)]
pub enum JumpPhase {
    /// The jump action is fed but no jump happens.
    NoJump,
    /// The character is starting to jump.
    StartingJump,
    /// The character is slowed down because the jump came from a slope that is too fast.
    SlowDownTooFastSlopeJump,
    /// The character keeps rising while the jump is held.
    MaintainingJump,
    /// The jump is no longer held but the character is still rising.
    StoppedMaintainingJump,
    /// The character is falling.
    FallSection,
}

/// The action the character's controller is performing.
#[derive(Debug, Clone, Copy, PartialEq, Eq, Structural)]
pub enum ControllerAction {
    /// No action: the walk basis decides the animation.
    NoAction,
    /// The built-in jump, in the given phase.
    Jump(JumpPhase),
    /// An action the player is never given.
    Unknown,
}

/// What the controller's walk basis reports, with the character's running speed compared
/// to the two thresholds that separate the animations.
#[derive(Debug, Clone, Copy, PartialEq, Eq, Structural)]
pub struct WalkBasisState {
    /// The character stands on something.
    pub standing: bool,
    /// The running speed is above the still threshold (0.01).
    pub above_still_speed: bool,
    /// The running speed is above the walking speed.
    pub above_walk_speed: bool,
}

/// The animation state the controller calls for; `None` when nothing is to be animated
/// this frame (a jump that does not happen, or no walk basis set yet).
pub open spec fn spec_animation_state_for(
    action: ControllerAction,
    basis: Option<WalkBasisState>,
) -> Option<PlayerAnimationState> {
    match action {
        ControllerAction::Jump(phase) => if phase == JumpPhase::NoJump {
            None
        } else {
            Some(PlayerAnimationState::Jumping)
        },
        _ => match basis {
            None => None,
            Some(b) => if !b.standing {
                Some(PlayerAnimationState::Jumping)
            } else if b.above_still_speed && !b.above_walk_speed {
                Some(PlayerAnimationState::Walking)
            } else if b.above_walk_speed {
                Some(PlayerAnimationState::FastRunning)
            } else {
                Some(PlayerAnimationState::Idle)
            },
        },
    }
}

/// How the player's animation follows the controller: a jump that happens animates as
/// jumping and one that does not animates nothing; without an action, nothing is animated
/// before the walk basis is set, a character standing on nothing is falling (jumping) whatever
/// its speed, and a standing one runs fast above walking speed, walks above the still
/// threshold and idles otherwise.
pub proof fn animation_follows_controller(action: ControllerAction, basis: Option<WalkBasisState>)
    ensures
        action is Jump && action->Jump_0 != JumpPhase::NoJump ==> spec_animation_state_for(action, basis) == Some(PlayerAnimationState::Jumping),
        action == ControllerAction::Jump(JumpPhase::NoJump) ==> spec_animation_state_for(action, basis) == None::<PlayerAnimationState>,
        action == ControllerAction::NoAction && basis is None ==> spec_animation_state_for(action, basis) == None::<PlayerAnimationState>,
        action == ControllerAction::NoAction && basis is Some && !basis->0.standing
            ==> spec_animation_state_for(action, basis) == Some(PlayerAnimationState::Jumping),
        action == ControllerAction::NoAction && basis is Some && basis->0.standing && basis->0.above_walk_speed
            ==> spec_animation_state_for(action, basis) == Some(PlayerAnimationState::FastRunning),
        action == ControllerAction::NoAction && basis is Some && basis->0.standing && basis->0.above_still_speed
            && !basis->0.above_walk_speed ==> spec_animation_state_for(action, basis) == Some(PlayerAnimationState::Walking),
        action == ControllerAction::NoAction && basis is Some && basis->0.standing && !basis->0.above_still_speed
            && !basis->0.above_walk_speed ==> spec_animation_state_for(action, basis) == Some(PlayerAnimationState::Idle),
{
}

/// Decides which animation state the player is in from what its controller reports.
/// An unknown action is a bug of the controller set-up, and is not accepted.
pub fn animation_state_for(action: ControllerAction, basis: Option<WalkBasisState>) -> (state: Option<PlayerAnimationState>)
    requires
        action != ControllerAction::Unknown,
    ensures
        state == spec_animation_state_for(action, basis),
        action is Jump && action->Jump_0 != JumpPhase::NoJump ==> state == Some(PlayerAnimationState::Jumping),
        action == ControllerAction::Jump(JumpPhase::NoJump) ==> state == None::<PlayerAnimationState>,
        action == ControllerAction::NoAction && basis is None ==> state == None::<PlayerAnimationState>,
        action == ControllerAction::NoAction && basis is Some && !basis->0.standing
            ==> state == Some(PlayerAnimationState::Jumping),
        action == ControllerAction::NoAction && basis is Some && basis->0.standing && basis->0.above_walk_speed
            ==> state == Some(PlayerAnimationState::FastRunning),
        action == ControllerAction::NoAction && basis is Some && basis->0.standing && basis->0.above_still_speed
            && !basis->0.above_walk_speed ==> state == Some(PlayerAnimationState::Walking),
        action == ControllerAction::NoAction && basis is Some && basis->0.standing && !basis->0.above_still_speed
            && !basis->0.above_walk_speed ==> state == Some(PlayerAnimationState::Idle),
{
    match action {
        ControllerAction::Jump(phase) => match phase {
            JumpPhase::NoJump => None,
            JumpPhase::StartingJump => Some(PlayerAnimationState::Jumping),
            JumpPhase::SlowDownTooFastSlopeJump => Some(PlayerAnimationState::Jumping),
            JumpPhase::MaintainingJump => Some(PlayerAnimationState::Jumping),
            JumpPhase::StoppedMaintainingJump => Some(PlayerAnimationState::Jumping),
            JumpPhase::FallSection => Some(PlayerAnimationState::Jumping),
        },
        _ => match basis {
            None => None,
            Some(b) => {
                if !b.standing {
                    Some(PlayerAnimationState::Jumping)
                } else if b.above_still_speed && !b.above_walk_speed {
                    Some(PlayerAnimationState::Walking)
                } else if b.above_walk_speed {
                    Some(PlayerAnimationState::FastRunning)
                } else {
                    Some(PlayerAnimationState::Idle)
                }
            },
        },
    }
}

/// What updating the animating state with a new state asks for.
#[derive(Debug, Clone, Copy, PartialEq, Eq, Structural)]
pub enum AnimationDirective {
    /// The state did not change: keep the current animation.
    Maintain { state: PlayerAnimationState },
    /// The state changed (or there was none): switch animations.
    Alter { old_state: Option<PlayerAnimationState>, state: PlayerAnimationState },
}

/// How to start playing an animation.
#[derive(Debug, Clone, Copy, PartialEq, Eq, Structural)]
pub struct AnimationPlayback {
    /// The graph node of the animation to play.
    pub node: u32,
    /// The duration of the transition from the previous animation, in milliseconds.
    pub transition_ms: u32,
    /// Whether the animation's speed is set back to normal (1.0).
    pub normal_speed: bool,
    /// Whether the animation repeats.
    pub repeat: bool,
}

/// The playback of the animation of `state`: idle and walking blend in over 200 ms at
/// normal speed and repeat; fast running blends in over 250 ms and repeats at the speed
/// it had; jumping starts at once, at normal speed, and plays once.
pub open spec fn spec_playback(animations: PlayerAnimations, state: PlayerAnimationState) -> AnimationPlayback {
    let node: u32 = animations.spec_node(state);
    match state {
        PlayerAnimationState::Idle => AnimationPlayback { node, transition_ms: 200, normal_speed: true, repeat: true },
        PlayerAnimationState::FastRunning => AnimationPlayback { node, transition_ms: 250, normal_speed: false, repeat: true },
        PlayerAnimationState::Jumping => AnimationPlayback { node, transition_ms: 0, normal_speed: true, repeat: false },
        PlayerAnimationState::Walking => AnimationPlayback { node, transition_ms: 200, normal_speed: true, repeat: true },
    }
}

/// What to play for a directive: nothing when the state is maintained, and the new state's
/// animation when it is altered.
pub fn playback_for(directive: AnimationDirective, animations: &PlayerAnimations) -> (playback: Option<AnimationPlayback>)
    ensures
        match directive {
            AnimationDirective::Maintain { .. } => playback == None::<AnimationPlayback>,
            AnimationDirective::Alter { state, .. } => playback == Some(spec_playback(*animations, state)),
        },
        directive is Alter ==> {
            let state = directive->Alter_state;
            let p = playback->0;
            &&& playback is Some
            &&& p.node == animations.spec_node(state)
            &&& (state == PlayerAnimationState::Idle || state == PlayerAnimationState::Walking)
                ==> p.transition_ms == 200 && p.normal_speed && p.repeat
            &&& state == PlayerAnimationState::FastRunning ==> p.transition_ms == 250 && !p.normal_speed && p.repeat
            &&& state == PlayerAnimationState::Jumping ==> p.transition_ms == 0 && p.normal_speed && !p.repeat
        },
{
    match directive {
        AnimationDirective::Maintain { .. } => None,
        AnimationDirective::Alter { state, .. } => {
            let node: u32 = animations.node(state);
            let playback = match state {
                PlayerAnimationState::Idle => AnimationPlayback { node, transition_ms: 200, normal_speed: true, repeat: true },
                PlayerAnimationState::FastRunning => AnimationPlayback { node, transition_ms: 250, normal_speed: false, repeat: true },
                PlayerAnimationState::Jumping => AnimationPlayback { node, transition_ms: 0, normal_speed: true, repeat: false },
                PlayerAnimationState::Walking => AnimationPlayback { node, transition_ms: 200, normal_speed: true, repeat: true },
            };
            Some(playback)
        },
    }
}

} // verus!
