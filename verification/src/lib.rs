//! Project Z: the verified game logic of a prototype MMORPG.
//!
//! The library holds the decisions the game makes each frame (state flow, map
//! loading, world layout, player controls and animations, sprite meshes and window
//! set-up) as functions on plain values, each with a contract.

use vstd::prelude::*;

/// Asset loading states.
pub mod assets;
/// The game environment: maps and world layout.
pub mod environment;
/// Development tools.
pub mod dev_tools;
/// The player: controls and animations.
pub mod player;
/// The quad meshes of 3D sprites.
pub mod sprite_3d;
/// The game window: title and icon.
pub mod window;

verus! {

/// The top-level states the game goes through, in the order in which it visits them.
#[derive(Debug, Clone, Copy, PartialEq, Eq, Structural, Hash)]
pub enum GameState {
    /// Currently loading assets
    LoadingAssets,
    /// Loading Environment Maps
    LoadingEnvironmentMaps,
    /// Loading Player Assets
    LoadingPlayerAssets,
    /// All Assets Loaded
    AllAssetsLoaded,
    /// Currently loading the World
    LoadingWorld,
    /// Currently loading the Player
    LoadingPlayer,
    /// Currently in the game, everything is loaded
    InGame,
}

/// What happens in the game that can move it from one state to another.
#[derive(Debug, Clone, Copy, PartialEq, Eq, Structural, Hash)]
pub enum GameEvent {
    /// The first asset loading step finished: the game goes on to load its maps.
    AssetsLoaded,
    /// Every game map of the maps folder has been loaded and recorded.
    MapsLoaded,
    /// The player's asset collection finished loading.
    PlayerAssetsLoaded,
    /// The state that marks all assets as loaded has just been entered.
    AssetsReady,
    /// The world (ground, light and map) has been spawned.
    WorldBuilt,
    /// The player's model was available and the player has been spawned.
    PlayerSpawned,
}

/// The position of a state in the order in which the game visits them.
pub open spec fn state_rank(s: GameState) -> nat {
    match s {
        GameState::LoadingAssets => 0,
        GameState::LoadingEnvironmentMaps => 1,
        GameState::LoadingPlayerAssets => 2,
        GameState::AllAssetsLoaded => 3,
        GameState::LoadingWorld => 4,
        GameState::LoadingPlayer => 5,
        GameState::InGame => 6,
    }
}

/// The state that `event` moves the game to from `state`, if any: each state is left by its
/// own event, for the state that follows it.
pub open spec fn spec_next_state(state: GameState, event: GameEvent) -> Option<GameState> {
    match (state, event) {
        (GameState::LoadingAssets, GameEvent::AssetsLoaded) => Some(GameState::LoadingEnvironmentMaps),
        (GameState::LoadingEnvironmentMaps, GameEvent::MapsLoaded) => Some(GameState::LoadingPlayerAssets),
        (GameState::LoadingPlayerAssets, GameEvent::PlayerAssetsLoaded) => Some(GameState::AllAssetsLoaded),
        (GameState::AllAssetsLoaded, GameEvent::AssetsReady) => Some(GameState::LoadingWorld),
        (GameState::LoadingWorld, GameEvent::WorldBuilt) => Some(GameState::LoadingPlayer),
        (GameState::LoadingPlayer, GameEvent::PlayerSpawned) => Some(GameState::InGame),
        _ => None,
    }
}

/// The state after `event` in `state`: the next state, or the same one when the event has
/// no effect there.
pub open spec fn step(state: GameState, event: GameEvent) -> GameState {
    match spec_next_state(state, event) {
        Some(next) => next,
        None => state,
    }
}

/// The state reached from `state` after the events `events`, in order.
pub open spec fn run(state: GameState, events: Seq<GameEvent>) -> GameState
    decreases events.len(),
{
    if events.len() == 0 {
        state
    } else {
        step(run(state, events.drop_last()), events.last())
    }
}

impl GameState {
    /// The state the game starts in.
    pub fn initial() -> (s: GameState)
        ensures
            s == GameState::LoadingAssets,
    {
        GameState::LoadingAssets
    }

    /// The state that `event` moves the game to, or `None` when the event has no effect in
    /// this state.
    pub fn next_on(self, event: GameEvent) -> (next: Option<GameState>)
        ensures
            next == spec_next_state(self, event),
    {
        match (self, event) {
            (GameState::LoadingAssets, GameEvent::AssetsLoaded) => Some(GameState::LoadingEnvironmentMaps),
            (GameState::LoadingEnvironmentMaps, GameEvent::MapsLoaded) => Some(GameState::LoadingPlayerAssets),
            (GameState::LoadingPlayerAssets, GameEvent::PlayerAssetsLoaded) => Some(GameState::AllAssetsLoaded),
            (GameState::AllAssetsLoaded, GameEvent::AssetsReady) => Some(GameState::LoadingWorld),
            (GameState::LoadingWorld, GameEvent::WorldBuilt) => Some(GameState::LoadingPlayer),
            (GameState::LoadingPlayer, GameEvent::PlayerSpawned) => Some(GameState::InGame),
            _ => None,
        }
    }
}

impl Default for GameState {
    fn default() -> (s: Self)
        ensures
            s == GameState::LoadingAssets,
    {
        GameState::LoadingAssets
    }
}

/// The game only moves forward, one state at a time: every transition leads to the state
/// that follows in declaration order.
pub proof fn transitions_move_forward(state: GameState, event: GameEvent)
    ensures
        spec_next_state(state, event) matches Some(next) ==> state_rank(next) == state_rank(state) + 1,
{
}

/// The state each event leaves: the first loading step, the maps, the player's assets, the
/// all-loaded mark, the world and the player are each done in their own state.
pub open spec fn event_source(event: GameEvent) -> GameState {
    match event {
        GameEvent::AssetsLoaded => GameState::LoadingAssets,
        GameEvent::MapsLoaded => GameState::LoadingEnvironmentMaps,
        GameEvent::PlayerAssetsLoaded => GameState::LoadingPlayerAssets,
        GameEvent::AssetsReady => GameState::AllAssetsLoaded,
        GameEvent::WorldBuilt => GameState::LoadingWorld,
        GameEvent::PlayerSpawned => GameState::LoadingPlayer,
    }
}

/// An event moves the game on exactly in the state it belongs to, and nowhere else.
pub proof fn events_act_only_in_their_state(state: GameState, event: GameEvent)
    ensures
        spec_next_state(state, event) is Some <==> state == event_source(event),
{
}

/// A state is identified by its position in the order.
proof fn rank_identifies_state(s: GameState, t: GameState)
    requires
        state_rank(s) == state_rank(t),
    ensures
        s == t,
{
}

/// Along a run, the position in the order never decreases and grows by at most one per
/// event, so every position between the start's and the end's is reached on the way.
proof fn run_passes_every_rank(start: GameState, events: Seq<GameEvent>, r: nat)
    requires
        state_rank(start) <= r <= state_rank(run(start, events)),
    ensures
        exists|k: int| 0 <= k <= events.len() && state_rank(#[trigger] run(start, events.take(k))) == r,
    decreases events.len(),
{
    if events.len() == 0 {
        assert(events.take(0) =~= events);
    } else {
        let before = events.drop_last();
        let mid = run(start, before);
        transitions_move_forward(mid, events.last());
        if state_rank(mid) >= r {
            run_passes_every_rank(start, before, r);
            let k = choose|k: int| 0 <= k <= before.len() && state_rank(#[trigger] run(start, before.take(k))) == r;
            assert(events.take(k) =~= before.take(k));
        } else {
            assert(events.take(events.len() as int) =~= events);
        }
    }
}

/// From the start, the game visits the states in order and skips none: whatever events
/// come, every state up to the one the game is in was entered on the way. In particular the
/// maps are loaded (`LoadingEnvironmentMaps` is entered) before the world is built.
pub proof fn states_are_visited_in_order(events: Seq<GameEvent>, target: GameState)
    requires
        state_rank(target) <= state_rank(run(GameState::LoadingAssets, events)),
    ensures
        exists|k: int| 0 <= k <= events.len() && #[trigger] run(GameState::LoadingAssets, events.take(k)) == target,
{
    run_passes_every_rank(GameState::LoadingAssets, events, state_rank(target));
    let k = choose|k: int|
        0 <= k <= events.len() && state_rank(#[trigger] run(GameState::LoadingAssets, events.take(k))) == state_rank(target);
    rank_identifies_state(run(GameState::LoadingAssets, events.take(k)), target);
}

/// Once in the game, nothing moves it to another state.
pub proof fn in_game_is_final(event: GameEvent)
    ensures
        spec_next_state(GameState::InGame, event) == None::<GameState>,
{
}

/// Each state is left by a single event: two events that both move the game on from the
/// same state are the same event.
pub proof fn one_way_out_of_each_state(state: GameState, a: GameEvent, b: GameEvent)
    requires
        spec_next_state(state, a) is Some,
        spec_next_state(state, b) is Some,
    ensures
        a == b,
{
}

} // verus!
