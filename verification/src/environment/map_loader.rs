//! Game maps: their data, when a map counts as loaded, what a frame of the loader does,
//! and the resource that finds a loaded map again by its id.

use std::collections::HashMap;
use vstd::prelude::*;

verus! {

broadcast use vstd::std_specs::hash::group_hash_axioms;

/// Settings of the plugin that loads the game maps: where they are and which states it
/// works between.
#[derive(Debug, Clone)]
pub struct GameMapsLoaderPlugin<S> {
    /// The path to the folder containing the game maps information.
    pub maps: String,
    /// The State when entered we will start loading the game maps.
    pub on_enter: S,
    /// The State to continue to after loading the game maps.
    pub continue_to_state: S,
}

impl<S> GameMapsLoaderPlugin<S> {
    /// Settings that load the maps of the folder `maps` on entering `on_enter` and move to
    /// `continue_to_state` once every map is loaded.
    pub fn new(on_enter: S, continue_to_state: S) -> (plugin: Self)
        ensures
            plugin.maps@ == "maps"@,
            plugin.on_enter == on_enter,
            plugin.continue_to_state == continue_to_state,
    {
        GameMapsLoaderPlugin { maps: String::from_str("maps"), on_enter, continue_to_state }
    }

    /// The same settings, with the maps read from the folder `path`.
    pub fn with_maps(self, path: &str) -> (plugin: Self)
        ensures
            plugin.maps@ == path@,
            plugin.on_enter == self.on_enter,
            plugin.continue_to_state == self.continue_to_state,
    {
        GameMapsLoaderPlugin {
            maps: String::from_str(path),
            on_enter: self.on_enter,
            continue_to_state: self.continue_to_state,
        }
    }
}

/// Represents a game map with its properties and puzzles.
#[derive(Debug, Clone)]
pub struct GameMap {
    /// The version of the map.
    pub version: MapVersion,
    /// The unique identifier of the map.
    pub id: u16,
    /// The width of the map.
    pub width: u16,
    /// The height of the map.
    pub height: u16,
    /// The list of puzzles in the map.
    pub puzzles: Vec<Puzzle>,
}

/// Enum representing the version of the map.
#[derive(Debug, Clone, Copy, PartialEq, Eq, Structural)]
pub enum MapVersion {
    /// Version 1 of the map.
    V1,
}

/// Enum representing the version of the puzzle.
#[derive(Debug, Clone, Copy, PartialEq, Eq, Structural)]
pub enum PuzzleVersion {
    /// Version 1 of the puzzle.
    V1,
    /// Version 2 of the puzzle.
    V2,
}

/// Represents a puzzle with its properties and parts.
#[derive(Debug, Clone)]
pub struct Puzzle {
    /// The version of the puzzle.
    pub version: PuzzleVersion,
    /// The width of the puzzle.
    pub width: u16,
    /// The height of the puzzle.
    pub height: u16,
    /// The list of parts in the puzzle.
    pub parts: Vec<PuzzlePart>,
}

/// The handle a puzzle part holds on its texture. A part that has not asked for its texture
/// yet holds the default, weak handle; asking the asset server for the texture gives a strong
/// handle, whose image then loads.
#[derive(Debug, Clone, Copy, PartialEq, Eq, Structural)]
pub enum TextureHandle {
    /// The default handle, which keeps no texture alive: the texture was not requested.
    Weak,
    /// A strong handle whose image is still loading.
    Loading,
    /// A strong handle whose image has loaded.
    Loaded,
}

/// Represents a part of a puzzle with its properties.
#[derive(Debug, Clone)]
pub struct PuzzlePart {
    /// The x-coordinate of the puzzle part.
    pub x: u16,
    /// The y-coordinate of the puzzle part.
    pub y: u16,
    /// The path to the texture of the puzzle part.
    pub texture_path: String,
    /// The handle to the texture of the puzzle part.
    pub texture: TextureHandle,
}

impl Default for MapVersion {
    fn default() -> (v: Self)
        ensures
            v == MapVersion::V1,
    {
        MapVersion::V1
    }
}

impl Default for PuzzleVersion {
    fn default() -> (v: Self)
        ensures
            v == PuzzleVersion::V1,
    {
        PuzzleVersion::V1
    }
}

impl Default for TextureHandle {
    fn default() -> (h: Self)
        ensures
            h == TextureHandle::Weak,
    {
        TextureHandle::Weak
    }
}

impl Default for PuzzlePart {
    fn default() -> (part: Self)
        ensures
            part.x == 0,
            part.y == 0,
            part.texture_path@ == Seq::<char>::empty(),
            part.texture == TextureHandle::Weak,
    {
        PuzzlePart { x: 0, y: 0, texture_path: String::new(), texture: TextureHandle::Weak }
    }
}

impl Default for Puzzle {
    fn default() -> (puzzle: Self)
        ensures
            puzzle.version == PuzzleVersion::V1,
            puzzle.width == 0,
            puzzle.height == 0,
            puzzle.parts@ == Seq::<PuzzlePart>::empty(),
    {
        Puzzle { version: PuzzleVersion::V1, width: 0, height: 0, parts: Vec::new() }
    }
}

impl Default for GameMap {
    fn default() -> (map: Self)
        ensures
            map.version == MapVersion::V1,
            map.id == 0,
            map.width == 0,
            map.height == 0,
            map.puzzles@ == Seq::<Puzzle>::empty(),
    {
        GameMap { version: MapVersion::V1, id: 0, width: 0, height: 0, puzzles: Vec::new() }
    }
}

/// What a part's texture has reached: requested (a strong handle), or, with `loaded`, also
/// loaded (a strong handle whose image has loaded).
pub open spec fn texture_reached(texture: TextureHandle, loaded: bool) -> bool {
    if loaded {
        texture == TextureHandle::Loaded
    } else {
        texture != TextureHandle::Weak
    }
}

/// Every part of `puzzle` has its texture requested (or, with `loaded`, also loaded).
pub open spec fn puzzle_textures_reached(puzzle: Puzzle, loaded: bool) -> bool {
    forall|j: int| 0 <= j < puzzle.parts@.len() ==> texture_reached(#[trigger] puzzle.parts@[j].texture, loaded)
}

/// Every part of every puzzle of `map` has its texture requested (or, with `loaded`, also
/// loaded).
pub open spec fn map_textures_reached(map: GameMap, loaded: bool) -> bool {
    forall|i: int| 0 <= i < map.puzzles@.len() ==> puzzle_textures_reached(#[trigger] map.puzzles@[i], loaded)
}

impl GameMap {
    /// Whether every texture of the map has reached the given stage.
    fn textures_reached(&self, loaded: bool) -> (reached: bool)
        ensures
            reached == map_textures_reached(*self, loaded),
    {
        let mut i: usize = 0;
        while i < self.puzzles.len()
            invariant
                i <= self.puzzles@.len(),
                forall|k: int| 0 <= k < i ==> puzzle_textures_reached(#[trigger] self.puzzles@[k], loaded),
            decreases self.puzzles@.len() - i,
        {
            let puzzle = &self.puzzles[i];
            let mut j: usize = 0;
            while j < puzzle.parts.len()
                invariant
                    i < self.puzzles@.len(),
                    *puzzle == self.puzzles@[i as int],
                    j <= puzzle.parts@.len(),
                    forall|k: int| 0 <= k < j ==> texture_reached(#[trigger] puzzle.parts@[k].texture, loaded),
                decreases puzzle.parts@.len() - j,
            {
                let texture = puzzle.parts[j].texture;
                let ok = if loaded { texture == TextureHandle::Loaded } else { texture != TextureHandle::Weak };
                if !ok {
                    assert(!puzzle_textures_reached(self.puzzles@[i as int], loaded));
                    return false;
                }
                j += 1;
            }
            i += 1;
        }
        true
    }

    /// Returns true if all the textures are loaded and the textures are strong handles.
    pub fn is_loaded(&self) -> (loaded: bool)
        ensures
            loaded == map_textures_reached(*self, true),
            loaded <==> forall|i: int, j: int|
                0 <= i < self.puzzles@.len() && 0 <= j < self.puzzles@[i].parts@.len()
                    ==> (#[trigger] self.puzzles@[i].parts@[j]).texture == TextureHandle::Loaded,
    {
        proof {
            every_part_reached(*self, true);
        }
        self.textures_reached(true)
    }

    /// Returns true if every texture of the map was requested (holds a strong handle),
    /// whether or not its image has loaded yet.
    pub fn textures_requested(&self) -> (requested: bool)
        ensures
            requested == map_textures_reached(*self, false),
            requested <==> forall|i: int, j: int|
                0 <= i < self.puzzles@.len() && 0 <= j < self.puzzles@[i].parts@.len()
                    ==> (#[trigger] self.puzzles@[i].parts@[j]).texture != TextureHandle::Weak,
    {
        proof {
            every_part_reached(*self, false);
        }
        self.textures_reached(false)
    }
}

/// A map's textures have reached a stage exactly when the texture of every part of every
/// puzzle has: loaded means every part's image has loaded, requested means no part holds a
/// weak handle.
pub proof fn every_part_reached(map: GameMap, loaded: bool)
    ensures
        map_textures_reached(map, loaded) <==> forall|i: int, j: int|
            0 <= i < map.puzzles@.len() && 0 <= j < map.puzzles@[i].parts@.len()
                ==> (if loaded {
                    (#[trigger] map.puzzles@[i].parts@[j]).texture == TextureHandle::Loaded
                } else {
                    map.puzzles@[i].parts@[j].texture != TextureHandle::Weak
                }),
{
    if map_textures_reached(map, loaded) {
        assert forall|i: int, j: int|
            0 <= i < map.puzzles@.len() && 0 <= j < map.puzzles@[i].parts@.len() implies
                (if loaded {
                    (#[trigger] map.puzzles@[i].parts@[j]).texture == TextureHandle::Loaded
                } else {
                    map.puzzles@[i].parts@[j].texture != TextureHandle::Weak
                }) by {
            assert(puzzle_textures_reached(map.puzzles@[i], loaded));
            assert(texture_reached(map.puzzles@[i].parts@[j].texture, loaded));
        }
    }
    if forall|i: int, j: int|
        0 <= i < map.puzzles@.len() && 0 <= j < map.puzzles@[i].parts@.len()
            ==> (if loaded {
                (#[trigger] map.puzzles@[i].parts@[j]).texture == TextureHandle::Loaded
            } else {
                map.puzzles@[i].parts@[j].texture != TextureHandle::Weak
            }) {
        assert forall|i: int| 0 <= i < map.puzzles@.len() implies puzzle_textures_reached(#[trigger] map.puzzles@[i], loaded) by {
            assert forall|j: int| 0 <= j < map.puzzles@[i].parts@.len() implies
                texture_reached(#[trigger] map.puzzles@[i].parts@[j].texture, loaded) by {
                let part = map.puzzles@[i].parts@[j];
            }
        }
    }
}

/// A map whose textures are all loaded has them all requested.
pub proof fn loaded_map_was_requested(map: GameMap)
    requires
        map_textures_reached(map, true),
    ensures
        map_textures_reached(map, false),
{
    assert forall|i: int| 0 <= i < map.puzzles@.len() implies puzzle_textures_reached(#[trigger] map.puzzles@[i], false) by {
        assert(puzzle_textures_reached(map.puzzles@[i], true));
    }
}

/// What the loader finds for one entry of the loaded maps folder.
#[derive(Debug, Clone, Copy, PartialEq, Eq, Structural)]
pub enum MapStatus {
    /// The file is not a game map.
    NotAMap,
    /// The file is a game map that is not among the loaded map assets.
    NotInAssets,
    /// The game map is among the loaded map assets: `requested` tells whether all its textures
    /// were requested, `loaded` whether they have all loaded, and `recorded` whether the map
    /// is already recorded among the loaded maps.
    Present { requested: bool, loaded: bool, recorded: bool },
}

/// The two things the loader does for a map.
#[derive(Debug, Clone, Copy, PartialEq, Eq, Structural)]
pub enum MapWork {
    /// Request the map's textures.
    Request,
    /// Record the map among the loaded maps (by sending its loaded event).
    Record,
}

/// What one frame of the loader does once the maps folder is loaded.
#[derive(Debug, Clone)]
pub struct MapSetupPlan {
    /// The positions, in the folder, of the maps whose textures are to be requested now, in
    /// folder order.
    pub to_request: Vec<usize>,
    /// The positions, in the folder, of the maps to record among the loaded maps now, in
    /// folder order.
    pub to_record: Vec<usize>,
    /// Whether every map was already loaded and recorded, so that the loader is done.
    pub all_loaded: bool,
}

/// Whether the loader has `work` to do for a folder entry: a present map whose textures were
/// not all requested needs requesting; such a map is recorded again (its loaded event is sent
/// each time its textures are requested), and so is a present map not yet recorded.
pub open spec fn needs(work: MapWork, status: MapStatus) -> bool {
    match status {
        MapStatus::Present { requested, recorded, .. } => match work {
            MapWork::Request => !requested,
            MapWork::Record => !requested || !recorded,
        },
        _ => false,
    }
}

/// A folder entry the loader is done with: not a present map, or a present map whose textures
/// have all loaded.
pub open spec fn map_done(status: MapStatus) -> bool {
    match status {
        MapStatus::Present { loaded, .. } => loaded,
        _ => true,
    }
}

/// The positions below `n` in `statuses` of the entries that need `work`, in increasing order.
pub open spec fn positions_needing(statuses: Seq<MapStatus>, n: nat, work: MapWork) -> Seq<usize>
    decreases n,
{
    if n == 0 {
        seq![]
    } else {
        let before = positions_needing(statuses, (n - 1) as nat, work);
        if needs(work, statuses[n - 1]) {
            before.push((n - 1) as usize)
        } else {
            before
        }
    }
}

/// Decides one frame of the map loader: every present map whose textures were not all
/// requested has them requested and is recorded, every present map not yet recorded is
/// recorded, and the loader is done when every present map has its textures loaded.
pub fn plan_map_setup(statuses: &Vec<MapStatus>) -> (plan: MapSetupPlan)
    ensures
        plan.to_request@ == positions_needing(statuses@, statuses@.len(), MapWork::Request),
        plan.to_record@ == positions_needing(statuses@, statuses@.len(), MapWork::Record),
        plan.all_loaded <==> forall|i: int| 0 <= i < statuses@.len() ==> map_done(#[trigger] statuses@[i]),
{
    let mut to_request: Vec<usize> = Vec::new();
    let mut to_record: Vec<usize> = Vec::new();
    let mut all_loaded = true;
    let mut i: usize = 0;
    while i < statuses.len()
        invariant
            i <= statuses@.len(),
            to_request@ == positions_needing(statuses@, i as nat, MapWork::Request),
            to_record@ == positions_needing(statuses@, i as nat, MapWork::Record),
            all_loaded <==> forall|k: int| 0 <= k < i ==> map_done(#[trigger] statuses@[k]),
        decreases statuses@.len() - i,
    {
        match statuses[i] {
            MapStatus::Present { requested, loaded, recorded } => {
                if !requested {
                    to_request.push(i);
                }
                if !requested || !recorded {
                    to_record.push(i);
                }
                if !loaded {
                    all_loaded = false;
                }
            },
            _ => {},
        }
        i += 1;
    }
    MapSetupPlan { to_request, to_record, all_loaded }
}

/// The positions that need `work` are exactly the entries that need it, each once, in folder
/// order.
pub proof fn planned_positions_are_the_entries_needing_work(statuses: Seq<MapStatus>, n: nat, work: MapWork)
    requires
        n <= statuses.len(),
        statuses.len() <= usize::MAX,
    ensures
        forall|k: int| 0 <= k < positions_needing(statuses, n, work).len() ==> {
            let p = #[trigger] positions_needing(statuses, n, work)[k];
            &&& p < n
            &&& needs(work, statuses[p as int])
        },
        forall|k: int, l: int| 0 <= k < l < positions_needing(statuses, n, work).len() ==>
            #[trigger] positions_needing(statuses, n, work)[k] < #[trigger] positions_needing(statuses, n, work)[l],
        forall|i: int| 0 <= i < n && needs(work, #[trigger] statuses[i]) ==>
            positions_needing(statuses, n, work).contains(i as usize),
        positions_needing(statuses, n, work).len() == 0 <==> forall|i: int| 0 <= i < n ==> !needs(work, #[trigger] statuses[i]),
    decreases n,
{
    if n > 0 {
        planned_positions_are_the_entries_needing_work(statuses, (n - 1) as nat, work);
        let before = positions_needing(statuses, (n - 1) as nat, work);
        let now = positions_needing(statuses, n, work);
        assert forall|k: int| 0 <= k < now.len() implies {
            let p = #[trigger] now[k];
            &&& p < n
            &&& needs(work, statuses[p as int])
        } by {
            if k < before.len() {
                assert(now[k] == before[k]);
            }
        }
        assert forall|k: int, l: int| 0 <= k < l < now.len() implies #[trigger] now[k] < #[trigger] now[l] by {
            assert(before[k] == now[k]);
            if l < before.len() {
                assert(before[l] == now[l]);
            }
        }
        assert forall|i: int| 0 <= i < n && needs(work, #[trigger] statuses[i]) implies now.contains(i as usize) by {
            if i < n - 1 {
                let k = choose|k: int| 0 <= k < before.len() && before[k] == i as usize;
                assert(now[k] == i as usize);
            } else {
                assert(now[before.len() as int] == i as usize);
            }
        }
        if now.len() == 0 {
            assert forall|i: int| 0 <= i < n implies !needs(work, #[trigger] statuses[i]) by {
                if i < n - 1 {
                    assert(before.len() == 0);
                }
            }
        }
    }
}

/// No map that is in the assets is left out of the loaded maps when the loader finishes:
/// in the frame the loader is done, every present map is recorded already or recorded in
/// that frame.
pub proof fn done_loader_recorded_every_map(statuses: Seq<MapStatus>, i: int)
    requires
        statuses.len() <= usize::MAX,
        forall|k: int| 0 <= k < statuses.len() ==> map_done(#[trigger] statuses[k]),
        0 <= i < statuses.len(),
        statuses[i] is Present,
    ensures
        statuses[i] matches MapStatus::Present { loaded, recorded, .. } && loaded && (recorded
            || positions_needing(statuses, statuses.len(), MapWork::Record).contains(i as usize)),
{
    assert(map_done(statuses[i]));
    planned_positions_are_the_entries_needing_work(statuses, statuses.len(), MapWork::Record);
}

/// The folder as seen in the next frame, once the loader's work of this frame took effect:
/// the same entries, every present map now with its textures requested and recorded, and no
/// texture that had loaded unloaded.
pub open spec fn frame_took_effect(before: Seq<MapStatus>, after: Seq<MapStatus>) -> bool {
    &&& after.len() == before.len()
    &&& forall|i: int| 0 <= i < before.len() ==> match (#[trigger] before[i], after[i]) {
        (MapStatus::Present { loaded: l0, .. }, MapStatus::Present { requested: q1, loaded: l1, recorded: c1 }) => {
            &&& q1
            &&& c1
            &&& (l0 ==> l1)
        },
        (MapStatus::Present { .. }, _) => false,
        (s0, s1) => s0 == s1,
    }
}

/// Each map is requested and recorded at most once while its textures stay requested: once a
/// frame's work took effect, the next frame has nothing to request or record.
pub proof fn maps_are_prepared_once(before: Seq<MapStatus>, after: Seq<MapStatus>)
    requires
        after.len() <= usize::MAX,
        frame_took_effect(before, after),
    ensures
        positions_needing(after, after.len(), MapWork::Request).len() == 0,
        positions_needing(after, after.len(), MapWork::Record).len() == 0,
{
    assert forall|i: int| 0 <= i < after.len() implies
        !needs(MapWork::Request, #[trigger] after[i]) && !needs(MapWork::Record, after[i]) by {
        // The frame's effect on entry `i`, as `frame_took_effect` states it.
        let _ = before[i];
    }
    planned_positions_are_the_entries_needing_work(after, after.len(), MapWork::Request);
    planned_positions_are_the_entries_needing_work(after, after.len(), MapWork::Record);
}

/// A map recorded as loaded is found again by its id, and recording it leaves the other
/// maps as they were.
pub proof fn recorded_map_is_found<H>(maps: Map<u16, H>, id: u16, handle: H, other: u16)
    ensures
        maps.insert(id, handle).contains_key(id),
        maps.insert(id, handle)[id] == handle,
        other != id ==> (maps.insert(id, handle).contains_key(other) == maps.contains_key(other)),
        other != id && maps.contains_key(other) ==> maps.insert(id, handle)[other] == maps[other],
{
}

/// A Resource that holds the handles of the loaded game maps.
#[derive(Debug, Clone)]
pub struct GameMaps<H> {
    /// a map from game map id to the handle of the game map.
    pub handles: HashMap<u16, H>,
}

impl<H> GameMaps<H> {
    /// No map is loaded yet.
    pub fn new() -> (maps: Self)
        ensures
            maps.handles@ == Map::<u16, H>::empty(),
    {
        GameMaps { handles: HashMap::new() }
    }

    /// Records that the map `id` is loaded, with its handle.
    pub fn insert(&mut self, id: u16, handle: H)
        ensures
            final(self).handles@ == old(self).handles@.insert(id, handle),
    {
        self.handles.insert(id, handle);
    }

    /// The handle of the map `id`, if that map is loaded.
    pub fn get(&self, id: u16) -> (handle: Option<&H>)
        ensures
            match handle {
                Some(h) => self.handles@.contains_key(id) && *h == self.handles@[id],
                None => !self.handles@.contains_key(id),
            },
    {
        self.handles.get(&id)
    }
}

impl<H> Default for GameMaps<H> {
    fn default() -> (maps: Self)
        ensures
            maps.handles@ == Map::<u16, H>::empty(),
    {
        GameMaps::new()
    }
}

} // verus!
