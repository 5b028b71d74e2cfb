//! The game environment: which maps it loads and where the world's pieces stand.

use vstd::prelude::*;

/// Map loading: map data, the loader's decisions and the loaded maps resource.
pub mod map_loader;
/// Custom properties of the environment's tiles.
pub mod props;

use crate::environment::map_loader::{GameMap, GameMapsLoaderPlugin, Puzzle, PuzzlePart};
use crate::{spec_next_state, GameEvent, GameState};

verus! {

/// The id of the map the world is built from (the arena).
pub const ARENA_MAP_ID: u16 = 1005;

/// The side of a puzzle part's texture, in world units (256 pixels at one pixel per unit).
pub const TEXTURE_SIZE: i32 = 256;

/// Half the side of a puzzle part's texture, in world units.
pub const HALF_TEXTURE_SIZE: i32 = 128;

/// Game Environment Plugin to organize environment related systems
#[derive(Default, Debug, Copy, Clone)]
pub struct EnvironmentPlugin;

impl EnvironmentPlugin {
    /// The map loader the environment uses: maps are loaded on entering
    /// `LoadingEnvironmentMaps`, and the game then continues to `LoadingPlayerAssets`.
    pub fn maps_loader(&self) -> (loader: GameMapsLoaderPlugin<GameState>)
        ensures
            loader.maps@ == "maps"@,
            loader.on_enter == GameState::LoadingEnvironmentMaps,
            loader.continue_to_state == GameState::LoadingPlayerAssets,
            spec_next_state(loader.on_enter, GameEvent::MapsLoaded) == Some(loader.continue_to_state),
    {
        GameMapsLoaderPlugin::new(GameState::LoadingEnvironmentMaps, GameState::LoadingPlayerAssets)
    }
}

/// Where a puzzle part's tile stands on the ground: its centre, in world units, on the x
/// and z axes, together with the part's own grid coordinates.
#[derive(Debug, Clone, Copy, PartialEq, Eq, Structural)]
pub struct PartPlacement {
    /// The x coordinate of the tile's centre.
    pub x: i32,
    /// The z coordinate of the tile's centre.
    pub z: i32,
    /// The x grid coordinate of the part.
    pub part_x: u16,
    /// The y grid coordinate of the part.
    pub part_y: u16,
}

/// The placement of `part` of `puzzle`: a part sits at its grid position times the
/// texture size, shifted back by half the puzzle's extent. The puzzle thus ends up half a tile
/// off centre, towards `-x` and `-z`: a puzzle one tile wide has its tile's centre at `-128`.
pub open spec fn place(puzzle: Puzzle, part: PuzzlePart) -> PartPlacement {
    PartPlacement {
        x: (part.x * TEXTURE_SIZE - puzzle.width * HALF_TEXTURE_SIZE) as i32,
        z: (part.y * TEXTURE_SIZE - puzzle.height * HALF_TEXTURE_SIZE) as i32,
        part_x: part.x,
        part_y: part.y,
    }
}

/// The placements of the parts of `puzzle`, in the order of its parts.
pub open spec fn puzzle_placements(puzzle: Puzzle) -> Seq<PartPlacement> {
    puzzle.parts@.map_values(|part: PuzzlePart| place(puzzle, part))
}

/// The placements of all parts of `puzzles`, puzzle after puzzle.
pub open spec fn placements(puzzles: Seq<Puzzle>) -> Seq<PartPlacement>
    decreases puzzles.len(),
{
    if puzzles.len() == 0 {
        seq![]
    } else {
        placements(puzzles.drop_last()) + puzzle_placements(puzzles.last())
    }
}

/// Where each part of each puzzle of `map` is laid out when the world is built, puzzle
/// after puzzle and part after part.
pub fn part_placements(map: &GameMap) -> (laid: Vec<PartPlacement>)
    ensures
        laid@ == placements(map.puzzles@),
{
    let mut laid: Vec<PartPlacement> = Vec::new();
    let mut i: usize = 0;
    while i < map.puzzles.len()
        invariant
            i <= map.puzzles@.len(),
            laid@ == placements(map.puzzles@.take(i as int)),
        decreases map.puzzles@.len() - i,
    {
        let puzzle = &map.puzzles[i];
        let ghost before = laid@;
        let mut j: usize = 0;
        while j < puzzle.parts.len()
            invariant
                j <= puzzle.parts@.len(),
                laid@ == before + puzzle.parts@.take(j as int).map_values(|part: PuzzlePart| place(*puzzle, part)),
            decreases puzzle.parts@.len() - j,
        {
            let part = &puzzle.parts[j];
            let x: i32 = (part.x as i32) * TEXTURE_SIZE - (puzzle.width as i32) * HALF_TEXTURE_SIZE;
            let z: i32 = (part.y as i32) * TEXTURE_SIZE - (puzzle.height as i32) * HALF_TEXTURE_SIZE;
            laid.push(PartPlacement { x, z, part_x: part.x, part_y: part.y });
            assert(puzzle.parts@.take(j + 1) == puzzle.parts@.take(j as int).push(*part));
            j += 1;
        }
        assert(puzzle.parts@.take(j as int) == puzzle.parts@);
        assert(map.puzzles@.take(i + 1).drop_last() == map.puzzles@.take(i as int));
        i += 1;
    }
    assert(map.puzzles@.take(i as int) == map.puzzles@);
    laid
}

} // verus!
