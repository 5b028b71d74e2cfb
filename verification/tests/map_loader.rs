use project_z::environment::map_loader::{
    plan_map_setup, GameMap, GameMaps, GameMapsLoaderPlugin, MapStatus, MapVersion, Puzzle, PuzzlePart,
    PuzzleVersion, TextureHandle,
};
use project_z::environment::props::{SpawnPoint, SpawnPointKind};
use project_z::environment::{part_placements, EnvironmentPlugin, PartPlacement, ARENA_MAP_ID};
use project_z::GameState;

fn part(x: u16, y: u16, texture: TextureHandle) -> PuzzlePart {
    PuzzlePart { x, y, texture_path: format!("tiles/{x}_{y}.png"), texture }
}

fn sample_map(texture: TextureHandle) -> GameMap {
    GameMap {
        version: MapVersion::V1,
        id: 1005,
        width: 4,
        height: 2,
        puzzles: vec![
            Puzzle {
                version: PuzzleVersion::V1,
                width: 2,
                height: 1,
                parts: vec![part(0, 0, texture), part(1, 0, texture)],
            },
            Puzzle {
                version: PuzzleVersion::V2,
                width: 1,
                height: 3,
                parts: vec![part(0, 2, texture)],
            },
        ],
    }
}

#[test]
fn map_is_loaded_only_when_every_texture_has_loaded() {
    assert!(sample_map(TextureHandle::Loaded).is_loaded());
    assert!(!sample_map(TextureHandle::Loading).is_loaded());
    assert!(!sample_map(TextureHandle::Weak).is_loaded());
    let mut map = sample_map(TextureHandle::Loaded);
    map.puzzles[1].parts[0].texture = TextureHandle::Loading;
    assert!(!map.is_loaded());
    assert!(map.textures_requested());
    map.puzzles[0].parts[1].texture = TextureHandle::Weak;
    assert!(!map.textures_requested());
}

#[test]
fn requested_textures_need_strong_handles_only() {
    assert!(sample_map(TextureHandle::Loading).textures_requested());
    assert!(sample_map(TextureHandle::Loaded).textures_requested());
    assert!(!sample_map(TextureHandle::Weak).textures_requested());
}

#[test]
fn map_without_parts_is_loaded() {
    let mut map = sample_map(TextureHandle::Weak);
    map.puzzles.clear();
    assert!(map.is_loaded());
    assert!(map.textures_requested());
    let mut map = sample_map(TextureHandle::Weak);
    for puzzle in map.puzzles.iter_mut() {
        puzzle.parts.clear();
    }
    assert!(map.is_loaded());
}

#[test]
fn defaults_of_map_data() {
    assert_eq!(MapVersion::default(), MapVersion::V1);
    assert_eq!(PuzzleVersion::default(), PuzzleVersion::V1);
    assert_eq!(TextureHandle::default(), TextureHandle::Weak);
    assert_eq!(SpawnPoint::default().kind, SpawnPointKind::Unknown);
    assert_eq!(SpawnPointKind::default(), SpawnPointKind::Unknown);
    let part = PuzzlePart::default();
    assert_eq!((part.x, part.y, part.texture_path.as_str(), part.texture), (0, 0, "", TextureHandle::Weak));
    let puzzle = Puzzle::default();
    assert_eq!((puzzle.version, puzzle.width, puzzle.height, puzzle.parts.len()), (PuzzleVersion::V1, 0, 0, 0));
    let map = GameMap::default();
    assert_eq!((map.version, map.id, map.width, map.height, map.puzzles.len()), (MapVersion::V1, 0, 0, 0, 0));
}

fn present(requested: bool, loaded: bool, recorded: bool) -> MapStatus {
    MapStatus::Present { requested, loaded, recorded }
}

#[test]
fn plan_requests_and_records_what_is_missing() {
    let statuses = vec![
        MapStatus::NotAMap,
        present(false, false, false),
        MapStatus::NotInAssets,
        present(true, false, true),
        present(true, true, false),
        present(false, false, true),
    ];
    let plan = plan_map_setup(&statuses);
    assert_eq!(plan.to_request, vec![1, 5]);
    assert_eq!(plan.to_record, vec![1, 4, 5]);
    assert!(!plan.all_loaded);
}

#[test]
fn map_without_parts_is_still_recorded() {
    let mut map = sample_map(TextureHandle::Weak);
    map.puzzles.clear();
    let status = present(map.textures_requested(), map.is_loaded(), false);
    let plan = plan_map_setup(&vec![status]);
    assert!(plan.to_request.is_empty());
    assert_eq!(plan.to_record, vec![0]);
    assert!(plan.all_loaded);
    let plan = plan_map_setup(&vec![present(true, true, true)]);
    assert!(plan.to_record.is_empty());
    assert!(plan.all_loaded);
}

#[test]
fn requested_map_is_recorded_again() {
    let plan = plan_map_setup(&vec![present(false, false, true)]);
    assert_eq!(plan.to_request, vec![0]);
    assert_eq!(plan.to_record, vec![0]);
    assert!(!plan.all_loaded);
}

#[test]
fn plan_waits_for_images_to_load() {
    let plan = plan_map_setup(&vec![present(true, false, true)]);
    assert!(plan.to_request.is_empty() && plan.to_record.is_empty());
    assert!(!plan.all_loaded);
}

#[test]
fn second_frame_prepares_nothing_again() {
    let first = vec![present(false, false, false), MapStatus::NotAMap, present(false, false, false)];
    let plan = plan_map_setup(&first);
    assert_eq!(plan.to_request, vec![0, 2]);
    assert_eq!(plan.to_record, vec![0, 2]);
    let second = vec![present(true, true, true), MapStatus::NotAMap, present(true, false, true)];
    let plan = plan_map_setup(&second);
    assert!(plan.to_request.is_empty() && plan.to_record.is_empty());
    assert!(!plan.all_loaded);
    let third = vec![present(true, true, true), MapStatus::NotAMap, present(true, true, true)];
    assert!(plan_map_setup(&third).all_loaded);
}

#[test]
fn plan_is_done_when_every_map_is_loaded() {
    let statuses = vec![MapStatus::NotAMap, present(true, true, true), MapStatus::NotInAssets];
    let plan = plan_map_setup(&statuses);
    assert!(plan.to_request.is_empty());
    assert!(plan.to_record.is_empty());
    assert!(plan.all_loaded);
    let plan = plan_map_setup(&Vec::new());
    assert!(plan.to_request.is_empty());
    assert!(plan.all_loaded);
}

#[test]
fn loaded_map_is_found_by_id() {
    let mut maps: GameMaps<&str> = GameMaps::default();
    assert_eq!(maps.get(ARENA_MAP_ID), None);
    maps.insert(ARENA_MAP_ID, "arena");
    maps.insert(7, "other");
    assert_eq!(maps.get(ARENA_MAP_ID), Some(&"arena"));
    assert_eq!(maps.get(7), Some(&"other"));
    maps.insert(ARENA_MAP_ID, "arena again");
    assert_eq!(maps.get(ARENA_MAP_ID), Some(&"arena again"));
    assert_eq!(maps.get(8), None);
    let empty: GameMaps<u8> = GameMaps::new();
    assert!(empty.handles.is_empty());
}

#[test]
fn loader_settings() {
    let loader = GameMapsLoaderPlugin::new(GameState::LoadingEnvironmentMaps, GameState::LoadingPlayerAssets);
    assert_eq!(loader.maps, "maps");
    let loader = loader.with_maps("levels");
    assert_eq!(loader.maps, "levels");
    assert_eq!(loader.on_enter, GameState::LoadingEnvironmentMaps);
    assert_eq!(loader.continue_to_state, GameState::LoadingPlayerAssets);
    let env = EnvironmentPlugin.maps_loader();
    assert_eq!(env.maps, "maps");
    assert_eq!(env.on_enter, GameState::LoadingEnvironmentMaps);
    assert_eq!(env.continue_to_state, GameState::LoadingPlayerAssets);
}

#[test]
fn parts_are_laid_out_centred_on_their_puzzle() {
    let placements = part_placements(&sample_map(TextureHandle::Loaded));
    assert_eq!(
        placements,
        vec![
            PartPlacement { x: -256, z: -128, part_x: 0, part_y: 0 },
            PartPlacement { x: 0, z: -128, part_x: 1, part_y: 0 },
            PartPlacement { x: -128, z: 128, part_x: 0, part_y: 2 },
        ]
    );
}

#[test]
fn extreme_coordinates_are_laid_out_exactly() {
    let map = GameMap {
        version: MapVersion::V1,
        id: 1,
        width: u16::MAX,
        height: u16::MAX,
        puzzles: vec![Puzzle {
            version: PuzzleVersion::V1,
            width: u16::MAX,
            height: 0,
            parts: vec![part(u16::MAX, u16::MAX, TextureHandle::Weak), part(0, 0, TextureHandle::Weak)],
        }],
    };
    let placements = part_placements(&map);
    assert_eq!(placements[0], PartPlacement { x: 65535 * 256 - 65535 * 128, z: 65535 * 256, part_x: 65535, part_y: 65535 });
    assert_eq!(placements[1], PartPlacement { x: -65535 * 128, z: 0, part_x: 0, part_y: 0 });
}
