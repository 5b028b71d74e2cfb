//! Contains custom properties for the environment.

use vstd::prelude::*;

verus! {

/// A Custom Property Component for spawning entities at a specific tile.
#[derive(Debug, Clone, Copy, PartialEq, Eq, Structural)]
pub struct SpawnPoint {
    /// The entity kind
    pub kind: SpawnPointKind,
}

/// The Kind of entity to spawn at a specific tile.
#[derive(Debug, Clone, Copy, PartialEq, Eq, Structural)]
pub enum SpawnPointKind {
    /// Unknown entity type
    Unknown,
    /// The player entity
    Player,
    /// An enemy entity
    Enemy,
}

impl Default for SpawnPointKind {
    fn default() -> (kind: Self)
        ensures
            kind == SpawnPointKind::Unknown,
    {
        SpawnPointKind::Unknown
    }
}

impl Default for SpawnPoint {
    fn default() -> (point: Self)
        ensures
            point.kind == SpawnPointKind::Unknown,
    {
        SpawnPoint { kind: SpawnPointKind::Unknown }
    }
}

} // verus!
