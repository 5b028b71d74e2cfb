# Project Z

A prototype MMORPG built on the Bevy engine. The game's logic is a Verus-verified
library (`src/`); the Bevy application around it (`app/`) reads the world, asks the
library what to do and applies the answer.

## Layout

- `src/lib.rs`: the game's states and the events that move it from one to the next.
- `src/assets.rs`: the asset loading sub-states.
- `src/environment.rs`: the environment's map loader settings and where each puzzle part
  of the arena map is laid out.
- `src/environment/map_loader.rs`: map data, when a map counts as loaded, what a frame of
  the map loader does, and the table of loaded maps.
- `src/environment/props.rs`: spawn point properties.
- `src/player/input.rs`: the player's actions, their default bindings, and what held
  actions ask of the character controller.
- `src/player/animations.rs`: animation states and their names, the state-to-node table,
  the state the controller calls for, and how a change of state is played.
- `src/sprite_3d.rs`: the vertex and index layout of a 3D sprite's quad.
- `src/window.rs`: the window title and icon.
- `src/dev_tools.rs`: the development tools and screenshot file names.
- `app/`: the Bevy application: plugins, systems, rendering, physics and I/O.
- `tests/`: tests of the library.
