//! Core simulation logic for a top-down farming game.
//!
//! The library covers the two load-bearing pieces of the simulation and the
//! small controllers around them:
//!
//! - a soil layer: a fixed-size grid of cells that are either untilled or
//!   tilled ([`soil`]), together with the autotiling classifier that turns a
//!   cell's eight-neighbor occupancy into a visual variant id ([`autotile`]);
//! - the player: a movement controller that turns directional key signals
//!   into a velocity direction ([`motion`]), a sprite-frame indexer
//!   ([`anim`]), and the `Normal`/`UsingTool` action state machine that gates
//!   them and emits till requests ([`player`]);
//! - the resolver that picks the grid cell targeted by the cursor
//!   ([`select`]) and the registry of level entity identifiers ([`level`]).
//!
//! Rendering, physics integration, asset loading and raw input polling are
//! external collaborators: the library only consumes plain values sampled
//! from them (booleans, positions, time deltas) and hands plain values back
//! (velocity directions, texture variant ids, till requests).

pub mod anim;
pub mod autotile;
pub mod level;
pub mod motion;
pub mod player;
pub mod select;
pub mod soil;
