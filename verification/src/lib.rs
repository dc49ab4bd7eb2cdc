//! The rules of a turn-based arcade game on a grid of tiles: a player
//! crosses the board, jumps to rescue birds, and must not be hit by the
//! logs that roll across it.
//!
//! The library is the simulation alone. A session is advanced one tick at a
//! time from the player's requests and the time that has passed, and tells
//! the outside what happened. Positions are fixed-point and times are in
//! microseconds. Every function is verified against its contract, but for
//! the calls into the engine's hash map in `bird_map`, whose contracts are
//! taken on trust.
//!
//! - `vector`: points in world units and cells of the board.
//! - `collision_system`: axis-aligned bounding boxes and the collision scan.
//! - `game`: directions, lanes of logs, levels, the game and its board rules.
//! - `bird_map`: the map from cells to birds, kept in the engine's hash map.
//! - `logs`: the scheduler that spawns logs by the turn counter.
//! - `timer`, `easing`: countdowns, interpolation and the easing curves.
//! - `turn`: the phases of a turn.
//! - `resolution`: rescues, collisions, and how a game is won or lost.
//! - `session`: the session and its tick.
//! - `color`: colour codes.

pub mod vector;
pub mod states;
pub mod timer;
pub mod easing;
pub mod collision_system;
pub mod bird_map;
pub mod game;
pub mod logs;
pub mod turn;
pub mod resolution;
pub mod session;
pub mod color;
