//! A tile-based dungeon toolkit: room layout generation, corridor routing,
//! rasterization into a tile grid, door insertion, a per-turn spatial index,
//! visibility bookkeeping, and the grid adapter consumed by shortest-path
//! search and field-of-view sweeps.

pub mod components;
pub mod config;
pub mod corridors;
pub mod dungeon;
pub mod geometry;
pub mod index;
pub mod map;
pub mod monster;
pub mod monster_ai;
pub mod player;
pub mod rng;
pub mod rooms;
pub mod state;
pub mod visibility;

pub use geometry::Point;
pub use geometry::Rect;
