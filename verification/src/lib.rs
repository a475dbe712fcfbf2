//! Core logic of a small sprite-sheet driven summoning game.
//!
//! The crate resolves an Aseprite-style sheet export (frames, slices, tags)
//! into addressable frame tables, spawns level entities from slice metadata,
//! and runs the per-tick interaction engine (hover, click, pickup, recipe
//! stack, lifetimes, motion) over an entity store. Rendering, windowing and
//! input polling are left to the surrounding application; this crate only
//! decides, on plain values, what each tick does.

pub mod atlas;
pub mod components;
pub mod engine;
pub mod geom;
pub mod json;
pub mod loader;
pub mod render;
pub mod sheet;
pub mod spawner;
pub mod store;
