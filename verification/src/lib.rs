//! A single-player terminal role-playing simulation core.
//!
//! A deterministic world generator produces two traversable dungeon levels
//! from a numeric seed; a central controller advances the game phases in
//! response to discrete player actions; an entity/inventory model tracks
//! equipment, consumables and time-limited buffs; a battle engine resolves
//! turn order, damage and special outcomes; a dialogue/quest engine gates
//! NPC interactions behind persistent flags.
//!
//! Terminal rendering, audio and raw keyboard capture are external
//! collaborators: the core exposes a pure mutation entry point
//! (`World::apply_action`) consumed by an external input loop, and read-only
//! state consumed by an external renderer.

pub mod action;
pub mod battle;
pub mod chance;
pub mod control;
pub mod dialogue;
pub mod entity;
pub mod gamemap;
pub mod generator;
pub mod num;
pub mod rng;
pub mod strutil;
pub mod tile;
pub mod world;
