//! Core simulation of a grid-based climbing puzzle game.
//!
//! A player navigates a stepped height map, spending a limited stamina
//! budget, placing and retrieving equipment (ladders, ropes, teleport
//! runes) to reach a goal tile. The crate verifies the movement rule
//! engine, the equipment occupancy maps, and the event-sourced undo log
//! that exactly reverses every committed mutation.
//!
//! Rendering, audio and input decoding are presentation concerns that sit
//! outside this crate: they observe the session state and feed it abstract
//! commands.

pub mod direction;
pub mod equipment;
pub mod history;
pub mod inventory;
pub mod level;
pub mod map;
pub mod player;
pub mod rune;
pub mod session;
pub mod states;
