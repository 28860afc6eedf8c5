//! A turn-based combat engine for a two-combatant encounter.
//!
//! The crate models one player-controlled and one computer-controlled
//! combatant, the alternating turn order between them, the damage, armor
//! and dodge arithmetic, the monster's decision rule, and the terminal
//! conditions of the encounter.

pub mod combat;
pub mod entity;
mod rng;
pub mod text;
