//! Core simulation of a clock-face dungeon crawler: a ring of eight sectors
//! around a clock, each with four spawn slots, a timer-gated battle resolver,
//! drop-table sampling, spell effects, and fixed-capacity inventory stacks.
//!
//! All game arithmetic is integer fixed point: probabilities, defense values
//! and stat multipliers are expressed in thousandths (per-mille).

pub mod battle;
pub mod chests;
pub mod drops;
pub mod enemy;
pub mod game;
pub mod inventory;
pub mod items;
pub mod rng;
pub mod sectors;
pub mod spells;
pub mod stack;
pub mod timer;
