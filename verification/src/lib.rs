//! A character-building calculator for a tabletop role-playing game.
//!
//! The library tracks a character's progression across twenty levels and
//! derives dependent statistics from a per-level plan of choices: cumulative
//! ability boosts, cumulative skill-training ranks, and final skill modifiers
//! (ability modifier plus level-dependent proficiency bonus).

pub mod skills;
pub mod state;
