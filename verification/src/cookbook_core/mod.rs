//! The core cookbook: generic recipes built from swappable ingredients.

pub mod recipes;
pub mod stages;
