//! The recipes of the standard cookbook.

pub mod study_fixture;

pub use study_fixture::{StudyFixtureRecipe, StudyFixtureStage};
