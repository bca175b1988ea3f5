//! What a stage, a recipe and a backend declare of themselves.

use vstd::prelude::*;

verus! {

/// The identity of a training backend.
pub trait TrainingBackend {
    /// The stable identifier, used in recipe metadata and cache references.
    const ID: &'static str;

    /// What the backend is, for a reader.
    const DESCRIPTION: &'static str;
}

/// The declarations of a stage.
pub trait Stage {
    /// The name in catalogs, recipes and status events.
    const NAME: &'static str;

    /// The version of the stage's behaviour: results of another version are not reused.
    const SCHEMA: u32;

    /// Whether equal inputs give equal outputs.
    const DETERMINISTIC: bool;
}

/// A stage that may be wired into plans of the backend `B`.
pub trait Compatible<B: TrainingBackend> {

}

/// The declarations of a recipe.
pub trait Recipe {
    /// The name in the catalog.
    const NAME: &'static str;

    /// What the recipe does, for a reader.
    const DESCRIPTION: &'static str;
}

} // verus!
