//! The training backends that the stages drive.
//!
//! A stage is tied to the backends it is compatible with; a recipe names one
//! backend, and only stages compatible with it can be part of its plan.

use vstd::prelude::*;

use crate::framework::TrainingBackend;

pub mod hf_trainer;
pub mod lamu;

verus! {

/// HuggingFace Trainer: a Python wrapper around `transformers.Trainer` and
/// `trl.DPOTrainer`, in a venv of its own.
pub struct HfTrainerBackend;

impl TrainingBackend for HfTrainerBackend {
    const ID: &'static str = "hf_trainer";

    const DESCRIPTION: &'static str =
        "HuggingFace Trainer (transformers + trl). Auto-managed venv. Default for SFT/DPO/distillation.";
}

/// LAMU's `trainer.py`, which takes a `TrainSpec` and emits `StatusUpdate` lines.
pub struct LamuTrainerBackend;

impl TrainingBackend for LamuTrainerBackend {
    const ID: &'static str = "lamu";

    const DESCRIPTION: &'static str =
        "LAMU trainer.py (TrainSpec JSON / StatusUpdate wire). Original backend.";
}

/// The identifiers of the two backends differ.
pub proof fn lemma_backend_ids_are_unique()
    ensures
        HfTrainerBackend::ID@ != LamuTrainerBackend::ID@,
{
    reveal_strlit("hf_trainer");
    reveal_strlit("lamu");
    assert("hf_trainer"@.len() != "lamu"@.len());
}

} // verus!
