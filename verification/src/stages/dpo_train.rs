//! The stage `dpo_train`: kept so that old recipes fail with guidance.

use vstd::prelude::*;

use crate::artifact::{HfCheckpoint, PreferenceJsonl};
use crate::error::{bad_input, StageError, StageErrorView};
use crate::framework::Stage;
use crate::number::Real;

verus! {

/// The name of the stage.
pub const NAME: &'static str = "dpo_train";

/// The stage.
pub struct DpoTrain;

impl Stage for DpoTrain {
    const NAME: &'static str = NAME;

    const SCHEMA: u32 = 1;

    const DETERMINISTIC: bool = true;
}

/// The arguments.
#[derive(Debug, PartialEq, Eq)]
pub struct Args {
    pub base_model: String,
    pub output_name: String,
    pub beta: Real,
    pub lr: Real,
    pub epochs: u32,
    pub batch_size: u32,
    pub grad_accum: u32,
    pub seq_len: u32,
    pub seed: u64,
}

/// What the stage says instead of training.
pub const REMOVED: &'static str =
    "the trainer_dpo.py stub was removed (ADR 0037 Stage 5) — use hf_dpo_train (trl DPOTrainer) instead";

impl DpoTrain {
    /// Refuses every run, and says what to use instead.
    pub fn run(&self, _input: &PreferenceJsonl, _args: &Args) -> (r: Result<HfCheckpoint, StageError>)
        ensures
            r matches Err(e) && e@ == StageErrorView::BadInput(REMOVED@),
    {
        Err(bad_input(REMOVED))
    }
}

} // verus!
