//! The stage `distill_train`: kept so that old recipes fail with guidance.

use vstd::prelude::*;

use crate::artifact::{DatasetJsonl, HfCheckpoint};
use crate::error::{bad_input, StageError, StageErrorView};
use crate::framework::Stage;
use crate::number::Real;

verus! {

/// The name of the stage.
pub const NAME: &'static str = "distill_train";

/// The stage.
pub struct DistillTrain;

impl Stage for DistillTrain {
    const NAME: &'static str = NAME;

    const SCHEMA: u32 = 1;

    const DETERMINISTIC: bool = true;
}

/// The arguments.
#[derive(Debug, PartialEq, Eq)]
pub struct Args {
    pub student_base: String,
    pub output_name: String,
    pub kl_weight: Real,
    pub lr: Real,
    pub epochs: u32,
    pub batch_size: u32,
    pub grad_accum: u32,
    pub seq_len: u32,
    pub seed: u64,
}

/// What the stage says instead of training.
pub const REMOVED: &'static str =
    "the trainer_distill.py stub was removed (ADR 0037 Stage 5) — use the blut-lamu distill_bitnet stage (ternary) or hf_sft_train (HF-base) instead";

impl DistillTrain {
    /// Refuses every run, and says what to use instead.
    pub fn run(&self, _input: &(HfCheckpoint, DatasetJsonl), _args: &Args) -> (r: Result<HfCheckpoint, StageError>)
        ensures
            r matches Err(e) && e@ == StageErrorView::BadInput(REMOVED@),
    {
        Err(bad_input(REMOVED))
    }
}

} // verus!
