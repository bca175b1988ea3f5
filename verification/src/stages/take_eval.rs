//! The stage `take_eval`: the evaluation half of a split.

use vstd::prelude::*;

use crate::artifact::{DatasetJsonl, DatasetSplit};
use crate::error::{StageError, StageErrorView};
use crate::framework::Stage;
use crate::stages::take_train;
use crate::stages::take_train::check_half;

verus! {

/// The name of the stage.
pub const NAME: &'static str = "take_eval";

/// The stage.
pub struct TakeEval;

impl Stage for TakeEval {
    const NAME: &'static str = NAME;

    const SCHEMA: u32 = 1;

    const DETERMINISTIC: bool = true;
}

/// There are no arguments.
#[derive(Clone, Copy, Debug, PartialEq, Eq)]
pub struct Args {}

impl TakeEval {
    /// The evaluation half, unchanged. It may not be empty.
    pub fn run(&self, input: DatasetSplit) -> (r: Result<DatasetJsonl, StageError>)
        ensures
            match r {
                Ok(d) => input.eval.n_examples > 0 && d == input.eval,
                Err(e) => input.eval.n_examples <= 0 && e@ == StageErrorView::BadInput(
                    take_train::empty_half("take_eval"@, "eval"@, input.eval.n_examples as int),
                ),
            },
    {
        match check_half("take_eval", "eval", &input.eval) {
            Ok(_) => Ok(input.eval),
            Err(e) => Err(e),
        }
    }
}

} // verus!
