//! The stage `eval_lm_harness`: benchmark scores by lm-evaluation-harness. Its
//! subprocess is not there yet, so the stage refuses to run rather than invent
//! scores.

use vstd::prelude::*;

use crate::artifact::{DatasetJsonl, EvalReport, HfCheckpoint};
use crate::error::{bad_input, StageError, StageErrorView};
use crate::framework::Stage;

verus! {

/// The name of the stage.
pub const NAME: &'static str = "eval_lm_harness";

/// The stage.
pub struct EvalLmHarness;

impl Stage for EvalLmHarness {
    const NAME: &'static str = NAME;

    const SCHEMA: u32 = 2;

    const DETERMINISTIC: bool = true;
}

/// The arguments.
#[derive(Debug, PartialEq, Eq)]
pub struct Args {
    pub tasks: Vec<String>,
    pub num_fewshot: u32,
}

/// The number of examples in a prompt where none is given.
pub fn default_num_fewshot() -> (n: u32)
    ensures
        n == 0,
{
    0
}

/// Why the stage refuses to run.
pub const NOT_IMPLEMENTED: &'static str =
    "eval_lm_harness is not implemented: it would run EleutherAI lm-evaluation-harness, and that subprocess is not wired yet. It no longer returns placeholder scores. Run lm_eval against the checkpoint directly until it lands.";

impl EvalLmHarness {
    /// Refuses every run: one without tasks for that, any other because there is
    /// no harness to run.
    pub fn run(&self, _input: &(HfCheckpoint, DatasetJsonl), args: &Args) -> (r: Result<
        EvalReport,
        StageError,
    >)
        ensures
            r matches Err(e) && e@ == StageErrorView::BadInput(
                if args.tasks@.len() == 0 {
                    "eval_lm_harness: tasks list must be non-empty"@
                } else {
                    NOT_IMPLEMENTED@
                },
            ),
    {
        if args.tasks.len() == 0 {
            return Err(bad_input("eval_lm_harness: tasks list must be non-empty"));
        }
        Err(bad_input(NOT_IMPLEMENTED))
    }
}

} // verus!
