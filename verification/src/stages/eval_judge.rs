//! The stage `eval_judge`: scores by a judge model. The call of the judge is not
//! there yet, so the stage refuses to run rather than invent scores.

use vstd::prelude::*;
use vstd::string::*;

use crate::artifact::{DatasetJsonl, EvalReport, HfCheckpoint};
use crate::error::{bad_input, StageError, StageErrorView};
use crate::framework::Stage;
use crate::text;
use crate::text::decimal_int_text;

verus! {

/// The name of the stage.
pub const NAME: &'static str = "eval_judge";

/// The stage.
pub struct EvalJudge;

impl Stage for EvalJudge {
    const NAME: &'static str = NAME;

    const SCHEMA: u32 = 2;

    const DETERMINISTIC: bool = true;
}

/// The arguments.
#[derive(Debug, PartialEq, Eq)]
pub struct Args {
    pub judge_model: String,
    /// Empty: the first lines of the dataset.
    pub prompts: Vec<String>,
    pub n_samples: u32,
}

/// The number of samples where none is given.
pub fn default_n_samples() -> (n: u32)
    ensures
        n == 20,
{
    20
}

/// Why the stage refuses to run.
pub const NOT_IMPLEMENTED: &'static str =
    "eval_judge is not implemented: the judge-model call is not wired yet. It no longer returns placeholder scores. Use eval_loss for a measured held-out loss and perplexity.";

/// What is said of an input and arguments.
pub open spec fn complaint(ds: DatasetJsonl, args: Args) -> Seq<char> {
    if ds.n_examples < 0 {
        "eval_judge: dataset n_examples "@ + text::decimal_int(ds.n_examples as int)
            + " is negative"@
    } else if args.judge_model@.len() == 0 {
        "eval_judge: judge_model is empty"@
    } else if args.n_samples == 0 && args.prompts@.len() == 0 {
        "eval_judge: either n_samples > 0 or prompts must be non-empty"@
    } else {
        NOT_IMPLEMENTED@
    }
}

impl EvalJudge {
    /// Refuses every run: bad arguments for what is wrong with them, good ones
    /// because there is no judge to ask.
    pub fn run(&self, input: &(HfCheckpoint, DatasetJsonl), args: &Args) -> (r: Result<
        EvalReport,
        StageError,
    >)
        ensures
            r matches Err(e) && e@ == StageErrorView::BadInput(complaint(input.1, *args)),
    {
        if input.1.n_examples < 0 {
            return Err(
                bad_input(
                    "eval_judge: dataset n_examples ".to_string().concat(
                        decimal_int_text(input.1.n_examples).as_str(),
                    ).concat(" is negative").as_str(),
                ),
            );
        }
        if args.judge_model.as_str().is_empty() {
            return Err(bad_input("eval_judge: judge_model is empty"));
        }
        if args.n_samples == 0 && args.prompts.len() == 0 {
            return Err(
                bad_input("eval_judge: either n_samples > 0 or prompts must be non-empty"),
            );
        }
        Err(bad_input(NOT_IMPLEMENTED))
    }
}

/// Good arguments are refused because there is no judge, and bad ones for what is wrong
/// with them, the first thing found.
pub proof fn lemma_good_arguments_are_told_there_is_no_judge(ds: DatasetJsonl, args: Args)
    ensures
        ds.n_examples >= 0 && args.judge_model@.len() > 0 && (args.n_samples > 0
            || args.prompts@.len() > 0) ==> complaint(ds, args) == NOT_IMPLEMENTED@,
        ds.n_examples < 0 ==> text::occurs_in(
            complaint(ds, args),
            text::decimal_int(ds.n_examples as int),
        ),
        ds.n_examples >= 0 && args.judge_model@.len() == 0 ==> complaint(ds, args)
            == "eval_judge: judge_model is empty"@,
        ds.n_examples >= 0 && args.judge_model@.len() > 0 && args.n_samples == 0
            && args.prompts@.len() == 0 ==> complaint(ds, args)
            == "eval_judge: either n_samples > 0 or prompts must be non-empty"@,
{
    text::lemma_a_part_occurs(
        "eval_judge: dataset n_examples "@,
        text::decimal_int(ds.n_examples as int),
        " is negative"@,
    );
}

} // verus!
