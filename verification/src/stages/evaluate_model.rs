//! The stage `evaluate_model`: evaluates a checkpoint on a dataset on disk.

use vstd::prelude::*;

use crate::artifact::{EvalReport, HfCheckpoint};
use crate::cookbook_core::stages::shared;
use crate::cookbook_core::stages::shared::IngredientCfg;
use crate::error::{StageError, StageErrorView};
use crate::evaluator;
use crate::evaluator::{check_paths, evaluator_command, finished};
use crate::framework::Stage;
use crate::json;
use crate::json::{add_entry, count_value, object, text_value, Json, JsonView};
use crate::process::{CommandExit, ModuleCommand};
use crate::text;

verus! {

/// The stage.
pub struct EvaluateModel;

impl Stage for EvaluateModel {
    const NAME: &'static str = "evaluate_model";

    const SCHEMA: u32 = 1;

    const DETERMINISTIC: bool = true;
}

/// The arguments.
#[derive(Debug, PartialEq, Eq)]
pub struct Args {
    pub dataset_path: String,
    pub eval: IngredientCfg,
    pub batch_size: u32,
    pub device: String,
}

/// The batch size where none is given.
pub fn default_batch_size() -> (n: u32)
    ensures
        n == 64,
{
    64
}

/// The device where none is given.
pub fn default_device() -> (s: String)
    ensures
        s@ == "cuda"@,
{
    "cuda".to_string()
}

/// The evaluator's configuration.
pub open spec fn config_of(input: HfCheckpoint, args: Args) -> JsonView {
    JsonView::Object(
        seq![
            ("checkpoint_path"@, JsonView::Text(input.path@)),
            ("dataset_path"@, JsonView::Text(args.dataset_path@)),
            ("eval"@, shared::ingredient_json(args.eval@)),
            ("batch_size"@, JsonView::Number(text::decimal(args.batch_size as nat))),
            ("device"@, JsonView::Text(args.device@)),
        ],
    )
}

impl EvaluateModel {
    /// Refuses a checkpoint or a dataset that is not there.
    pub fn check(
        &self,
        input: &HfCheckpoint,
        args: &Args,
        checkpoint_exists: bool,
        dataset_exists: bool,
    ) -> (r: Result<(), StageError>)
        ensures
            ({
                let wrong = evaluator::complaint(
                    input.path@,
                    args.dataset_path@,
                    checkpoint_exists,
                    dataset_exists,
                );
                match r {
                    Ok(_) => wrong is None,
                    Err(e) => wrong is Some && e@ == StageErrorView::BadInput(wrong->0),
                }
            }),
    {
        check_paths(
            input.path.as_str(),
            args.dataset_path.as_str(),
            checkpoint_exists,
            dataset_exists,
        )
    }

    /// The evaluator's configuration.
    pub fn config(&self, input: &HfCheckpoint, args: &Args) -> (c: Json)
        ensures
            c@ == config_of(*input, *args),
    {
        let mut e: Vec<(String, Json)> = Vec::new();
        assert(json::entries_view(e@) =~= Seq::<(Seq<char>, JsonView)>::empty());
        add_entry(&mut e, "checkpoint_path", text_value(input.path.as_str()));
        add_entry(&mut e, "dataset_path", text_value(args.dataset_path.as_str()));
        add_entry(&mut e, "eval", args.eval.to_json());
        add_entry(&mut e, "batch_size", count_value(args.batch_size as u64));
        add_entry(&mut e, "device", text_value(args.device.as_str()));
        assert(json::entries_view(e@) =~= config_of(*input, *args)->Object_0);
        object(e)
    }

    /// The command that evaluates.
    pub fn command(&self, stage_dir: &str) -> (c: ModuleCommand)
        ensures
            c@ == evaluator::command_of(stage_dir@),
    {
        evaluator_command(stage_dir)
    }

    /// The report of an evaluation that was run, where `output` is what reading the
    /// report's file came to.
    pub fn report(
        &self,
        stage_dir: &str,
        run: Result<CommandExit, String>,
        output: Result<&str, String>,
    ) -> (r: Result<EvalReport, StageError>)
        ensures
            match r {
                Ok(report) => {
                    &&& evaluator::failure(stage_dir@, run, output) is None
                    &&& evaluator::is_report_of(
                        report,
                        stage_dir@,
                        "blut_core.evaluator"@,
                        json::json_of_text(output->Ok_0@)->Ok_0,
                        output->Ok_0,
                    )
                },
                Err(e) => evaluator::failure(stage_dir@, run, output) == Some(e@),
            },
    {
        finished(stage_dir, "blut_core.evaluator", run, output)
    }
}

/// No two keys of the configuration are the same text.
proof fn lemma_configuration_keys_differ()
    ensures
        "checkpoint_path"@.len() == 15,
        "dataset_path"@.len() == 12,
        "eval"@.len() == 4,
        "batch_size"@.len() == 10,
        "device"@.len() == 6,
{
    reveal_strlit("checkpoint_path");
    reveal_strlit("dataset_path");
    reveal_strlit("eval");
    reveal_strlit("batch_size");
    reveal_strlit("device");
}

/// Each argument of an evaluation stands in the evaluator's configuration under its own
/// key, and nothing else does.
pub proof fn lemma_every_argument_stands_under_its_key(input: HfCheckpoint, args: Args)
    ensures
        json::member(config_of(input, args), "checkpoint_path"@) == Some(JsonView::Text(input.path@)),
        json::member(config_of(input, args), "dataset_path"@) == Some(JsonView::Text(args.dataset_path@)),
        json::member(config_of(input, args), "eval"@) == Some(shared::ingredient_json(args.eval@)),
        json::member(config_of(input, args), "batch_size"@) == Some(JsonView::Number(text::decimal(args.batch_size as nat))),
        json::member(config_of(input, args), "device"@) == Some(JsonView::Text(args.device@)),
        config_of(input, args)->Object_0.len() == 5,
{
    lemma_configuration_keys_differ();
    let e = config_of(input, args)->Object_0;
    assert(e[0].0 == "checkpoint_path"@);
    json::lemma_lookup_at(e, 0);
    assert(e[1].0 == "dataset_path"@);
    json::lemma_lookup_at(e, 1);
    assert(e[2].0 == "eval"@);
    json::lemma_lookup_at(e, 2);
    assert(e[3].0 == "batch_size"@);
    json::lemma_lookup_at(e, 3);
    assert(e[4].0 == "device"@);
    json::lemma_lookup_at(e, 4);
}

/// Evaluations that differ in an argument have different configurations.
pub proof fn lemma_other_evaluations_have_other_configurations(
    input: HfCheckpoint,
    args: Args,
    other_input: HfCheckpoint,
    other: Args,
)
    requires
        config_of(input, args) == config_of(other_input, other),
    ensures
        input.path@ == other_input.path@,
        args.dataset_path@ == other.dataset_path@,
        args.eval@ == other.eval@,
        args.batch_size == other.batch_size,
        args.device@ == other.device@,
{
    lemma_every_argument_stands_under_its_key(input, args);
    lemma_every_argument_stands_under_its_key(other_input, other);
    shared::lemma_ingredients_read_back(args.eval@);
    shared::lemma_ingredients_read_back(other.eval@);
    text::lemma_decimals_differ(args.batch_size as nat, other.batch_size as nat);
}

} // verus!
