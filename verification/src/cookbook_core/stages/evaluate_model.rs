//! The stages that evaluate a checkpoint: on a dataset of their own, on one that was
//! loaded, or on the rows that training held out.

use vstd::prelude::*;
use vstd::string::*;

use crate::artifact::{DatasetJsonl, EvalReport, HfCheckpoint};
use crate::cookbook_core::stages::load_dataset;
use crate::cookbook_core::stages::load_dataset::{hub_command, take_rows, Taken};
use crate::cookbook_core::stages::shared;
use crate::cookbook_core::stages::shared::{IngredientCfg, IngredientView};
use crate::distributed;
use crate::error::{bad_input, StageError, StageErrorView};
use crate::evaluator;
use crate::evaluator::{finished, EvalRequest, EvaluatorRun};
use crate::framework::Stage;
use crate::json;
use crate::json::{Json, JsonView};
use crate::process;
use crate::process::{module_outcome, CommandExit, ModuleCommand};
use crate::text;
use crate::text::{decimal_int_text, join};

verus! {

/// The stage `evaluate_model`, which fetches its own rows.
pub struct EvaluateModel;

impl Stage for EvaluateModel {
    const NAME: &'static str = "evaluate_model";

    const SCHEMA: u32 = 2;

    const DETERMINISTIC: bool = true;
}

/// The stage `evaluate_loaded_dataset`, for rows that arrive on an edge.
pub struct EvaluateLoadedDataset;

impl Stage for EvaluateLoadedDataset {
    const NAME: &'static str = "evaluate_loaded_dataset";

    const SCHEMA: u32 = 1;

    const DETERMINISTIC: bool = true;
}

/// The stage `evaluate_held_out`, for a checkpoint and the rows it never saw.
pub struct EvaluateHeldOut;

impl Stage for EvaluateHeldOut {
    const NAME: &'static str = "evaluate_held_out";

    const SCHEMA: u32 = 1;

    const DETERMINISTIC: bool = true;
}

/// The arguments of `evaluate_model`: exactly one of `dataset_path` and `hf_name`
/// is given.
#[derive(Debug, PartialEq, Eq)]
pub struct Args {
    pub dataset_path: Option<String>,
    pub hf_name: Option<String>,
    pub split: String,
    pub subset: Option<String>,
    /// The maximum number of rows to load, from a local file as from a download.
    /// `None`: all of them.
    pub max_samples: Option<usize>,
    pub eval: IngredientCfg,
    pub batch_size: u32,
    pub device: String,
    pub text_field: Option<String>,
    pub max_seq_len: Option<u32>,
}

/// The arguments of `evaluate_loaded_dataset`.
#[derive(Debug, PartialEq, Eq)]
pub struct LoadedDatasetArgs {
    pub checkpoint_path: String,
    pub eval: IngredientCfg,
    pub batch_size: u32,
    pub device: String,
    pub text_field: Option<String>,
    pub max_seq_len: Option<u32>,
}

/// The arguments of `evaluate_held_out`.
#[derive(Debug, PartialEq, Eq)]
pub struct HeldOutArgs {
    pub eval: IngredientCfg,
    /// The loss that training used.
    pub loss: Option<IngredientCfg>,
    pub batch_size: u32,
    pub device: String,
    pub text_field: Option<String>,
    pub max_seq_len: Option<u32>,
}

/// The split where none is given.
pub fn default_split() -> (s: String)
    ensures
        s@ == "test"@,
{
    "test".to_string()
}

/// The batch size where none is given.
pub fn default_batch_size() -> (n: u32)
    ensures
        n == 64,
{
    64
}

/// The device where none is given.
pub fn default_device() -> (s: String)
    ensures
        s@ == "cuda"@,
{
    "cuda".to_string()
}

/// Where the rows come from.
#[derive(Debug, PartialEq, Eq)]
pub enum Rows {
    /// This file, and the maximum number of its rows.
    Local { path: String, max_samples: Option<usize> },
    /// A download by this command to this file.
    Hub { command: ModuleCommand, output: String },
}

/// What is wrong with the choice of a dataset.
pub open spec fn choice_complaint(args: Args) -> Option<Seq<char>> {
    if args.dataset_path is Some && args.hf_name is Some {
        Some("evaluate_model: pass exactly one of dataset_path / hf_name, not both"@)
    } else if args.dataset_path is None && args.hf_name is None {
        Some("evaluate_model: one of dataset_path / hf_name is required"@)
    } else {
        None
    }
}

/// An optional ingredient, as values.
pub open spec fn optional_view(i: Option<IngredientCfg>) -> Option<IngredientView> {
    match i {
        Some(x) => Some(x@),
        None => None,
    }
}

/// The evaluator's configuration.
pub open spec fn config_of(
    checkpoint_path: Seq<char>,
    dataset_path: Seq<char>,
    eval: IngredientView,
    loss: Option<IngredientView>,
    batch_size: u32,
    device: Seq<char>,
    text_field: Option<Seq<char>>,
    max_seq_len: Option<u32>,
) -> JsonView {
    JsonView::Object(
        seq![
            ("checkpoint_path"@, JsonView::Text(checkpoint_path)),
            ("dataset_path"@, JsonView::Text(dataset_path)),
            ("eval"@, shared::ingredient_json(eval)),
            (
                "loss"@,
                match loss {
                    Some(l) => shared::ingredient_json(l),
                    None => JsonView::Null,
                },
            ),
            ("batch_size"@, JsonView::Number(text::decimal(batch_size as nat))),
            ("device"@, JsonView::Text(device)),
            ("text_field"@, json::text_or_null(text_field)),
            ("max_seq_len"@, json::count_or_null(max_seq_len)),
        ],
    )
}

/// `run` is the evaluation with this configuration.
pub open spec fn is_run_of(run: EvaluatorRun, stage_dir: Seq<char>, config: JsonView) -> bool {
    &&& run.config@ == config
    &&& run.config_path@ == evaluator::config_file(stage_dir)
    &&& run.command@ == evaluator::command_of(stage_dir)
    &&& run.report_path@ == evaluator::report_file(stage_dir)
}

/// Checks an evaluation, and says what to run for it.
fn run_evaluator(
    stage_dir: &str,
    checkpoint_path: &str,
    dataset_path: &str,
    eval: &IngredientCfg,
    loss: &Option<IngredientCfg>,
    batch_size: u32,
    device: &str,
    text_field: &Option<String>,
    max_seq_len: Option<u32>,
    checkpoint_exists: bool,
    dataset_is_file: bool,
) -> (r: Result<EvaluatorRun, StageError>)
    ensures
        ({
            let wrong = evaluator::complaint(
                checkpoint_path@,
                dataset_path@,
                checkpoint_exists,
                dataset_is_file,
            );
            match r {
                Ok(run) => wrong is None && is_run_of(
                    run,
                    stage_dir@,
                    config_of(
                        checkpoint_path@,
                        dataset_path@,
                        eval@,
                        optional_view(*loss),
                        batch_size,
                        device@,
                        text::optional(*text_field),
                        max_seq_len,
                    ),
                ),
                Err(e) => wrong is Some && e@ == StageErrorView::BadInput(wrong->0),
            }
        }),
{
    let loss_json: Option<Json> = match loss {
        Some(l) => Some(l.to_json()),
        None => None,
    };
    let text_field_str: Option<&str> = match text_field {
        Some(t) => Some(t.as_str()),
        None => None,
    };
    let req = EvalRequest {
        checkpoint_path,
        dataset_path,
        eval: eval.to_json(),
        loss: loss_json,
        batch_size,
        device,
        text_field: text_field_str,
        max_seq_len,
    };
    assert(evaluator::config_of(req)->Object_0 =~= config_of(
        checkpoint_path@,
        dataset_path@,
        eval@,
        optional_view(*loss),
        batch_size,
        device@,
        text::optional(*text_field),
        max_seq_len,
    )->Object_0);
    evaluator::run_evaluator(stage_dir, &req, checkpoint_exists, dataset_is_file)
}

/// The report of an evaluation that was run, where `output` is what reading the
/// report's file came to.
pub fn report(
    stage_dir: &str,
    run: Result<CommandExit, String>,
    output: Result<&str, String>,
) -> (r: Result<EvalReport, StageError>)
    ensures
        match r {
            Ok(report) => {
                &&& evaluator::failure(stage_dir@, run, output) is None
                &&& evaluator::is_report_of(
                    report,
                    stage_dir@,
                    "blut_core.evaluator"@,
                    json::json_of_text(output->Ok_0@)->Ok_0,
                    output->Ok_0,
                )
            },
            Err(e) => evaluator::failure(stage_dir@, run, output) == Some(e@),
        },
{
    finished(stage_dir, "blut_core.evaluator", run, output)
}

impl EvaluateModel {
    /// Where the rows come from.
    pub fn resolve_dataset(&self, args: &Args, stage_dir: &str) -> (r: Result<Rows, StageError>)
        ensures
            match r {
                Ok(Rows::Local { path, max_samples }) => {
                    &&& choice_complaint(*args) is None
                    &&& args.dataset_path == Some(path)
                    &&& max_samples == args.max_samples
                },
                Ok(Rows::Hub { command, output }) => {
                    &&& choice_complaint(*args) is None
                    &&& args.hf_name is Some
                    &&& output@ == text::joined(stage_dir@, "evaluation_dataset.jsonl"@)
                    &&& command@ == load_dataset::hub_command_of(
                        args.hf_name->0@,
                        args.split@,
                        output@,
                        text::optional(args.subset),
                        args.max_samples,
                    )
                },
                Err(e) => choice_complaint(*args) is Some && e@ == StageErrorView::BadInput(
                    choice_complaint(*args)->0,
                ),
            },
    {
        match &args.dataset_path {
            Some(p) => match &args.hf_name {
                Some(_) => Err(
                    bad_input(
                        "evaluate_model: pass exactly one of dataset_path / hf_name, not both",
                    ),
                ),
                None => Ok(Rows::Local { path: p.clone(), max_samples: args.max_samples }),
            },
            None => match &args.hf_name {
                Some(name) => {
                    let output = join(stage_dir, "evaluation_dataset.jsonl");
                    let command = hub_command(
                        name.as_str(),
                        args.split.as_str(),
                        output.as_str(),
                        &args.subset,
                        args.max_samples,
                    );
                    Ok(Rows::Hub { command, output })
                },
                None => Err(
                    bad_input("evaluate_model: one of dataset_path / hf_name is required"),
                ),
            },
        }
    }

    /// Refuses a local dataset that is not a file.
    pub fn check_local(&self, path: &str, is_file: bool) -> (r: Result<(), StageError>)
        ensures
            r is Ok <==> is_file,
            r matches Err(e) ==> e@ == StageErrorView::BadInput("dataset not found: "@ + path@),
    {
        if !is_file {
            return Err(bad_input("dataset not found: ".to_string().concat(path).as_str()));
        }
        Ok(())
    }

    /// Which file holds the rows that are loaded of a local file with this text.
    pub fn taken(
        &self,
        path: &str,
        body: &str,
        max_samples: Option<usize>,
        stage_dir: &str,
    ) -> (t: Taken)
        ensures
            load_dataset::is_taken(
                t,
                path@,
                body@,
                max_samples,
                text::joined(stage_dir@, "evaluation_dataset.jsonl"@),
            ),
    {
        take_rows(path, body, max_samples, join(stage_dir, "evaluation_dataset.jsonl").as_str())
    }

    /// What the end of a download means: it succeeded and left the file, or the
    /// backend failed.
    pub fn downloaded(&self, run: Result<CommandExit, String>, output: &str, produced: bool) -> (r:
        Result<(), StageError>)
        ensures
            match r {
                Ok(_) => process::module_failure("blut_core.load_dataset"@, run) is None
                    && produced,
                Err(e) => match process::module_failure("blut_core.load_dataset"@, run) {
                    Some(f) => e@ == f,
                    None => !produced && e@ == StageErrorView::Backend(
                        "blut_core.load_dataset did not produce "@ + output@,
                    ),
                },
            },
    {
        match module_outcome("blut_core.load_dataset", run) {
            Ok(_) => {},
            Err(e) => {
                return Err(e);
            },
        }
        if !produced {
            return Err(
                StageError::Backend(
                    "blut_core.load_dataset did not produce ".to_string().concat(output),
                ),
            );
        }
        Ok(())
    }

    /// Checks the evaluation of a checkpoint on these rows, and says what to run.
    pub fn request(
        &self,
        input: &HfCheckpoint,
        dataset_path: &str,
        args: &Args,
        stage_dir: &str,
        checkpoint_exists: bool,
        dataset_is_file: bool,
    ) -> (r: Result<EvaluatorRun, StageError>)
        ensures
            ({
                let wrong = evaluator::complaint(
                    input.path@,
                    dataset_path@,
                    checkpoint_exists,
                    dataset_is_file,
                );
                match r {
                    Ok(run) => wrong is None && is_run_of(
                        run,
                        stage_dir@,
                        config_of(
                            input.path@,
                            dataset_path@,
                            args.eval@,
                            None,
                            args.batch_size,
                            args.device@,
                            text::optional(args.text_field),
                            args.max_seq_len,
                        ),
                    ),
                    Err(e) => wrong is Some && e@ == StageErrorView::BadInput(wrong->0),
                }
            }),
    {
        run_evaluator(
            stage_dir,
            input.path.as_str(),
            dataset_path,
            &args.eval,
            &None,
            args.batch_size,
            args.device.as_str(),
            &args.text_field,
            args.max_seq_len,
            checkpoint_exists,
            dataset_is_file,
        )
    }
}

impl EvaluateLoadedDataset {
    /// Checks the evaluation of a checkpoint on a loaded dataset, and says what to
    /// run.
    pub fn request(
        &self,
        input: &DatasetJsonl,
        args: &LoadedDatasetArgs,
        stage_dir: &str,
        checkpoint_exists: bool,
        dataset_is_file: bool,
    ) -> (r: Result<EvaluatorRun, StageError>)
        ensures
            ({
                let wrong = evaluator::complaint(
                    args.checkpoint_path@,
                    input.path@,
                    checkpoint_exists,
                    dataset_is_file,
                );
                match r {
                    Ok(run) => wrong is None && is_run_of(
                        run,
                        stage_dir@,
                        config_of(
                            args.checkpoint_path@,
                            input.path@,
                            args.eval@,
                            None,
                            args.batch_size,
                            args.device@,
                            text::optional(args.text_field),
                            args.max_seq_len,
                        ),
                    ),
                    Err(e) => wrong is Some && e@ == StageErrorView::BadInput(wrong->0),
                }
            }),
    {
        run_evaluator(
            stage_dir,
            args.checkpoint_path.as_str(),
            input.path.as_str(),
            &args.eval,
            &None,
            args.batch_size,
            args.device.as_str(),
            &args.text_field,
            args.max_seq_len,
            checkpoint_exists,
            dataset_is_file,
        )
    }
}

/// What is wrong with a held-out evaluation, the first thing found.
pub open spec fn held_out_complaint(
    checkpoint: HfCheckpoint,
    held_out: DatasetJsonl,
    checkpoint_exists: bool,
    dataset_is_file: bool,
) -> Option<Seq<char>> {
    if held_out.n_examples <= 0 {
        Some(
            "evaluate_held_out: held-out split has "@ + text::decimal_int(
                held_out.n_examples as int,
            ) + " examples"@,
        )
    } else {
        evaluator::complaint(
            checkpoint.path@,
            held_out.path@,
            checkpoint_exists,
            dataset_is_file,
        )
    }
}

impl EvaluateHeldOut {
    /// Checks the evaluation of a checkpoint on held-out rows, and says what to run.
    pub fn request(
        &self,
        checkpoint: &HfCheckpoint,
        held_out: &DatasetJsonl,
        args: &HeldOutArgs,
        stage_dir: &str,
        checkpoint_exists: bool,
        dataset_is_file: bool,
    ) -> (r: Result<EvaluatorRun, StageError>)
        ensures
            ({
                let wrong = held_out_complaint(
                    *checkpoint,
                    *held_out,
                    checkpoint_exists,
                    dataset_is_file,
                );
                match r {
                    Ok(run) => wrong is None && is_run_of(
                        run,
                        stage_dir@,
                        config_of(
                            checkpoint.path@,
                            held_out.path@,
                            args.eval@,
                            optional_view(args.loss),
                            args.batch_size,
                            args.device@,
                            text::optional(args.text_field),
                            args.max_seq_len,
                        ),
                    ),
                    Err(e) => wrong is Some && e@ == StageErrorView::BadInput(wrong->0),
                }
            }),
    {
        if held_out.n_examples <= 0 {
            return Err(
                bad_input(
                    "evaluate_held_out: held-out split has ".to_string().concat(
                        decimal_int_text(held_out.n_examples).as_str(),
                    ).concat(" examples").as_str(),
                ),
            );
        }
        run_evaluator(
            stage_dir,
            checkpoint.path.as_str(),
            held_out.path.as_str(),
            &args.eval,
            &args.loss,
            args.batch_size,
            args.device.as_str(),
            &args.text_field,
            args.max_seq_len,
            checkpoint_exists,
            dataset_is_file,
        )
    }
}

/// No two keys of the configuration are the same text.
proof fn lemma_configuration_keys_differ()
    ensures
        "checkpoint_path"@.len() == 15,
        "dataset_path"@.len() == 12,
        "eval"@.len() == 4 && "eval"@[0] == 'e',
        "loss"@.len() == 4 && "loss"@[0] == 'l',
        "batch_size"@.len() == 10 && "batch_size"@[0] == 'b',
        "device"@.len() == 6,
        "text_field"@.len() == 10 && "text_field"@[0] == 't',
        "max_seq_len"@.len() == 11,
{
    reveal_strlit("checkpoint_path");
    reveal_strlit("dataset_path");
    reveal_strlit("eval");
    reveal_strlit("loss");
    reveal_strlit("batch_size");
    reveal_strlit("device");
    reveal_strlit("text_field");
    reveal_strlit("max_seq_len");
}

/// Each argument of an evaluation stands in the evaluator's configuration under its own
/// key, and nothing else does.
pub proof fn lemma_every_argument_stands_under_its_key(
    checkpoint_path: Seq<char>,
    dataset_path: Seq<char>,
    eval: IngredientView,
    loss: Option<IngredientView>,
    batch_size: u32,
    device: Seq<char>,
    text_field: Option<Seq<char>>,
    max_seq_len: Option<u32>,
)
    ensures
        ({
            let c = config_of(
                checkpoint_path,
                dataset_path,
                eval,
                loss,
                batch_size,
                device,
                text_field,
                max_seq_len,
            );
            &&& json::member(c, "checkpoint_path"@) == Some(JsonView::Text(checkpoint_path))
            &&& json::member(c, "dataset_path"@) == Some(JsonView::Text(dataset_path))
            &&& json::member(c, "eval"@) == Some(shared::ingredient_json(eval))
            &&& json::member(c, "loss"@) == Some(match loss {
                Some(l) => shared::ingredient_json(l),
                None => JsonView::Null,
            })
            &&& json::member(c, "batch_size"@) == Some(
                JsonView::Number(text::decimal(batch_size as nat)),
            )
            &&& json::member(c, "device"@) == Some(JsonView::Text(device))
            &&& json::member(c, "text_field"@) == Some(match text_field {
                Some(t) => JsonView::Text(t),
                None => JsonView::Null,
            })
            &&& json::member(c, "max_seq_len"@) == Some(match max_seq_len {
                Some(n) => JsonView::Number(text::decimal(n as nat)),
                None => JsonView::Null,
            })
            &&& c->Object_0.len() == 8
        }),
{
    lemma_configuration_keys_differ();
    let e = config_of(
        checkpoint_path,
        dataset_path,
        eval,
        loss,
        batch_size,
        device,
        text_field,
        max_seq_len,
    )->Object_0;
    assert(e[0].0 == "checkpoint_path"@);
    json::lemma_lookup_at(e, 0);
    assert(e[1].0 == "dataset_path"@);
    json::lemma_lookup_at(e, 1);
    assert(e[2].0 == "eval"@);
    json::lemma_lookup_at(e, 2);
    assert(e[3].0 == "loss"@);
    json::lemma_lookup_at(e, 3);
    assert(e[4].0 == "batch_size"@);
    json::lemma_lookup_at(e, 4);
    assert(e[5].0 == "device"@);
    json::lemma_lookup_at(e, 5);
    assert(e[6].0 == "text_field"@);
    json::lemma_lookup_at(e, 6);
    assert(e[7].0 == "max_seq_len"@);
    json::lemma_lookup_at(e, 7);
}

/// A run that is ordered writes this configuration, hands it to the evaluator, and looks
/// for the report where the evaluator was told to put it. Looked up in what is written,
/// the device is that of the arguments, whatever it is, and so is everything else.
pub proof fn lemma_a_run_is_told_its_arguments(
    run: EvaluatorRun,
    stage_dir: Seq<char>,
    checkpoint_path: Seq<char>,
    dataset_path: Seq<char>,
    eval: IngredientView,
    loss: Option<IngredientView>,
    batch_size: u32,
    device: Seq<char>,
    text_field: Option<Seq<char>>,
    max_seq_len: Option<u32>,
)
    requires
        is_run_of(run, stage_dir, config_of(
            checkpoint_path,
            dataset_path,
            eval,
            loss,
            batch_size,
            device,
            text_field,
            max_seq_len,
        )),
    ensures
        json::member(run.config@, "device"@) == Some(JsonView::Text(device)),
        json::member(run.config@, "checkpoint_path"@) == Some(JsonView::Text(checkpoint_path)),
        json::member(run.config@, "dataset_path"@) == Some(JsonView::Text(dataset_path)),
        json::member(run.config@, "batch_size"@) == Some(
            JsonView::Number(text::decimal(batch_size as nat)),
        ),
        json::member(run.config@, "eval"@) matches Some(e) && shared::ingredient_of(e) == Some(eval),
        loss matches Some(l) ==> (json::member(run.config@, "loss"@) matches Some(j)
            && shared::ingredient_of(j) == Some(l)),
        loss is None ==> json::member(run.config@, "loss"@) == Some(JsonView::Null),
        text_field matches Some(t) ==> json::member(run.config@, "text_field"@) == Some(
            JsonView::Text(t),
        ),
        max_seq_len matches Some(n) ==> json::member(run.config@, "max_seq_len"@) == Some(
            JsonView::Number(text::decimal(n as nat)),
        ),
        run.config_path@ == text::joined(stage_dir, "eval_config.json"@),
        run.report_path@ == text::joined(stage_dir, "eval_report.json"@),
        distributed::gives(run.command@.args.skip(2), "--config"@, run.config_path@),
        distributed::gives(run.command@.args.skip(2), "--output"@, run.report_path@),
        run.command@.args.take(2) == seq!["-m"@, "blut_core.evaluator"@],
{
    lemma_every_argument_stands_under_its_key(
        checkpoint_path,
        dataset_path,
        eval,
        loss,
        batch_size,
        device,
        text_field,
        max_seq_len,
    );
    evaluator::lemma_the_evaluator_is_told_its_files(stage_dir);
    shared::lemma_ingredients_read_back(eval);
    match loss {
        Some(l) => shared::lemma_ingredients_read_back(l),
        None => {},
    }
}

/// Evaluations that differ in an argument have different configurations.
pub proof fn lemma_other_evaluations_have_other_configurations(
    checkpoint_path: Seq<char>,
    dataset_path: Seq<char>,
    eval: IngredientView,
    loss: Option<IngredientView>,
    batch_size: u32,
    device: Seq<char>,
    text_field: Option<Seq<char>>,
    max_seq_len: Option<u32>,
    checkpoint_path2: Seq<char>,
    dataset_path2: Seq<char>,
    eval2: IngredientView,
    loss2: Option<IngredientView>,
    batch_size2: u32,
    device2: Seq<char>,
    text_field2: Option<Seq<char>>,
    max_seq_len2: Option<u32>,
)
    requires
        config_of(
            checkpoint_path,
            dataset_path,
            eval,
            loss,
            batch_size,
            device,
            text_field,
            max_seq_len,
        ) == config_of(
            checkpoint_path2,
            dataset_path2,
            eval2,
            loss2,
            batch_size2,
            device2,
            text_field2,
            max_seq_len2,
        ),
    ensures
        checkpoint_path == checkpoint_path2,
        dataset_path == dataset_path2,
        eval == eval2,
        loss == loss2,
        batch_size == batch_size2,
        device == device2,
        text_field == text_field2,
        max_seq_len == max_seq_len2,
{
    lemma_every_argument_stands_under_its_key(
        checkpoint_path,
        dataset_path,
        eval,
        loss,
        batch_size,
        device,
        text_field,
        max_seq_len,
    );
    lemma_every_argument_stands_under_its_key(
        checkpoint_path2,
        dataset_path2,
        eval2,
        loss2,
        batch_size2,
        device2,
        text_field2,
        max_seq_len2,
    );
    shared::lemma_ingredients_read_back(eval);
    shared::lemma_ingredients_read_back(eval2);
    match loss {
        Some(l) => shared::lemma_ingredients_read_back(l),
        None => {},
    }
    match loss2 {
        Some(l) => shared::lemma_ingredients_read_back(l),
        None => {},
    }
    text::lemma_decimals_differ(batch_size as nat, batch_size2 as nat);
    json::lemma_optional_values_read_back(max_seq_len, max_seq_len2, text_field, text_field2);
}

/// A dataset is chosen exactly where one of the two places is given and not the other.
pub proof fn lemma_exactly_one_dataset_is_chosen(args: Args)
    ensures
        choice_complaint(args) is None <==> (args.dataset_path is Some) != (args.hf_name is Some),
        args.dataset_path is Some && args.hf_name is Some ==> choice_complaint(args) == Some(
            "evaluate_model: pass exactly one of dataset_path / hf_name, not both"@,
        ),
        args.dataset_path is None && args.hf_name is None ==> choice_complaint(args) == Some(
            "evaluate_model: one of dataset_path / hf_name is required"@,
        ),
{
}

/// A held-out evaluation is accepted exactly where there are rows to evaluate on and the
/// checkpoint and the rows' file are there. Too few rows are found before anything else,
/// and what is said of them gives their number.
pub proof fn lemma_held_out_rows_are_needed(
    checkpoint: HfCheckpoint,
    held_out: DatasetJsonl,
    checkpoint_exists: bool,
    dataset_is_file: bool,
)
    ensures
        ({
            let wrong = held_out_complaint(
                checkpoint,
                held_out,
                checkpoint_exists,
                dataset_is_file,
            );
            &&& wrong is None <==> held_out.n_examples > 0 && checkpoint_exists && dataset_is_file
            &&& held_out.n_examples <= 0 ==> (wrong matches Some(m) && text::occurs_in(
                m,
                text::decimal_int(held_out.n_examples as int),
            ))
            &&& held_out.n_examples > 0 && !checkpoint_exists ==> wrong == Some(
                "checkpoint not found: "@ + checkpoint.path@,
            )
            &&& held_out.n_examples > 0 && checkpoint_exists && !dataset_is_file ==> wrong == Some(
                "dataset not found: "@ + held_out.path@,
            )
        }),
{
    text::lemma_a_part_occurs(
        "evaluate_held_out: held-out split has "@,
        text::decimal_int(held_out.n_examples as int),
        " examples"@,
    );
}

} // verus!
