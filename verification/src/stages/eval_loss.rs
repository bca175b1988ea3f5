//! The stage `eval_loss`: the loss and the perplexity of a checkpoint on held-out
//! rows, measured by the generic evaluator.

use vstd::prelude::*;
use vstd::string::*;

use crate::artifact::{DatasetJsonl, EvalReport, HfCheckpoint};
use crate::cookbook_core::stages::shared;
use crate::cookbook_core::stages::shared::{IngredientCfg, IngredientView};
use crate::error::{bad_input, StageError, StageErrorView};
use crate::evaluator;
use crate::evaluator::{finished, run_evaluator, EvalRequest, EvaluatorRun};
use crate::framework::Stage;
use crate::json;
use crate::json::{insert, integer_value, object, Json, JsonView};
use crate::process::CommandExit;
use crate::text;
use crate::text::decimal_int_text;

verus! {

/// The name of the stage.
pub const NAME: &'static str = "eval_loss";

/// The stage.
pub struct EvalLoss;

impl Stage for EvalLoss {
    const NAME: &'static str = NAME;

    const SCHEMA: u32 = 2;

    const DETERMINISTIC: bool = true;
}

/// The arguments.
#[derive(Clone, Copy, Debug, PartialEq, Eq)]
pub struct Args {
    pub batch_size: u32,
    /// Tokens in a packed block.
    pub max_seq: u32,
}

/// The batch size where none is given.
pub fn default_batch_size() -> (n: u32)
    ensures
        n == 1,
{
    1
}

/// The block length where none is given.
pub fn default_max_seq() -> (n: u32)
    ensures
        n == 4096,
{
    4096
}

impl Default for Args {
    fn default() -> (a: Self)
        ensures
            a.batch_size == 1,
            a.max_seq == 4096,
    {
        Args { batch_size: default_batch_size(), max_seq: default_max_seq() }
    }
}

/// The ingredient that measures.
pub open spec fn perplexity() -> IngredientView {
    IngredientView { kind: "eval"@, name: "perplexity"@, config: JsonView::Object(Seq::empty()) }
}

/// What is wrong with an input and arguments, the first thing found, where it is
/// known what exists.
pub open spec fn complaint(
    ckpt: HfCheckpoint,
    ds: DatasetJsonl,
    args: Args,
    checkpoint_exists: bool,
    dataset_is_file: bool,
) -> Option<Seq<char>> {
    if ds.n_examples <= 0 {
        Some(
            "eval_loss: eval dataset has "@ + text::decimal_int(ds.n_examples as int)
                + " examples"@,
        )
    } else if args.batch_size == 0 || args.max_seq == 0 {
        Some("batch_size + max_seq must be > 0"@)
    } else {
        evaluator::complaint(ckpt.path@, ds.path@, checkpoint_exists, dataset_is_file)
    }
}

/// The evaluator's configuration.
pub open spec fn config_of(ckpt: HfCheckpoint, ds: DatasetJsonl, args: Args) -> JsonView {
    JsonView::Object(
        seq![
            ("checkpoint_path"@, JsonView::Text(ckpt.path@)),
            ("dataset_path"@, JsonView::Text(ds.path@)),
            ("eval"@, shared::ingredient_json(perplexity())),
            ("loss"@, JsonView::Null),
            ("batch_size"@, JsonView::Number(text::decimal(args.batch_size as nat))),
            ("device"@, JsonView::Text("cuda"@)),
            ("text_field"@, JsonView::Null),
            ("max_seq_len"@, JsonView::Number(text::decimal(args.max_seq as nat))),
        ],
    )
}

/// The metrics with the number of examples in them; metrics that are no object
/// stay as they are.
pub open spec fn counted(metrics: JsonView, n_examples: int) -> JsonView {
    match metrics {
        JsonView::Object(entries) => JsonView::Object(
            json::inserted(
                entries,
                "n_examples"@,
                JsonView::Number(text::decimal_int(n_examples)),
            ),
        ),
        _ => metrics,
    }
}

impl EvalLoss {
    /// Checks the input and the arguments, and says what to run.
    pub fn request(
        &self,
        ckpt: &HfCheckpoint,
        ds: &DatasetJsonl,
        args: &Args,
        stage_dir: &str,
        checkpoint_exists: bool,
        dataset_is_file: bool,
    ) -> (r: Result<EvaluatorRun, StageError>)
        ensures
            ({
                let wrong = complaint(*ckpt, *ds, *args, checkpoint_exists, dataset_is_file);
                match r {
                    Ok(run) => {
                        &&& wrong is None
                        &&& run.config@ == config_of(*ckpt, *ds, *args)
                        &&& run.config_path@ == evaluator::config_file(stage_dir@)
                        &&& run.command@ == evaluator::command_of(stage_dir@)
                        &&& run.report_path@ == evaluator::report_file(stage_dir@)
                    },
                    Err(e) => wrong is Some && e@ == StageErrorView::BadInput(wrong->0),
                }
            }),
    {
        if ds.n_examples <= 0 {
            return Err(
                bad_input(
                    "eval_loss: eval dataset has ".to_string().concat(
                        decimal_int_text(ds.n_examples).as_str(),
                    ).concat(" examples").as_str(),
                ),
            );
        }
        if args.batch_size == 0 || args.max_seq == 0 {
            return Err(bad_input("batch_size + max_seq must be > 0"));
        }
        let req = EvalRequest {
            checkpoint_path: ckpt.path.as_str(),
            dataset_path: ds.path.as_str(),
            eval: IngredientCfg::plain("eval", "perplexity").to_json(),
            loss: None,
            batch_size: args.batch_size,
            device: "cuda",
            text_field: None,
            max_seq_len: Some(args.max_seq),
        };
        assert(evaluator::config_of(req)->Object_0 =~= config_of(*ckpt, *ds, *args)->Object_0);
        run_evaluator(stage_dir, &req, checkpoint_exists, dataset_is_file)
    }

    /// The evaluator's report with the number of examples in its metrics.
    pub fn report(&self, report: EvalReport, ds: &DatasetJsonl) -> (r: EvalReport)
        ensures
            r.metrics@ == counted(report.metrics@, ds.n_examples as int),
            r.path == report.path,
            r.evaluator == report.evaluator,
            r.content_hash == report.content_hash,
    {
        let metrics = match report.metrics {
            Json::Object(entries) => {
                let mut e = entries;
                assert(report.metrics@->Object_0 =~= json::entries_view(e@));
                insert(&mut e, "n_examples", integer_value(ds.n_examples));
                object(e)
            },
            other => other,
        };
        EvalReport {
            path: report.path,
            evaluator: report.evaluator,
            metrics,
            content_hash: report.content_hash,
        }
    }

    /// The report of an evaluation that was run, with the number of examples in its
    /// metrics; `output` is what reading the report's file came to.
    pub fn finished(
        &self,
        stage_dir: &str,
        ds: &DatasetJsonl,
        run: Result<CommandExit, String>,
        output: Result<&str, String>,
    ) -> (r: Result<EvalReport, StageError>)
        ensures
            match r {
                Ok(report) => {
                    &&& evaluator::failure(stage_dir@, run, output) is None
                    &&& evaluator::is_report_of(
                        report,
                        stage_dir@,
                        "eval_loss"@,
                        counted(
                            json::json_of_text(output->Ok_0@)->Ok_0,
                            ds.n_examples as int,
                        ),
                        output->Ok_0,
                    )
                },
                Err(e) => evaluator::failure(stage_dir@, run, output) == Some(e@),
            },
    {
        match finished(stage_dir, NAME, run, output) {
            Ok(report) => Ok(self.report(report, ds)),
            Err(e) => Err(e),
        }
    }
}

/// The report says how many examples it was measured on, and nothing else of it
/// changes.
pub proof fn lemma_the_count_is_reported(metrics: JsonView, n_examples: int, other: Seq<char>)
    requires
        metrics is Object,
    ensures
        json::member(counted(metrics, n_examples), "n_examples"@) == Some(
            JsonView::Number(text::decimal_int(n_examples)),
        ),
        other != "n_examples"@ ==> json::member(counted(metrics, n_examples), other)
            == json::member(metrics, other),
{
    json::lemma_lookup_inserted(
        metrics->Object_0,
        "n_examples"@,
        JsonView::Number(text::decimal_int(n_examples)),
        other,
    );
}

/// No two keys of the configuration are the same text.
proof fn lemma_configuration_keys_differ()
    ensures
        "checkpoint_path"@.len() == 15,
        "dataset_path"@.len() == 12,
        "eval"@.len() == 4 && "eval"@[0] == 'e',
        "loss"@.len() == 4 && "loss"@[0] == 'l',
        "batch_size"@.len() == 10 && "batch_size"@[0] == 'b',
        "device"@.len() == 6,
        "text_field"@.len() == 10 && "text_field"@[0] == 't',
        "max_seq_len"@.len() == 11,
{
    reveal_strlit("checkpoint_path");
    reveal_strlit("dataset_path");
    reveal_strlit("eval");
    reveal_strlit("loss");
    reveal_strlit("batch_size");
    reveal_strlit("device");
    reveal_strlit("text_field");
    reveal_strlit("max_seq_len");
}

/// Each argument of an evaluation stands in the evaluator's configuration under its own
/// key. The rest is fixed: the perplexity is measured, on a GPU, and the evaluator picks
/// the loss and the column.
pub proof fn lemma_every_argument_stands_under_its_key(
    ckpt: HfCheckpoint,
    ds: DatasetJsonl,
    args: Args,
)
    ensures
        json::member(config_of(ckpt, ds, args), "checkpoint_path"@) == Some(JsonView::Text(ckpt.path@)),
        json::member(config_of(ckpt, ds, args), "dataset_path"@) == Some(JsonView::Text(ds.path@)),
        json::member(config_of(ckpt, ds, args), "eval"@) == Some(shared::ingredient_json(
            IngredientView {
                kind: "eval"@,
                name: "perplexity"@,
                config: JsonView::Object(Seq::empty()),
            },
        )),
        json::member(config_of(ckpt, ds, args), "loss"@) == Some(JsonView::Null),
        json::member(config_of(ckpt, ds, args), "batch_size"@) == Some(JsonView::Number(text::decimal(args.batch_size as nat))),
        json::member(config_of(ckpt, ds, args), "device"@) == Some(JsonView::Text("cuda"@)),
        json::member(config_of(ckpt, ds, args), "text_field"@) == Some(JsonView::Null),
        json::member(config_of(ckpt, ds, args), "max_seq_len"@) == Some(JsonView::Number(text::decimal(args.max_seq as nat))),
        config_of(ckpt, ds, args)->Object_0.len() == 8,
{
    lemma_configuration_keys_differ();
    let e = config_of(ckpt, ds, args)->Object_0;
    assert(e[0].0 == "checkpoint_path"@);
    json::lemma_lookup_at(e, 0);
    assert(e[1].0 == "dataset_path"@);
    json::lemma_lookup_at(e, 1);
    assert(e[2].0 == "eval"@);
    json::lemma_lookup_at(e, 2);
    assert(e[3].0 == "loss"@);
    json::lemma_lookup_at(e, 3);
    assert(e[4].0 == "batch_size"@);
    json::lemma_lookup_at(e, 4);
    assert(e[5].0 == "device"@);
    json::lemma_lookup_at(e, 5);
    assert(e[6].0 == "text_field"@);
    json::lemma_lookup_at(e, 6);
    assert(e[7].0 == "max_seq_len"@);
    json::lemma_lookup_at(e, 7);
}

/// Evaluations that differ in an argument have different configurations.
pub proof fn lemma_other_evaluations_have_other_configurations(
    ckpt: HfCheckpoint,
    ds: DatasetJsonl,
    args: Args,
    other_ckpt: HfCheckpoint,
    other_ds: DatasetJsonl,
    other: Args,
)
    requires
        config_of(ckpt, ds, args) == config_of(other_ckpt, other_ds, other),
    ensures
        ckpt.path@ == other_ckpt.path@,
        ds.path@ == other_ds.path@,
        args.batch_size == other.batch_size,
        args.max_seq == other.max_seq,
{
    lemma_every_argument_stands_under_its_key(ckpt, ds, args);
    lemma_every_argument_stands_under_its_key(other_ckpt, other_ds, other);
    text::lemma_decimals_differ(args.batch_size as nat, other.batch_size as nat);
    text::lemma_decimals_differ(args.max_seq as nat, other.max_seq as nat);
}

/// An evaluation is accepted exactly where there are examples, a batch, a block, and both
/// files.
pub proof fn lemma_what_is_accepted(
    ckpt: HfCheckpoint,
    ds: DatasetJsonl,
    args: Args,
    checkpoint_exists: bool,
    dataset_is_file: bool,
)
    ensures
        ({
            let wrong = complaint(ckpt, ds, args, checkpoint_exists, dataset_is_file);
            &&& wrong is None <==> ds.n_examples > 0 && args.batch_size > 0 && args.max_seq > 0
                && checkpoint_exists && dataset_is_file
            &&& ds.n_examples <= 0 ==> (wrong matches Some(m) && text::occurs_in(
                m,
                text::decimal_int(ds.n_examples as int),
            ))
            &&& ds.n_examples > 0 && (args.batch_size == 0 || args.max_seq == 0) ==> wrong == Some(
                "batch_size + max_seq must be > 0"@,
            )
            &&& ds.n_examples > 0 && args.batch_size > 0 && args.max_seq > 0 && !checkpoint_exists
                ==> wrong == Some("checkpoint not found: "@ + ckpt.path@)
        }),
{
    text::lemma_a_part_occurs(
        "eval_loss: eval dataset has "@,
        text::decimal_int(ds.n_examples as int),
        " examples"@,
    );
}

/// Metrics that are no object are reported as they are, and the ingredient that measures is
/// the perplexity.
pub proof fn lemma_other_metrics_stay_as_they_are(metrics: JsonView, n_examples: int)
    ensures
        !(metrics is Object) ==> counted(metrics, n_examples) == metrics,
        metrics is Object ==> counted(metrics, n_examples) is Object,
        perplexity().kind == "eval"@,
        perplexity().name == "perplexity"@,
{
}

} // verus!
