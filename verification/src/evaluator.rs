//! Running the generic evaluator, `blut_core.evaluator`, over a checkpoint and a
//! dataset. A report comes back only where the evaluator ended well and wrote one.

use vstd::prelude::*;
use vstd::string::*;

use crate::artifact;
use crate::artifact::{digest, EvalReport};
use crate::distributed;
use crate::error::{bad_input, StageError, StageErrorView};
use crate::json;
use crate::json::{
    add_entry, count_value, object, optional_count_value, parse, text_value, Json, JsonView,
};
use crate::process;
use crate::process::{module_outcome, CommandExit, ModuleCommand, ModuleCommandView};
use crate::text;
use crate::text::{add_text, join};

verus! {

/// One evaluation: which checkpoint, on which rows, measured how.
pub struct EvalRequest<'a> {
    /// The directory that the trainer wrote.
    pub checkpoint_path: &'a str,
    /// The rows to evaluate on.
    pub dataset_path: &'a str,
    /// The evaluation ingredient, as JSON.
    pub eval: Json,
    /// The loss that training used. `None`: the evaluator picks the model's own.
    pub loss: Option<Json>,
    pub batch_size: u32,
    pub device: &'a str,
    /// `None`: the evaluator's own default.
    pub text_field: Option<&'a str>,
    /// `None`: the evaluator's own default.
    pub max_seq_len: Option<u32>,
}

/// What is wrong with a request, the first thing found, where it is known what
/// exists.
pub open spec fn complaint(
    checkpoint_path: Seq<char>,
    dataset_path: Seq<char>,
    checkpoint_exists: bool,
    dataset_is_file: bool,
) -> Option<Seq<char>> {
    if !checkpoint_exists {
        Some("checkpoint not found: "@ + checkpoint_path)
    } else if !dataset_is_file {
        Some("dataset not found: "@ + dataset_path)
    } else {
        None
    }
}

/// The evaluator's configuration.
pub open spec fn config_of(req: EvalRequest<'_>) -> JsonView {
    JsonView::Object(
        seq![
            ("checkpoint_path"@, JsonView::Text(req.checkpoint_path@)),
            ("dataset_path"@, JsonView::Text(req.dataset_path@)),
            ("eval"@, req.eval@),
            (
                "loss"@,
                match req.loss {
                    Some(l) => l@,
                    None => JsonView::Null,
                },
            ),
            ("batch_size"@, JsonView::Number(text::decimal(req.batch_size as nat))),
            ("device"@, JsonView::Text(req.device@)),
            (
                "text_field"@,
                match req.text_field {
                    Some(t) => JsonView::Text(t@),
                    None => JsonView::Null,
                },
            ),
            ("max_seq_len"@, json::count_or_null(req.max_seq_len)),
        ],
    )
}

/// Where the configuration is written.
pub open spec fn config_file(stage_dir: Seq<char>) -> Seq<char> {
    text::joined(stage_dir, "eval_config.json"@)
}

/// Where the report is written.
pub open spec fn report_file(stage_dir: Seq<char>) -> Seq<char> {
    text::joined(stage_dir, "eval_report.json"@)
}

/// The command that evaluates.
pub open spec fn command_of(stage_dir: Seq<char>) -> ModuleCommandView {
    ModuleCommandView {
        program: "python3"@,
        args: seq![
            "-m"@,
            "blut_core.evaluator"@,
            "--config"@,
            config_file(stage_dir),
            "--output"@,
            report_file(stage_dir),
        ],
    }
}

/// An evaluation to run: write the configuration to its path, run the command in
/// the stage's directory, then read the report.
#[derive(Debug)]
pub struct EvaluatorRun {
    pub config: Json,
    pub config_path: String,
    pub command: ModuleCommand,
    pub report_path: String,
}

/// Refuses a checkpoint or a dataset that is not there.
pub fn check_paths(
    checkpoint_path: &str,
    dataset_path: &str,
    checkpoint_exists: bool,
    dataset_is_file: bool,
) -> (r: Result<(), StageError>)
    ensures
        match r {
            Ok(_) => complaint(
                checkpoint_path@,
                dataset_path@,
                checkpoint_exists,
                dataset_is_file,
            ) is None,
            Err(e) => complaint(
                checkpoint_path@,
                dataset_path@,
                checkpoint_exists,
                dataset_is_file,
            ) is Some && e@ == StageErrorView::BadInput(
                complaint(checkpoint_path@, dataset_path@, checkpoint_exists, dataset_is_file)->0,
            ),
        },
{
    if !checkpoint_exists {
        return Err(
            bad_input("checkpoint not found: ".to_string().concat(checkpoint_path).as_str()),
        );
    }
    if !dataset_is_file {
        return Err(bad_input("dataset not found: ".to_string().concat(dataset_path).as_str()));
    }
    Ok(())
}

/// The command that evaluates.
pub fn evaluator_command(stage_dir: &str) -> (c: ModuleCommand)
    ensures
        c@ == command_of(stage_dir@),
{
    let mut args: Vec<String> = Vec::new();
    assert(text::texts(args@) =~= Seq::<Seq<char>>::empty());
    add_text(&mut args, "-m");
    add_text(&mut args, "blut_core.evaluator");
    add_text(&mut args, "--config");
    add_text(&mut args, join(stage_dir, "eval_config.json").as_str());
    add_text(&mut args, "--output");
    add_text(&mut args, join(stage_dir, "eval_report.json").as_str());
    ModuleCommand { program: "python3".to_string(), args }
}

/// Checks a request, and says what to run for it.
pub fn run_evaluator(
    stage_dir: &str,
    req: &EvalRequest<'_>,
    checkpoint_exists: bool,
    dataset_is_file: bool,
) -> (r: Result<EvaluatorRun, StageError>)
    ensures
        ({
            let wrong = complaint(
                req.checkpoint_path@,
                req.dataset_path@,
                checkpoint_exists,
                dataset_is_file,
            );
            match r {
                Ok(run) => {
                    &&& wrong is None
                    &&& run.config@ == config_of(*req)
                    &&& run.config_path@ == config_file(stage_dir@)
                    &&& run.command@ == command_of(stage_dir@)
                    &&& run.report_path@ == report_file(stage_dir@)
                },
                Err(e) => wrong is Some && e@ == StageErrorView::BadInput(wrong->0),
            }
        }),
{
    match check_paths(
        req.checkpoint_path,
        req.dataset_path,
        checkpoint_exists,
        dataset_is_file,
    ) {
        Ok(_) => {},
        Err(e) => {
            return Err(e);
        },
    }
    let mut e: Vec<(String, Json)> = Vec::new();
    assert(json::entries_view(e@) =~= Seq::<(Seq<char>, JsonView)>::empty());
    add_entry(&mut e, "checkpoint_path", text_value(req.checkpoint_path));
    add_entry(&mut e, "dataset_path", text_value(req.dataset_path));
    add_entry(&mut e, "eval", req.eval.duplicate());
    let loss = match &req.loss {
        Some(l) => l.duplicate(),
        None => Json::Null,
    };
    add_entry(&mut e, "loss", loss);
    add_entry(&mut e, "batch_size", count_value(req.batch_size as u64));
    add_entry(&mut e, "device", text_value(req.device));
    let text_field = match req.text_field {
        Some(t) => text_value(t),
        None => Json::Null,
    };
    add_entry(&mut e, "text_field", text_field);
    add_entry(&mut e, "max_seq_len", optional_count_value(req.max_seq_len));
    assert(json::entries_view(e@) =~= config_of(*req)->Object_0);
    Ok(
        EvaluatorRun {
            config: object(e),
            config_path: join(stage_dir, "eval_config.json"),
            command: evaluator_command(stage_dir),
            report_path: join(stage_dir, "eval_report.json"),
        },
    )
}

/// What the end of the evaluator means for the stage.
pub fn evaluator_outcome(run: Result<CommandExit, String>) -> (r: Result<(), StageError>)
    ensures
        match r {
            Ok(_) => process::module_failure("blut_core.evaluator"@, run) is None,
            Err(e) => process::module_failure("blut_core.evaluator"@, run) == Some(e@),
        },
{
    module_outcome("blut_core.evaluator", run)
}

/// `report` holds these metrics, and the hash of the text that the evaluator wrote.
pub open spec fn is_report_of(
    report: EvalReport,
    stage_dir: Seq<char>,
    evaluator: Seq<char>,
    metrics: JsonView,
    output: &str,
) -> bool {
    &&& report.path@ == report_file(stage_dir)
    &&& report.evaluator@ == evaluator
    &&& report.metrics@ == metrics
    &&& report.content_hash.0@ == artifact::content_digest(output.spec_bytes())
}

/// The report that a reading of the evaluator's output makes, with the hash of that
/// output. Output that is no
/// JSON is a failure of the backend.
pub fn report_of(
    stage_dir: &str,
    evaluator: &str,
    read: Result<Json, String>,
    output: &str,
) -> (r: Result<EvalReport, StageError>)
    ensures
        match r {
            Ok(report) => read is Ok && is_report_of(
                report,
                stage_dir@,
                evaluator@,
                read->Ok_0@,
                output,
            ),
            Err(e) => read is Err && e@ == StageErrorView::Backend(
                "failed to parse eval report: "@ + read->Err_0@,
            ),
        },
{
    match read {
        Ok(metrics) => Ok(
            EvalReport {
                path: join(stage_dir, "eval_report.json"),
                evaluator: evaluator.to_string(),
                metrics,
                content_hash: digest(output.as_bytes()),
            },
        ),
        Err(m) => Err(
            StageError::Backend(
                "failed to parse eval report: ".to_string().concat(m.as_str()),
            ),
        ),
    }
}

/// Reads the report that the evaluator wrote.
pub fn read_report(stage_dir: &str, evaluator: &str, output: &str) -> (r: Result<
    EvalReport,
    StageError,
>)
    ensures
        match r {
            Ok(report) => json::json_of_text(output@) is Ok && is_report_of(
                report,
                stage_dir@,
                evaluator@,
                json::json_of_text(output@)->Ok_0,
                output,
            ),
            Err(e) => json::json_of_text(output@) is Err && e@ == StageErrorView::Backend(
                "failed to parse eval report: "@ + json::json_of_text(output@)->Err_0,
            ),
        },
{
    let read = parse(output);
    report_of(stage_dir, evaluator, read, output)
}

/// Why an evaluation made no report, the first thing found: the evaluator did not
/// end well, its output could not be read, or the output is no JSON.
pub open spec fn failure(
    stage_dir: Seq<char>,
    run: Result<CommandExit, String>,
    output: Result<&str, String>,
) -> Option<StageErrorView> {
    match process::module_failure("blut_core.evaluator"@, run) {
        Some(f) => Some(f),
        None => match output {
            Err(e) => Some(StageErrorView::Io { path: report_file(stage_dir), source: e@ }),
            Ok(t) => match json::json_of_text(t@) {
                Err(e) => Some(StageErrorView::Backend("failed to parse eval report: "@ + e)),
                Ok(_) => None,
            },
        },
    }
}

/// The report of an evaluation that was run, where `output` is what reading the
/// report's file came to.
pub fn finished(
    stage_dir: &str,
    evaluator: &str,
    run: Result<CommandExit, String>,
    output: Result<&str, String>,
) -> (r: Result<EvalReport, StageError>)
    ensures
        match r {
            Ok(report) => {
                &&& failure(stage_dir@, run, output) is None
                &&& run is Ok && run->Ok_0.success
                &&& output is Ok
                &&& is_report_of(
                    report,
                    stage_dir@,
                    evaluator@,
                    json::json_of_text(output->Ok_0@)->Ok_0,
                    output->Ok_0,
                )
            },
            Err(e) => failure(stage_dir@, run, output) == Some(e@),
        },
{
    match evaluator_outcome(run) {
        Ok(_) => {},
        Err(e) => {
            return Err(e);
        },
    }
    match output {
        Ok(t) => read_report(stage_dir, evaluator, t),
        Err(source) => Err(StageError::Io { path: join(stage_dir, "eval_report.json"), source }),
    }
}

/// No two keys of the configuration are the same text.
proof fn lemma_configuration_keys_differ()
    ensures
        "checkpoint_path"@.len() == 15,
        "dataset_path"@.len() == 12,
        "eval"@.len() == 4 && "eval"@[0] == 'e',
        "loss"@.len() == 4 && "loss"@[0] == 'l',
        "batch_size"@.len() == 10 && "batch_size"@[0] == 'b',
        "device"@.len() == 6,
        "text_field"@.len() == 10 && "text_field"@[0] == 't',
        "max_seq_len"@.len() == 11,
{
    reveal_strlit("checkpoint_path");
    reveal_strlit("dataset_path");
    reveal_strlit("eval");
    reveal_strlit("loss");
    reveal_strlit("batch_size");
    reveal_strlit("device");
    reveal_strlit("text_field");
    reveal_strlit("max_seq_len");
}

/// Each part of a request stands in the evaluator's configuration under its own key, and
/// nothing else does.
pub proof fn lemma_every_part_of_a_request_stands_under_its_key(req: EvalRequest<'_>)
    ensures
        json::member(config_of(req), "checkpoint_path"@) == Some(JsonView::Text(req.checkpoint_path@)),
        json::member(config_of(req), "dataset_path"@) == Some(JsonView::Text(req.dataset_path@)),
        json::member(config_of(req), "eval"@) == Some(req.eval@),
        json::member(config_of(req), "loss"@) == Some(match req.loss {
            Some(l) => l@,
            None => JsonView::Null,
        }),
        json::member(config_of(req), "batch_size"@) == Some(JsonView::Number(text::decimal(req.batch_size as nat))),
        json::member(config_of(req), "device"@) == Some(JsonView::Text(req.device@)),
        json::member(config_of(req), "text_field"@) == Some(match req.text_field {
            Some(t) => JsonView::Text(t@),
            None => JsonView::Null,
        }),
        json::member(config_of(req), "max_seq_len"@) == Some(match req.max_seq_len {
            Some(n) => JsonView::Number(text::decimal(n as nat)),
            None => JsonView::Null,
        }),
        config_of(req)->Object_0.len() == 8,
{
    lemma_configuration_keys_differ();
    let e = config_of(req)->Object_0;
    assert(e[0].0 == "checkpoint_path"@);
    json::lemma_lookup_at(e, 0);
    assert(e[1].0 == "dataset_path"@);
    json::lemma_lookup_at(e, 1);
    assert(e[2].0 == "eval"@);
    json::lemma_lookup_at(e, 2);
    assert(e[3].0 == "loss"@);
    json::lemma_lookup_at(e, 3);
    assert(e[4].0 == "batch_size"@);
    json::lemma_lookup_at(e, 4);
    assert(e[5].0 == "device"@);
    json::lemma_lookup_at(e, 5);
    assert(e[6].0 == "text_field"@);
    json::lemma_lookup_at(e, 6);
    assert(e[7].0 == "max_seq_len"@);
    json::lemma_lookup_at(e, 7);
}

/// Requests that differ have different configurations.
pub proof fn lemma_other_requests_have_other_configurations(
    req: EvalRequest<'_>,
    other: EvalRequest<'_>,
)
    requires
        config_of(req) == config_of(other),
    ensures
        req.checkpoint_path@ == other.checkpoint_path@,
        req.dataset_path@ == other.dataset_path@,
        req.eval@ == other.eval@,
        req.batch_size == other.batch_size,
        req.device@ == other.device@,
        req.text_field matches Some(t) ==> other.text_field is Some && other.text_field->0@ == t@,
        req.text_field is None ==> other.text_field is None,
        req.max_seq_len == other.max_seq_len,
{
    lemma_every_part_of_a_request_stands_under_its_key(req);
    lemma_every_part_of_a_request_stands_under_its_key(other);
    text::lemma_decimals_differ(req.batch_size as nat, other.batch_size as nat);
    json::lemma_optional_values_read_back(req.max_seq_len, other.max_seq_len, None, None);
}

/// A request is accepted exactly where the checkpoint and the dataset are there; what is
/// said otherwise names the one that is missing, the checkpoint first.
pub proof fn lemma_what_is_accepted(
    checkpoint_path: Seq<char>,
    dataset_path: Seq<char>,
    checkpoint_exists: bool,
    dataset_is_file: bool,
)
    ensures
        ({
            let wrong = complaint(
                checkpoint_path,
                dataset_path,
                checkpoint_exists,
                dataset_is_file,
            );
            &&& wrong is None <==> checkpoint_exists && dataset_is_file
            &&& !checkpoint_exists ==> (wrong matches Some(m) && text::occurs_in(
                m,
                "checkpoint not found: "@ + checkpoint_path,
            ))
            &&& checkpoint_exists && !dataset_is_file ==> (wrong matches Some(m)
                && text::occurs_in(m, "dataset not found: "@ + dataset_path))
        }),
{
    let none = Seq::<char>::empty();
    let a = "checkpoint not found: "@ + checkpoint_path;
    let b = "dataset not found: "@ + dataset_path;
    text::lemma_a_part_occurs(none, a, none);
    text::lemma_a_part_occurs(none, b, none);
    assert(none + a + none =~= a);
    assert(none + b + none =~= b);
}

/// The evaluator is told where its configuration lies and where its report goes, both
/// directly below the stage's directory and apart from each other.
pub proof fn lemma_the_evaluator_is_told_its_files(stage_dir: Seq<char>)
    ensures
        command_of(stage_dir).program == "python3"@,
        command_of(stage_dir).args.take(2) == seq!["-m"@, "blut_core.evaluator"@],
        distributed::gives(command_of(stage_dir).args.skip(2), "--config"@, config_file(stage_dir)),
        distributed::gives(command_of(stage_dir).args.skip(2), "--output"@, report_file(stage_dir)),
        command_of(stage_dir).args.len() == 6,
        config_file(stage_dir) == text::joined(stage_dir, "eval_config.json"@),
        report_file(stage_dir) == text::joined(stage_dir, "eval_report.json"@),
        config_file(stage_dir) != report_file(stage_dir),
{
    reveal_strlit("--config");
    reveal_strlit("--output");
    reveal_strlit("eval_config.json");
    reveal_strlit("eval_report.json");
    assert("--config"@[2] == 'c' && "--output"@[2] == 'o');
    assert("eval_config.json"@[5] == 'c' && "eval_report.json"@[5] == 'r');
    assert("eval_config.json"@.len() == 16 && "eval_report.json"@.len() == 16);
    text::lemma_children_stay_apart(stage_dir, "eval_config.json"@, "eval_report.json"@);
    let args = command_of(stage_dir).args;
    assert(args.take(2) =~= seq!["-m"@, "blut_core.evaluator"@]);
    let rest = args.skip(2);
    text::lemma_a_joined_path_holds_both(stage_dir, "eval_config.json"@);
    assert(config_file(stage_dir).len() >= 16);
    assert("--config"@.len() == 8 && "--output"@.len() == 8);
    assert(rest[0] == "--config"@ && rest[1] == config_file(stage_dir));
    assert(rest[2] == "--output"@ && rest[3] == report_file(stage_dir));
}

/// A report comes back exactly where the evaluator ended well and left a text that is
/// JSON. It holds what that text holds and the hash of its bytes; a failure of the run
/// is reported before anything about the text.
pub proof fn lemma_a_report_needs_a_good_end_and_json(
    stage_dir: Seq<char>,
    run: Result<CommandExit, String>,
    output: Result<&str, String>,
)
    ensures
        failure(stage_dir, run, output) is None <==> {
            &&& run matches Ok(exit) && exit.success
            &&& output matches Ok(t) && json::json_of_text(t@) is Ok
        },
        (run matches Ok(exit) && exit.success) && output is Err ==> failure(stage_dir, run, output)
            == Some(
            StageErrorView::Io {
                path: text::joined(stage_dir, "eval_report.json"@),
                source: output->Err_0@,
            },
        ),
        (run matches Ok(exit) && exit.success) && (output matches Ok(t) && json::json_of_text(
            t@,
        ) is Err) ==> failure(stage_dir, run, output) is Some && failure(
            stage_dir,
            run,
            output,
        )->0 is Backend,
{
}

/// A report is filed where the evaluator wrote it, under the evaluator's name, with the
/// metrics it was made with and the hash of the text that was read.
pub proof fn lemma_what_a_report_holds(
    report: EvalReport,
    stage_dir: Seq<char>,
    evaluator: Seq<char>,
    metrics: JsonView,
    output: &str,
)
    ensures
        is_report_of(report, stage_dir, evaluator, metrics, output) <==> {
            &&& report.path@ == text::joined(stage_dir, "eval_report.json"@)
            &&& report.evaluator@ == evaluator
            &&& report.metrics@ == metrics
            &&& report.content_hash.0@ == artifact::content_digest(output.spec_bytes())
        },
{
}

} // verus!
