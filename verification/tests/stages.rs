use blut_cookbooks::artifact::{
    ContentHash, DatasetJsonl, DatasetSplit, EvalReport, GgufModel, HfCheckpoint, PreferenceJsonl,
};
use blut_cookbooks::cookbook_core::stages::shared::IngredientCfg;
use blut_cookbooks::error::StageError;
use blut_cookbooks::json::{parse, Json};
use blut_cookbooks::number::Real;
use blut_cookbooks::process::CommandExit;
use blut_cookbooks::spec::{Method, Optim};
use blut_cookbooks::stages::convert_gguf::{self, ConvertGguf};
use blut_cookbooks::stages::distill_train::{self, DistillTrain};
use blut_cookbooks::stages::dpo_train::{self, DpoTrain};
use blut_cookbooks::stages::eval_judge::{self, EvalJudge};
use blut_cookbooks::stages::eval_lm_harness::{self, EvalLmHarness};
use blut_cookbooks::stages::eval_loss::{self, EvalLoss};
use blut_cookbooks::stages::evaluate_model::{self, EvaluateModel};
use blut_cookbooks::stages::materialize_conversations::{
    self, DumpStats, MaterializeConversations,
};
use blut_cookbooks::stages::materialize_dataset_path::{self, MaterializeDatasetPath, Source};
use blut_cookbooks::stages::materialize_for_eval::{self, MaterializeForEval};
use blut_cookbooks::stages::merge_lora::{self, MergeLora, Merged};
use blut_cookbooks::stages::merge_reports::{accuracies, MergeReports};
use blut_cookbooks::stages::register_dataset::{self, RegisterDataset};
use blut_cookbooks::stages::register_model::{self, RegisterModel};
use blut_cookbooks::stages::sft_train::{self, SftTrain};
use blut_cookbooks::stages::take_eval::TakeEval;
use blut_cookbooks::stages::take_train::TakeTrain;
use blut_cookbooks::stages::util::{
    check_name, refuse_missing, refuse_parent_dir, resolve_trainer_script, TrainerNext,
    TrainerSearch,
};

fn hash_of(bytes: &[u8]) -> ContentHash {
    ContentHash(blut::framework::artifact::ContentHash::of_bytes(bytes).0)
}

fn single(x: f32) -> Real {
    Real { bits: x.to_bits(), shown: format!("{x}") }
}

fn checkpoint(path: &str, method_tag: &str) -> HfCheckpoint {
    HfCheckpoint {
        path: path.to_string(),
        base_model: "Qwen/Qwen3-7B".to_string(),
        method_tag: method_tag.to_string(),
        content_hash: hash_of(b"ckpt"),
        final_loss: 0.4f32.to_bits(),
    }
}

fn dataset(path: &str, n_examples: i64) -> DatasetJsonl {
    DatasetJsonl { path: path.to_string(), content_hash: hash_of(b"eval"), n_examples }
}

#[test]
fn eval_judge_refuses_rather_than_inventing_scores() {
    let r = EvalJudge.run(
        &(checkpoint("/tmp/ckpt", "qlora_merged"), dataset("/tmp/x.jsonl", 100)),
        &eval_judge::Args {
            judge_model: "a-judge".to_string(),
            prompts: vec![],
            n_samples: 10,
        },
    );
    assert!(
        matches!(&r, Err(StageError::BadInput(m)) if m.contains("not implemented")),
        "got {r:?}"
    );
}

#[test]
fn rejects_empty_judge_model() {
    let r = EvalJudge.run(
        &(checkpoint("/tmp/ckpt", "qlora_merged"), dataset("/tmp/x.jsonl", 10)),
        &eval_judge::Args { judge_model: "".to_string(), prompts: vec![], n_samples: 1 },
    );
    assert!(matches!(r, Err(StageError::BadInput(_))));
}

#[test]
fn a_judge_needs_a_sound_request() {
    let mut args = eval_judge::Args {
        judge_model: "a-judge".to_string(),
        prompts: vec![],
        n_samples: eval_judge::default_n_samples(),
    };
    let r = EvalJudge.run(&(checkpoint("/tmp/ckpt", "full"), dataset("/tmp/x.jsonl", -3)), &args);
    assert_eq!(
        r,
        Err(StageError::BadInput("eval_judge: dataset n_examples -3 is negative".to_string()))
    );
    args.n_samples = 0;
    let r = EvalJudge.run(&(checkpoint("/tmp/ckpt", "full"), dataset("/tmp/x.jsonl", 0)), &args);
    assert_eq!(
        r,
        Err(StageError::BadInput(
            "eval_judge: either n_samples > 0 or prompts must be non-empty".to_string()
        ))
    );
    args.prompts = vec!["p".to_string()];
    let r = EvalJudge.run(&(checkpoint("/tmp/ckpt", "full"), dataset("/tmp/x.jsonl", 0)), &args);
    assert_eq!(r, Err(StageError::BadInput(eval_judge::NOT_IMPLEMENTED.to_string())));
}

#[test]
fn eval_lm_harness_refuses_rather_than_inventing_scores() {
    let r = EvalLmHarness.run(
        &(checkpoint("/tmp/ckpt", "qlora_merged"), dataset("/tmp/x.jsonl", 10)),
        &eval_lm_harness::Args { tasks: vec!["hellaswag".to_string()], num_fewshot: 5 },
    );
    assert!(
        matches!(&r, Err(StageError::BadInput(m)) if m.contains("not implemented")),
        "got {r:?}"
    );
}

#[test]
fn rejects_empty_tasks() {
    let r = EvalLmHarness.run(
        &(checkpoint("/tmp/ckpt", "qlora_merged"), dataset("/tmp/x.jsonl", 10)),
        &eval_lm_harness::Args { tasks: vec![], num_fewshot: 0 },
    );
    assert!(matches!(r, Err(StageError::BadInput(_))));
}

#[test]
fn refuses_a_checkpoint_that_does_not_exist() {
    let r = EvalLoss.request(
        &checkpoint("/tmp/no-such-checkpoint", "qlora_merged"),
        &dataset("/tmp/eval.jsonl", 50),
        &eval_loss::Args::default(),
        "/tmp/stage",
        false,
        true,
    );
    assert!(
        matches!(&r, Err(StageError::BadInput(m)) if m.contains("checkpoint not found")),
        "got {r:?}"
    );
}

#[test]
fn refuses_an_empty_eval_split() {
    let r = EvalLoss.request(
        &checkpoint("/tmp/ckpt", "qlora_merged"),
        &dataset("/tmp/eval.jsonl", 0),
        &eval_loss::Args::default(),
        "/tmp/stage",
        true,
        true,
    );
    assert!(matches!(r, Err(StageError::BadInput(_))));
}

#[test]
fn an_evaluation_is_described_in_its_config() {
    let run = EvalLoss
        .request(
            &checkpoint("/tmp/ckpt", "qlora_merged"),
            &dataset("/tmp/eval.jsonl", 50),
            &eval_loss::Args::default(),
            "/tmp/stage",
            true,
            true,
        )
        .unwrap();
    assert_eq!(run.config.get("checkpoint_path").and_then(|v| v.as_str()), Some("/tmp/ckpt"));
    assert_eq!(run.config.get("dataset_path").and_then(|v| v.as_str()), Some("/tmp/eval.jsonl"));
    assert_eq!(run.config.get("batch_size").and_then(|v| v.as_natural(100)), Some(1));
    assert_eq!(run.config.get("max_seq_len").and_then(|v| v.as_natural(u64::MAX)), Some(4096));
    assert!(run.config_path.starts_with("/tmp/stage/"));
    assert!(run.command.args.contains(&run.config_path));
}

#[test]
fn the_report_of_a_loss_carries_the_count() {
    let report = EvalReport {
        path: "/tmp/r.json".to_string(),
        evaluator: "eval_loss".to_string(),
        metrics: parse(r#"{"loss": 0.5}"#).unwrap(),
        content_hash: hash_of(b"r"),
    };
    let r = EvalLoss.report(report, &dataset("/tmp/eval.jsonl", 50));
    assert_eq!(r.metrics.get("n_examples"), Some(&Json::Number("50".to_string())));
    assert_eq!(r.metrics.get("loss"), Some(&Json::Number("0.5".to_string())));
}

#[test]
fn a_loss_is_reported_by_its_stage_after_a_clean_end() {
    let end = |success: bool| Ok(CommandExit { success, status: "exit status: 1".to_string() });
    let rows = dataset("/tmp/eval.jsonl", 7);
    let r = EvalLoss.finished("/s", &rows, end(true), Ok(r#"{"loss": 2}"#)).unwrap();
    assert_eq!((r.path.as_str(), r.evaluator.as_str()), ("/s/eval_report.json", "eval_loss"));
    assert_eq!(r.metrics.get("n_examples"), Some(&Json::Number("7".to_string())));
    assert!(matches!(
        EvalLoss.finished("/s", &rows, end(false), Ok("{}")),
        Err(StageError::Backend(_))
    ));
}

fn path_args(path: Option<&str>, name: Option<&str>) -> materialize_dataset_path::Args {
    materialize_dataset_path::Args {
        path: path.map(|p| p.to_string()),
        registered_name: name.map(|n| n.to_string()),
    }
}

#[test]
fn materialize_dataset_path_loads_dataset_from_path() {
    let stage = MaterializeDatasetPath;
    let body = "{\"a\":1}\n{\"b\":2}\n{\"c\":3}\n";
    match stage.source(&path_args(Some("/data/ds.jsonl"), None)) {
        Ok(Source::Path(p)) => {
            assert_eq!(p, "/data/ds.jsonl");
            assert!(stage.check_found(&p, true).is_ok());
        }
        other => panic!("{other:?}"),
    }
    let out = stage.dataset("/data/stage", body, hash_of(body.as_bytes()));
    assert_eq!(out.path, "/data/stage/dataset.jsonl");
    assert_eq!(out.path, stage.output_path("/data/stage"));
    assert_eq!(out.n_examples, 3);
    assert_eq!(out.content_hash, hash_of(body.as_bytes()));
}

#[test]
fn materialize_dataset_path_rejects_missing_path() {
    let stage = MaterializeDatasetPath;
    let p = match stage.source(&path_args(Some("/data/missing"), None)) {
        Ok(Source::Path(p)) => p,
        other => panic!("{other:?}"),
    };
    let r = stage.check_found(&p, false);
    assert!(matches!(r, Err(StageError::BadInput(_))));
}

#[test]
fn materialize_dataset_path_rejects_both_path_and_name() {
    let r = MaterializeDatasetPath.source(&path_args(Some("/data/x"), Some("y")));
    assert!(matches!(r, Err(StageError::BadInput(_))));
}

#[test]
fn materialize_dataset_path_rejects_neither_path_nor_name() {
    let r = MaterializeDatasetPath.source(&path_args(None, None));
    assert!(matches!(r, Err(StageError::BadInput(_))));
}

#[test]
fn a_registered_name_stands_for_its_source() {
    let stage = MaterializeDatasetPath;
    assert_eq!(
        stage.source(&path_args(None, Some("corpus"))),
        Ok(Source::Registered("corpus".to_string()))
    );
    assert_eq!(stage.registered("corpus", Some("/d.jsonl".to_string())), Ok("/d.jsonl".to_string()));
    assert!(matches!(stage.registered("corpus", None), Err(StageError::BadInput(m)) if m.contains("corpus")));
}

#[test]
fn round_trips_ckpt_and_dataset() {
    let body = "{\"a\":1}\n{\"b\":2}\n";
    let args = materialize_for_eval::Args {
        model_path: "/data/model".to_string(),
        base_model: "test/x".to_string(),
        dataset_path: "/data/eval.jsonl".to_string(),
    };
    assert!(MaterializeForEval.check(&args, true, true).is_ok());
    let out = MaterializeForEval.artifacts(&args, hash_of(b"m"), hash_of(b"d"), body);
    assert_eq!(out.0.base_model, "test/x");
    assert_eq!(out.1.n_examples, 2);
    assert_eq!(out.0.path, "/data/model");
    assert_eq!(out.1.path, "/data/eval.jsonl");
}

#[test]
fn rejects_missing_model() {
    let args = materialize_for_eval::Args {
        model_path: "/data/nonexistent".to_string(),
        base_model: "".to_string(),
        dataset_path: "/data/eval.jsonl".to_string(),
    };
    let r = MaterializeForEval.check(&args, false, true);
    assert!(matches!(r, Err(StageError::BadInput(_))));
    let r = MaterializeForEval.check(&args, true, false);
    assert!(matches!(r, Err(StageError::BadInput(_))));
}

#[test]
fn full_method_passes_through_unchanged() {
    let out = MergeLora
        .run(checkpoint("/tmp/ckpt", "full"), &merge_lora::Args::default(), None)
        .unwrap();
    assert_eq!(out.method_tag, "full");
    assert_eq!(out, checkpoint("/tmp/ckpt", "full"));
}

#[test]
fn qlora_gets_merged_suffix() {
    let out = MergeLora
        .run(checkpoint("/tmp/ckpt", "qlora"), &merge_lora::Args::default(), None)
        .unwrap();
    assert_eq!(out.method_tag, "qlora_merged");
}

#[test]
fn already_merged_idempotent() {
    let out = MergeLora
        .run(checkpoint("/tmp/ckpt", "qlora_merged"), &merge_lora::Args::default(), None)
        .unwrap();
    assert_eq!(out.method_tag, "qlora_merged");
}

fn merge_output() -> Option<Merged> {
    Some(Merged { path: MergeLora.output_dir("/s"), content_hash: hash_of(b"merged") })
}

#[test]
fn a_merge_hands_on_its_new_directory() {
    let args = merge_lora::Args::default();
    for tag in ["qlora", "lora"] {
        let input = checkpoint("/c", tag);
        assert!(MergeLora.merges(&input, &args));
        let out = MergeLora.run(input, &args, merge_output()).unwrap();
        assert_eq!(out.method_tag, format!("{tag}_merged"));
        assert_eq!((out.path.as_str(), out.content_hash), ("/s/merged", hash_of(b"merged")));
        assert_eq!(out.base_model, checkpoint("/c", tag).base_model);
        assert_eq!(out.final_loss, checkpoint("/c", tag).final_loss);
    }
}

#[test]
fn relabelling_keeps_everything_but_the_tag() {
    let only = merge_lora::Args { passthrough_only: true };
    assert!(!MergeLora.merges(&checkpoint("/c", "lora"), &only));
    let none_found = MergeLora.run(checkpoint("/c", "lora"), &merge_lora::Args::default(), None);
    let relabelled = MergeLora.run(checkpoint("/c", "lora"), &only, merge_output());
    for out in [none_found, relabelled] {
        let mut out = out.unwrap();
        assert_eq!(out.method_tag, "lora_merged");
        out.method_tag = "lora".to_string();
        assert_eq!(out, checkpoint("/c", "lora"));
    }
}

#[test]
fn a_checkpoint_without_an_adapter_is_not_merged() {
    let args = merge_lora::Args::default();
    for tag in ["full", "qlora_merged", "lora_merged"] {
        assert!(!MergeLora.merges(&checkpoint("/c", tag), &args));
        let out = MergeLora.run(checkpoint("/c", tag), &args, merge_output()).unwrap();
        assert_eq!(out, checkpoint("/c", tag));
    }
    assert!(!MergeLora.merges(&checkpoint("/c", ""), &args));
    assert_eq!(
        MergeLora.run(checkpoint("/c", ""), &args, merge_output()),
        Err(StageError::BadInput("HfCheckpoint must carry a non-empty method_tag".to_string()))
    );
}

#[test]
fn a_merge_that_left_nothing_failed() {
    let end = |success: bool| Ok(CommandExit { success, status: "exit status: 1".to_string() });
    assert!(MergeLora.merge_outcome(end(true), "/s", true).is_ok());
    assert_eq!(
        MergeLora.merge_outcome(end(true), "/s", false),
        Err(StageError::Backend("trainer.py --merge-only did not produce /s/merged".to_string()))
    );
    assert_eq!(
        MergeLora.merge_outcome(end(false), "/s", true),
        Err(StageError::Backend("trainer.py --merge-only exited with exit status: 1".to_string()))
    );
    assert!(MergeLora.merge_outcome(Err("gone".to_string()), "/s", true).is_err());
}

fn report(evaluator: &str, metrics: &str) -> EvalReport {
    EvalReport {
        path: format!("/tmp/{evaluator}.json"),
        evaluator: evaluator.to_string(),
        metrics: parse(metrics).unwrap(),
        content_hash: hash_of(evaluator.as_bytes()),
    }
}

fn mean(report: &EvalReport) -> Json {
    let accs: Vec<f64> =
        accuracies(&report.metrics).iter().map(|s| s.parse().unwrap()).collect();
    if accs.is_empty() {
        return Json::Null;
    }
    let m = accs.iter().sum::<f64>() / accs.len() as f64;
    Json::Number(format!("{m}"))
}

#[test]
fn combines_three_reports() {
    let a = report("eval_loss", r#"{"loss": 0.42}"#);
    let b = report(
        "eval_lm_harness",
        r#"{"tasks": {"hellaswag": {"acc": 0.7}, "arc_easy": {"acc": 0.6}}}"#,
    );
    let c = report("eval_judge", r#"{"mean_score": 0.55}"#);
    assert!(MergeReports.check(&a, &b, &c).is_ok());
    let metrics = MergeReports.metrics(&a, &b, &c, &mean(&a), &mean(&b), &mean(&c));
    let r = MergeReports.report("/tmp/stage", metrics, hash_of(b"merged"));
    assert_eq!(r.evaluator, "merge_reports");
    let kept = r.metrics.get("by_evaluator").unwrap();
    assert_eq!(kept.get("eval_loss"), Some(&a.metrics));
    assert_eq!(kept.get("eval_lm_harness"), Some(&b.metrics));
    assert_eq!(kept.get("eval_judge"), Some(&c.metrics));
    let summary = r.metrics.get("summary").unwrap();
    assert_eq!(summary.get("eval_loss.loss"), Some(&Json::Number("0.42".to_string())));
    assert_eq!(summary.get("eval_judge.mean_score"), Some(&Json::Number("0.55".to_string())));
    let mean_acc: f64 = match summary.get("eval_lm_harness.mean_acc") {
        Some(Json::Number(s)) => s.parse().unwrap(),
        other => panic!("{other:?}"),
    };
    assert!((mean_acc - 0.65).abs() < 1e-9);
    assert_eq!(r.path, MergeReports.report_path("/tmp/stage"));
}

#[test]
fn accuracies_are_those_of_the_tasks() {
    let m = parse(r#"{"tasks": {"a": {"acc": 0.25}, "b": {"f1": 1.0}, "c": {"acc": "x"}}}"#).unwrap();
    assert_eq!(accuracies(&m), ["0.25"]);
    assert!(accuracies(&parse("{}").unwrap()).is_empty());
    assert!(accuracies(&parse(r#"{"tasks": 3}"#).unwrap()).is_empty());
}

#[test]
fn a_report_needs_a_name() {
    let a = report("a", "{}");
    let b = report("", "{}");
    assert!(matches!(MergeReports.check(&a, &b, &a), Err(StageError::BadInput(_))));
}

#[test]
fn passthrough_returns_input_unchanged() {
    let input = DatasetJsonl {
        path: "/data/data.jsonl".to_string(),
        content_hash: hash_of(b"x"),
        n_examples: 1,
    };
    let args = register_dataset::Args {
        name: "test-dataset-from-register-stage".to_string(),
        kind: "sft".to_string(),
        metadata: None,
    };
    assert!(RegisterDataset.check(&args).is_ok());
    let out = RegisterDataset.registered(input.clone(), Ok(()));
    if let Ok(out) = &out {
        assert_eq!(out.path, input.path);
        assert_eq!(out.content_hash, input.content_hash);
        assert_eq!(out.n_examples, input.n_examples);
    }
    assert!(out.is_ok());
    let refused = RegisterDataset.registered(input, Err("locked".to_string()));
    assert!(matches!(refused, Err(StageError::Backend(m)) if m.contains("locked")));
    assert_eq!(register_dataset::default_kind(), "sft");
}

fn half(name: &str, n: i64) -> DatasetJsonl {
    DatasetJsonl {
        path: format!("/tmp/{name}.jsonl"),
        content_hash: hash_of(name.as_bytes()),
        n_examples: n,
    }
}

#[test]
fn projects_the_eval_half() {
    let split = DatasetSplit { train: half("train", 90), eval: half("eval", 10) };
    let out = TakeEval.run(split).unwrap();
    assert_eq!(out.path, "/tmp/eval.jsonl");
    assert_eq!(out.n_examples, 10);
}

#[test]
fn refuses_an_empty_eval_half() {
    let split = DatasetSplit { train: half("train", 90), eval: half("eval", 0) };
    let r = TakeEval.run(split);
    assert!(matches!(r, Err(StageError::BadInput(_))));
}

#[test]
fn projects_train_half() {
    let split = DatasetSplit { train: half("train", 80), eval: half("eval", 20) };
    let out = TakeTrain.run(split).unwrap();
    assert_eq!(out.path, "/tmp/train.jsonl");
    assert_eq!(out.content_hash, hash_of(b"train"));
    assert_eq!(out.n_examples, 80);
    let empty = DatasetSplit { train: half("train", 0), eval: half("eval", 20) };
    assert!(matches!(TakeTrain.run(empty), Err(StageError::BadInput(_))));
}

fn search() -> TrainerSearch {
    TrainerSearch { configured: None, in_tree: None, installed: None, engine: None }
}

#[test]
fn source_trainer_resolves_from_cookbook_owner() {
    let mut s = search();
    let path = match resolve_trainer_script("/src/cookbook", "python3", "trainer.py", &s) {
        Ok(TrainerNext::LookInTree(p)) => p,
        other => panic!("{other:?}"),
    };
    s.in_tree = Some(true);
    let found = resolve_trainer_script("/src/cookbook", "python3", "trainer.py", &s);
    assert_eq!(found, Ok(TrainerNext::Found(path.clone())));
    assert!(path.ends_with("python/blut_standard/trainer.py"));
}

#[test]
fn unknown_trainer_is_rejected() {
    let result = resolve_trainer_script("/src/cookbook", "python3", "other.py", &search());
    assert!(matches!(result, Err(StageError::BadInput(_))));
}

#[test]
fn the_search_for_a_trainer_goes_on_step_by_step() {
    let mut s = search();
    s.in_tree = Some(false);
    assert_eq!(
        resolve_trainer_script("/r", "py", "trainer_dpo.py", &s),
        Ok(TrainerNext::AskPython(
            "import importlib.util; s=importlib.util.find_spec(\"blut_standard.trainer_dpo\"); print(s.origin if s and s.origin else '')".to_string()
        ))
    );
    s.installed = Some(Some((" /site/t.py\n".to_string(), true)));
    assert_eq!(
        resolve_trainer_script("/r", "py", "trainer_dpo.py", &s),
        Ok(TrainerNext::Found("/site/t.py".to_string()))
    );
    s.installed = Some(None);
    assert_eq!(
        resolve_trainer_script("/r", "py", "trainer_dpo.py", &s),
        Ok(TrainerNext::AskEngine)
    );
    s.engine = Some(Err("gone".to_string()));
    assert_eq!(
        resolve_trainer_script("/r", "py", "trainer_dpo.py", &s),
        Err(StageError::Backend("blut_standard.trainer_dpo not installed for py; install blut-cookbook-standard into that interpreter or set $BLUT_STANDARD_TRAINER_DPO_PY: gone".to_string()))
    );
    s.configured = Some(("/o.py".to_string(), false));
    assert_eq!(
        resolve_trainer_script("/r", "py", "trainer_distill.py", &s),
        Err(StageError::BadInput(
            "$BLUT_STANDARD_TRAINER_DISTILL_PY does not name a file: /o.py".to_string()
        ))
    );
    s.configured = Some(("/o.py".to_string(), true));
    assert_eq!(
        resolve_trainer_script("/r", "py", "trainer_distill.py", &s),
        Ok(TrainerNext::Found("/o.py".to_string()))
    );
}

fn register(name: &str) -> Result<register_model::Entry, StageError> {
    RegisterModel.entry(
        &GgufModel {
            path: "/tmp/blut-test-nonexistent.gguf".to_string(),
            quant: "Q4_K_M".to_string(),
            content_hash: ContentHash([0u8; 32]),
            registered_as: None,
        },
        &register_model::Args {
            name: name.to_string(),
            notes: String::new(),
            arch: "trained".to_string(),
        },
    )
}

#[test]
fn empty_name_is_bad_input() {
    assert!(matches!(register(""), Err(StageError::BadInput(_))));
}

#[test]
fn name_with_forward_slash_is_bad_input() {
    assert!(matches!(register("a/b"), Err(StageError::BadInput(_))));
}

#[test]
fn name_with_backslash_is_bad_input() {
    assert!(matches!(register("a\\b"), Err(StageError::BadInput(_))));
}

#[test]
fn a_plain_name_is_registered() {
    let e = register("my-model").unwrap();
    assert_eq!(e.name, "my-model");
    assert_eq!(e.path, "/tmp/blut-test-nonexistent.gguf");
    assert_eq!(e.quant, "Q4_K_M");
    assert_eq!(e.arch, register_model::default_arch());
    assert_eq!(e.format, register_model::ModelFormat::Gguf);
    assert_eq!(e.backend, register_model::BackendType::LlamaCpp);
    assert_eq!(e.capabilities, [register_model::Capability::Chat]);
    assert_eq!(e.status, register_model::ModelStatus::Available);
    assert_eq!((e.params_b, e.vram_mb, e.context_max), (0, 0, 0));
    let model = GgufModel {
        path: "/m.gguf".to_string(),
        quant: "Q4_K_M".to_string(),
        content_hash: ContentHash([0u8; 32]),
        registered_as: None,
    };
    let args = register_model::Args {
        name: "my-model".to_string(),
        notes: String::new(),
        arch: "trained".to_string(),
    };
    let out = RegisterModel.registered(model, &args, Ok(())).unwrap();
    assert_eq!(out.registered_as, Some("my-model".to_string()));
    assert_eq!(out.path, "/m.gguf");
}

fn sft(method: &str, optimizer: &str, lr: f32) -> sft_train::Args {
    sft_train::Args {
        base_model: "m".to_string(),
        output_name: "out".to_string(),
        method: method.to_string(),
        rank: 16,
        alpha: 32,
        optimizer: optimizer.to_string(),
        lr: single(lr),
        epochs: 3,
        batch_size: 1,
        grad_accum: 8,
        seq_len: 4096,
        seed: 42,
    }
}

#[test]
fn a_training_run_is_described() {
    let spec = SftTrain
        .spec(&dataset("/d.jsonl", 2), &sft("qlora", "adamw8bit", 2e-4), "/job/stage")
        .unwrap();
    assert_eq!(spec.method, Method::QLora { rank: 16, alpha: 32 });
    assert_eq!(spec.optimizer, Optim::AdamW8bit);
    assert_eq!(spec.output_dir, "/job/stage/checkpoint");
    assert_eq!(spec.dataset_path, "/d.jsonl");
    assert_eq!(spec.quant, "Q4_K_M");
    assert!(spec.skip_convert);
    assert_eq!((spec.nproc_per_node, spec.nnodes), (1, 1));
    assert_eq!(spec.dpo_beta, None);
    let full = SftTrain.spec(&dataset("/d", 1), &sft("full", "apollo", 1.0), "/s").unwrap();
    assert_eq!((full.method, full.optimizer), (Method::Full, Optim::ApolloRank4));
    let c = SftTrain.checkpoint(&sft("lora", "adamw", 1.0), "/s", 0.5f32.to_bits(), hash_of(b"h"));
    assert_eq!((c.path.as_str(), c.method_tag.as_str()), ("/s/checkpoint", "lora"));
}

#[test]
fn a_training_run_out_of_range_is_refused() {
    assert!(SftTrain.check(&sft("qlora", "adamw", 2e-4)).is_ok());
    for lr in [0.0f32, -1.0, f32::INFINITY, f32::NAN, -0.0] {
        assert!(matches!(SftTrain.check(&sft("qlora", "adamw", lr)), Err(StageError::BadInput(_))));
    }
    let mut a = sft("qlora", "adamw", 2e-4);
    a.grad_accum = 0;
    assert_eq!(
        SftTrain.check(&a),
        Err(StageError::BadInput("epochs/batch_size/grad_accum must be > 0".to_string()))
    );
    assert_eq!(
        SftTrain.spec(&dataset("/d", 1), &sft("dora", "adamw", 1.0), "/s"),
        Err(StageError::BadInput(
            "unknown method 'dora', expected qlora|lora|full".to_string()
        ))
    );
    assert_eq!(
        SftTrain.spec(&dataset("/d", 1), &sft("lora", "sgd", 1.0), "/s"),
        Err(StageError::BadInput("unknown optimizer 'sgd'".to_string()))
    );
    assert_eq!(
        SftTrain.validated(Err("seq_len too large".to_string())),
        Err(StageError::BadInput("seq_len too large".to_string()))
    );
}

#[test]
fn the_removed_trainers_say_so() {
    let prefs = PreferenceJsonl {
        path: "/p.jsonl".to_string(),
        content_hash: hash_of(b""),
        n_pairs: 1,
    };
    let args = dpo_train::Args {
        base_model: "m".to_string(),
        output_name: "o".to_string(),
        beta: single(0.1),
        lr: single(1e-6),
        epochs: 1,
        batch_size: 1,
        grad_accum: 1,
        seq_len: 128,
        seed: 0,
    };
    assert_eq!(
        DpoTrain.run(&prefs, &args),
        Err(StageError::BadInput(dpo_train::REMOVED.to_string()))
    );
    let args = distill_train::Args {
        student_base: "m".to_string(),
        output_name: "o".to_string(),
        kl_weight: single(0.5),
        lr: single(1e-6),
        epochs: 1,
        batch_size: 1,
        grad_accum: 1,
        seq_len: 128,
        seed: 0,
    };
    assert_eq!(
        DistillTrain.run(&(checkpoint("/c", "full"), dataset("/d", 1)), &args),
        Err(StageError::BadInput(distill_train::REMOVED.to_string()))
    );
}

#[test]
fn a_conversion_needs_names_and_a_path() {
    let args = |quant: &str, name: &str| convert_gguf::Args {
        quant: quant.to_string(),
        name: name.to_string(),
    };
    let ok = args("Q4_K_M", "m");
    assert!(ConvertGguf.check(&checkpoint("/c", "qlora_merged"), &ok).is_ok());
    assert_eq!(
        ConvertGguf.check(&checkpoint("/c", "full"), &args("Q4_K_M", "a/b")),
        Err(StageError::BadInput(
            "name 'a/b' must be non-empty and free of path separators".to_string()
        ))
    );
    assert_eq!(
        ConvertGguf.check(&checkpoint("/c", "full"), &args("", "m")),
        Err(StageError::BadInput("quant must be non-empty".to_string()))
    );
    assert_eq!(
        ConvertGguf.check(&checkpoint("", "full"), &ok),
        Err(StageError::BadInput("HfCheckpoint.path must be non-empty".to_string()))
    );
    assert_eq!(
        ConvertGguf.check(&checkpoint("/a/../c", "full"), &ok),
        Err(StageError::BadInput(
            "HfCheckpoint.path '/a/../c' contains '..' \u{2014} refusing".to_string()
        ))
    );
    let m = ConvertGguf.model(&checkpoint("/c/ckpt", "full"), &ok, hash_of(b"g"));
    assert_eq!(
        (m.path.as_str(), m.quant.as_str(), m.registered_as),
        ("/c/m.Q4_K_M.gguf", "Q4_K_M", None)
    );
}

#[test]
fn a_model_stands_next_to_its_checkpoint() {
    let args = |quant: &str| convert_gguf::Args { quant: quant.to_string(), name: "m".to_string() };
    for (path, want) in [
        ("/c/ckpt", "/c/m.f16.gguf"),
        ("/c/ckpt/", "/c/m.f16.gguf"),
        ("/c/ckpt/.", "/c/m.f16.gguf"),
        ("/ckpt", "/m.f16.gguf"),
        ("ckpt", "m.f16.gguf"),
        ("/", "/m.f16.gguf"),
    ] {
        assert_eq!(ConvertGguf.output_path(&checkpoint(path, "full"), &args("f16")), want, "{path}");
    }
    assert!(!ConvertGguf.quantizes(&args("f16")));
    assert!(ConvertGguf.quantizes(&args("Q4_K_M")));
}

#[test]
fn no_conversations_are_no_dataset() {
    let stats = |n_turns: u64| DumpStats {
        n_conversations: 0,
        n_turns,
        n_dropped_short: 1,
        n_dropped_filtered_below_min: 2,
        n_dropped_errors: 3,
        n_dropped_oversize: 4,
    };
    let args = materialize_conversations::Args { since_seconds: 60 };
    let s = DumpStats { n_conversations: 2, ..stats(5) };
    assert!(MaterializeConversations.check(&args, &s).is_ok());
    assert!(matches!(
        MaterializeConversations.check(&args, &stats(0)),
        Err(StageError::BadInput(_))
    ));
    let d = MaterializeConversations.dataset("/s", &s, hash_of(b"d"));
    assert_eq!(d.n_examples, 5);
    assert_eq!(d.path, MaterializeConversations.output_path("/s"));
}

#[test]
fn an_evaluation_with_the_ingredients_is_described() {
    let args = evaluate_model::Args {
        dataset_path: "/d.jsonl".to_string(),
        eval: IngredientCfg::plain("eval", "loss_eval"),
        batch_size: evaluate_model::default_batch_size(),
        device: evaluate_model::default_device(),
    };
    let c = checkpoint("/c", "full");
    assert!(EvaluateModel.check(&c, &args, true, true).is_ok());
    assert!(matches!(
        EvaluateModel.check(&c, &args, false, true),
        Err(StageError::BadInput(_))
    ));
    assert!(matches!(
        EvaluateModel.check(&c, &args, true, false),
        Err(StageError::BadInput(_))
    ));
    let config = EvaluateModel.config(&c, &args);
    assert_eq!(
        config.get("eval").and_then(|e| e.get("name")).and_then(|n| n.as_str()),
        Some("loss_eval")
    );
    assert!(EvaluateModel.command("/s").args.len() > 1);
    let end = Ok(CommandExit { success: true, status: "exit status: 0".to_string() });
    let r = EvaluateModel.report("/s", end, Ok("{}")).unwrap();
    assert_eq!(r.content_hash, hash_of(b"{}"));
    assert_eq!((r.path.as_str(), r.evaluator.as_str()), ("/s/eval_report.json", "blut_core.evaluator"));
}

#[test]
fn paths_that_climb_are_refused() {
    assert!(refuse_parent_dir("dataset", "/a/b").is_ok());
    assert!(refuse_parent_dir("dataset", "/a/..b/c").is_ok());
    assert!(matches!(refuse_parent_dir("dataset", "/a/../b"), Err(StageError::BadInput(m)) if m.contains("dataset")));
    assert!(refuse_parent_dir("dataset", "..").is_err());
    assert!(refuse_missing("dataset", "/a", true).is_ok());
    assert!(matches!(refuse_missing("dataset", "/a", false), Err(StageError::BadInput(m)) if m.contains("/a")));
    assert!(check_name("ok").is_ok());
    assert!(check_name("").is_err());
    assert!(check_name("a/b").is_err());
}
