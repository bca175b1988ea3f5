use blut_cookbooks::artifact::{ContentHash, DatasetJsonl, DatasetSplit, HfCheckpoint};
use blut_cookbooks::cookbook_core::recipes::eval_only::{self, EvalOnly};
use blut_cookbooks::cookbook_core::recipes::finetune_pretrained::{self, FinetunePretrained};
use blut_cookbooks::cookbook_core::recipes::shared::{DatasetSelect, TrainShape};
use blut_cookbooks::cookbook_core::recipes::train_from_dataset::{self, TrainFromDataset};
use blut_cookbooks::cookbook_core::stages::evaluate_model::{
    self, EvaluateHeldOut, EvaluateLoadedDataset, EvaluateModel, HeldOutArgs, LoadedDatasetArgs,
    Rows,
};
use blut_cookbooks::cookbook_core::stages::load_dataset::{self, Load, LoadDataset, Taken};
use blut_cookbooks::cookbook_core::stages::shared::IngredientCfg;
use blut_cookbooks::cookbook_core::stages::train_model::{
    self, ParallelStrategy, TrainModel, TrainModelOnSplit,
};
use blut_cookbooks::distributed::RendezvousEnv;
use blut_cookbooks::error::{RecipeError, StageError};
use blut_cookbooks::json::{insert, parse, text_value, Json};
use blut_cookbooks::jsonl::{capped, count};
use blut_cookbooks::number::Real;
use blut_cookbooks::plan::Node;
use blut_cookbooks::process::CommandExit;
use blut_cookbooks::stages::train_model as standard_train_model;

fn ingredient(kind: &str, name: &str, config: &str) -> IngredientCfg {
    IngredientCfg {
        kind: kind.to_string(),
        name: name.to_string(),
        config: parse(config).unwrap(),
    }
}

fn single(x: f32) -> Real {
    Real { bits: x.to_bits(), shown: format!("{x}") }
}

fn hash_of(bytes: &[u8]) -> ContentHash {
    ContentHash(blut::framework::artifact::ContentHash::of_bytes(bytes).0)
}

fn train_from_dataset_args() -> train_from_dataset::Args {
    train_from_dataset::Args {
        hf_name: Some("imdb".to_string()),
        dataset_path: None,
        split: "train".to_string(),
        dataset: DatasetSelect::default(),
        shape: TrainShape::default(),
        model: ingredient("model", "from_pretrained", r#"{"model_name": "distilbert-base-uncased"}"#),
        optimizer: ingredient("optimizer", "adamw", r#"{"lr": 3e-4}"#),
        scheduler: ingredient("scheduler", "cosine", r#"{"total_epochs": 3}"#),
        loss: ingredient("loss", "cross_entropy", "{}"),
        step: train_from_dataset::default_step(),
        epochs: 3,
        batch_size: 32,
        seed: 42,
        eval_ratio: single(0.1),
        device: "cuda".to_string(),
    }
}

fn finetune_args() -> finetune_pretrained::Args {
    finetune_pretrained::Args {
        hf_name: Some("imdb".to_string()),
        dataset_path: None,
        split: "train".to_string(),
        model: ingredient(
            "model",
            "lora_adapter",
            r#"{"base_model": "meta-llama/Llama-3-8B", "r": 16}"#,
        ),
        optimizer: ingredient("optimizer", "adamw", r#"{"lr": 2e-4}"#),
        scheduler: ingredient("scheduler", "cosine", r#"{"total_epochs": 3}"#),
        loss: ingredient("loss", "cross_entropy", "{}"),
        step: finetune_pretrained::default_step(),
        epochs: 3,
        batch_size: 1,
        seed: 42,
        eval_ratio: single(0.1),
        device: "cuda".to_string(),
        output_name: "my-finetuned-model".to_string(),
        quant: "Q4_K_M".to_string(),
        notes: String::new(),
        dataset: DatasetSelect::default(),
        shape: TrainShape::default(),
    }
}

fn eval_only_args() -> eval_only::Args {
    eval_only::Args {
        hf_name: None,
        dataset_path: Some("/data/eval.jsonl".to_string()),
        split: "test".to_string(),
        checkpoint_path: "/data/checkpoint".to_string(),
        eval: eval_only::default_eval(),
        batch_size: 1,
        device: "cpu".to_string(),
        dataset: DatasetSelect::default(),
        text_field: None,
        max_seq_len: None,
    }
}

#[test]
fn compiles_to_load_then_evaluate() {
    let plan = EvalOnly.compile(eval_only_args(), true).unwrap();
    assert_eq!(plan.n_nodes(), 2);
    assert_eq!(plan.n_edges(), 1);
    assert!(matches!(&plan.nodes[0], Node::LoadDataset(a) if a.path.as_deref() == Some("/data/eval.jsonl")));
    assert!(matches!(&plan.nodes[1], Node::EvaluateLoadedDataset(a) if a.checkpoint_path == "/data/checkpoint"));
    assert_eq!(plan.edges, [(0, 1)]);
}

#[test]
fn an_evaluation_needs_its_checkpoint() {
    let r = EvalOnly.compile(eval_only_args(), false);
    assert!(matches!(r, Err(RecipeError { field: Some("checkpoint_path"), .. })));
    let mut a = eval_only_args();
    a.hf_name = Some("imdb".to_string());
    assert!(EvalOnly.compile(a, true).is_err());
    let mut a = eval_only_args();
    a.dataset_path = None;
    assert!(matches!(
        EvalOnly.compile(a, true),
        Err(RecipeError { field: None, message }) if message == "one of hf_name / dataset_path is required"
    ));
}

#[test]
fn compiles_to_7_node_plan() {
    let plan = FinetunePretrained.compile(finetune_args()).unwrap();
    assert_eq!(plan.n_nodes(), 7);
    assert_eq!(plan.n_edges(), 6);
}

#[test]
fn dataset_and_shape_reach_their_stages() {
    let mut a = finetune_args();
    a.dataset.subset = Some("wikitext-2-raw-v1".to_string());
    a.dataset.max_samples = Some(64);
    a.shape.nnodes = 2;
    a.shape.nproc_per_node = 2;
    assert_eq!(
        finetune_pretrained::load_args(&a).subset.as_deref(),
        Some("wikitext-2-raw-v1")
    );
    assert_eq!(finetune_pretrained::load_args(&a).max_samples, Some(64));
    let t = finetune_pretrained::train_args(&a);
    assert_eq!((t.nproc_per_node, t.nnodes), (2, 2));
}

#[test]
fn defaulted_shared_fields_leave_the_plan_identity_unchanged() {
    let json = finetune_args().to_json();
    for key in ["subset", "max_samples", "nproc_per_node", "nnodes", "parallel_strategy"] {
        assert!(json.get(key).is_none(), "{key} serialized at its default");
    }
    assert_eq!(json.get("output_name").and_then(|v| v.as_str()), Some("my-finetuned-model"));
}

#[test]
fn rejects_empty_output_name() {
    let mut a = finetune_args();
    a.output_name = String::new();
    let r = FinetunePretrained.compile(a);
    assert!(matches!(r, Err(RecipeError { .. })));
}

#[test]
fn defaults_serialize_to_nothing() {
    assert_eq!(DatasetSelect::default().to_json(), Json::Object(vec![]));
    assert_eq!(TrainShape::default().to_json(), Json::Object(vec![]));
}

#[test]
fn an_empty_object_deserializes_to_the_defaults() {
    let shape = TrainShape::from_json(&parse("{}").unwrap()).unwrap();
    assert_eq!(shape, TrainShape::default());
    assert_eq!((shape.nproc_per_node, shape.nnodes), (1, 1));
}

#[test]
fn a_record_may_be_written_as_an_array() {
    assert_eq!(TrainShape::from_json(&parse("[]").unwrap()).unwrap(), TrainShape::default());
    assert_eq!(DatasetSelect::from_json(&parse("[]").unwrap()).unwrap(), DatasetSelect::default());
    let shape = TrainShape::from_json(&parse(r#"[4, 2, "fsdp", null, 1024]"#).unwrap()).unwrap();
    assert_eq!((shape.nproc_per_node, shape.nnodes), (4, 2));
    assert_eq!(shape.parallel_strategy, ParallelStrategy::Fsdp);
    assert_eq!((shape.text_field, shape.max_seq_len), (None, Some(1024)));
    assert!(TrainShape::from_json(&parse("[1, 1, \"ddp\", null, null, 0]").unwrap()).is_none());
    let select = DatasetSelect::from_json(&parse(r#"["s", 3]"#).unwrap()).unwrap();
    assert_eq!((select.subset.as_deref(), select.max_samples), (Some("s"), Some(3)));
    let cfg = IngredientCfg::from_json(&parse(r#"["loss", "causal_lm"]"#).unwrap()).unwrap();
    assert_eq!((cfg.kind.as_str(), cfg.name.as_str()), ("loss", "causal_lm"));
    assert_eq!(cfg.config, Json::Null);
    assert!(IngredientCfg::from_json(&parse(r#"["loss"]"#).unwrap()).is_none());
    assert!(IngredientCfg::from_json(&parse(r#"["a", "b", {}, 1]"#).unwrap()).is_none());
    let text = r#"[["model", "m"], ["optimizer", "o"], ["scheduler", "s"], ["loss", "l"],
        ["step", "x", 1], 3, 4, 5, "cpu", null, "body", 9, 2, 1, {"fsdp": null}]"#;
    let args = train_model::Args::from_json(&parse(text).unwrap()).unwrap();
    assert_eq!((args.model.name.as_str(), args.step.name.as_str()), ("m", "x"));
    assert_eq!((args.epochs, args.batch_size, args.seed), (3, 4, 5));
    assert_eq!((args.device.as_str(), args.lora_rank), ("cpu", None));
    assert_eq!((args.text_field.as_deref(), args.max_seq_len), (Some("body"), Some(9)));
    assert_eq!((args.nproc_per_node, args.nnodes), (2, 1));
    assert_eq!(args.parallel_strategy, ParallelStrategy::Fsdp);
}

#[test]
fn a_strategy_may_be_written_as_an_object() {
    let read = |text: &str| ParallelStrategy::from_json(&parse(text).unwrap());
    assert_eq!(read(r#""ddp""#), Some(ParallelStrategy::Ddp));
    assert_eq!(read(r#"{"fsdp": null}"#), Some(ParallelStrategy::Fsdp));
    assert_eq!(read(r#"{"fsdp": 1}"#), None);
    assert_eq!(read(r#"{"fsdp": null, "ddp": null}"#), None);
    assert_eq!(read("{}"), None);
    assert_eq!(read(r#""zero3""#), None);
}

#[test]
fn set_fields_round_trip() {
    let shape = TrainShape {
        nproc_per_node: 4,
        nnodes: 2,
        parallel_strategy: ParallelStrategy::Fsdp,
        text_field: Some("body".to_string()),
        max_seq_len: Some(1024),
    };
    let json = shape.to_json();
    assert_eq!(TrainShape::from_json(&json).unwrap(), shape);
    let select = DatasetSelect { subset: Some("s".to_string()), max_samples: Some(0) };
    assert_eq!(DatasetSelect::from_json(&select.to_json()).unwrap(), select);
}

#[test]
fn a_shape_of_another_type_is_refused() {
    for text in [
        r#"{"nnodes": "2"}"#,
        r#"{"nnodes": -1}"#,
        r#"{"nnodes": 4294967296}"#,
        r#"{"parallel_strategy": "zero3"}"#,
        r#"{"text_field": 3}"#,
    ] {
        assert!(TrainShape::from_json(&parse(text).unwrap()).is_none(), "{text}");
    }
    assert!(DatasetSelect::from_json(&parse(r#"{"max_samples": 1.5}"#).unwrap()).is_none());
}

#[test]
fn compiles_to_5_node_plan() {
    let plan = TrainFromDataset.compile(train_from_dataset_args()).unwrap();
    assert_eq!(plan.n_nodes(), 5);
    assert_eq!(plan.n_edges(), 5, "the split fans out to two edges that rejoin");
    assert_eq!(plan.edges, [(0, 1), (1, 2), (1, 3), (2, 4), (3, 4)]);
    assert!(matches!(&plan.nodes[1], Node::SplitTrainEval(_)));
    assert!(matches!(&plan.nodes[2], Node::TrainModelOnSplit(_)));
    assert!(matches!(&plan.nodes[3], Node::TakeEval));
    assert!(matches!(&plan.nodes[4], Node::EvaluateHeldOut(_)));
}

#[test]
fn held_out_evaluation_scores_with_the_training_loss() {
    let a = train_from_dataset_args();
    let h = train_from_dataset::held_out_args(&a);
    assert_eq!(h.loss.as_ref().map(|l| l.name.as_str()), Some(a.loss.name.as_str()));
    assert_eq!(h.eval.name, "loss_eval");
}

#[test]
fn rejects_both_dataset_specifiers() {
    let mut a = train_from_dataset_args();
    a.dataset_path = Some("/tmp/x.jsonl".to_string());
    let r = TrainFromDataset.compile(a);
    assert!(matches!(r, Err(RecipeError { .. })));
}

#[test]
fn rejects_neither_dataset_specifier() {
    let mut a = train_from_dataset_args();
    a.hf_name = None;
    let r = TrainFromDataset.compile(a);
    assert!(matches!(r, Err(RecipeError { .. })));
}

#[test]
fn the_distributed_shape_reaches_the_train_stage() {
    let mut a = train_from_dataset_args();
    a.shape = TrainShape {
        nproc_per_node: 4,
        nnodes: 2,
        parallel_strategy: ParallelStrategy::Fsdp,
        text_field: Some("body".to_string()),
        max_seq_len: Some(1024),
    };
    let t = train_from_dataset::train_args(&a);
    assert_eq!(t.text_field.as_deref(), Some("body"));
    assert_eq!(t.max_seq_len, Some(1024));
    assert_eq!(t.nnodes, 2);
    assert_eq!(t.nproc_per_node, 4);
    assert_eq!(t.parallel_strategy, ParallelStrategy::Fsdp);
    assert_eq!(TrainFromDataset.compile(a).unwrap().n_nodes(), 5);
}

#[test]
fn the_default_shape_is_a_single_local_process() {
    let t = train_from_dataset::train_args(&train_from_dataset_args());
    assert_eq!(t.nnodes, 1);
    assert_eq!(t.nproc_per_node, 1);
    assert_eq!(t.parallel_strategy, ParallelStrategy::Ddp);
}

#[test]
fn the_dataset_selectors_reach_the_load_stage() {
    let mut a = train_from_dataset_args();
    a.dataset = DatasetSelect {
        subset: Some("wikitext-2-raw-v1".to_string()),
        max_samples: Some(256),
    };
    let l = train_from_dataset::load_args(&a);
    assert_eq!(l.subset.as_deref(), Some("wikitext-2-raw-v1"));
    assert_eq!(l.max_samples, Some(256));
}

#[test]
fn defaulted_new_fields_leave_the_plan_identity_unchanged() {
    let json = train_from_dataset_args().to_json();
    for key in [
        "nproc_per_node",
        "nnodes",
        "parallel_strategy",
        "text_field",
        "max_seq_len",
        "subset",
        "max_samples",
    ] {
        assert!(json.get(key).is_none(), "{key} serialized at its default");
    }
}

#[test]
fn distributed_and_dataset_fields_are_read_from_the_top_level() {
    let mut entries = match train_from_dataset_args().to_json() {
        Json::Object(e) => e,
        other => panic!("{other:?}"),
    };
    insert(&mut entries, "nnodes", Json::Number("2".to_string()));
    insert(&mut entries, "subset", text_value("wikitext-2-raw-v1"));
    let json = Json::Object(entries);
    assert_eq!(TrainShape::from_json(&json).unwrap().nnodes, 2);
    assert_eq!(
        DatasetSelect::from_json(&json).unwrap().subset.as_deref(),
        Some("wikitext-2-raw-v1")
    );
}

#[test]
fn the_shared_fields_are_written_at_the_top_level() {
    let mut a = train_from_dataset_args();
    a.shape.nnodes = 2;
    a.dataset.subset = Some("wikitext-2-raw-v1".to_string());
    let json = a.to_json();
    assert_eq!(json.get("nnodes"), Some(&Json::Number("2".to_string())));
    assert_eq!(TrainShape::from_json(&json).unwrap(), a.shape);
    assert_eq!(DatasetSelect::from_json(&json).unwrap(), a.dataset);
}

#[test]
fn rejects_zero_epochs() {
    let mut a = train_from_dataset_args();
    a.epochs = 0;
    let r = TrainFromDataset.compile(a);
    assert!(matches!(r, Err(RecipeError { .. })));
}

#[test]
fn the_ratio_reaches_the_split_and_the_batch_is_doubled() {
    let plan = TrainFromDataset.compile(train_from_dataset_args()).unwrap();
    assert!(matches!(&plan.nodes[1], Node::SplitTrainEval(a) if a.eval_ratio == single(0.1) && a.seed == 42));
    assert!(matches!(&plan.nodes[4], Node::EvaluateHeldOut(a) if a.batch_size == 64));
    let mut a = train_from_dataset_args();
    a.batch_size = u32::MAX;
    assert_eq!(train_from_dataset::held_out_args(&a).batch_size, u32::MAX);
    assert_eq!(train_from_dataset::default_eval_ratio(), single(0.1));
    assert_eq!(finetune_pretrained::default_eval_ratio(), single(0.1));
}

#[test]
fn local_dataset_source_resolves() {
    let path = "/data/eval.jsonl";
    let args = evaluate_model::Args {
        dataset_path: Some(path.to_string()),
        hf_name: None,
        split: "test".to_string(),
        eval: ingredient("eval", "loss_eval", "{}"),
        batch_size: 1,
        device: "cpu".to_string(),
        subset: None,
        max_samples: None,
        text_field: None,
        max_seq_len: None,
    };
    assert_eq!(
        EvaluateModel.resolve_dataset(&args, "/data/stage"),
        Ok(Rows::Local { path: path.to_string(), max_samples: None })
    );
    assert!(EvaluateModel.check_local(path, true).is_ok());
    assert!(matches!(EvaluateModel.check_local(path, false), Err(StageError::BadInput(_))));
}

#[test]
fn rows_of_the_hub_are_downloaded() {
    let mut args = evaluate_model::Args {
        dataset_path: None,
        hf_name: Some("imdb".to_string()),
        split: evaluate_model::default_split(),
        eval: ingredient("eval", "loss_eval", "{}"),
        batch_size: evaluate_model::default_batch_size(),
        device: evaluate_model::default_device(),
        subset: Some("plain".to_string()),
        max_samples: Some(5),
        text_field: None,
        max_seq_len: None,
    };
    match EvaluateModel.resolve_dataset(&args, "/s") {
        Ok(Rows::Hub { command, output }) => {
            assert!(output.starts_with("/s/"));
            assert!(command.args.contains(&"imdb".to_string()));
            assert!(command.args.contains(&"plain".to_string()));
            assert!(command.args.contains(&"5".to_string()));
            assert!(command.args.contains(&output));
        }
        other => panic!("{other:?}"),
    }
    args.hf_name = None;
    assert!(matches!(EvaluateModel.resolve_dataset(&args, "/s"), Err(StageError::BadInput(_))));
    let failed = Ok(CommandExit { success: false, status: "exit status: 1".to_string() });
    assert!(matches!(EvaluateModel.downloaded(failed, "/s/x", true), Err(StageError::Backend(_))));
    let done = Ok(CommandExit { success: true, status: "exit status: 0".to_string() });
    assert!(EvaluateModel.downloaded(done, "/s/x", true).is_ok());
}

fn loading(path: Option<&str>, name: Option<&str>) -> load_dataset::Args {
    load_dataset::Args {
        path: path.map(|p| p.to_string()),
        hf_name: name.map(|n| n.to_string()),
        split: "train".to_string(),
        subset: None,
        max_samples: None,
    }
}

#[test]
fn load_dataset_loads_dataset_from_path() {
    let body = "{\"text\":\"hello\"}\n{\"text\":\"world\"}\n";
    let p = match LoadDataset.source(&loading(Some("/data/ds.jsonl"), None), "/data/stage") {
        Ok(Load::Local { path, .. }) => path,
        other => panic!("{other:?}"),
    };
    assert!(LoadDataset.check_found(&p, true).is_ok());
    let taken = LoadDataset.taken(&p, body, None, "/data/stage");
    assert_eq!(taken, Taken { path: p.clone(), body: None });
    let out = LoadDataset.dataset(taken.path, body, None, hash_of(body.as_bytes()));
    assert_eq!(out.path, "/data/ds.jsonl");
    assert_eq!(out.n_examples, 2);
}

#[test]
fn a_cap_holds_for_a_local_file() {
    let body = "{\"text\":\"hello\"}\n\n{\"text\":\"world\"}\n";
    let mut args = loading(Some("/data/ds.jsonl"), None);
    args.max_samples = Some(1);
    let (path, max) = match LoadDataset.source(&args, "/data/stage") {
        Ok(Load::Local { path, max_samples }) => (path, max_samples),
        other => panic!("{other:?}"),
    };
    let taken = LoadDataset.taken(&path, body, max, "/data/stage");
    assert_eq!(taken.path, "/data/stage/dataset.jsonl");
    assert_eq!(taken.body.as_deref(), Some("{\"text\":\"hello\"}\n"));
    let d = LoadDataset.dataset(taken.path, body, max, hash_of(b"x"));
    assert_eq!(d.n_examples, 1);
    assert_eq!(d.n_examples, count(&taken.body.unwrap()));

    let whole = Taken { path: path.clone(), body: None };
    assert_eq!(LoadDataset.taken(&path, body, Some(2), "/s"), whole);
    assert_eq!(LoadDataset.taken(&path, body, Some(9), "/s"), whole);
    assert_eq!(LoadDataset.dataset(path.clone(), body, Some(9), hash_of(b"x")).n_examples, 2);
    assert_eq!(LoadDataset.taken(&path, body, Some(0), "/s").body.as_deref(), Some(""));
    assert_eq!(LoadDataset.dataset(path, body, Some(0), hash_of(b"x")).n_examples, 0);
}

#[test]
fn a_cap_holds_for_local_evaluation_rows() {
    let taken = EvaluateModel.taken("/d.jsonl", "a\r\nb\r\nc", Some(2), "/s");
    assert_eq!(taken.path, "/s/evaluation_dataset.jsonl");
    assert_eq!(taken.body.as_deref(), Some("a\nb\n"));
    let taken = EvaluateModel.taken("/d.jsonl", "a\nb", None, "/s");
    assert_eq!(taken, Taken { path: "/d.jsonl".to_string(), body: None });
}

#[test]
fn capped_lines_are_the_first_that_are_not_blank() {
    let rows: Vec<String> = ["", "a", " ", "b", "c"].iter().map(|l| l.to_string()).collect();
    assert_eq!(capped(&rows, Some(2)), ["a", "b"]);
    assert_eq!(capped(&rows, None), ["a", "b", "c"]);
    assert_eq!(capped(&rows, Some(7)), ["a", "b", "c"]);
}

#[test]
fn load_dataset_rejects_missing_path() {
    let p = match LoadDataset.source(&loading(Some("/data/missing"), None), "/data/stage") {
        Ok(Load::Local { path, .. }) => path,
        other => panic!("{other:?}"),
    };
    let r = LoadDataset.check_found(&p, false);
    assert!(matches!(r, Err(StageError::BadInput(_))));
}

#[test]
fn load_dataset_rejects_both_path_and_name() {
    let r = LoadDataset.source(&loading(Some("/data/x"), Some("imdb")), "/data/stage");
    assert!(matches!(r, Err(StageError::BadInput(_))));
}

#[test]
fn load_dataset_rejects_neither_path_nor_name() {
    let r = LoadDataset.source(&loading(None, None), "/data/stage");
    assert!(matches!(r, Err(StageError::BadInput(_))));
}

#[test]
fn a_dataset_of_the_hub_is_downloaded() {
    let mut args = loading(None, Some("imdb"));
    args.max_samples = Some(7);
    match LoadDataset.source(&args, "/s") {
        Ok(Load::Hub { command, output }) => {
            assert_eq!(output, "/s/dataset.jsonl");
            assert!(command.args.windows(2).any(|w| w[1] == "imdb"));
            assert!(command.args.windows(2).any(|w| w[1] == "7"));
        }
        other => panic!("{other:?}"),
    }
    let done = || Ok(CommandExit { success: true, status: "exit status: 0".to_string() });
    assert!(LoadDataset.downloaded(done(), true).is_ok());
    assert!(LoadDataset.downloaded(done(), false).is_err());
    assert!(LoadDataset.downloaded(Err("no python".to_string()), true).is_err());
}

const TRAIN_MODEL: &str = r#"{
    "model": {"kind": "model", "name": "from_pretrained", "config": {}},
    "optimizer": {"kind": "optimizer", "name": "adamw", "config": {}},
    "scheduler": {"kind": "scheduler", "name": "constant", "config": {}},
    "loss": {"kind": "loss", "name": "cross_entropy", "config": {}},
    "epochs": 1
}"#;

fn rows() -> DatasetJsonl {
    DatasetJsonl {
        path: "/data/train.jsonl".to_string(),
        content_hash: hash_of(b"x"),
        n_examples: 1,
    }
}

#[test]
fn lora_rank_is_refused_not_ignored() {
    let text = r#"{
        "model": {"kind": "model", "name": "from_pretrained", "config": {}},
        "optimizer": {"kind": "optimizer", "name": "adamw", "config": {}},
        "scheduler": {"kind": "scheduler", "name": "constant", "config": {}},
        "loss": {"kind": "loss", "name": "causal_lm", "config": {}},
        "epochs": 1
    }"#;
    let mut args = train_model::Args::from_json(&parse(text).unwrap()).unwrap();
    args.lora_rank = Some(16);
    let r = TrainModel.check(&rows(), &args, true);
    assert!(
        matches!(&r, Err(StageError::BadInput(m)) if m.contains("lora_adapter")),
        "got {r:?}"
    );
}

#[test]
fn train_model_parallel_strategy_defaults_to_ddp() {
    let args = train_model::Args::from_json(&parse(TRAIN_MODEL).unwrap()).unwrap();
    assert_eq!(args.parallel_strategy, ParallelStrategy::Ddp);
    assert_eq!(args.nproc_per_node, 1);
    let args = standard_train_model::Args::from_json(&parse(TRAIN_MODEL).unwrap()).unwrap();
    assert_eq!(args.parallel_strategy, standard_train_model::ParallelStrategy::Ddp);
    assert_eq!(args.nproc_per_node, 1);
}

#[test]
fn train_model_parallel_strategy_fsdp_roundtrips() {
    let text = r#"{
        "model": {"kind": "model", "name": "from_pretrained", "config": {}},
        "optimizer": {"kind": "optimizer", "name": "adamw", "config": {}},
        "scheduler": {"kind": "scheduler", "name": "constant", "config": {}},
        "loss": {"kind": "loss", "name": "cross_entropy", "config": {}},
        "epochs": 1,
        "nproc_per_node": 2,
        "parallel_strategy": "fsdp"
    }"#;
    let args = train_model::Args::from_json(&parse(text).unwrap()).unwrap();
    assert_eq!(args.parallel_strategy, ParallelStrategy::Fsdp);
    assert_eq!(args.nproc_per_node, 2);
    let args = standard_train_model::Args::from_json(&parse(text).unwrap()).unwrap();
    assert_eq!(args.parallel_strategy, standard_train_model::ParallelStrategy::Fsdp);
    assert_eq!(args.nproc_per_node, 2);
}

#[test]
fn the_standard_stage_reads_its_arguments() {
    let read = |text: &str| standard_train_model::Args::from_json(&parse(text).unwrap());
    let args = read(TRAIN_MODEL).unwrap();
    assert_eq!(args.step, standard_train_model::default_step());
    assert_eq!((args.batch_size, args.seed, args.nnodes), (32, 42, 1));
    assert_eq!((args.device.as_str(), args.lora_rank), ("cuda", None));
    let args = read(
        r#"[["model", "m"], ["optimizer", "o"], ["scheduler", "s"], ["loss", "l"],
            ["step", "x"], 3, 4, 5, "cpu", 8, 2, 6, {"fsdp": null}]"#,
    )
    .unwrap();
    assert_eq!((args.epochs, args.batch_size, args.seed), (3, 4, 5));
    assert_eq!((args.lora_rank, args.nproc_per_node, args.nnodes), (Some(8), 2, 6));
    assert_eq!(args.parallel_strategy, standard_train_model::ParallelStrategy::Fsdp);
    assert!(read("{}").is_none());
    assert!(read(&TRAIN_MODEL.replace("\"epochs\": 1", "\"seed\": 1")).is_none());
    let typo = TRAIN_MODEL.replace("\"epochs\": 1", "\"epochs\": 1, \"parallel_strategy\": \"zero3\"");
    assert!(read(&typo).is_none());
}

#[test]
fn train_model_parallel_strategy_rejects_unknown() {
    assert!(ParallelStrategy::from_name("zero3").is_none());
    assert!(standard_train_model::ParallelStrategy::from_name("zero3").is_none());
    let unknown = parse("\"zero3\"").unwrap();
    assert!(ParallelStrategy::from_json(&unknown).is_none());
    assert!(standard_train_model::ParallelStrategy::from_json(&unknown).is_none());
    assert_eq!(ParallelStrategy::from_name("fsdp"), Some(ParallelStrategy::Fsdp));
    assert_eq!(ParallelStrategy::default().name(), "ddp");
}

#[test]
fn train_model_ingredient_cfg_serde_roundtrip() {
    let cfg = ingredient("optimizer", "adamw", r#"{"lr": 1e-3}"#);
    let back = IngredientCfg::from_json(&cfg.to_json()).unwrap();
    assert_eq!(back.kind, "optimizer");
    assert_eq!(back.name, "adamw");
    assert_eq!(back, cfg);
}

#[test]
fn arguments_that_lack_a_field_are_refused() {
    assert!(train_model::Args::from_json(&parse("{}").unwrap()).is_none());
    assert!(train_model::Args::from_json(&parse("3").unwrap()).is_none());
    let without_name = TRAIN_MODEL.replace(r#""name": "adamw", "#, "");
    assert!(train_model::Args::from_json(&parse(&without_name).unwrap()).is_none());
    let args = train_model::Args::from_json(&parse(TRAIN_MODEL).unwrap()).unwrap();
    assert_eq!(args.step, train_model::default_step());
    assert_eq!(args.batch_size, train_model::default_batch_size());
    assert_eq!(args.seed, train_model::default_seed());
    assert_eq!(args.device, train_model::default_device());
    assert_eq!(args.lora_rank, None);
}

fn no_env() -> RendezvousEnv {
    RendezvousEnv { master_addr: None, master_port: None, node_rank: None }
}

#[test]
fn a_training_command_runs_the_trainer_module() {
    let mut args = train_model::Args::from_json(&parse(TRAIN_MODEL).unwrap()).unwrap();
    assert!(TrainModel.check(&rows(), &args, true).is_ok());
    assert!(matches!(TrainModel.check(&rows(), &args, false), Err(StageError::BadInput(_))));
    let command = TrainModel.command(&args, "/s", &no_env()).unwrap();
    assert_eq!(command.args[0], "-m");
    assert_eq!(command.args.last(), Some(&TrainModel.config_path("/s")));
    args.nnodes = 2;
    assert!(matches!(
        TrainModel.command(&args, "/s", &no_env()),
        Err(StageError::Backend(m)) if m.contains("MASTER_ADDR")
    ));
    args.nnodes = 1;
    args.nproc_per_node = 4;
    let command = TrainModel.command(&args, "/s", &no_env()).unwrap();
    assert_eq!(command.args[1], "torch.distributed.run");
    assert_eq!(TrainModel.gpu_permits(&args), 4);
    assert_eq!(TrainModel.memory_gib_for(&args), 16);
    let config = TrainModel.config(&rows(), &args, "/s");
    assert_eq!(config.get("dataset_path").and_then(|v| v.as_str()), Some("/data/train.jsonl"));
    assert_eq!(config.get("epochs"), Some(&Json::Number("1".to_string())));
}

#[test]
fn a_run_without_a_checkpoint_failed() {
    let end = |success: bool| Ok(CommandExit { success, status: "exit status: 3".to_string() });
    assert!(TrainModel.trained(end(true), "/s", true).is_ok());
    assert_eq!(
        TrainModel.trained(end(true), "/s", false),
        Err(StageError::Backend("trainer did not produce checkpoint in /s/checkpoint".to_string()))
    );
    assert_eq!(
        standard_train_model::TrainModel.trained(end(false), "/s", false),
        Err(StageError::Backend("blut_core.trainer exited with exit status: 3".to_string()))
    );
    assert_eq!(
        standard_train_model::TrainModel.trained(Err("gone".to_string()), "/s", true),
        Err(StageError::Backend("failed to run blut_core.trainer: gone".to_string()))
    );
}

#[test]
fn the_train_half_is_trained_on() {
    let split = |n: i64| DatasetSplit {
        train: DatasetJsonl { n_examples: n, ..rows() },
        eval: rows(),
    };
    assert_eq!(TrainModelOnSplit.train_half(split(3)).unwrap().n_examples, 3);
    assert!(matches!(TrainModelOnSplit.train_half(split(0)), Err(StageError::BadInput(_))));
}

#[test]
fn evaluations_hand_on_what_they_score() {
    let checkpoint = HfCheckpoint {
        path: "/c".to_string(),
        base_model: "m".to_string(),
        method_tag: "full".to_string(),
        content_hash: hash_of(b"c"),
        final_loss: 0,
    };
    let args = HeldOutArgs {
        eval: ingredient("eval", "loss_eval", "{}"),
        loss: Some(ingredient("loss", "causal_lm", "{}")),
        batch_size: 2,
        device: "cpu".to_string(),
        text_field: Some("body".to_string()),
        max_seq_len: None,
    };
    let run = EvaluateHeldOut.request(&checkpoint, &rows(), &args, "/s", true, true).unwrap();
    assert_eq!(
        run.config.get("loss").and_then(|l| l.get("name")).and_then(|n| n.as_str()),
        Some("causal_lm")
    );
    assert_eq!(run.config.get("text_field").and_then(|v| v.as_str()), Some("body"));
    assert!(EvaluateHeldOut.request(&checkpoint, &rows(), &args, "/s", false, true).is_err());
    let args = LoadedDatasetArgs {
        checkpoint_path: "/c2".to_string(),
        eval: ingredient("eval", "loss_eval", "{}"),
        batch_size: 2,
        device: "cpu".to_string(),
        text_field: None,
        max_seq_len: Some(9),
    };
    let run = EvaluateLoadedDataset.request(&rows(), &args, "/s", true, true).unwrap();
    assert_eq!(run.config.get("checkpoint_path").and_then(|v| v.as_str()), Some("/c2"));
    assert_eq!(run.config.get("max_seq_len").and_then(|v| v.as_natural(100)), Some(9));
}
