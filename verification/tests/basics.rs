use blut_cookbooks::artifact::ContentHash;
use blut_cookbooks::error::{bad_input, StageError};
use blut_cookbooks::evaluator::{
    check_paths, evaluator_command, evaluator_outcome, finished, read_report, run_evaluator,
    EvalRequest,
};
use blut_cookbooks::json::{count_value, get_number, get_text, insert, parse, single_value, Json};
use blut_cookbooks::number::{Real, INFINITY_BITS, ONE_BITS};
use blut_cookbooks::plan::{Node, Plan};
use blut_cookbooks::process::{module_outcome, CommandExit};
use blut_cookbooks::recipes::study_fixture::{
    Args, StudyFixtureRecipe, StudyFixtureResult, StudyFixtureStage,
};
use blut_cookbooks::span::Span;
use blut_cookbooks::text;
use blut_cookbooks::trainer::{
    checkpoint_outcome, memory_gib, permits, pinned_device, trainer_command,
};

#[test]
fn fixture_compiles_with_a_dynamic_declared_envelope() {
    let args = Args { shape: 1, ram_gib: 3 };
    StudyFixtureRecipe.compile(args.clone()).expect("compile fixture");
    let gib = StudyFixtureStage.memory_gib_for(&args);
    assert_eq!(u64::from(gib) * 1024 * 1024 * 1024, 3 * 1024 * 1024 * 1024);
}

#[test]
fn a_fixture_of_an_unknown_shape_is_refused() {
    assert!(StudyFixtureRecipe.compile(Args { shape: 99, ram_gib: 1 }).is_err());
    assert!(matches!(
        StudyFixtureStage.run(&Args { shape: 99, ram_gib: 1 }),
        Err(StageError::BadInput(_))
    ));
    let (metrics, result) = StudyFixtureStage.run(&Args { shape: 0, ram_gib: 2 }).unwrap();
    assert_eq!((result.shape, result.ram_gib), (0, 2));
    assert!(metrics.get("quality").is_some());
}

#[test]
fn the_hash_of_a_result_is_that_of_its_bytes() {
    let r = StudyFixtureResult { shape: 1, ram_gib: 0x0102_0304 };
    assert_eq!(r.bytes(), [1, 0, 0, 0, 4, 3, 2, 1]);
    let want = blut::framework::artifact::ContentHash::of_bytes(&r.bytes()).0;
    assert_eq!(r.content_hash(), ContentHash(want));
    let other = StudyFixtureResult { shape: 2, ram_gib: 0x0102_0304 };
    assert_ne!(r.content_hash(), other.content_hash());
}

#[test]
fn white_space_is_that_of_the_standard_library() {
    for n in 0..=0x10FFFFu32 {
        if let Some(c) = char::from_u32(n) {
            assert_eq!(text::white(c), c.is_whitespace(), "{n:x}");
        }
    }
    for s in ["", " ", " a b ", "\u{3000}x\u{a0}", "\n\t"] {
        assert_eq!(text::trim(s), s.trim());
        assert_eq!(text::blank(s), s.trim().is_empty());
    }
}

#[test]
fn numbers_are_written_and_read() {
    for n in [0u64, 7, 10, 4_294_967_296, u64::MAX] {
        assert_eq!(text::decimal_text(n), n.to_string());
        assert_eq!(text::parse_u64(&n.to_string()), Some(n));
    }
    for n in [0i64, -1, i64::MIN, i64::MAX] {
        assert_eq!(text::decimal_int_text(n), n.to_string());
    }
    for s in ["", "+", "-", "+5", "-5", "2147483647", "2147483648", "-2147483648", "1 ", "0x1", "007"] {
        assert_eq!(text::parse_i32(s), s.parse::<i32>().ok(), "{s}");
    }
    for s in ["", "18446744073709551616", "1.0", "a"] {
        assert_eq!(text::parse_u64(s), None, "{s}");
    }
}

#[test]
fn paths_are_joined_and_climbed() {
    assert_eq!(text::join("/a", "b"), "/a/b");
    assert_eq!(text::join("/a/", "b"), "/a/b");
    assert_eq!(text::join("", "b"), "b");
    for p in ["/a/b/c", "a/b", "a", "/", "", "/a//b/", "a/"] {
        let std_above: Vec<String> =
            std::path::Path::new(p).ancestors().map(|a| a.display().to_string()).collect();
        assert_eq!(text::ancestors(p), std_above, "{p}");
    }
    for p in ["..", "a/../b", "a..b", "...", "/..", "a/..", "./a", "..a/b"] {
        let climbs = std::path::Path::new(p)
            .components()
            .any(|c| matches!(c, std::path::Component::ParentDir));
        assert_eq!(text::has_parent_dir(p), climbs, "{p}");
    }
}

#[test]
fn texts_are_searched() {
    assert!(text::has_text("an Error here", "Error"));
    assert!(text::has_text("x", ""));
    assert!(!text::has_text("Erro", "Error"));
    assert!(text::has_char("a/b", '/'));
    assert!(text::same("a", "a") && !text::same("a", "b"));
    assert_eq!(text::characters("a\u{e9}"), ['a', '\u{e9}']);
}

#[test]
fn json_is_read_into_a_tree() {
    let v = parse(r#"{"a": [1, -2.5, true, null, "x"], "b": {}}"#).unwrap();
    assert_eq!(
        v.get("a"),
        Some(&Json::Array(vec![
            Json::Number("1".to_string()),
            Json::Number("-2.5".to_string()),
            Json::Bool(true),
            Json::Null,
            Json::Text("x".to_string()),
        ]))
    );
    assert_eq!(v.get("b"), Some(&Json::Object(vec![])));
    assert_eq!(v.get("c"), None);
    assert_eq!(v.duplicate(), v);
    assert!(parse("{").is_err());
    let want = serde_json::from_str::<serde_json::Value>("{").unwrap_err().to_string();
    assert_eq!(parse("{"), Err(want));
}

#[test]
fn json_members_are_read_by_type() {
    let v = parse(r#"{"t": "x", "n": 7, "neg": -1, "z": null}"#).unwrap();
    assert_eq!(get_text(&v, "t", 0), Some(Some("x".to_string())));
    assert_eq!(get_text(&v, "missing", 0), Some(None));
    assert_eq!(get_text(&v, "z", 0), Some(None));
    assert_eq!(get_text(&v, "n", 0), None);
    assert_eq!(get_number(&v, "n", 0, 7), Some(Some(7)));
    assert_eq!(get_number(&v, "n", 0, 6), None);
    assert_eq!(get_number(&v, "neg", 0, 100), None);
    let mut e = vec![("a".to_string(), Json::Null)];
    insert(&mut e, "a", count_value(3));
    insert(&mut e, "b", single_value(None));
    assert_eq!(Json::Object(e).get("a"), Some(&Json::Number("3".to_string())));
}

#[test]
fn bits_compare_as_the_numbers_do() {
    assert_eq!(INFINITY_BITS, f32::INFINITY.to_bits());
    assert_eq!(ONE_BITS, 1.0f32.to_bits());
    for x in [
        0.0f32,
        -0.0,
        1.0,
        0.5,
        -0.5,
        f32::MIN_POSITIVE,
        f32::MAX,
        f32::INFINITY,
        f32::NEG_INFINITY,
        f32::NAN,
        1e-45,
        0.999_999_9,
    ] {
        let r = Real { bits: x.to_bits(), shown: format!("{x}") };
        assert_eq!(r.positive_finite(), x > 0.0 && x.is_finite(), "{x}");
        assert_eq!(r.proper_fraction(), x > 0.0 && x < 1.0, "{x}");
    }
}

#[test]
fn spans_count_nanoseconds() {
    let s = Span { secs: 2, nanos: 3 };
    assert_eq!(s.as_nanos(), 2_000_000_003);
    assert_eq!(Span::from_nanos(2_000_000_003), s);
}

fn done(success: bool) -> Result<CommandExit, String> {
    Ok(CommandExit { success, status: "exit status: 3".to_string() })
}

#[test]
fn a_module_that_fails_is_named() {
    assert!(module_outcome("m.x", done(true)).is_ok());
    assert!(matches!(module_outcome("m.x", done(false)), Err(StageError::Backend(m)) if m.contains("m.x") && m.contains("exit status: 3")));
    assert!(matches!(module_outcome("m.x", Err("gone".to_string())), Err(StageError::Backend(m)) if m.contains("gone")));
    assert_eq!(bad_input("x"), StageError::BadInput("x".to_string()));
    assert!(bad_input("x").to_text().contains("x"));
}

#[test]
fn the_evaluator_reads_its_config_and_writes_its_report() {
    let request = EvalRequest {
        checkpoint_path: "/c",
        dataset_path: "/d.jsonl",
        eval: parse(r#"{"name":"perplexity"}"#).unwrap(),
        loss: None,
        batch_size: 1,
        device: "cuda",
        text_field: None,
        max_seq_len: Some(4096),
    };
    let run = run_evaluator("/s", &request, true, true).unwrap();
    assert_eq!(run.command, evaluator_command("/s"));
    assert_eq!(run.config.get("loss"), Some(&Json::Null));
    assert_eq!(run.command.program, "python3");
    assert_eq!(
        run.command.args,
        ["-m", "blut_core.evaluator", "--config", "/s/eval_config.json", "--output", "/s/eval_report.json"]
    );
    assert!(matches!(run_evaluator("/s", &request, true, false), Err(StageError::BadInput(_))));
    assert!(check_paths("/c", "/d", true, true).is_ok());
    assert_eq!(
        check_paths("/c", "/d", false, false),
        Err(StageError::BadInput("checkpoint not found: /c".to_string()))
    );
    assert!(evaluator_outcome(done(true)).is_ok());
    assert!(evaluator_outcome(done(false)).is_err());
    let report = read_report("/s", "eval_loss", r#"{"loss": 0.5}"#).unwrap();
    assert_eq!(report.path, run.report_path);
    assert_eq!(report.evaluator, "eval_loss");
    assert_eq!(report.metrics.get("loss"), Some(&Json::Number("0.5".to_string())));
    assert!(matches!(read_report("/s", "eval_loss", "nonsense"), Err(StageError::Backend(_))));
}

#[test]
fn a_report_takes_a_clean_end_and_json() {
    let report = finished("/s", "e", done(true), Ok(r#"{"loss": 0.5}"#)).unwrap();
    assert_eq!((report.path.as_str(), report.evaluator.as_str()), ("/s/eval_report.json", "e"));
    let want = blut::framework::artifact::ContentHash::of_bytes(br#"{"loss": 0.5}"#);
    assert_eq!(report.content_hash.0, want.0);
    assert_eq!(report.metrics.get("loss"), Some(&Json::Number("0.5".to_string())));
    assert_eq!(
        finished("/s", "e", done(false), Ok("{}")),
        Err(StageError::Backend("blut_core.evaluator exited with exit status: 3".to_string()))
    );
    assert_eq!(
        finished("/s", "e", Err("gone".to_string()), Ok("{}")),
        Err(StageError::Backend("failed to run blut_core.evaluator: gone".to_string()))
    );
    let missing = finished("/s", "e", done(true), Err("no such file".to_string()));
    assert_eq!(
        missing,
        Err(StageError::Io {
            path: "/s/eval_report.json".to_string(),
            source: "no such file".to_string(),
        })
    );
    assert_eq!(missing.unwrap_err().to_text(), "io at /s/eval_report.json: no such file");
    assert!(matches!(
        finished("/s", "e", done(true), Ok("nonsense")),
        Err(StageError::Backend(m)) if m.starts_with("failed to parse eval report: ")
    ));
}

#[test]
fn a_trainer_takes_devices_and_memory_per_process() {
    assert_eq!(permits(0), 1);
    assert_eq!(permits(4), 4);
    assert_eq!(memory_gib(0), 4);
    assert_eq!(memory_gib(4), 16);
    assert_eq!(pinned_device(1, Some(3)), Some(3));
    assert_eq!(pinned_device(2, Some(3)), None);
    assert_eq!(pinned_device(1, None), None);
    assert!(checkpoint_outcome("/c", true).is_ok());
    assert!(matches!(checkpoint_outcome("/c", false), Err(StageError::Backend(m)) if m.contains("/c")));
    let env = blut_cookbooks::distributed::RendezvousEnv {
        master_addr: None,
        master_port: None,
        node_rank: None,
    };
    let c = trainer_command("/s/config.json", 1, 1, &env).unwrap();
    assert_eq!(c.args.last().map(|s| s.as_str()), Some("/s/config.json"));
}

#[test]
fn a_plan_grows_by_its_tails() {
    let plan = Plan::new("p", Json::Null).start(Node::TakeTrain).fork(Node::TakeEval, Node::TakeTrain);
    assert_eq!((plan.n_nodes(), plan.n_edges()), (3, 2));
    let plan = plan.merge(Node::TakeEval).followed_by(Node::TakeTrain);
    assert_eq!(plan.edges, [(0, 1), (0, 2), (1, 3), (2, 3), (3, 4)]);
}
