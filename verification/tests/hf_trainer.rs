use blut_cookbooks::artifact::{ContentHash, DatasetJsonl, PreferenceJsonl};
use blut_cookbooks::backends::hf_trainer::requirements::{generated_source, pins, requirements};
use blut_cookbooks::backends::hf_trainer::runner::{
    default_nproc, status_text, wrapper_candidates, wrapper_path, HfAction, HfEvent,
    HfRunArtifact, HfTrainerRunner, Prepared, RunError, StatusLine,
};
use blut_cookbooks::backends::hf_trainer::stages::hf_dpo_train::{self, HfDpoTrain};
use blut_cookbooks::backends::hf_trainer::stages::hf_sft_train::{self, HfSftTrain};
use blut_cookbooks::backends::hf_trainer::stages::step_update;
use blut_cookbooks::backends::hf_trainer::venv::{
    current, ensure_venv, lock_holder, lock_path, marker_path, pid_in_lock_is_dead, python_path,
    required_pkgs, venv_root, Inspection, Probe, VenvAction, VenvError, VenvEvent, VenvPhase,
    VENV_VERSION, WAIT_SECONDS,
};
use blut_cookbooks::distributed::RendezvousEnv;
use blut_cookbooks::error::StageError;
use blut_cookbooks::json::Json;
use blut_cookbooks::number::Real;
use blut_cookbooks::process::CommandExit;
use blut_cookbooks::span::Span;

fn single(x: f32) -> Real {
    Real { bits: x.to_bits(), shown: format!("{x}") }
}

fn exit(success: bool) -> CommandExit {
    let status = if success { "exit status: 0" } else { "exit status: 1" };
    CommandExit { success, status: status.to_string() }
}

#[test]
fn python_path_layout_matches_unix_venv() {
    assert_eq!(python_path("/tmp/x"), "/tmp/x/bin/python");
}

#[test]
fn venv_root_honors_env_override() {
    assert_eq!(venv_root(Some("/tmp/blut-hf-venv-test"), Some("/home/u/.local/share")), "/tmp/blut-hf-venv-test");
}

#[test]
fn default_path_is_under_data_local_dir() {
    let root = venv_root(None, Some("/home/u/.local/share"));
    assert!(root.ends_with("blut/hf-venv") || root.ends_with("blut\\hf-venv"));
    assert_eq!(root, "/home/u/.local/share/blut/hf-venv");
    assert_eq!(venv_root(None, None), "/tmp/blut/hf-venv");
}

#[test]
fn wrapper_path_resolves_in_dev_tree() {
    let candidates = wrapper_candidates(Some("/opt/bin"), Some("/home/u"));
    assert_eq!(
        candidates,
        [
            "/opt/bin/python/hf_trainer_runner.py",
            "/home/u/src/backends/hf_trainer/python/hf_trainer_runner.py",
            "/home/src/backends/hf_trainer/python/hf_trainer_runner.py",
            "/src/backends/hf_trainer/python/hf_trainer_runner.py",
        ]
    );
    let none = vec![false; 4];
    assert_eq!(wrapper_path(None, &candidates, &none), None);
    assert_eq!(wrapper_path(Some("/o.py"), &candidates, &none), Some("/o.py".to_string()));
    assert_eq!(
        wrapper_path(None, &candidates, &vec![false, true, false, true]),
        Some(candidates[1].clone())
    );
    assert!(wrapper_candidates(None, None).is_empty());
}

#[test]
fn runner_spawn_preflight_refusal_never_publishes_child_pid() {
    let mut runner = HfTrainerRunner::new();
    let action = runner.run(HfEvent::Preflight(Err("job is terminal".to_string())));
    assert!(
        matches!(
            action,
            HfAction::Finish {
                result: Err(RunError::ChildControl {
                    operation: "spawn preflight",
                    pid: None,
                    ..
                }),
                unregister: None,
            }
        ),
        "unexpected result: {action:?}"
    );
    assert!(runner.child_pid.is_none());
}

fn prepared() -> Prepared {
    Prepared {
        python: "/v/bin/python".to_string(),
        spec_path: "/s/job.json".to_string(),
        wrapper: Some("/w.py".to_string()),
        nproc_per_node: 1,
        nnodes: 1,
        env: RendezvousEnv { master_addr: None, master_port: None, node_rank: None },
    }
}

fn running(pid: u32) -> HfTrainerRunner {
    let mut r = HfTrainerRunner::new();
    assert!(matches!(r.run(HfEvent::Preflight(Ok(()))), HfAction::Prepare));
    assert!(matches!(r.run(HfEvent::Prepared(Ok(prepared()))), HfAction::Launch { .. }));
    assert!(matches!(r.run(HfEvent::Launched(Ok(Some(pid)))), HfAction::Register(p) if p == pid));
    assert!(r.child_pid.is_none());
    assert!(matches!(r.run(HfEvent::Registered(Ok(()))), HfAction::Stream));
    assert_eq!(r.child_pid, Some(pid));
    r
}

const ELAPSED: Span = Span { secs: 3, nanos: 0 };

#[test]
fn a_run_ends_with_its_last_done() {
    let mut r = running(7);
    let done = |dir: &str| StatusLine::Done {
        checkpoint_dir: dir.to_string(),
        final_loss: Some(0.25f32.to_bits()),
    };
    assert!(matches!(r.run(HfEvent::Line(None)), HfAction::Skip));
    assert!(matches!(r.run(HfEvent::Line(Some(done("/a")))), HfAction::Forward(_)));
    r.run(HfEvent::Line(Some(done("/b"))));
    let action = r.run(HfEvent::Exited { exit: Ok(exit(true)), elapsed: ELAPSED });
    match action {
        HfAction::Finish { result: Ok(artifact), unregister } => {
            assert_eq!(artifact.checkpoint_dir, "/b");
            assert_eq!(artifact.final_loss, Some(0.25f32.to_bits()));
            assert_eq!(artifact.elapsed, ELAPSED);
            assert_eq!(unregister, Some(7));
        }
        other => panic!("{other:?}"),
    }
    assert!(r.child_pid.is_none());
}

#[test]
fn a_reported_failure_comes_before_the_exit_status() {
    let mut r = running(7);
    r.run(HfEvent::Line(Some(StatusLine::Failed { error: "OOM at step 1234".to_string() })));
    let action = r.run(HfEvent::Exited { exit: Ok(exit(false)), elapsed: ELAPSED });
    assert!(matches!(
        action,
        HfAction::Finish { result: Err(RunError::WrapperFailed { message }), .. } if message == "OOM at step 1234"
    ));
    let mut r = running(8);
    let action = r.run(HfEvent::Exited { exit: Ok(exit(false)), elapsed: ELAPSED });
    assert!(matches!(
        action,
        HfAction::Finish { result: Err(RunError::Failed { status }), .. } if status == "exit status: 1"
    ));
    let mut r = running(9);
    let action = r.run(HfEvent::Exited { exit: Ok(exit(true)), elapsed: ELAPSED });
    assert!(matches!(
        action,
        HfAction::Finish { result: Err(RunError::Failed { status }), .. } if status == "no Done line emitted"
    ));
}

#[test]
fn a_launch_needs_its_wrapper_and_its_rendezvous() {
    let mut r = HfTrainerRunner::default();
    r.run(HfEvent::Preflight(Ok(())));
    let action = r.run(HfEvent::Prepared(Ok(Prepared { wrapper: None, ..prepared() })));
    assert!(matches!(action, HfAction::Finish { result: Err(RunError::Io { .. }), .. }));
    let mut r = HfTrainerRunner::new();
    r.run(HfEvent::Preflight(Ok(())));
    let action = r.run(HfEvent::Prepared(Ok(Prepared { nnodes: 2, ..prepared() })));
    assert!(matches!(
        action,
        HfAction::Finish { result: Err(RunError::Spawn { source, .. }), .. } if source.contains("MASTER_ADDR")
    ));
    let mut r = HfTrainerRunner::new();
    r.run(HfEvent::Preflight(Ok(())));
    match r.run(HfEvent::Prepared(Ok(Prepared { nproc_per_node: 2, ..prepared() }))) {
        HfAction::Launch { program, args } => {
            assert_eq!(program, "/v/bin/python");
            assert_eq!(
                args,
                [
                    "-m",
                    "torch.distributed.run",
                    "--standalone",
                    "--nproc_per_node",
                    "2",
                    "/w.py",
                    "/s/job.json",
                ]
            );
        }
        other => panic!("{other:?}"),
    }
    let action = r.run(HfEvent::Launched(Err("no such file".to_string())));
    assert!(matches!(action, HfAction::Finish { result: Err(RunError::Spawn { .. }), .. }));
}

#[test]
fn cancelling_hands_the_child_out_once() {
    let mut r = running(11);
    assert_eq!(r.cancel(), Some(11));
    assert_eq!(r.cancel(), None);
}

#[test]
fn errors_are_shown() {
    let e = RunError::ChildControl {
        operation: "spawn preflight",
        pid: None,
        source: "m".to_string(),
    };
    assert!(e.to_text().contains("spawn preflight"));
    let e = RunError::Venv(VenvError::PipFailed { status: "exit status: 1".to_string() });
    assert!(e.to_text().contains("exit status: 1"));
    for e in [
        RunError::Spawn { python: "py".to_string(), source: "src".to_string() },
        RunError::Io { path: "py".to_string(), source: "src".to_string() },
    ] {
        assert!(e.to_text().contains("py") && e.to_text().contains("src"));
    }
    assert!(RunError::SerializeJob("bad".to_string()).to_text().contains("bad"));
    assert!(RunError::WrapperFailed { message: "bad".to_string() }.to_text().contains("bad"));
    for e in [
        VenvError::PythonMissing { venv_root: "/v".to_string() },
        VenvError::VenvCreateFailed { venv_root: "/v".to_string(), status: "s".to_string() },
        VenvError::Io { path: "/v".to_string(), source: "s".to_string() },
        VenvError::LockTimeout { path: "/v".to_string() },
    ] {
        assert!(e.to_text().contains("/v"), "{e:?}");
    }
}

#[test]
fn a_status_line_is_read_without_the_space_around_it() {
    assert_eq!(status_text("  {\"kind\":\"x\"} \n"), Some("{\"kind\":\"x\"}".to_string()));
    assert_eq!(status_text(" \t "), None);
    assert_eq!(default_nproc(), 1);
}

#[test]
fn a_step_becomes_an_update() {
    let step = StatusLine::Step { step: 42, total: 100, loss: Some(0.5f32.to_bits()), lr: None };
    let update = step_update(&step).unwrap();
    assert_eq!(update.get("step"), Some(&Json::Number("42".to_string())));
    assert_eq!(update.get("loss"), Some(&Json::Single(0.5f32.to_bits())));
}

fn stamped() -> Inspection {
    Inspection { marker: Some(format!("{VENV_VERSION}\n")), python: true }
}

fn bare() -> Inspection {
    Inspection { marker: None, python: false }
}

#[test]
fn a_stamped_environment_is_current() {
    assert!(current(&stamped()));
    assert!(!current(&bare()));
    assert!(!current(&Inspection { python: false, ..stamped() }));
    assert!(!current(&Inspection { marker: Some("0".to_string()), python: true }));
    match ensure_venv("/v", VenvPhase::Start, VenvEvent::Inspected(stamped())) {
        (VenvPhase::Finished, VenvAction::Done { result: Ok(p), release: false }) => {
            assert_eq!(p, "/v/bin/python")
        }
        other => panic!("{other:?}"),
    }
}

#[test]
fn an_environment_is_built_step_by_step() {
    let root = "/v";
    let (p, a) = ensure_venv(root, VenvPhase::Start, VenvEvent::Inspected(bare()));
    assert!(matches!(&a, VenvAction::TakeLock(l) if *l == lock_path(root)));
    let (p, a) = ensure_venv(root, p, VenvEvent::LockTaken);
    assert!(matches!(a, VenvAction::FindPython));
    let (p, a) = ensure_venv(root, p, VenvEvent::PythonFound(Some("/usr/bin/python3".to_string())));
    assert!(matches!(&a, VenvAction::Run { program, args } if program == "/usr/bin/python3" && *args == ["-m", "venv", "/v"]));
    let (p, a) = ensure_venv(root, p, VenvEvent::CommandEnded(Ok(exit(true))));
    assert!(matches!(&a, VenvAction::Run { program, args } if program == "/v/bin/pip" && *args == ["install", "--upgrade", "pip"]));
    let (p, a) = ensure_venv(root, p, VenvEvent::CommandEnded(Ok(exit(true))));
    match &a {
        VenvAction::Run { args, .. } => {
            assert_eq!(args[0], "install");
            assert_eq!(args[1..], required_pkgs()[..]);
        }
        other => panic!("{other:?}"),
    }
    let (p, a) = ensure_venv(root, p, VenvEvent::CommandEnded(Ok(exit(true))));
    assert!(matches!(&a, VenvAction::WriteMarker { path, content: VENV_VERSION } if *path == marker_path(root)));
    let (p, a) = ensure_venv(root, p, VenvEvent::MarkerWritten(Ok(())));
    assert!(matches!(p, VenvPhase::Finished));
    assert!(matches!(a, VenvAction::Done { result: Ok(_), release: true }));
}

#[test]
fn a_failed_build_gives_the_lock_back() {
    let root = "/v";
    for phase in [VenvPhase::Creating, VenvPhase::UpgradingPip, VenvPhase::Installing] {
        let (_, a) = ensure_venv(root, phase, VenvEvent::CommandEnded(Ok(exit(false))));
        assert!(matches!(a, VenvAction::Done { result: Err(_), release: true }));
        let (_, a) =
            ensure_venv(root, phase, VenvEvent::CommandEnded(Err("no such file".to_string())));
        assert!(matches!(
            a,
            VenvAction::Done { result: Err(VenvError::Io { .. }), release: true }
        ));
    }
    let (_, a) = ensure_venv(root, VenvPhase::FindingPython, VenvEvent::PythonFound(None));
    assert!(matches!(
        a,
        VenvAction::Done { result: Err(VenvError::PythonMissing { .. }), release: true }
    ));
}

#[test]
fn a_dead_holder_loses_its_lock() {
    assert_eq!(lock_holder(Some(" 123\n")), Some(123));
    assert_eq!(lock_holder(Some("x")), None);
    assert_eq!(lock_holder(None), None);
    assert!(pid_in_lock_is_dead(Some(""), Probe::Alive));
    assert!(pid_in_lock_is_dead(Some("123"), Probe::Gone));
    assert!(!pid_in_lock_is_dead(Some("123"), Probe::Alive));
    assert!(!pid_in_lock_is_dead(Some("123"), Probe::NotOurs));
    assert!(!pid_in_lock_is_dead(Some("123"), Probe::Unknown));
    let held = |probe: Probe| VenvEvent::LockHeld { body: Some("123".to_string()), probe };
    let (p, a) = ensure_venv("/v", VenvPhase::Locking, held(Probe::Gone));
    assert!(matches!((p, a), (VenvPhase::Start, VenvAction::BreakLock(_))));
    let (p, a) = ensure_venv("/v", VenvPhase::Locking, held(Probe::Alive));
    assert!(matches!((p, a), (VenvPhase::Waiting, VenvAction::Watch)));
}

#[test]
fn a_waiting_caller_gives_up_in_the_end() {
    let watched = |inspection: Inspection, elapsed_seconds: u64| VenvEvent::Watched {
        inspection,
        elapsed_seconds,
    };
    let (_, a) = ensure_venv("/v", VenvPhase::Waiting, watched(bare(), WAIT_SECONDS - 1));
    assert!(matches!(a, VenvAction::Sleep));
    let (_, a) = ensure_venv("/v", VenvPhase::Waiting, watched(bare(), WAIT_SECONDS));
    assert!(matches!(
        a,
        VenvAction::Done { result: Err(VenvError::LockTimeout { .. }), release: false }
    ));
    let (_, a) = ensure_venv("/v", VenvPhase::Waiting, watched(stamped(), 4));
    assert!(matches!(a, VenvAction::Done { result: Ok(_), release: false }));
}

fn sft(method: &str, lr: f32) -> hf_sft_train::Args {
    hf_sft_train::Args {
        base_model: "Qwen/Qwen3-7B".to_string(),
        method: method.to_string(),
        rank: 16,
        alpha: 32,
        lr: single(lr),
        epochs: 1,
        batch_size: 1,
        grad_accum: 1,
        seq_len: 1024,
        seed: 42,
        eval_dataset_path: String::new(),
        extra: vec![],
        nproc_per_node: 1,
        nnodes: 1,
    }
}

fn rows() -> DatasetJsonl {
    DatasetJsonl {
        path: "/data/train.jsonl".to_string(),
        content_hash: ContentHash([1u8; 32]),
        n_examples: 1,
    }
}

#[test]
fn rejects_invalid_method() {
    let r = HfSftTrain.job(&rows(), &sft("nonsense", 2e-4), "/s");
    assert!(matches!(r, Err(StageError::BadInput(_))));
}

#[test]
fn rejects_zero_lr() {
    let r = HfSftTrain.job(&rows(), &sft("qlora", 0.0), "/s");
    assert!(matches!(r, Err(StageError::BadInput(_))));
}

fn dpo(beta: f32) -> hf_dpo_train::Args {
    hf_dpo_train::Args {
        base_model: "Qwen/Qwen3-7B".to_string(),
        beta: single(beta),
        lr: single(5e-6),
        epochs: 1,
        batch_size: 1,
        grad_accum: 1,
        seq_len: 1024,
        seed: 42,
        extra: vec![],
        nproc_per_node: 1,
        nnodes: 1,
    }
}

fn preferences() -> PreferenceJsonl {
    PreferenceJsonl {
        path: "/data/prefs.jsonl".to_string(),
        content_hash: ContentHash([2u8; 32]),
        n_pairs: 1,
    }
}

#[test]
fn rejects_nonpositive_beta() {
    let r = HfDpoTrain.job(&preferences(), &dpo(-0.1), "/s");
    assert!(matches!(r, Err(StageError::BadInput(_))));
}

#[test]
fn a_job_is_described() {
    let mut args = sft("qlora", 2e-4);
    args.nproc_per_node = 2;
    args.nnodes = 3;
    let job = HfSftTrain.job(&rows(), &args, "/s").unwrap();
    assert_eq!(job.task, "sft");
    assert_eq!(job.peft.as_ref().unwrap().method, "qlora");
    assert_eq!(job.peft.as_ref().unwrap().rank, 16);
    assert_eq!(job.train_dataset_path, "/data/train.jsonl");
    assert_eq!(job.output_dir, "/s/checkpoint");
    assert_eq!(job.eval_dataset_path, None);
    assert_eq!((job.nproc_per_node, job.nnodes), (2, 3));
    assert!(job.dpo.is_none());
    assert!(HfSftTrain.job(&rows(), &sft("full", 2e-4), "/s").unwrap().peft.is_none());
    let job = HfDpoTrain.job(&preferences(), &dpo(0.1), "/s").unwrap();
    assert_eq!(job.task, "dpo");
    assert_eq!(job.dpo.as_ref().unwrap().beta, single(0.1));
    assert_eq!(hf_sft_train::default_method(), "qlora");
    assert_eq!(hf_sft_train::default_seed(), hf_dpo_train::default_seed());
}

#[test]
fn a_checkpoint_carries_the_reported_loss() {
    let artifact = |final_loss: Option<u32>| HfRunArtifact {
        checkpoint_dir: "/s/checkpoint".to_string(),
        final_loss,
        elapsed: ELAPSED,
    };
    let c = HfSftTrain.checkpoint(
        &sft("lora", 1e-4),
        artifact(Some(0.5f32.to_bits())),
        ContentHash([3u8; 32]),
    );
    assert_eq!(c.path, "/s/checkpoint");
    assert_eq!(c.method_tag, "lora");
    assert_eq!(f32::from_bits(c.final_loss), 0.5);
    let c = HfDpoTrain.checkpoint(&dpo(0.1), artifact(None), ContentHash([3u8; 32]));
    assert_eq!(c.method_tag, "dpo");
}

#[test]
fn a_policy_holds_pins() {
    let policy = "# pins\n\ntorch==2.4.0\n  trl[peft]==0.11.4  \r\n";
    let pinned = requirements(policy).unwrap();
    assert_eq!(pinned, ["torch==2.4.0", "trl[peft]==0.11.4"]);
    assert_eq!(
        generated_source(&pinned),
        "/// Exact direct requirements represented by the transitive lock.\n/// Generated from requirements-hf.in; provisioning consumes the full lock.\npub const REQUIRED_PKGS: &[&str] = &[\n    \"torch==2.4.0\",\n    \"trl[peft]==0.11.4\",\n];\n"
    );
    assert_eq!(requirements("# none\n"), Err("HF requirements policy is empty".to_string()));
    assert_eq!(
        requirements("torch==2.4.0\ntorch>=2\n"),
        Err("HF requirement must be one exact, option-free package pin: torch>=2".to_string())
    );
    assert!(pins("a==1"));
    assert!(!pins("a=1"));
    assert!(!pins("a==1 --hash=x"));
    assert!(!pins("\u{e9}==1"));
}
