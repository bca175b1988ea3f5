use blut_cookbooks::backends::lamu::python_backend::{
    Child, Launch, LaunchTarget, PythonTrainBackend, RunAction, RunEvent,
};
use blut_cookbooks::backends::lamu::status::StatusUpdate;
use blut_cookbooks::distributed::RendezvousEnv;
use blut_cookbooks::error::TrainError;
use blut_cookbooks::process::CommandExit;
use blut_cookbooks::span::Span;

fn backend() -> PythonTrainBackend {
    PythonTrainBackend::new("python3".to_string(), "/t/trainer.py".to_string())
}

fn half_a_second() -> Span {
    Span { secs: 0, nanos: 500_000_000 }
}

fn no_env() -> RendezvousEnv {
    RendezvousEnv { master_addr: None, master_port: None, node_rank: None }
}

fn start(b: &mut PythonTrainBackend, pid: u32) {
    assert!(matches!(b.run(RunEvent::Validated(Ok(()))), RunAction::CheckSpawn));
    assert!(matches!(b.run(RunEvent::Preflight(Ok(()))), RunAction::Serialize));
    let launch = b.run(RunEvent::Serialized {
        spec_json: Ok("{}".to_string()),
        nproc: 1,
        nnodes: 1,
        env: no_env(),
    });
    assert!(matches!(launch, RunAction::Launch(_)));
    let child = Child { pid: Some(pid), stdout: true, stderr: true };
    let register = b.run(RunEvent::Launched(Launch::Spawned(child)));
    assert!(matches!(register, RunAction::Register(p) if p == pid));
    assert!(b.child_pid.is_none());
    assert!(matches!(b.run(RunEvent::Registered(Ok(()))), RunAction::Stream));
    assert_eq!(b.child_pid, Some(pid));
}

fn exited(success: bool) -> RunEvent {
    let status = if success { "exit status: 0" } else { "signal: 9 (SIGKILL)" };
    RunEvent::Exited {
        exit: Ok(CommandExit { success, status: status.to_string() }),
        reader: true,
        elapsed: Span { secs: 2, nanos: 0 },
    }
}

const STEP: &str =
    r#"{"kind":"step","step":1,"total":10,"loss":1.0,"lr":0.0,"vram_mb":0}"#;

#[test]
fn python_backend_spawn_preflight_refusal_never_publishes_child_pid() {
    let mut b = backend();
    b.run(RunEvent::Validated(Ok(())));
    let action = b.run(RunEvent::Preflight(Err("job is terminal".to_string())));
    match action {
        RunAction::Finish { result: Err(TrainError::Trainer(message)), unregister: None } => {
            assert!(message.contains("spawn preflight refused"), "{message}");
        }
        other => panic!("unexpected result: {other:?}"),
    }
    assert!(b.child_pid.is_none());
}

#[test]
fn liveness_watchdog_kills_a_silent_trainer() {
    let mut b = backend().with_liveness_timeout(half_a_second());
    start(&mut b, 41);
    assert!(matches!(b.run(RunEvent::Stdout(STEP.to_string())), RunAction::Forward(_)));
    let tick = b.run(RunEvent::Tick(half_a_second()));
    assert!(matches!(tick, RunAction::KeepWatching));
    let tick = b.run(RunEvent::Tick(Span { secs: 0, nanos: 600_000_000 }));
    assert!(matches!(tick, RunAction::GiveUp(Some(41))));
    match b.run(exited(false)) {
        RunAction::Finish { result: Err(TrainError::Trainer(msg)), unregister } => {
            assert!(msg.contains("liveness watchdog"), "got: {msg}");
            assert_eq!(msg, "liveness watchdog: no output for 600ms (limit 500ms)");
            assert_eq!(unregister, Some(41));
        }
        other => panic!("expected a liveness-watchdog error, got {other:?}"),
    }
}

#[test]
fn heartbeating_trainer_survives_the_watchdog() {
    let mut b = backend().with_liveness_timeout(half_a_second());
    start(&mut b, 41);
    b.run(RunEvent::Stdout(STEP.to_string()));
    for _ in 0..15 {
        let line = r#"{"kind":"heartbeat","phase":"load"}"#;
        assert!(matches!(b.run(RunEvent::Stdout(line.to_string())), RunAction::Refresh));
        let tick = b.run(RunEvent::Tick(Span { secs: 0, nanos: 100_000_000 }));
        assert!(matches!(tick, RunAction::KeepWatching));
    }
    let done = r#"{"kind":"done","final_loss":0.5,"checkpoint_dir":"/ckpt"}"#;
    b.run(RunEvent::Stdout(format!("  {done}\n")));
    match b.run(exited(true)) {
        RunAction::Finish { result: Ok(artifact), unregister: Some(41) } => {
            assert_eq!(artifact.checkpoint_dir, "/ckpt");
            assert_eq!(artifact.final_loss, 0.5f32.to_bits());
            assert_eq!(artifact.gguf_path, None);
        }
        other => panic!("heartbeats must keep the trainer alive: {other:?}"),
    }
    assert!(b.child_pid.is_none());
}

#[test]
fn status_lines_are_read() {
    let mut b = backend();
    start(&mut b, 1);
    match b.run(RunEvent::Stdout(STEP.to_string())) {
        RunAction::Forward(u) => assert_eq!(
            u,
            StatusUpdate::Step { step: 1, total: 10, loss: 1.0f32.to_bits(), lr: 0, vram_mb: 0 }
        ),
        other => panic!("{other:?}"),
    }
    match b.run(RunEvent::Stdout(r#"{"kind":"saved","path":"/c"}"#.to_string())) {
        RunAction::Forward(u) => assert_eq!(u, StatusUpdate::Saved { path: "/c".to_string() }),
        other => panic!("{other:?}"),
    }
    match b.run(RunEvent::Stdout(r#"{"kind":"eval","step":3,"eval_loss":2.5}"#.to_string())) {
        RunAction::Forward(u) => {
            assert_eq!(u, StatusUpdate::Eval { step: 3, eval_loss: 2.5f32.to_bits() })
        }
        other => panic!("{other:?}"),
    }
    for line in ["not json", "", "   ", r#"{"kind":"unheard-of"}"#] {
        assert!(matches!(b.run(RunEvent::Stdout(line.to_string())), RunAction::Skip), "{line}");
    }
    assert!(matches!(b.run(RunEvent::Stderr), RunAction::Refresh));
    assert!(matches!(b.accept(Some(StatusUpdate::Failed { error: "x".to_string() })), RunAction::Forward(_)));
    assert!(matches!(b.accept(None), RunAction::Skip));
}

#[test]
fn the_report_is_the_last_word() {
    let mut b = backend();
    start(&mut b, 1);
    b.run(RunEvent::Stdout(r#"{"kind":"failed","error":"OOM"}"#.to_string()));
    assert!(matches!(
        b.run(exited(true)),
        RunAction::Finish { result: Err(TrainError::Trainer(m)), .. } if m == "OOM"
    ));
    start(&mut b, 2);
    assert!(matches!(
        b.run(exited(false)),
        RunAction::Finish { result: Err(TrainError::Trainer(m)), .. }
            if m == "trainer.py exited with signal: 9 (SIGKILL) and emitted no Failed status"
    ));
    start(&mut b, 3);
    assert!(matches!(
        b.run(exited(true)),
        RunAction::Finish { result: Err(TrainError::Trainer(m)), .. }
            if m == "trainer.py exited successfully but emitted no Done status"
    ));
}

#[test]
fn a_hang_is_reported_before_a_failure() {
    let mut b = backend().with_liveness_timeout(half_a_second());
    start(&mut b, 4);
    b.run(RunEvent::Stdout(r#"{"kind":"failed","error":"OOM"}"#.to_string()));
    b.run(RunEvent::Tick(Span { secs: 1, nanos: 0 }));
    assert!(matches!(
        b.run(exited(false)),
        RunAction::Finish { result: Err(TrainError::Trainer(m)), unregister: Some(4) }
            if m == "liveness watchdog: no output for 1s (limit 500ms)"
    ));
    let mut patient = backend();
    start(&mut patient, 5);
    let tick = patient.run(RunEvent::Tick(Span { secs: 86_400, nanos: 0 }));
    assert!(matches!(tick, RunAction::KeepWatching));
}

#[test]
fn a_run_that_cannot_start_says_why() {
    let mut b = backend();
    let action = b.run(RunEvent::Validated(Err("epochs".to_string())));
    assert!(matches!(
        action,
        RunAction::Finish { result: Err(TrainError::InvalidSpec(m)), .. } if m == "epochs"
    ));
    b.run(RunEvent::Validated(Ok(())));
    b.run(RunEvent::Preflight(Ok(())));
    let action = b.run(RunEvent::Serialized {
        spec_json: Ok("{}".to_string()),
        nproc: 1,
        nnodes: 2,
        env: no_env(),
    });
    assert!(matches!(
        action,
        RunAction::Finish { result: Err(TrainError::Other(m)), .. } if m.contains("MASTER_ADDR")
    ));
    for (launch, message) in [
        (Launch::SpawnFailed("no such file".to_string()), "spawn python3 /t/trainer.py: no such file"),
        (
            Launch::Spawned(Child { pid: None, stdout: true, stderr: true }),
            "spawned trainer did not expose a process id",
        ),
        (
            Launch::Spawned(Child { pid: Some(1), stdout: false, stderr: true }),
            "trainer subprocess stdout pipe missing",
        ),
        (
            Launch::Spawned(Child { pid: Some(1), stdout: true, stderr: false }),
            "trainer subprocess stderr pipe missing",
        ),
    ] {
        let mut b = backend();
        b.run(RunEvent::Validated(Ok(())));
        b.run(RunEvent::Preflight(Ok(())));
        b.run(RunEvent::Serialized {
            spec_json: Ok("{}".to_string()),
            nproc: 1,
            nnodes: 1,
            env: no_env(),
        });
        assert!(matches!(
            b.run(RunEvent::Launched(launch)),
            RunAction::Finish { result: Err(TrainError::Trainer(m)), .. } if m == message
        ));
    }
}

#[test]
fn the_command_carries_the_prefix_and_the_environment() {
    let mut b = backend().with_env("A", "1").with_env("B", "2").with_launch_target(LaunchTarget::Slurm);
    b.run(RunEvent::Validated(Ok(())));
    b.run(RunEvent::Preflight(Ok(())));
    let action = b.run(RunEvent::Serialized {
        spec_json: Ok("{\"x\":1}".to_string()),
        nproc: 2,
        nnodes: 1,
        env: no_env(),
    });
    match action {
        RunAction::Launch(c) => {
            assert_eq!(c.target, LaunchTarget::Slurm);
            assert_eq!(c.program, "python3");
            assert_eq!(
                c.args,
                [
                    "-m",
                    "torch.distributed.run",
                    "--standalone",
                    "--nproc_per_node",
                    "2",
                    "/t/trainer.py",
                    "{\"x\":1}",
                ]
            );
            assert_eq!(
                c.env,
                [("A".to_string(), "1".to_string()), ("B".to_string(), "2".to_string())]
            );
        }
        other => panic!("{other:?}"),
    }
    assert!(matches!(
        b.run(RunEvent::Launched(Launch::WrapFailed("no srun".to_string()))),
        RunAction::Finish { result: Err(TrainError::Other(m)), .. } if m == "launcher wrap: no srun"
    ));
}

#[test]
fn events_out_of_place_do_nothing() {
    let mut b = backend();
    assert!(matches!(b.run(RunEvent::Registered(Ok(()))), RunAction::Nothing));
    assert!(matches!(b.run(RunEvent::Stdout(STEP.to_string())), RunAction::Nothing));
    assert!(b.child_pid.is_none());
    assert!(matches!(b.run(RunEvent::Validated(Ok(()))), RunAction::CheckSpawn));
}

#[test]
fn cancelling_a_run_hands_its_child_out_once() {
    let mut b = backend();
    assert_eq!(b.cancel(), None);
    start(&mut b, 5);
    assert_eq!(b.cancel(), Some(5));
    assert_eq!(b.cancel(), None);
}

#[test]
fn the_watchdog_looks_several_times_per_limit() {
    assert_eq!(backend().watchdog_tick(), None);
    let tick = |s: Span| backend().with_liveness_timeout(s).watchdog_tick().unwrap();
    assert_eq!(tick(half_a_second()).as_nanos(), 125_000_000);
    assert_eq!(tick(Span { secs: 0, nanos: 1 }).as_nanos(), 100_000_000);
    assert_eq!(tick(Span { secs: 3600, nanos: 0 }).as_nanos(), 30_000_000_000);
}
