//! `PythonTrainBackend`: runs `trainer.py` as a subprocess.
//!
//! The process itself, its pipes and its clock belong to the caller. The
//! decisions belong here: [`PythonTrainBackend::run`] takes what has happened
//! and says what to do next, from the check of the run's description to the
//! result of the run.

use vstd::prelude::*;
use vstd::string::*;

use crate::backends::lamu::status;
use crate::backends::lamu::status::{parse_status, StatusUpdate, StatusView};
use crate::distributed;
use crate::distributed::{launch_prefix, RendezvousEnv};
use crate::error::{TrainError, TrainErrorView};
use crate::process::CommandExit;
use crate::span;
use crate::span::{show, Span};
use crate::text;
use crate::text::{add_text, decimal_text, trim};

verus! {

/// Where the trainer is placed: spawned here, or through one of the engine's
/// launchers.
#[derive(Clone, Copy, Debug, PartialEq, Eq, Structural)]
pub enum LaunchTarget {
    Local,
    Slurm,
    Ray,
    P2P,
    K8s,
    Cloud,
}

/// What the trainer's output has reported so far, and why the watchdog gave
/// the trainer up if it did.
#[derive(Debug)]
pub struct Report {
    pub done: Option<(u32, String)>,
    pub failed: Option<String>,
    pub hung: Option<String>,
}

/// Where a run stands.
#[derive(Debug)]
pub enum Phase {
    /// No run is under way.
    Idle,
    /// The description of the run is valid.
    Validated,
    /// A child may be spawned.
    Cleared,
    /// The launch was ordered.
    Spawning,
    /// The child exists and awaits its registration.
    Registering { pid: u32 },
    /// The child runs.
    Running { report: Report },
}

/// The backend: the interpreter, the trainer script and what surrounds them.
#[derive(Debug)]
pub struct PythonTrainBackend {
    pub python: String,
    pub trainer_script: String,
    /// Extra environment for the trainer.
    pub env: Vec<(String, String)>,
    /// A trainer without a status line and without a line on its error output
    /// for longer than this is presumed hung. `None`: no watchdog.
    pub liveness_timeout: Option<Span>,
    pub launch_target: LaunchTarget,
    pub child_pid: Option<u32>,
    pub phase: Phase,
}

/// A spawned child: its process id where one is known, and whether its two
/// output pipes are there.
pub struct Child {
    pub pid: Option<u32>,
    pub stdout: bool,
    pub stderr: bool,
}

/// What became of a launch.
pub enum Launch {
    /// The cluster launcher refused the command.
    WrapFailed(String),
    /// The process could not be spawned.
    SpawnFailed(String),
    /// The process runs.
    Spawned(Child),
}

/// What has happened.
pub enum RunEvent {
    /// The description of the run was checked.
    Validated(Result<(), String>),
    /// It was asked whether a child may be spawned.
    Preflight(Result<(), String>),
    /// The description was written as JSON.
    Serialized { spec_json: Result<String, String>, nproc: u32, nnodes: u32, env: RendezvousEnv },
    /// The command was launched.
    Launched(Launch),
    /// The child was registered.
    Registered(Result<(), String>),
    /// The child wrote a line to its output.
    Stdout(String),
    /// The child wrote a line to its error output.
    Stderr,
    /// The watchdog looked: the child has been silent for this long.
    Tick(Span),
    /// The child ended, or waiting for it failed. `reader` says whether the
    /// reader of its output came to its end.
    Exited { exit: Result<CommandExit, String>, reader: bool, elapsed: Span },
}

/// A command to launch. A cluster target wraps `program` and `args`; `env` is
/// added either way.
#[derive(Debug)]
pub struct LaunchCommand {
    pub target: LaunchTarget,
    pub program: String,
    pub args: Vec<String>,
    pub env: Vec<(String, String)>,
}

/// The result of a run.
#[derive(Debug, PartialEq, Eq)]
pub struct TrainArtifact {
    pub checkpoint_dir: String,
    pub gguf_path: Option<String>,
    /// The bits of the single-precision loss.
    pub final_loss: u32,
    pub elapsed: Span,
}

/// What to do next.
#[derive(Debug)]
pub enum RunAction {
    /// The event does not belong here.
    Nothing,
    /// Ask whether a child may be spawned.
    CheckSpawn,
    /// Write the description as JSON.
    Serialize,
    /// Launch this command.
    Launch(LaunchCommand),
    /// Register this child.
    Register(u32),
    /// Read the child's output, and start the watchdog where there is one.
    Stream,
    /// Leave the line alone.
    Skip,
    /// Note that the child is alive.
    Refresh,
    /// Note that the child is alive, and hand the update on.
    Forward(StatusUpdate),
    /// Look again later.
    KeepWatching,
    /// The child hangs: kill it, where its process id is known, and stop watching.
    GiveUp(Option<u32>),
    /// The run is over. The child is taken off the register where one is named.
    Finish { result: Result<TrainArtifact, TrainError>, unregister: Option<u32> },
}

#[verifier::ext_equal]
pub struct ReportView {
    pub done: Option<(u32, Seq<char>)>,
    pub failed: Option<Seq<char>>,
    pub hung: Option<Seq<char>>,
}

impl View for Report {
    type V = ReportView;

    open spec fn view(&self) -> ReportView {
        ReportView {
            done: match self.done {
                Some(d) => Some((d.0, d.1@)),
                None => None,
            },
            failed: text::optional(self.failed),
            hung: text::optional(self.hung),
        }
    }
}

#[verifier::ext_equal]
pub enum PhaseView {
    Idle,
    Validated,
    Cleared,
    Spawning,
    Registering(u32),
    Running(ReportView),
}

impl View for Phase {
    type V = PhaseView;

    open spec fn view(&self) -> PhaseView {
        match *self {
            Phase::Idle => PhaseView::Idle,
            Phase::Validated => PhaseView::Validated,
            Phase::Cleared => PhaseView::Cleared,
            Phase::Spawning => PhaseView::Spawning,
            Phase::Registering { pid } => PhaseView::Registering(pid),
            Phase::Running { report } => PhaseView::Running(report@),
        }
    }
}

/// The texts of a list of environment variables.
pub open spec fn env_texts(env: Seq<(String, String)>) -> Seq<(Seq<char>, Seq<char>)> {
    Seq::new(env.len(), |i: int| (env[i].0@, env[i].1@))
}

/// The backend as values.
#[verifier::ext_equal]
pub struct BackendView {
    pub python: Seq<char>,
    pub trainer_script: Seq<char>,
    pub env: Seq<(Seq<char>, Seq<char>)>,
    pub liveness_timeout: Option<Span>,
    pub launch_target: LaunchTarget,
    pub child_pid: Option<u32>,
    pub phase: PhaseView,
}

impl View for PythonTrainBackend {
    type V = BackendView;

    open spec fn view(&self) -> BackendView {
        BackendView {
            python: self.python@,
            trainer_script: self.trainer_script@,
            env: env_texts(self.env@),
            liveness_timeout: self.liveness_timeout,
            launch_target: self.launch_target,
            child_pid: self.child_pid,
            phase: self.phase@,
        }
    }
}

#[verifier::ext_equal]
pub struct CommandView {
    pub target: LaunchTarget,
    pub program: Seq<char>,
    pub args: Seq<Seq<char>>,
    pub env: Seq<(Seq<char>, Seq<char>)>,
}

#[verifier::ext_equal]
pub struct ArtifactView {
    pub checkpoint_dir: Seq<char>,
    pub gguf_path: Option<Seq<char>>,
    pub final_loss: u32,
    pub elapsed: Span,
}

/// An action as values.
#[verifier::ext_equal]
pub enum ActionView {
    Nothing,
    CheckSpawn,
    Serialize,
    Launch(CommandView),
    Register(u32),
    Stream,
    Skip,
    Refresh,
    Forward(StatusView),
    KeepWatching,
    GiveUp(Option<u32>),
    Finish(Result<ArtifactView, TrainErrorView>, Option<u32>),
}

/// A result as values.
pub open spec fn outcome(r: Result<TrainArtifact, TrainError>) -> Result<
    ArtifactView,
    TrainErrorView,
> {
    match r {
        Ok(a) => Ok(
            ArtifactView {
                checkpoint_dir: a.checkpoint_dir@,
                gguf_path: text::optional(a.gguf_path),
                final_loss: a.final_loss,
                elapsed: a.elapsed,
            },
        ),
        Err(e) => Err(e@),
    }
}

impl View for RunAction {
    type V = ActionView;

    open spec fn view(&self) -> ActionView {
        match *self {
            RunAction::Nothing => ActionView::Nothing,
            RunAction::CheckSpawn => ActionView::CheckSpawn,
            RunAction::Serialize => ActionView::Serialize,
            RunAction::Launch(c) => ActionView::Launch(
                CommandView {
                    target: c.target,
                    program: c.program@,
                    args: text::texts(c.args@),
                    env: env_texts(c.env@),
                },
            ),
            RunAction::Register(pid) => ActionView::Register(pid),
            RunAction::Stream => ActionView::Stream,
            RunAction::Skip => ActionView::Skip,
            RunAction::Refresh => ActionView::Refresh,
            RunAction::Forward(u) => ActionView::Forward(u@),
            RunAction::KeepWatching => ActionView::KeepWatching,
            RunAction::GiveUp(pid) => ActionView::GiveUp(pid),
            RunAction::Finish { result, unregister } => ActionView::Finish(
                outcome(result),
                unregister,
            ),
        }
    }
}

/// A run that ends in failure before any child was registered.
pub open spec fn abandoned(s: BackendView, e: TrainErrorView) -> (BackendView, ActionView) {
    (
        BackendView { phase: PhaseView::Idle, ..s },
        ActionView::Finish(Err::<ArtifactView, TrainErrorView>(e), None),
    )
}

/// The command of a run: the interpreter, the launch prefix, the trainer script
/// and the description of the run.
pub open spec fn command_of(
    s: BackendView,
    prefix: Seq<Seq<char>>,
    spec_json: Seq<char>,
) -> CommandView {
    CommandView {
        target: s.launch_target,
        program: s.python,
        args: prefix.push(s.trainer_script).push(spec_json),
        env: s.env,
    }
}

/// What a status line does: a malformed one nothing, a heartbeat nothing but
/// show that the child lives; any other update is handed on, and the last
/// `Done` and the last `Failed` are remembered.
pub open spec fn absorbed(r: ReportView, update: Option<StatusView>) -> (ReportView, ActionView) {
    match update {
        None => (r, ActionView::Skip),
        Some(StatusView::Heartbeat { phase, vram_mb }) => (r, ActionView::Refresh),
        Some(StatusView::Done { final_loss, checkpoint_dir }) => (
            ReportView { done: Some((final_loss, checkpoint_dir)), ..r },
            ActionView::Forward(update->0),
        ),
        Some(StatusView::Failed { error }) => (
            ReportView { failed: Some(error), ..r },
            ActionView::Forward(update->0),
        ),
        Some(u) => (r, ActionView::Forward(u)),
    }
}

/// What the watchdog writes down of two spans, each as it is shown.
pub open spec fn hang_line(idle: Seq<char>, limit: Seq<char>) -> Seq<char> {
    "liveness watchdog: no output for "@ + idle + " (limit "@ + limit + ")"@
}

/// What the watchdog writes down when it gives a child up.
pub open spec fn hang_message(idle: Span, limit: Span) -> Seq<char> {
    hang_line(span::shown(idle.secs, idle.nanos), span::shown(limit.secs, limit.nanos))
}

/// The result of a run whose child ended: a hang found by the watchdog comes
/// first, then a reported failure, then the exit status, then the last `Done`.
pub open spec fn result_of(
    r: ReportView,
    reader: bool,
    success: bool,
    status: Seq<char>,
    elapsed: Span,
) -> Result<ArtifactView, TrainErrorView> {
    if r.hung is Some {
        Err(TrainErrorView::Trainer(r.hung->0))
    } else if !reader {
        Err(TrainErrorView::Trainer("status reader dropped before report"@))
    } else if r.failed is Some {
        Err(TrainErrorView::Trainer(r.failed->0))
    } else if !success {
        Err(
            TrainErrorView::Trainer(
                "trainer.py exited with "@ + status + " and emitted no Failed status"@,
            ),
        )
    } else if r.done is None {
        Err(
            TrainErrorView::Trainer(
                "trainer.py exited successfully but emitted no Done status"@,
            ),
        )
    } else {
        Ok(
            ArtifactView {
                checkpoint_dir: (r.done->0).1,
                gguf_path: None,
                final_loss: (r.done->0).0,
                elapsed,
            },
        )
    }
}

/// The next state and the action that an event calls for.
pub open spec fn step(s: BackendView, e: RunEvent) -> (BackendView, ActionView) {
    match (s.phase, e) {
        (PhaseView::Idle, RunEvent::Validated(Ok(_))) => (
            BackendView { phase: PhaseView::Validated, ..s },
            ActionView::CheckSpawn,
        ),
        (PhaseView::Idle, RunEvent::Validated(Err(m))) => abandoned(
            s,
            TrainErrorView::InvalidSpec(m@),
        ),
        (PhaseView::Validated, RunEvent::Preflight(Ok(_))) => (
            BackendView { phase: PhaseView::Cleared, ..s },
            ActionView::Serialize,
        ),
        (PhaseView::Validated, RunEvent::Preflight(Err(m))) => abandoned(
            s,
            TrainErrorView::Trainer("child spawn preflight refused: "@ + m@),
        ),
        (PhaseView::Cleared, RunEvent::Serialized { spec_json: Err(m), .. }) => abandoned(
            s,
            TrainErrorView::Other("serialize TrainSpec for trainer.py: "@ + m@),
        ),
        (
            PhaseView::Cleared,
            RunEvent::Serialized { spec_json: Ok(spec_json), nproc, nnodes, env },
        ) => match distributed::prefix_of(nproc as nat, nnodes as nat, env) {
            Ok(prefix) => (
                BackendView { phase: PhaseView::Spawning, ..s },
                ActionView::Launch(command_of(s, prefix, spec_json@)),
            ),
            Err(m) => abandoned(s, TrainErrorView::Other(m)),
        },
        (PhaseView::Spawning, RunEvent::Launched(Launch::WrapFailed(m))) => abandoned(
            s,
            TrainErrorView::Other("launcher wrap: "@ + m@),
        ),
        (PhaseView::Spawning, RunEvent::Launched(Launch::SpawnFailed(m))) => abandoned(
            s,
            TrainErrorView::Trainer("spawn "@ + s.python + " "@ + s.trainer_script + ": "@ + m@),
        ),
        (PhaseView::Spawning, RunEvent::Launched(Launch::Spawned(child))) => if child.pid is None {
            abandoned(
                s,
                TrainErrorView::Trainer("spawned trainer did not expose a process id"@),
            )
        } else if !child.stdout {
            abandoned(s, TrainErrorView::Trainer("trainer subprocess stdout pipe missing"@))
        } else if !child.stderr {
            abandoned(s, TrainErrorView::Trainer("trainer subprocess stderr pipe missing"@))
        } else {
            (
                BackendView { phase: PhaseView::Registering(child.pid->0), ..s },
                ActionView::Register(child.pid->0),
            )
        },
        (PhaseView::Registering(pid), RunEvent::Registered(Err(m))) => abandoned(
            s,
            TrainErrorView::Trainer(
                "register trainer child "@ + text::decimal(pid as nat) + ": "@ + m@,
            ),
        ),
        (PhaseView::Registering(pid), RunEvent::Registered(Ok(_))) => (
            BackendView {
                child_pid: Some(pid),
                phase: PhaseView::Running(ReportView { done: None, failed: None, hung: None }),
                ..s
            },
            ActionView::Stream,
        ),
        (PhaseView::Running(report), RunEvent::Stdout(line)) => {
            let trimmed = text::trimmed(line@);
            let (next, action) = if trimmed.len() == 0 {
                (report, ActionView::Skip)
            } else {
                absorbed(report, status::status_of_line(trimmed))
            };
            (BackendView { phase: PhaseView::Running(next), ..s }, action)
        },
        (PhaseView::Running(report), RunEvent::Stderr) => (s, ActionView::Refresh),
        (PhaseView::Running(report), RunEvent::Tick(idle)) => match s.liveness_timeout {
            Some(limit) if idle.total() > limit.total() => (
                BackendView {
                    phase: PhaseView::Running(
                        ReportView { hung: Some(hang_message(idle, limit)), ..report },
                    ),
                    ..s
                },
                ActionView::GiveUp(s.child_pid),
            ),
            _ => (s, ActionView::KeepWatching),
        },
        (PhaseView::Running(report), RunEvent::Exited { exit: Err(m), .. }) => abandoned(
            s,
            TrainErrorView::Trainer("wait for trainer.py: "@ + m@),
        ),
        (PhaseView::Running(report), RunEvent::Exited { exit: Ok(exit), reader, elapsed }) => (
            BackendView { child_pid: None, phase: PhaseView::Idle, ..s },
            ActionView::Finish(
                result_of(report, reader, exit.success, exit.status@, elapsed),
                s.child_pid,
            ),
        ),
        _ => (s, ActionView::Nothing),
    }
}

/// The spans that an event and a backend carry are well formed.
pub open spec fn timed(s: BackendView, e: RunEvent) -> bool {
    &&& s.liveness_timeout matches Some(limit) ==> limit.wf()
    &&& e matches RunEvent::Tick(idle) ==> idle.wf()
}

/// What the watchdog writes down of two spans, each as it is shown.
pub fn hang_text(idle: &str, limit: &str) -> (s: String)
    ensures
        s@ == hang_line(idle@, limit@),
{
    "liveness watchdog: no output for ".to_string().concat(idle).concat(" (limit ").concat(
        limit,
    ).concat(")")
}

/// A failure before any child was registered.
fn abandon(e: TrainError) -> (a: RunAction)
    ensures
        a@ == ActionView::Finish(Err::<ArtifactView, TrainErrorView>(e@), None),
{
    RunAction::Finish { result: Err(e), unregister: None }
}

/// A copy of a list of environment variables.
fn copy_env(env: &Vec<(String, String)>) -> (r: Vec<(String, String)>)
    ensures
        env_texts(r@) == env_texts(env@),
{
    let mut r: Vec<(String, String)> = Vec::new();
    let mut i: usize = 0;
    while i < env.len()
        invariant
            i <= env.len(),
            env_texts(r@) == env_texts(env@).take(i as int),
        decreases env.len() - i,
    {
        let ghost before = r@;
        r.push((env[i].0.clone(), env[i].1.clone()));
        assert(env_texts(r@) =~= env_texts(before).push((env@[i as int].0@, env@[i as int].1@)));
        assert(env_texts(env@).take(i + 1) =~= env_texts(env@).take(i as int).push(
            (env@[i as int].0@, env@[i as int].1@),
        ));
        i += 1;
    }
    assert(env_texts(env@).take(i as int) =~= env_texts(env@));
    r
}

impl PythonTrainBackend {
    /// A backend that runs `trainer_script` with `python`, here, without extra
    /// environment and without a watchdog.
    pub fn new(python: String, trainer_script: String) -> (b: Self)
        ensures
            b@ == (BackendView {
                python: python@,
                trainer_script: trainer_script@,
                env: Seq::empty(),
                liveness_timeout: None,
                launch_target: LaunchTarget::Local,
                child_pid: None,
                phase: PhaseView::Idle,
            }),
    {
        PythonTrainBackend {
            python,
            trainer_script,
            env: Vec::new(),
            liveness_timeout: None,
            launch_target: LaunchTarget::Local,
            child_pid: None,
            phase: Phase::Idle,
        }
    }

    /// Adds a variable to the trainer's environment.
    pub fn with_env(self, key: &str, value: &str) -> (b: Self)
        ensures
            b@ == (BackendView { env: self@.env.push((key@, value@)), ..self@ }),
    {
        let mut b = self;
        b.env.push((key.to_string(), value.to_string()));
        assert(b@.env =~= self@.env.push((key@, value@)));
        b
    }

    /// Turns the liveness watchdog on.
    pub fn with_liveness_timeout(self, timeout: Span) -> (b: Self)
        ensures
            b@ == (BackendView { liveness_timeout: Some(timeout), ..self@ }),
    {
        let mut b = self;
        b.liveness_timeout = Some(timeout);
        b
    }

    /// Places the trainer.
    pub fn with_launch_target(self, target: LaunchTarget) -> (b: Self)
        ensures
            b@ == (BackendView { launch_target: target, ..self@ }),
    {
        let mut b = self;
        b.launch_target = target;
        b
    }

    /// The command of a run.
    fn command(
        &self,
        spec_json: &str,
        nproc: u32,
        nnodes: u32,
        env: &RendezvousEnv,
    ) -> (r: Result<LaunchCommand, String>)
        ensures
            match r {
                Ok(c) => distributed::prefix_of(nproc as nat, nnodes as nat, *env) is Ok
                    && RunAction::Launch(c)@ == ActionView::Launch(
                    command_of(
                        self@,
                        distributed::prefix_of(nproc as nat, nnodes as nat, *env)->Ok_0,
                        spec_json@,
                    ),
                ),
                Err(e) => distributed::prefix_of(nproc as nat, nnodes as nat, *env) == Err::<
                    Seq<Seq<char>>,
                    Seq<char>,
                >(e@),
            },
    {
        let mut args = match launch_prefix(nproc, nnodes, env) {
            Ok(prefix) => prefix,
            Err(e) => {
                return Err(e);
            },
        };
        add_text(&mut args, self.trainer_script.as_str());
        add_text(&mut args, spec_json);
        Ok(
            LaunchCommand {
                target: self.launch_target,
                program: self.python.clone(),
                args,
                env: copy_env(&self.env),
            },
        )
    }

    /// Takes in one status update, where the line held one.
    pub fn accept(&mut self, update: Option<StatusUpdate>) -> (a: RunAction)
        ensures
            match old(self)@.phase {
                PhaseView::Running(report) => {
                    let (next, action) = absorbed(report, status::said(update));
                    &&& final(self)@ == BackendView {
                        phase: PhaseView::Running(next),
                        ..old(self)@
                    }
                    &&& a@ == action
                },
                _ => final(self)@ == old(self)@ && a@ == ActionView::Nothing,
            },
    {
        if let Phase::Running { report } = &mut self.phase {
            match update {
                None => RunAction::Skip,
                Some(u) => {
                    match &u {
                        StatusUpdate::Heartbeat { .. } => {
                            return RunAction::Refresh;
                        },
                        StatusUpdate::Done { final_loss, checkpoint_dir } => {
                            report.done = Some((*final_loss, checkpoint_dir.clone()));
                        },
                        StatusUpdate::Failed { error } => {
                            report.failed = Some(error.clone());
                        },
                        _ => {},
                    }
                    RunAction::Forward(u)
                },
            }
        } else {
            RunAction::Nothing
        }
    }

    /// Advances the run by one event: the next state, and what to do.
    pub fn run(&mut self, event: RunEvent) -> (a: RunAction)
        requires
            timed(old(self)@, event),
        ensures
            (final(self)@, a@) == step(old(self)@, event),
    {
        match (&self.phase, event) {
            (Phase::Idle, RunEvent::Validated(r)) => match r {
                Ok(_) => {
                    self.phase = Phase::Validated;
                    RunAction::CheckSpawn
                },
                Err(m) => abandon(TrainError::InvalidSpec(m)),
            },
            (Phase::Validated, RunEvent::Preflight(r)) => match r {
                Ok(_) => {
                    self.phase = Phase::Cleared;
                    RunAction::Serialize
                },
                Err(m) => {
                    self.phase = Phase::Idle;
                    abandon(
                        TrainError::Trainer(
                            "child spawn preflight refused: ".to_string().concat(m.as_str()),
                        ),
                    )
                },
            },
            (Phase::Cleared, RunEvent::Serialized { spec_json, nproc, nnodes, env }) => {
                let spec_json = match spec_json {
                    Ok(j) => j,
                    Err(m) => {
                        self.phase = Phase::Idle;
                        return abandon(
                            TrainError::Other(
                                "serialize TrainSpec for trainer.py: ".to_string().concat(
                                    m.as_str(),
                                ),
                            ),
                        );
                    },
                };
                match self.command(spec_json.as_str(), nproc, nnodes, &env) {
                    Ok(c) => {
                        self.phase = Phase::Spawning;
                        RunAction::Launch(c)
                    },
                    Err(m) => {
                        self.phase = Phase::Idle;
                        abandon(TrainError::Other(m))
                    },
                }
            },
            (Phase::Spawning, RunEvent::Launched(launch)) => {
                self.phase = Phase::Idle;
                match launch {
                    Launch::WrapFailed(m) => abandon(
                        TrainError::Other("launcher wrap: ".to_string().concat(m.as_str())),
                    ),
                    Launch::SpawnFailed(m) => abandon(
                        TrainError::Trainer(
                            "spawn ".to_string().concat(self.python.as_str()).concat(" ").concat(
                                self.trainer_script.as_str(),
                            ).concat(": ").concat(m.as_str()),
                        ),
                    ),
                    Launch::Spawned(child) => match child.pid {
                        None => abandon(
                            TrainError::Trainer(
                                "spawned trainer did not expose a process id".to_string(),
                            ),
                        ),
                        Some(pid) => if !child.stdout {
                            abandon(
                                TrainError::Trainer(
                                    "trainer subprocess stdout pipe missing".to_string(),
                                ),
                            )
                        } else if !child.stderr {
                            abandon(
                                TrainError::Trainer(
                                    "trainer subprocess stderr pipe missing".to_string(),
                                ),
                            )
                        } else {
                            self.phase = Phase::Registering { pid };
                            RunAction::Register(pid)
                        },
                    },
                }
            },
            (Phase::Registering { pid }, RunEvent::Registered(r)) => {
                let pid: u32 = *pid;
                match r {
                    Ok(_) => {
                        self.child_pid = Some(pid);
                        self.phase = Phase::Running {
                            report: Report { done: None, failed: None, hung: None },
                        };
                        RunAction::Stream
                    },
                    Err(m) => {
                        self.phase = Phase::Idle;
                        abandon(
                            TrainError::Trainer(
                                "register trainer child ".to_string().concat(
                                    decimal_text(pid as u64).as_str(),
                                ).concat(": ").concat(m.as_str()),
                            ),
                        )
                    },
                }
            },
            (Phase::Running { .. }, RunEvent::Stdout(line)) => {
                let line = trim(line.as_str());
                if line.as_str().is_empty() {
                    RunAction::Skip
                } else {
                    let update = parse_status(line.as_str());
                    self.accept(update)
                }
            },
            (Phase::Running { .. }, RunEvent::Stderr) => RunAction::Refresh,
            (Phase::Running { .. }, RunEvent::Tick(idle)) => self.watch(idle),
            (Phase::Running { .. }, RunEvent::Exited { exit, reader, elapsed }) => self.finish(
                exit,
                reader,
                elapsed,
            ),
            _ => RunAction::Nothing,
        }
    }

    /// What the watchdog does about a child that has been silent for `idle`.
    fn watch(&mut self, idle: Span) -> (a: RunAction)
        requires
            old(self)@.phase is Running,
            timed(old(self)@, RunEvent::Tick(idle)),
        ensures
            (final(self)@, a@) == step(old(self)@, RunEvent::Tick(idle)),
    {
        match self.liveness_timeout {
            None => RunAction::KeepWatching,
            Some(limit) => {
                if idle.as_nanos() <= limit.as_nanos() {
                    return RunAction::KeepWatching;
                }
                let reason = hang_text(
                    show(idle.secs, idle.nanos).as_str(),
                    show(limit.secs, limit.nanos).as_str(),
                );
                if let Phase::Running { report } = &mut self.phase {
                    report.hung = Some(reason);
                }
                RunAction::GiveUp(self.child_pid)
            },
        }
    }

    /// The end of a run whose child ended.
    fn finish(&mut self, exit: Result<CommandExit, String>, reader: bool, elapsed: Span) -> (a: RunAction)
        requires
            old(self)@.phase is Running,
        ensures
            (final(self)@, a@) == step(old(self)@, RunEvent::Exited { exit, reader, elapsed }),
    {
        let exit = match exit {
            Ok(x) => x,
            Err(m) => {
                self.phase = Phase::Idle;
                return abandon(
                    TrainError::Trainer("wait for trainer.py: ".to_string().concat(m.as_str())),
                );
            },
        };
        let mut phase = Phase::Idle;
        std::mem::swap(&mut phase, &mut self.phase);
        let unregister = self.child_pid.take();
        let result: Result<TrainArtifact, TrainError> = match phase {
            Phase::Running { report } => match report.hung {
                Some(reason) => Err(TrainError::Trainer(reason)),
                None => if !reader {
                    Err(TrainError::Trainer("status reader dropped before report".to_string()))
                } else {
                    match report.failed {
                        Some(error) => Err(TrainError::Trainer(error)),
                        None => if !exit.success {
                            Err(
                                TrainError::Trainer(
                                    "trainer.py exited with ".to_string().concat(
                                        exit.status.as_str(),
                                    ).concat(" and emitted no Failed status"),
                                ),
                            )
                        } else {
                            match report.done {
                                None => Err(
                                    TrainError::Trainer(
                                        "trainer.py exited successfully but emitted no Done status".to_string(),
                                    ),
                                ),
                                Some((final_loss, checkpoint_dir)) => Ok(
                                    TrainArtifact {
                                        checkpoint_dir,
                                        gguf_path: None,
                                        final_loss,
                                        elapsed,
                                    },
                                ),
                            }
                        },
                    }
                },
            },
            _ => Err(TrainError::Trainer("status reader dropped before report".to_string())),
        };
        RunAction::Finish { result, unregister }
    }

    /// Cancels the run: the child to kill and to take off the register, if one
    /// is known. It is handed out once.
    pub fn cancel(&mut self) -> (pid: Option<u32>)
        ensures
            pid == old(self)@.child_pid,
            final(self)@ == (BackendView { child_pid: None, ..old(self)@ }),
    {
        self.child_pid.take()
    }

    /// How often the watchdog looks: a quarter of its timeout, at most every
    /// thirty seconds, at least every tenth of a second. `None` without one.
    pub fn watchdog_tick(&self) -> (t: Option<Span>)
        ensures
            t is Some <==> self@.liveness_timeout is Some,
            t matches Some(tick) ==> tick.wf() && tick.total() == tick_nanos(
                self@.liveness_timeout->0.total(),
            ),
    {
        match self.liveness_timeout {
            None => None,
            Some(timeout) => {
                let quarter: u128 = timeout.as_nanos() / 4;
                let capped: u128 = if quarter < 30_000_000_000 {
                    quarter
                } else {
                    30_000_000_000
                };
                let tick: u128 = if capped > 100_000_000 {
                    capped
                } else {
                    100_000_000
                };
                Some(Span::from_nanos(tick))
            },
        }
    }
}

/// The watchdog's tick for a timeout, in nanoseconds.
pub open spec fn tick_nanos(timeout: nat) -> nat {
    let quarter = timeout / 4;
    let capped = if quarter < 30_000_000_000 {
        quarter
    } else {
        30_000_000_000
    };
    if capped > 100_000_000 {
        capped
    } else {
        100_000_000
    }
}

/// A process id is published by the registration of the child and by nothing
/// else: a refused preflight, a failed spawn and a refused registration leave
/// it as it was.
pub proof fn lemma_pid_is_published_by_registration_only(s: BackendView, e: RunEvent)
    ensures
        step(s, e).0.child_pid != s.child_pid ==> {
            ||| (s.phase matches PhaseView::Registering(pid) && e matches RunEvent::Registered(Ok(_))
                && step(s, e).0.child_pid == Some(pid))
            ||| (s.phase is Running && e is Exited && step(s, e).0.child_pid is None)
        },
{
}

/// A run that ended leaves no child behind: where waiting succeeded the process
/// id is handed out to be taken off the register, and forgotten.
pub proof fn lemma_an_ended_run_hands_its_child_out(
    s: BackendView,
    exit: CommandExit,
    reader: bool,
    elapsed: Span,
)
    requires
        s.phase is Running,
    ensures
        ({
            let (next, action) = step(s, RunEvent::Exited { exit: Ok(exit), reader, elapsed });
            &&& next.child_pid is None
            &&& next.phase == PhaseView::Idle
            &&& action matches ActionView::Finish(_, unregister) && unregister == s.child_pid
        }),
{
}

/// A hang found by the watchdog is what the run reports, whatever the trainer
/// wrote and however it ended.
pub proof fn lemma_a_hang_is_reported_first(
    s: BackendView,
    report: ReportView,
    reason: Seq<char>,
    exit: CommandExit,
    reader: bool,
    elapsed: Span,
)
    requires
        s.phase == PhaseView::Running(report),
        report.hung == Some(reason),
    ensures
        step(s, RunEvent::Exited { exit: Ok(exit), reader, elapsed }).1 == ActionView::Finish(
            Err::<ArtifactView, TrainErrorView>(TrainErrorView::Trainer(reason)),
            s.child_pid,
        ),
{
}

/// Heartbeats are never handed on, and without a timeout no child is given up.
pub proof fn lemma_heartbeats_stay_here_and_no_timeout_kills_nobody(s: BackendView, e: RunEvent)
    ensures
        step(s, e).1 matches ActionView::Forward(u) ==> !(u is Heartbeat),
        s.liveness_timeout is None ==> !(step(s, e).1 is GiveUp),
        e matches RunEvent::Tick(idle) && s.liveness_timeout matches Some(limit) && idle.total()
            <= limit.total() ==> !(step(s, e).1 is GiveUp),
{
}

/// The last `Done` among some updates.
pub open spec fn last_done(updates: Seq<Option<StatusView>>) -> Option<(u32, Seq<char>)>
    decreases updates.len(),
{
    if updates.len() == 0 {
        None
    } else {
        match updates.last() {
            Some(StatusView::Done { final_loss, checkpoint_dir }) => Some(
                (final_loss, checkpoint_dir),
            ),
            _ => last_done(updates.drop_last()),
        }
    }
}

/// The last `Failed` among some updates.
pub open spec fn last_failed(updates: Seq<Option<StatusView>>) -> Option<Seq<char>>
    decreases updates.len(),
{
    if updates.len() == 0 {
        None
    } else {
        match updates.last() {
            Some(StatusView::Failed { error }) => Some(error),
            _ => last_failed(updates.drop_last()),
        }
    }
}

/// The report after some updates were taken in, one after the other.
pub open spec fn report_after(updates: Seq<Option<StatusView>>) -> ReportView
    decreases updates.len(),
{
    if updates.len() == 0 {
        ReportView { done: None, failed: None, hung: None }
    } else {
        absorbed(report_after(updates.drop_last()), updates.last()).0
    }
}

/// What a run reports depends on the last `Done` and the last `Failed` alone:
/// every other line, malformed ones among them, leaves the result as it is.
pub proof fn lemma_the_report_is_the_last_word(updates: Seq<Option<StatusView>>)
    ensures
        report_after(updates) == (ReportView {
            done: last_done(updates),
            failed: last_failed(updates),
            hung: None,
        }),
    decreases updates.len(),
{
    if updates.len() > 0 {
        lemma_the_report_is_the_last_word(updates.drop_last());
    }
}

/// A watched child is looked at often enough: the tick lies between a tenth of a
/// second and thirty seconds, and is a quarter of any timeout in between.
pub proof fn lemma_the_tick_is_bounded(timeout: nat)
    ensures
        100_000_000 <= tick_nanos(timeout) <= 30_000_000_000,
        400_000_000 <= timeout <= 120_000_000_000 ==> tick_nanos(timeout) == timeout / 4,
{
}

/// A step changes where the run stands and which child is known, and nothing else of the
/// backend.
pub proof fn lemma_a_step_leaves_the_settings_alone(s: BackendView, e: RunEvent)
    ensures
        ({
            let next = step(s, e).0;
            &&& next.python == s.python
            &&& next.trainer_script == s.trainer_script
            &&& next.env == s.env
            &&& next.liveness_timeout == s.liveness_timeout
            &&& next.launch_target == s.launch_target
        }),
{
}

/// A run goes from phase to phase in one order: its description is checked, a child is
/// allowed, the command is launched, the child is registered, and then it runs. It comes
/// to each phase from the one before it alone, and by success alone.
pub proof fn lemma_a_run_goes_through_its_phases_in_order(s: BackendView, e: RunEvent)
    ensures
        ({
            let next = step(s, e).0.phase;
            &&& next is Validated && !(s.phase is Validated) ==> s.phase is Idle && (
            e matches RunEvent::Validated(r) && r is Ok)
            &&& next is Cleared && !(s.phase is Cleared) ==> s.phase is Validated && (
            e matches RunEvent::Preflight(r) && r is Ok)
            &&& next is Spawning && !(s.phase is Spawning) ==> s.phase is Cleared && e is Serialized
                && step(s, e).1 is Launch
            &&& next is Registering && !(s.phase is Registering) ==> s.phase is Spawning && (
            e matches RunEvent::Launched(Launch::Spawned(c)) && c.pid == Some(
                next->Registering_0,
            ) && c.stdout && c.stderr) && step(s, e).1 == ActionView::Register(
                next->Registering_0,
            )
            &&& next is Running && !(s.phase is Running) ==> s.phase is Registering && (
            e matches RunEvent::Registered(r) && r is Ok) && step(s, e).1 is Stream
        }),
{
}

/// A step that succeeds calls for the next thing to do.
pub proof fn lemma_success_calls_for_the_next_thing(s: BackendView, e: RunEvent)
    ensures
        s.phase is Idle && (e matches RunEvent::Validated(r) && r is Ok) ==> step(s, e).1
            is CheckSpawn && step(s, e).0.phase is Validated,
        s.phase is Validated && (e matches RunEvent::Preflight(r) && r is Ok) ==> step(s, e).1
            is Serialize && step(s, e).0.phase is Cleared,
        s.phase is Spawning && (e matches RunEvent::Launched(Launch::Spawned(c)) && c.pid is Some
            && c.stdout && c.stderr) ==> step(s, e).1 is Register && step(s, e).0.phase
            is Registering,
        s.phase is Registering && (e matches RunEvent::Registered(r) && r is Ok) ==> {
            &&& step(s, e).1 is Stream
            &&& step(s, e).0.child_pid == Some(s.phase->Registering_0)
            &&& step(s, e).0.phase == PhaseView::Running(
                ReportView { done: None, failed: None, hung: None },
            )
        },
{
}

/// A run that ends starts over: it is idle again, and only a run that ends well, or one
/// whose child ran, hands out a child to take off the register.
pub proof fn lemma_a_run_that_ends_is_idle(s: BackendView, e: RunEvent)
    ensures
        step(s, e).1 is Finish ==> step(s, e).0.phase is Idle,
        step(s, e).0.phase is Idle && !(s.phase is Idle) ==> step(s, e).1 is Finish,
        (step(s, e).1 matches ActionView::Finish(result, child) && (result is Ok || child is Some))
            ==> s.phase is Running && (e matches RunEvent::Exited { exit, .. } && exit is Ok),
{
}

/// What is refused ends the run with what was said of it: a bad description as such, and
/// anything else under the name of what was tried.
pub proof fn lemma_a_refusal_is_passed_on(s: BackendView, e: RunEvent)
    ensures
        s.phase is Idle && (e matches RunEvent::Validated(Err(m))) ==> (step(
            s,
            e,
        ).1 matches ActionView::Finish(Err(TrainErrorView::InvalidSpec(x)), None) && x
            == e->Validated_0->Err_0@),
        s.phase is Validated && (e matches RunEvent::Preflight(Err(m))) ==> (step(
            s,
            e,
        ).1 matches ActionView::Finish(Err(TrainErrorView::Trainer(x)), None) && text::occurs_in(
            x,
            e->Preflight_0->Err_0@,
        )),
        s.phase is Spawning && (e matches RunEvent::Launched(Launch::WrapFailed(m))) ==> (step(
            s,
            e,
        ).1 matches ActionView::Finish(Err(TrainErrorView::Other(x)), None) && text::occurs_in(
            x,
            e->Launched_0->WrapFailed_0@,
        )),
        s.phase is Spawning && (e matches RunEvent::Launched(Launch::SpawnFailed(m))) ==> (step(
            s,
            e,
        ).1 matches ActionView::Finish(Err(TrainErrorView::Trainer(x)), None) && text::occurs_in(
            x,
            e->Launched_0->SpawnFailed_0@,
        ) && text::occurs_in(x, s.trainer_script)),
        s.phase is Spawning && (e matches RunEvent::Launched(Launch::Spawned(c)) && (c.pid is None
            || !c.stdout || !c.stderr)) ==> (step(s, e).1 matches ActionView::Finish(
            Err(TrainErrorView::Trainer(x)),
            None,
        )),
        s.phase is Registering && (e matches RunEvent::Registered(Err(m))) ==> (step(
            s,
            e,
        ).1 matches ActionView::Finish(Err(TrainErrorView::Trainer(x)), None) && text::occurs_in(
            x,
            e->Registered_0->Err_0@,
        ) && text::occurs_in(x, text::decimal(s.phase->Registering_0 as nat))),
{
    match (s.phase, e) {
        (PhaseView::Validated, RunEvent::Preflight(Err(m))) => {
            text::lemma_the_ends_occur("child spawn preflight refused: "@, m@);
        },
        (PhaseView::Spawning, RunEvent::Launched(Launch::WrapFailed(m))) => {
            text::lemma_the_ends_occur("launcher wrap: "@, m@);
        },
        (PhaseView::Spawning, RunEvent::Launched(Launch::SpawnFailed(m))) => {
            let a = "spawn "@ + s.python + " "@;
            text::lemma_the_ends_occur(a, s.trainer_script);
            text::lemma_it_occurs_in_more(a + s.trainer_script, s.trainer_script, ": "@);
            text::lemma_it_occurs_in_more(
                a + s.trainer_script + ": "@,
                s.trainer_script,
                m@,
            );
            text::lemma_the_ends_occur(a + s.trainer_script + ": "@, m@);
        },
        (PhaseView::Registering(pid), RunEvent::Registered(Err(m))) => {
            let a = "register trainer child "@;
            let d = text::decimal(pid as nat);
            text::lemma_the_ends_occur(a, d);
            text::lemma_it_occurs_in_more(a + d, d, ": "@);
            text::lemma_it_occurs_in_more(a + d + ": "@, d, m@);
            text::lemma_the_ends_occur(a + d + ": "@, m@);
        },
        _ => {},
    }
}

/// A command runs the interpreter on the script and the description of the run, the last
/// two arguments, behind the launch prefix of the run, with the backend's own environment
/// and where it is placed.
pub proof fn lemma_the_command_runs_the_script(
    s: BackendView,
    prefix: Seq<Seq<char>>,
    spec_json: Seq<char>,
)
    ensures
        ({
            let c = command_of(s, prefix, spec_json);
            &&& c.program == s.python
            &&& c.args.take(prefix.len() as int) == prefix
            &&& c.args.skip(prefix.len() as int) == seq![s.trainer_script, spec_json]
            &&& c.env == s.env
            &&& c.target == s.launch_target
        }),
{
    let args = command_of(s, prefix, spec_json).args;
    assert(args.take(prefix.len() as int) =~= prefix);
    assert(args.skip(prefix.len() as int) =~= seq![s.trainer_script, spec_json]);
}

/// What is launched for a description is its command under the launch prefix of the run's
/// own counts; a single process has none. Where the rendezvous is incomplete, or the
/// description could not be written, nothing is launched.
pub proof fn lemma_a_launch_is_laid_out_as_asked(
    s: BackendView,
    spec_json: Result<String, String>,
    nproc: u32,
    nnodes: u32,
    env: RendezvousEnv,
)
    requires
        s.phase is Cleared,
    ensures
        ({
            let action = step(s, RunEvent::Serialized { spec_json, nproc, nnodes, env }).1;
            &&& action is Launch <==> spec_json is Ok && (nnodes <= 1 || (env.master_addr is Some
                && env.node_rank is Some))
            &&& !(action is Launch) ==> (action matches ActionView::Finish(Err(e), None) && e
                is Other)
            &&& action matches ActionView::Launch(c) ==> {
                &&& c.program == s.python
                &&& c.env == s.env
                &&& c.target == s.launch_target
                &&& c.args.len() >= 2
                &&& c.args[c.args.len() - 2] == s.trainer_script
                &&& c.args[c.args.len() - 1] == spec_json->Ok_0@
                &&& nproc <= 1 && nnodes <= 1 ==> c.args.len() == 2
                &&& nnodes > 1 ==> distributed::gives(
                    c.args.take(c.args.len() - 2),
                    "--nnodes"@,
                    text::decimal(nnodes as nat),
                )
                &&& nnodes > 1 || nproc > 1 ==> distributed::gives(
                    c.args.take(c.args.len() - 2),
                    "--nproc_per_node"@,
                    text::decimal(
                        if nproc == 0 {
                            1
                        } else {
                            nproc as nat
                        },
                    ),
                )
            }
        }),
{
    let prefix = distributed::prefix_of(nproc as nat, nnodes as nat, env);
    distributed::lemma_rendezvous_is_required_across_nodes(nproc as nat, nnodes as nat, env, env);
    match (spec_json, prefix) {
        (Ok(j), Ok(p)) => {
            lemma_the_command_runs_the_script(s, p, j@);
            let args = command_of(s, p, j@).args;
            assert(args.take(args.len() - 2) =~= p);
            if nnodes > 1 {
                distributed::lemma_a_launch_across_nodes_gives_its_counts(
                    nproc as nat,
                    nnodes as nat,
                    env,
                );
            } else if nproc > 1 {
                distributed::lemma_a_launch_on_one_node_stands_alone(
                    nproc as nat,
                    nnodes as nat,
                    env,
                );
            }
        },
        _ => {},
    }
}

/// Every update but a heartbeat is handed on as it is; a heartbeat only shows that the
/// child lives, and a line that is no update does not even show that. What the watchdog
/// wrote down stays.
pub proof fn lemma_updates_are_handed_on_as_they_are(r: ReportView, update: Option<StatusView>)
    ensures
        update matches Some(u) ==> (if u is Heartbeat {
            absorbed(r, update) == (r, ActionView::Refresh)
        } else {
            absorbed(r, update).1 == ActionView::Forward(u)
        }),
        update is None ==> absorbed(r, update) == (r, ActionView::Skip),
        absorbed(r, update).0.hung == r.hung,
        update matches Some(StatusView::Done { final_loss, checkpoint_dir }) ==> absorbed(
            r,
            update,
        ).0.done == Some((final_loss, checkpoint_dir)),
        !(update matches Some(StatusView::Done { final_loss, checkpoint_dir })) ==> absorbed(
            r,
            update,
        ).0.done == r.done,
        update matches Some(StatusView::Failed { error }) ==> absorbed(r, update).0.failed == Some(
            error,
        ),
        !(update matches Some(StatusView::Failed { error })) ==> absorbed(r, update).0.failed
            == r.failed,
{
}

/// A line of output is read without the white space around it; a blank one is left alone,
/// and a line of error output only shows that the child lives.
pub proof fn lemma_how_output_is_read(s: BackendView, report: ReportView, line: String)
    requires
        s.phase == PhaseView::Running(report),
    ensures
        text::is_blank(line@) ==> step(s, RunEvent::Stdout(line)) == (s, ActionView::Skip),
        !text::is_blank(line@) ==> {
            let taken = absorbed(report, status::status_of_line(text::trimmed(line@)));
            &&& step(s, RunEvent::Stdout(line)).0.phase == PhaseView::Running(taken.0)
            &&& step(s, RunEvent::Stdout(line)).1 == taken.1
        },
        step(s, RunEvent::Stderr) == (s, ActionView::Refresh),
{
    text::lemma_trimming_drops_white_space_alone(line@);
}

/// A run ends well exactly where no hang was found, the output was read to its end, no
/// failure was reported, the child succeeded, and it reported that it was done; the result
/// is then what it reported last, with the time the run took.
pub proof fn lemma_when_a_run_ends_well(
    r: ReportView,
    reader: bool,
    success: bool,
    status: Seq<char>,
    elapsed: Span,
)
    ensures
        result_of(r, reader, success, status, elapsed) is Ok <==> r.hung is None && reader
            && r.failed is None && success && r.done is Some,
        result_of(r, reader, success, status, elapsed) matches Ok(a) ==> {
            &&& Some((a.final_loss, a.checkpoint_dir)) == r.done
            &&& a.elapsed == elapsed
            &&& a.gguf_path is None
        },
        result_of(r, reader, success, status, elapsed) matches Err(e) ==> e is Trainer,
{
}

/// Of several things that went wrong the gravest is reported: a hang, then output that was
/// not read to its end, then a failure the trainer reported, in its own words, then its
/// exit status.
pub proof fn lemma_what_went_wrong_is_reported_in_order(
    r: ReportView,
    reader: bool,
    success: bool,
    status: Seq<char>,
    elapsed: Span,
)
    ensures
        ({
            let e = result_of(r, reader, success, status, elapsed);
            &&& r.hung matches Some(m) ==> e == Err::<ArtifactView, TrainErrorView>(
                TrainErrorView::Trainer(m),
            )
            &&& r.hung is None && !reader ==> e == Err::<ArtifactView, TrainErrorView>(
                TrainErrorView::Trainer("status reader dropped before report"@),
            )
            &&& r.hung is None && reader && r.failed is Some ==> e == Err::<
                ArtifactView,
                TrainErrorView,
            >(TrainErrorView::Trainer(r.failed->0))
            &&& r.hung is None && reader && r.failed is None && !success ==> (e matches Err(
                TrainErrorView::Trainer(m),
            ) && text::occurs_in(m, status))
        }),
{
    text::lemma_a_part_occurs(
        "trainer.py exited with "@,
        status,
        " and emitted no Failed status"@,
    );
}

/// A child is given up exactly where it was silent for longer than the watchdog allows. It
/// is then named, and what is written down gives both spans; otherwise nothing changes.
pub proof fn lemma_when_a_child_is_given_up(s: BackendView, report: ReportView, idle: Span)
    requires
        s.phase == PhaseView::Running(report),
    ensures
        ({
            let (next, action) = step(s, RunEvent::Tick(idle));
            let late = s.liveness_timeout is Some && idle.total() > s.liveness_timeout->0.total();
            &&& late ==> {
                &&& action == ActionView::GiveUp(s.child_pid)
                &&& next.phase matches PhaseView::Running(r) && {
                    &&& r.done == report.done && r.failed == report.failed
                    &&& r.hung == Some(hang_message(idle, s.liveness_timeout->0))
                }
            }
            &&& !late ==> action == ActionView::KeepWatching && next == s
        }),
{
}

/// What is written down of a hang gives how long the child was silent and how long it
/// might have been, each under its own name.
pub proof fn lemma_a_hang_is_explained(idle: Span, limit: Span)
    ensures
        text::occurs_in(
            hang_message(idle, limit),
            "liveness watchdog: no output for "@ + span::shown(idle.secs, idle.nanos),
        ),
        text::occurs_in(
            hang_message(idle, limit),
            " (limit "@ + span::shown(limit.secs, limit.nanos) + ")"@,
        ),
{
    let start = "liveness watchdog: no output for "@ + span::shown(idle.secs, idle.nanos);
    let l = span::shown(limit.secs, limit.nanos);
    text::lemma_the_ends_occur(start, " (limit "@);
    text::lemma_it_occurs_in_more(start + " (limit "@, start, l);
    text::lemma_it_occurs_in_more(start + " (limit "@ + l, start, ")"@);
    text::lemma_a_stretch_occurs(start, " (limit "@, l, ")"@);
}

/// The watchdog looks a tenth of a second apart at short timeouts and half a minute apart
/// at long ones, and never less often at a shorter timeout.
pub proof fn lemma_the_tick_follows_the_timeout(timeout: nat, longer: nat)
    ensures
        timeout <= 400_000_000 ==> tick_nanos(timeout) == 100_000_000,
        timeout >= 120_000_000_000 ==> tick_nanos(timeout) == 30_000_000_000,
        timeout <= longer ==> tick_nanos(timeout) <= tick_nanos(longer),
{
}

/// An event that does not belong where the run stands changes nothing.
pub proof fn lemma_a_stray_event_changes_nothing(s: BackendView, e: RunEvent)
    ensures
        step(s, e).1 is Nothing ==> step(s, e).0 == s,
        e is Validated && !(s.phase is Idle) ==> step(s, e).1 is Nothing,
        e is Preflight && !(s.phase is Validated) ==> step(s, e).1 is Nothing,
        e is Serialized && !(s.phase is Cleared) ==> step(s, e).1 is Nothing,
        e is Launched && !(s.phase is Spawning) ==> step(s, e).1 is Nothing,
        e is Registered && !(s.phase is Registering) ==> step(s, e).1 is Nothing,
        (e is Stdout || e is Stderr || e is Tick || e is Exited) && !(s.phase is Running) ==> step(
            s,
            e,
        ).1 is Nothing,
{
}

/// The backend, its actions and their parts are seen as they are: each field as itself.
pub proof fn lemma_the_backend_is_seen_as_it_is(b: PythonTrainBackend, c: LaunchCommand)
    ensures
        b@.python == b.python@,
        b@.trainer_script == b.trainer_script@,
        b@.env.len() == b.env@.len(),
        forall|i: int|
            0 <= i < b.env@.len() ==> #[trigger] b@.env[i] == (b.env@[i].0@, b.env@[i].1@),
        b@.liveness_timeout == b.liveness_timeout,
        b@.launch_target == b.launch_target,
        b@.child_pid == b.child_pid,
        b.phase matches Phase::Registering { pid } ==> b@.phase == PhaseView::Registering(pid),
        RunAction::Launch(c)@ matches ActionView::Launch(v) && {
            &&& v.program == c.program@
            &&& v.target == c.target
            &&& v.args == text::texts(c.args@)
            &&& v.env.len() == c.env@.len()
        },
{
}

/// A result is seen as what it holds: the artifact part by part, or the failure.
pub proof fn lemma_results_are_seen_as_they_are(
    r: Result<TrainArtifact, TrainError>,
    child: Option<u32>,
)
    ensures
        (RunAction::Finish { result: r, unregister: child })@ == ActionView::Finish(
            outcome(r),
            child,
        ),
        r matches Err(e) ==> outcome(r) == Err::<ArtifactView, TrainErrorView>(e@),
        r matches Ok(a) ==> (outcome(r) matches Ok(v) && v.checkpoint_dir == a.checkpoint_dir@
            && v.final_loss == a.final_loss && v.elapsed == a.elapsed && v.gguf_path
            == text::optional(a.gguf_path)),
        forall|pid: u32| #[trigger] RunAction::Register(pid)@ == ActionView::Register(pid),
        forall|pid: Option<u32>| #[trigger] RunAction::GiveUp(pid)@ == ActionView::GiveUp(pid),
        forall|u: StatusUpdate| #[trigger] RunAction::Forward(u)@ == ActionView::Forward(u@),
{
}

} // verus!
