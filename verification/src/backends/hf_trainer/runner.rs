//! `HfTrainerRunner`: drives the Python wrapper around `transformers.Trainer`.
//!
//! The wrapper reads its job from a file and writes one JSON status line per
//! event. Files, processes and the clock belong to the caller;
//! [`HfTrainerRunner::run`] says what to do after each thing that happened.

use vstd::prelude::*;
use vstd::string::*;

use crate::backends::hf_trainer::venv;
use crate::backends::hf_trainer::venv::{VenvError, VenvErrorView};
use crate::distributed;
use crate::distributed::{launch_prefix, RendezvousEnv};
use crate::json::Json;
use crate::number::Real;
use crate::process::CommandExit;
use crate::span::Span;
use crate::text;
use crate::text::{add_text, ancestors, decimal_text, join, trim};

verus! {

/// A job for the wrapper.
#[derive(Debug, PartialEq, Eq)]
pub struct HfTrainerJob {
    /// `sft`, `dpo` or `distill`: picks the trainer class.
    pub task: String,
    /// A model id, or the path of a local checkpoint.
    pub base_model: String,
    pub train_dataset_path: String,
    /// `None`: no evaluation loop.
    pub eval_dataset_path: Option<String>,
    pub output_dir: String,
    pub lr: Real,
    pub epochs: u32,
    pub batch_size: u32,
    pub grad_accum: u32,
    pub seq_len: u32,
    pub seed: u64,
    /// Further training arguments, handed on as they are.
    pub extra: Vec<(String, Json)>,
    /// `None`: a full-rank fine-tune.
    pub peft: Option<PeftConfig>,
    /// Set for the task `dpo`.
    pub dpo: Option<DpoConfig>,
    pub nproc_per_node: u32,
    pub nnodes: u32,
}

/// The number of processes of a job that names none.
pub fn default_nproc() -> (n: u32)
    ensures
        n == 1,
{
    1
}

/// Low-rank adapters.
#[derive(Debug, PartialEq, Eq)]
pub struct PeftConfig {
    /// `lora` or `qlora`.
    pub method: String,
    pub rank: u32,
    pub alpha: u32,
}

/// Preference training.
#[derive(Debug, PartialEq, Eq)]
pub struct DpoConfig {
    pub beta: Real,
    /// `None`: the pairs of the training dataset.
    pub preferences_path: Option<String>,
}

/// A status line of the wrapper. Single-precision numbers are held by their bits.
#[derive(Debug, PartialEq, Eq)]
pub enum StatusLine {
    Step { step: u64, total: u64, loss: Option<u32>, lr: Option<u32> },
    Saved { path: String },
    Done { checkpoint_dir: String, final_loss: Option<u32> },
    Failed { error: String },
}

/// What a [`StatusLine`] says.
#[verifier::ext_equal]
pub enum StatusLineView {
    Step { step: u64, total: u64, loss: Option<u32>, lr: Option<u32> },
    Saved { path: Seq<char> },
    Done { checkpoint_dir: Seq<char>, final_loss: Option<u32> },
    Failed { error: Seq<char> },
}

impl View for StatusLine {
    type V = StatusLineView;

    open spec fn view(&self) -> StatusLineView {
        match *self {
            StatusLine::Step { step, total, loss, lr } => StatusLineView::Step {
                step,
                total,
                loss,
                lr,
            },
            StatusLine::Saved { path } => StatusLineView::Saved { path: path@ },
            StatusLine::Done { checkpoint_dir, final_loss } => StatusLineView::Done {
                checkpoint_dir: checkpoint_dir@,
                final_loss,
            },
            StatusLine::Failed { error } => StatusLineView::Failed { error: error@ },
        }
    }
}

/// The result of a run.
#[derive(Debug, PartialEq, Eq)]
pub struct HfRunArtifact {
    pub checkpoint_dir: String,
    pub final_loss: Option<u32>,
    pub elapsed: Span,
}

/// Why a run failed.
#[derive(Debug, PartialEq, Eq)]
pub enum RunError {
    ChildControl { operation: &'static str, pid: Option<u32>, source: String },
    Venv(VenvError),
    Spawn { python: String, source: String },
    Failed { status: String },
    WrapperFailed { message: String },
    Io { path: String, source: String },
    SerializeJob(String),
}

/// What a [`RunError`] says.
#[verifier::ext_equal]
pub enum RunErrorView {
    ChildControl { operation: Seq<char>, pid: Option<u32>, source: Seq<char> },
    Venv(VenvErrorView),
    Spawn { python: Seq<char>, source: Seq<char> },
    Failed { status: Seq<char> },
    WrapperFailed { message: Seq<char> },
    Io { path: Seq<char>, source: Seq<char> },
    SerializeJob(Seq<char>),
}

impl View for RunError {
    type V = RunErrorView;

    open spec fn view(&self) -> RunErrorView {
        match *self {
            RunError::ChildControl { operation, pid, source } => RunErrorView::ChildControl {
                operation: operation@,
                pid,
                source: source@,
            },
            RunError::Venv(e) => RunErrorView::Venv(e@),
            RunError::Spawn { python, source } => RunErrorView::Spawn {
                python: python@,
                source: source@,
            },
            RunError::Failed { status } => RunErrorView::Failed { status: status@ },
            RunError::WrapperFailed { message } => RunErrorView::WrapperFailed {
                message: message@,
            },
            RunError::Io { path, source } => RunErrorView::Io { path: path@, source: source@ },
            RunError::SerializeJob(m) => RunErrorView::SerializeJob(m@),
        }
    }
}

/// An optional process id as it is shown.
pub open spec fn pid_shown(pid: Option<u32>) -> Seq<char> {
    match pid {
        Some(p) => "Some("@ + text::decimal(p as nat) + ")"@,
        None => "None"@,
    }
}

/// The text shown for a failure.
pub open spec fn shown(e: RunErrorView) -> Seq<char> {
    match e {
        RunErrorView::ChildControl { operation, pid, source } => "child control "@ + operation
            + " failed for pid "@ + pid_shown(pid) + ": "@ + source,
        RunErrorView::Venv(v) => "venv: "@ + venv::shown(v),
        RunErrorView::Spawn { python, source } => "python -m hf_trainer_runner spawn at "@ + python
            + ": "@ + source,
        RunErrorView::Failed { status } => "python wrapper exited with status "@ + status
            + " and emitted no Done line"@,
        RunErrorView::WrapperFailed { message } => "python wrapper reported failure: "@ + message,
        RunErrorView::Io { path, source } => "io at "@ + path + ": "@ + source,
        RunErrorView::SerializeJob(m) => "serialize job spec: "@ + m,
    }
}

impl RunError {
    /// The text shown for the failure.
    pub fn to_text(&self) -> (s: String)
        ensures
            s@ == shown(self@),
    {
        match self {
            RunError::ChildControl { operation, pid, source } => {
                let pid = match pid {
                    Some(p) => "Some(".to_string().concat(decimal_text(*p as u64).as_str()).concat(
                        ")",
                    ),
                    None => "None".to_string(),
                };
                "child control ".to_string().concat(operation).concat(" failed for pid ").concat(
                    pid.as_str(),
                ).concat(": ").concat(source.as_str())
            },
            RunError::Venv(e) => "venv: ".to_string().concat(e.to_text().as_str()),
            RunError::Spawn {
                python,
                source,
            } => "python -m hf_trainer_runner spawn at ".to_string().concat(
                python.as_str(),
            ).concat(": ").concat(source.as_str()),
            RunError::Failed { status } => "python wrapper exited with status ".to_string().concat(
                status.as_str(),
            ).concat(" and emitted no Done line"),
            RunError::WrapperFailed {
                message,
            } => "python wrapper reported failure: ".to_string().concat(message.as_str()),
            RunError::Io { path, source } => "io at ".to_string().concat(path.as_str()).concat(
                ": ",
            ).concat(source.as_str()),
            RunError::SerializeJob(m) => "serialize job spec: ".to_string().concat(m.as_str()),
        }
    }
}

/// What the wrapper has reported so far.
#[derive(Debug)]
pub struct Collected {
    pub done: Option<(String, Option<u32>)>,
    pub failed: Option<String>,
}

/// Where a run stands.
#[derive(Debug)]
pub enum HfPhase {
    /// No run is under way.
    Idle,
    /// A child may be spawned.
    Cleared,
    /// The launch was ordered.
    Spawning { python: String },
    /// The child exists and awaits its registration.
    Registering { pid: u32 },
    /// The child runs.
    Running { collected: Collected },
}

/// The runner: its child, where one is known, and where the run stands.
#[derive(Debug)]
pub struct HfTrainerRunner {
    pub child_pid: Option<u32>,
    pub phase: HfPhase,
}

/// What is needed for a launch: the interpreter, the job file, and the wrapper
/// script where one exists.
pub struct Prepared {
    pub python: String,
    pub spec_path: String,
    pub wrapper: Option<String>,
    pub nproc_per_node: u32,
    pub nnodes: u32,
    pub env: RendezvousEnv,
}

/// What has happened.
pub enum HfEvent {
    /// It was asked whether a child may be spawned.
    Preflight(Result<(), String>),
    /// The environment and the job file are there, or the failure on the way.
    Prepared(Result<Prepared, RunError>),
    /// The command was launched.
    Launched(Result<Option<u32>, String>),
    /// The child was registered.
    Registered(Result<(), String>),
    /// A status line was read; `None` where the line holds no status.
    Line(Option<StatusLine>),
    /// The child ended, or waiting for it failed.
    Exited { exit: Result<CommandExit, String>, elapsed: Span },
}

/// What to do next.
#[derive(Debug)]
pub enum HfAction {
    /// The event does not belong here.
    Nothing,
    /// Make the environment and the job file.
    Prepare,
    /// Launch this command.
    Launch { program: String, args: Vec<String> },
    /// Register this child.
    Register(u32),
    /// Read the child's output.
    Stream,
    /// Leave the line alone.
    Skip,
    /// Hand the status on.
    Forward(StatusLine),
    /// The run is over. The child is taken off the register where one is named.
    Finish { result: Result<HfRunArtifact, RunError>, unregister: Option<u32> },
}

#[verifier::ext_equal]
pub struct CollectedView {
    pub done: Option<(Seq<char>, Option<u32>)>,
    pub failed: Option<Seq<char>>,
}

impl View for Collected {
    type V = CollectedView;

    open spec fn view(&self) -> CollectedView {
        CollectedView {
            done: match self.done {
                Some(d) => Some((d.0@, d.1)),
                None => None,
            },
            failed: text::optional(self.failed),
        }
    }
}

#[verifier::ext_equal]
pub enum HfPhaseView {
    Idle,
    Cleared,
    Spawning(Seq<char>),
    Registering(u32),
    Running(CollectedView),
}

/// The runner as values.
#[verifier::ext_equal]
pub struct HfRunnerView {
    pub child_pid: Option<u32>,
    pub phase: HfPhaseView,
}

impl View for HfTrainerRunner {
    type V = HfRunnerView;

    open spec fn view(&self) -> HfRunnerView {
        HfRunnerView {
            child_pid: self.child_pid,
            phase: match self.phase {
                HfPhase::Idle => HfPhaseView::Idle,
                HfPhase::Cleared => HfPhaseView::Cleared,
                HfPhase::Spawning { python } => HfPhaseView::Spawning(python@),
                HfPhase::Registering { pid } => HfPhaseView::Registering(pid),
                HfPhase::Running { collected } => HfPhaseView::Running(collected@),
            },
        }
    }
}

#[verifier::ext_equal]
pub struct HfArtifactView {
    pub checkpoint_dir: Seq<char>,
    pub final_loss: Option<u32>,
    pub elapsed: Span,
}

/// An action as values.
#[verifier::ext_equal]
pub enum HfActionView {
    Nothing,
    Prepare,
    Launch { program: Seq<char>, args: Seq<Seq<char>> },
    Register(u32),
    Stream,
    Skip,
    Forward(StatusLineView),
    Finish(Result<HfArtifactView, RunErrorView>, Option<u32>),
}

/// A result as values.
pub open spec fn outcome(r: Result<HfRunArtifact, RunError>) -> Result<
    HfArtifactView,
    RunErrorView,
> {
    match r {
        Ok(a) => Ok(
            HfArtifactView {
                checkpoint_dir: a.checkpoint_dir@,
                final_loss: a.final_loss,
                elapsed: a.elapsed,
            },
        ),
        Err(e) => Err(e@),
    }
}

impl View for HfAction {
    type V = HfActionView;

    open spec fn view(&self) -> HfActionView {
        match *self {
            HfAction::Nothing => HfActionView::Nothing,
            HfAction::Prepare => HfActionView::Prepare,
            HfAction::Launch { program, args } => HfActionView::Launch {
                program: program@,
                args: text::texts(args@),
            },
            HfAction::Register(pid) => HfActionView::Register(pid),
            HfAction::Stream => HfActionView::Stream,
            HfAction::Skip => HfActionView::Skip,
            HfAction::Forward(s) => HfActionView::Forward(s@),
            HfAction::Finish { result, unregister } => HfActionView::Finish(
                outcome(result),
                unregister,
            ),
        }
    }
}

/// A run that ends in failure before any child was registered.
pub open spec fn abandoned(s: HfRunnerView, e: RunErrorView) -> (HfRunnerView, HfActionView) {
    (
        HfRunnerView { phase: HfPhaseView::Idle, ..s },
        HfActionView::Finish(Err::<HfArtifactView, RunErrorView>(e), None),
    )
}

/// What a status line does: a malformed one nothing; any other is handed on,
/// and the last `Done` and the last `Failed` are remembered.
pub open spec fn absorbed(c: CollectedView, line: Option<StatusLineView>) -> (
    CollectedView,
    HfActionView,
) {
    match line {
        None => (c, HfActionView::Skip),
        Some(StatusLineView::Done { checkpoint_dir, final_loss }) => (
            CollectedView { done: Some((checkpoint_dir, final_loss)), ..c },
            HfActionView::Forward(line->0),
        ),
        Some(StatusLineView::Failed { error }) => (
            CollectedView { failed: Some(error), ..c },
            HfActionView::Forward(line->0),
        ),
        Some(s) => (c, HfActionView::Forward(s)),
    }
}

/// The result of a run whose child ended: a reported failure comes first, then
/// the exit status, then the last `Done`.
pub open spec fn result_of(
    c: CollectedView,
    success: bool,
    status: Seq<char>,
    elapsed: Span,
) -> Result<HfArtifactView, RunErrorView> {
    if c.failed is Some {
        Err(RunErrorView::WrapperFailed { message: c.failed->0 })
    } else if !success {
        Err(RunErrorView::Failed { status })
    } else if c.done is None {
        Err(RunErrorView::Failed { status: "no Done line emitted"@ })
    } else {
        Ok(
            HfArtifactView {
                checkpoint_dir: (c.done->0).0,
                final_loss: (c.done->0).1,
                elapsed,
            },
        )
    }
}

/// What an optional line says.
pub open spec fn said(line: Option<StatusLine>) -> Option<StatusLineView> {
    match line {
        Some(s) => Some(s@),
        None => None,
    }
}

/// The next state and the action that an event calls for.
pub open spec fn hf_step(s: HfRunnerView, e: HfEvent) -> (HfRunnerView, HfActionView) {
    match (s.phase, e) {
        (HfPhaseView::Idle, HfEvent::Preflight(Ok(_))) => (
            HfRunnerView { phase: HfPhaseView::Cleared, ..s },
            HfActionView::Prepare,
        ),
        (HfPhaseView::Idle, HfEvent::Preflight(Err(m))) => abandoned(
            s,
            RunErrorView::ChildControl { operation: "spawn preflight"@, pid: None, source: m@ },
        ),
        (HfPhaseView::Cleared, HfEvent::Prepared(Err(e))) => abandoned(s, e@),
        (HfPhaseView::Cleared, HfEvent::Prepared(Ok(p))) => match p.wrapper {
            None => abandoned(
                s,
                RunErrorView::Io {
                    path: "src/backends/hf_trainer/python/hf_trainer_runner.py"@,
                    source: "wrapper script missing; expected alongside the binary"@,
                },
            ),
            Some(wrapper) => match distributed::prefix_of(
                p.nproc_per_node as nat,
                p.nnodes as nat,
                p.env,
            ) {
                Ok(prefix) => (
                    HfRunnerView { phase: HfPhaseView::Spawning(p.python@), ..s },
                    HfActionView::Launch {
                        program: p.python@,
                        args: prefix.push(wrapper@).push(p.spec_path@),
                    },
                ),
                Err(m) => abandoned(s, RunErrorView::Spawn { python: p.python@, source: m }),
            },
        },
        (HfPhaseView::Spawning(python), HfEvent::Launched(Err(m))) => abandoned(
            s,
            RunErrorView::Spawn { python, source: m@ },
        ),
        (HfPhaseView::Spawning(python), HfEvent::Launched(Ok(None))) => abandoned(
            s,
            RunErrorView::ChildControl {
                operation: "registration"@,
                pid: None,
                source: "spawned HF trainer did not expose a process id"@,
            },
        ),
        (HfPhaseView::Spawning(python), HfEvent::Launched(Ok(Some(pid)))) => (
            HfRunnerView { phase: HfPhaseView::Registering(pid), ..s },
            HfActionView::Register(pid),
        ),
        (HfPhaseView::Registering(pid), HfEvent::Registered(Err(m))) => abandoned(
            s,
            RunErrorView::ChildControl { operation: "registration"@, pid: Some(pid), source: m@ },
        ),
        (HfPhaseView::Registering(pid), HfEvent::Registered(Ok(_))) => (
            HfRunnerView {
                child_pid: Some(pid),
                phase: HfPhaseView::Running(CollectedView { done: None, failed: None }),
            },
            HfActionView::Stream,
        ),
        (HfPhaseView::Running(c), HfEvent::Line(line)) => {
            let (next, action) = absorbed(c, said(line));
            (HfRunnerView { phase: HfPhaseView::Running(next), ..s }, action)
        },
        (HfPhaseView::Running(c), HfEvent::Exited { exit: Err(m), .. }) => abandoned(
            s,
            RunErrorView::Io { path: "hf-trainer-wait"@, source: m@ },
        ),
        (HfPhaseView::Running(c), HfEvent::Exited { exit: Ok(exit), elapsed }) => (
            HfRunnerView { child_pid: None, phase: HfPhaseView::Idle },
            HfActionView::Finish(
                result_of(c, exit.success, exit.status@, elapsed),
                s.child_pid,
            ),
        ),
        _ => (s, HfActionView::Nothing),
    }
}

/// A failure before any child was registered.
fn abandon(e: RunError) -> (a: HfAction)
    ensures
        a@ == HfActionView::Finish(Err::<HfArtifactView, RunErrorView>(e@), None),
{
    HfAction::Finish { result: Err(e), unregister: None }
}

/// The part of an output line that may hold a status: the line without the white
/// space around it, or nothing where it is blank.
pub fn status_text(line: &str) -> (r: Option<String>)
    ensures
        match r {
            Some(t) => t@ == text::trimmed(line@) && t@.len() > 0,
            None => text::trimmed(line@).len() == 0,
        },
{
    let t = trim(line);
    if t.as_str().is_empty() {
        None
    } else {
        Some(t)
    }
}

impl HfTrainerRunner {
    /// A runner without a child.
    pub fn new() -> (r: Self)
        ensures
            r@ == (HfRunnerView { child_pid: None, phase: HfPhaseView::Idle }),
    {
        HfTrainerRunner { child_pid: None, phase: HfPhase::Idle }
    }

    /// Advances the run by one event: the next state, and what to do.
    pub fn run(&mut self, event: HfEvent) -> (a: HfAction)
        ensures
            (final(self)@, a@) == hf_step(old(self)@, event),
    {
        match (&self.phase, event) {
            (HfPhase::Idle, HfEvent::Preflight(r)) => match r {
                Ok(_) => {
                    self.phase = HfPhase::Cleared;
                    HfAction::Prepare
                },
                Err(source) => abandon(
                    RunError::ChildControl { operation: "spawn preflight", pid: None, source },
                ),
            },
            (HfPhase::Cleared, HfEvent::Prepared(r)) => {
                self.phase = HfPhase::Idle;
                match r {
                    Ok(p) => self.launch(p),
                    Err(e) => abandon(e),
                }
            },
            (HfPhase::Spawning { python }, HfEvent::Launched(r)) => {
                match r {
                    Err(source) => {
                        let python = python.clone();
                        self.phase = HfPhase::Idle;
                        abandon(RunError::Spawn { python, source })
                    },
                    Ok(None) => {
                        self.phase = HfPhase::Idle;
                        abandon(
                            RunError::ChildControl {
                                operation: "registration",
                                pid: None,
                                source: "spawned HF trainer did not expose a process id".to_string(),
                            },
                        )
                    },
                    Ok(Some(pid)) => {
                        self.phase = HfPhase::Registering { pid };
                        HfAction::Register(pid)
                    },
                }
            },
            (HfPhase::Registering { pid }, HfEvent::Registered(r)) => {
                let pid: u32 = *pid;
                match r {
                    Ok(_) => {
                        self.child_pid = Some(pid);
                        self.phase = HfPhase::Running {
                            collected: Collected { done: None, failed: None },
                        };
                        HfAction::Stream
                    },
                    Err(source) => {
                        self.phase = HfPhase::Idle;
                        abandon(
                            RunError::ChildControl {
                                operation: "registration",
                                pid: Some(pid),
                                source,
                            },
                        )
                    },
                }
            },
            (HfPhase::Running { .. }, HfEvent::Line(line)) => self.accept(line),
            (HfPhase::Running { .. }, HfEvent::Exited { exit, elapsed }) => self.finish(
                exit,
                elapsed,
            ),
            _ => HfAction::Nothing,
        }
    }

    /// Orders the launch of a prepared job.
    fn launch(&mut self, p: Prepared) -> (a: HfAction)
        requires
            old(self)@.phase == HfPhaseView::Idle,
        ensures
            (final(self)@, a@) == hf_step(
                HfRunnerView { phase: HfPhaseView::Cleared, ..old(self)@ },
                HfEvent::Prepared(Ok::<Prepared, RunError>(p)),
            ),
    {
        let wrapper = match p.wrapper {
            Some(w) => w,
            None => {
                return abandon(
                    RunError::Io {
                        path: "src/backends/hf_trainer/python/hf_trainer_runner.py".to_string(),
                        source: "wrapper script missing; expected alongside the binary".to_string(),
                    },
                );
            },
        };
        let mut args = match launch_prefix(p.nproc_per_node, p.nnodes, &p.env) {
            Ok(prefix) => prefix,
            Err(source) => {
                return abandon(RunError::Spawn { python: p.python, source });
            },
        };
        add_text(&mut args, wrapper.as_str());
        add_text(&mut args, p.spec_path.as_str());
        self.phase = HfPhase::Spawning { python: p.python.clone() };
        HfAction::Launch { program: p.python, args }
    }

    /// Takes in one status line, where the line held one.
    fn accept(&mut self, line: Option<StatusLine>) -> (a: HfAction)
        requires
            old(self)@.phase is Running,
        ensures
            (final(self)@, a@) == hf_step(old(self)@, HfEvent::Line(line)),
    {
        match line {
            None => HfAction::Skip,
            Some(s) => {
                if let HfPhase::Running { collected } = &mut self.phase {
                    match &s {
                        StatusLine::Done { checkpoint_dir, final_loss } => {
                            collected.done = Some((checkpoint_dir.clone(), *final_loss));
                        },
                        StatusLine::Failed { error } => {
                            collected.failed = Some(error.clone());
                        },
                        _ => {},
                    }
                }
                HfAction::Forward(s)
            },
        }
    }

    /// The end of a run whose child ended.
    fn finish(&mut self, exit: Result<CommandExit, String>, elapsed: Span) -> (a: HfAction)
        requires
            old(self)@.phase is Running,
        ensures
            (final(self)@, a@) == hf_step(old(self)@, HfEvent::Exited { exit, elapsed }),
    {
        let exit = match exit {
            Ok(x) => x,
            Err(source) => {
                self.phase = HfPhase::Idle;
                return abandon(RunError::Io { path: "hf-trainer-wait".to_string(), source });
            },
        };
        let mut phase = HfPhase::Idle;
        std::mem::swap(&mut phase, &mut self.phase);
        let unregister = self.child_pid.take();
        let result: Result<HfRunArtifact, RunError> = match phase {
            HfPhase::Running { collected } => match collected.failed {
                Some(message) => Err(RunError::WrapperFailed { message }),
                None => if !exit.success {
                    Err(RunError::Failed { status: exit.status })
                } else {
                    match collected.done {
                        None => Err(
                            RunError::Failed { status: "no Done line emitted".to_string() },
                        ),
                        Some((checkpoint_dir, final_loss)) => Ok(
                            HfRunArtifact { checkpoint_dir, final_loss, elapsed },
                        ),
                    }
                },
            },
            _ => Err(RunError::Failed { status: "no Done line emitted".to_string() }),
        };
        HfAction::Finish { result, unregister }
    }

    /// Cancels the run: the child to kill and to take off the register, if one
    /// is known. It is handed out once.
    pub fn cancel(&mut self) -> (pid: Option<u32>)
        ensures
            pid == old(self)@.child_pid,
            final(self)@ == (HfRunnerView { child_pid: None, ..old(self)@ }),
    {
        self.child_pid.take()
    }
}

impl Default for HfTrainerRunner {
    fn default() -> (r: Self)
        ensures
            r@ == (HfRunnerView { child_pid: None, phase: HfPhaseView::Idle }),
    {
        HfTrainerRunner::new()
    }
}

/// The wrapper script below a source tree.
pub open spec fn in_tree(root: Seq<char>) -> Seq<char> {
    text::joined(
        text::joined(
            text::joined(
                text::joined(text::joined(root, "src"@), "backends"@),
                "hf_trainer"@,
            ),
            "python"@,
        ),
        "hf_trainer_runner.py"@,
    )
}

/// Where the wrapper script is looked for: beside the program, then below the
/// working directory and each directory above it.
pub open spec fn candidates_of(
    exe_dir: Option<Seq<char>>,
    cwd: Option<Seq<char>>,
) -> Seq<Seq<char>> {
    let beside = match exe_dir {
        Some(d) => seq![text::joined(text::joined(d, "python"@), "hf_trainer_runner.py"@)],
        None => Seq::empty(),
    };
    match cwd {
        Some(d) => beside + text::ancestors_of(d).map_values(|a: Seq<char>| in_tree(a)),
        None => beside,
    }
}

/// The places where the wrapper script is looked for, in order.
pub fn wrapper_candidates(exe_dir: Option<&str>, cwd: Option<&str>) -> (v: Vec<String>)
    ensures
        text::texts(v@) == candidates_of(
            match exe_dir {
                Some(d) => Some(d@),
                None => None,
            },
            match cwd {
                Some(d) => Some(d@),
                None => None,
            },
        ),
{
    let mut v: Vec<String> = Vec::new();
    match exe_dir {
        Some(d) => {
            let beside = join(join(d, "python").as_str(), "hf_trainer_runner.py");
            add_text(&mut v, beside.as_str());
        },
        None => {},
    }
    let ghost beside = text::texts(v@);
    match cwd {
        Some(d) => {
            let above = ancestors(d);
            let ghost all = text::ancestors_of(d@).map_values(|a: Seq<char>| in_tree(a));
            let mut i: usize = 0;
            while i < above.len()
                invariant
                    i <= above.len(),
                    text::texts(above@) == text::ancestors_of(d@),
                    all == text::ancestors_of(d@).map_values(|a: Seq<char>| in_tree(a)),
                    text::texts(v@) == beside + all.take(i as int),
                decreases above.len() - i,
            {
                assert(text::texts(above@)[i as int] == above@[i as int]@);
                let src = join(above[i].as_str(), "src");
                let hf = join(join(src.as_str(), "backends").as_str(), "hf_trainer");
                let file = join(join(hf.as_str(), "python").as_str(), "hf_trainer_runner.py");
                add_text(&mut v, file.as_str());
                assert(all.take(i + 1) =~= all.take(i as int).push(all[i as int]));
                i += 1;
            }
            assert(all.take(i as int) =~= all);
        },
        None => {},
    }
    v
}

/// The wrapper script: the override (`BLUT_HF_TRAINER_RUNNER`) as it is, else the
/// first candidate that exists.
pub fn wrapper_path(configured: Option<&str>, candidates: &Vec<String>, present: &Vec<bool>) -> (r:
    Option<String>)
    requires
        candidates.len() == present.len(),
    ensures
        configured matches Some(p) ==> r is Some && r->0@ == p@,
        configured is None ==> match r {
            Some(p) => exists|i: int|
                0 <= i < candidates.len() && present@[i] && p@ == candidates@[i]@ && (forall|k: int|
                    0 <= k < i ==> !present@[k]),
            None => forall|k: int| 0 <= k < candidates.len() ==> !present@[k],
        },
{
    match configured {
        Some(p) => Some(p.to_string()),
        None => {
            let mut i: usize = 0;
            while i < candidates.len()
                invariant
                    configured is None,
                    i <= candidates.len(),
                    candidates.len() == present.len(),
                    forall|k: int| 0 <= k < i ==> !present@[k],
                decreases candidates.len() - i,
            {
                if present[i] {
                    assert(present@[i as int]);
                    return Some(candidates[i].clone());
                }
                i += 1;
            }
            None
        },
    }
}

/// A process id is published by the registration of the child and by nothing
/// else: a refused preflight, a failed spawn and a refused registration leave
/// it as it was.
pub proof fn lemma_pid_is_published_by_registration_only(s: HfRunnerView, e: HfEvent)
    ensures
        hf_step(s, e).0.child_pid != s.child_pid ==> {
            ||| (s.phase matches HfPhaseView::Registering(pid) && e matches HfEvent::Registered(
                Ok(_),
            ) && hf_step(s, e).0.child_pid == Some(pid))
            ||| (s.phase is Running && e is Exited && hf_step(s, e).0.child_pid is None)
        },
{
}

/// A reported failure is what the run reports, however the wrapper ended and
/// whatever else it wrote.
pub proof fn lemma_a_reported_failure_comes_first(
    s: HfRunnerView,
    c: CollectedView,
    error: Seq<char>,
    exit: CommandExit,
    elapsed: Span,
)
    requires
        s.phase == HfPhaseView::Running(c),
        c.failed == Some(error),
    ensures
        hf_step(s, HfEvent::Exited { exit: Ok(exit), elapsed }).1 == HfActionView::Finish(
            Err::<HfArtifactView, RunErrorView>(RunErrorView::WrapperFailed { message: error }),
            s.child_pid,
        ),
{
}

/// The last `Done` among some lines.
pub open spec fn last_done(lines: Seq<Option<StatusLineView>>) -> Option<(Seq<char>, Option<u32>)>
    decreases lines.len(),
{
    if lines.len() == 0 {
        None
    } else {
        match lines.last() {
            Some(StatusLineView::Done { checkpoint_dir, final_loss }) => Some(
                (checkpoint_dir, final_loss),
            ),
            _ => last_done(lines.drop_last()),
        }
    }
}

/// The last `Failed` among some lines.
pub open spec fn last_failed(lines: Seq<Option<StatusLineView>>) -> Option<Seq<char>>
    decreases lines.len(),
{
    if lines.len() == 0 {
        None
    } else {
        match lines.last() {
            Some(StatusLineView::Failed { error }) => Some(error),
            _ => last_failed(lines.drop_last()),
        }
    }
}

/// What has been collected after some lines were taken in, one after the other.
pub open spec fn collected_after(lines: Seq<Option<StatusLineView>>) -> CollectedView
    decreases lines.len(),
{
    if lines.len() == 0 {
        CollectedView { done: None, failed: None }
    } else {
        absorbed(collected_after(lines.drop_last()), lines.last()).0
    }
}

/// What a run reports depends on the last `Done` and the last `Failed` alone:
/// every other line, malformed ones among them, leaves the result as it is.
pub proof fn lemma_the_report_is_the_last_word(lines: Seq<Option<StatusLineView>>)
    ensures
        collected_after(lines) == (CollectedView {
            done: last_done(lines),
            failed: last_failed(lines),
        }),
    decreases lines.len(),
{
    if lines.len() > 0 {
        lemma_the_report_is_the_last_word(lines.drop_last());
    }
}

/// A run goes from phase to phase in one order: a child is allowed, the command is
/// launched, the child is registered, and then it runs. It comes to each phase from the one
/// before it alone, and by success alone.
pub proof fn lemma_a_run_goes_through_its_phases_in_order(s: HfRunnerView, e: HfEvent)
    ensures
        ({
            let (next, action) = hf_step(s, e);
            &&& next.phase is Cleared && !(s.phase is Cleared) ==> s.phase is Idle && (
            e matches HfEvent::Preflight(r) && r is Ok) && action is Prepare
            &&& next.phase is Spawning && !(s.phase is Spawning) ==> s.phase is Cleared && (
            e matches HfEvent::Prepared(Ok(p)) && next.phase->Spawning_0 == p.python@) && action
                is Launch
            &&& next.phase is Registering && !(s.phase is Registering) ==> s.phase is Spawning && (
            e matches HfEvent::Launched(Ok(Some(pid))) && next.phase == HfPhaseView::Registering(
                pid,
            ) && action == HfActionView::Register(pid))
            &&& next.phase is Running && !(s.phase is Running) ==> s.phase is Registering && (
            e matches HfEvent::Registered(r) && r is Ok) && action is Stream && next.child_pid
                == Some(s.phase->Registering_0)
        }),
{
}

/// A step that succeeds calls for the next thing to do.
pub proof fn lemma_success_calls_for_the_next_thing(s: HfRunnerView, e: HfEvent)
    ensures
        s.phase is Idle && (e matches HfEvent::Preflight(r) && r is Ok) ==> hf_step(s, e).1
            is Prepare && hf_step(s, e).0.phase is Cleared,
        s.phase is Spawning && (e matches HfEvent::Launched(Ok(p)) && p is Some) ==> hf_step(
            s,
            e,
        ).1 is Register && hf_step(s, e).0.phase is Registering,
        s.phase is Registering && (e matches HfEvent::Registered(r) && r is Ok) ==> hf_step(s, e)
            == (
            HfRunnerView {
                child_pid: Some(s.phase->Registering_0),
                phase: HfPhaseView::Running(CollectedView { done: None, failed: None }),
            },
            HfActionView::Stream,
        ),
{
}

/// A run that ends starts over: it is idle again. Only a run whose child ran and was waited
/// for has a result or hands out a child to take off the register, and it forgets the
/// child.
pub proof fn lemma_a_run_that_ends_is_idle(s: HfRunnerView, e: HfEvent)
    ensures
        hf_step(s, e).1 is Finish ==> hf_step(s, e).0.phase is Idle,
        hf_step(s, e).0.phase is Idle && !(s.phase is Idle) ==> hf_step(s, e).1 is Finish,
        (hf_step(s, e).1 matches HfActionView::Finish(result, child) && (result is Ok || child
            is Some)) ==> s.phase is Running && (e matches HfEvent::Exited { exit, .. } && exit
            is Ok),
        s.phase is Running && (e matches HfEvent::Exited { exit, .. } && exit is Ok) ==> {
            &&& hf_step(s, e).0.child_pid is None
            &&& hf_step(s, e).1 matches HfActionView::Finish(result, child) && child == s.child_pid
        },
{
}

/// What is refused ends the run with what was said of it, under the name of what was tried.
pub proof fn lemma_a_refusal_is_passed_on(s: HfRunnerView, e: HfEvent)
    ensures
        s.phase is Idle && (e matches HfEvent::Preflight(Err(m))) ==> hf_step(s, e).1
            == HfActionView::Finish(
            Err::<HfArtifactView, RunErrorView>(
                RunErrorView::ChildControl {
                    operation: "spawn preflight"@,
                    pid: None,
                    source: e->Preflight_0->Err_0@,
                },
            ),
            None,
        ),
        s.phase is Cleared && (e matches HfEvent::Prepared(Err(x))) ==> hf_step(s, e).1
            == HfActionView::Finish(
            Err::<HfArtifactView, RunErrorView>(e->Prepared_0->Err_0@),
            None,
        ),
        s.phase is Cleared && (e matches HfEvent::Prepared(Ok(p)) && p.wrapper is None) ==> (
        hf_step(s, e).1 matches HfActionView::Finish(Err(RunErrorView::Io { path, source }), None) && path
            == "src/backends/hf_trainer/python/hf_trainer_runner.py"@ && source
            == "wrapper script missing; expected alongside the binary"@),
        s.phase is Spawning && (e matches HfEvent::Launched(Err(m))) ==> hf_step(s, e).1
            == HfActionView::Finish(
            Err::<HfArtifactView, RunErrorView>(
                RunErrorView::Spawn {
                    python: s.phase->Spawning_0,
                    source: e->Launched_0->Err_0@,
                },
            ),
            None,
        ),
        s.phase is Spawning && (e matches HfEvent::Launched(Ok(None))) ==> (hf_step(
            s,
            e,
        ).1 matches HfActionView::Finish(Err(x), None) && x is ChildControl && x->pid is None),
        s.phase is Registering && (e matches HfEvent::Registered(Err(m))) ==> hf_step(s, e).1
            == HfActionView::Finish(
            Err::<HfArtifactView, RunErrorView>(
                RunErrorView::ChildControl {
                    operation: "registration"@,
                    pid: Some(s.phase->Registering_0),
                    source: e->Registered_0->Err_0@,
                },
            ),
            None,
        ),
        s.phase is Running && (e matches HfEvent::Exited { exit: Err(m), .. }) ==> (hf_step(
            s,
            e,
        ).1 matches HfActionView::Finish(Err(RunErrorView::Io { path, source }), None) && path
            == "hf-trainer-wait"@ && source == e->exit->Err_0@),
{
}

/// What is launched for a prepared job is the interpreter on the wrapper and the job file,
/// the last two arguments, behind the launch prefix of the job's own counts; a single
/// process has none. Without a wrapper or a complete rendezvous nothing is launched.
pub proof fn lemma_a_launch_is_laid_out_as_asked(s: HfRunnerView, p: Prepared)
    requires
        s.phase is Cleared,
    ensures
        ({
            let action = hf_step(s, HfEvent::Prepared(Ok(p))).1;
            &&& action is Launch <==> p.wrapper is Some && (p.nnodes <= 1 || (p.env.master_addr
                is Some && p.env.node_rank is Some))
            &&& p.wrapper is Some && !(action is Launch) ==> (action matches HfActionView::Finish(
                Err(RunErrorView::Spawn { python, source }),
                None,
            ) && python == p.python@)
            &&& action matches HfActionView::Launch { program, args } ==> {
                &&& program == p.python@
                &&& args.len() >= 2
                &&& args[args.len() - 2] == p.wrapper->0@
                &&& args[args.len() - 1] == p.spec_path@
                &&& p.nproc_per_node <= 1 && p.nnodes <= 1 ==> args.len() == 2
                &&& p.nnodes > 1 ==> distributed::gives(
                    args.take(args.len() - 2),
                    "--nnodes"@,
                    text::decimal(p.nnodes as nat),
                )
                &&& p.nnodes > 1 || p.nproc_per_node > 1 ==> distributed::gives(
                    args.take(args.len() - 2),
                    "--nproc_per_node"@,
                    text::decimal(
                        if p.nproc_per_node == 0 {
                            1
                        } else {
                            p.nproc_per_node as nat
                        },
                    ),
                )
            }
        }),
{
    let nproc = p.nproc_per_node as nat;
    let nnodes = p.nnodes as nat;
    distributed::lemma_rendezvous_is_required_across_nodes(nproc, nnodes, p.env, p.env);
    match (p.wrapper, distributed::prefix_of(nproc, nnodes, p.env)) {
        (Some(w), Ok(prefix)) => {
            let args = prefix.push(w@).push(p.spec_path@);
            assert(args.take(args.len() - 2) =~= prefix);
            if nnodes > 1 {
                distributed::lemma_a_launch_across_nodes_gives_its_counts(nproc, nnodes, p.env);
            } else if nproc > 1 {
                distributed::lemma_a_launch_on_one_node_stands_alone(nproc, nnodes, p.env);
            }
        },
        _ => {},
    }
}

/// Every status is handed on as it is, and a line that holds none is left alone. The last
/// `Done` and the last `Failed` are remembered, and nothing else.
pub proof fn lemma_statuses_are_handed_on_as_they_are(
    c: CollectedView,
    line: Option<StatusLineView>,
)
    ensures
        line matches Some(l) ==> absorbed(c, line).1 == HfActionView::Forward(l),
        line is None ==> absorbed(c, line) == (c, HfActionView::Skip),
        line matches Some(StatusLineView::Done { checkpoint_dir, final_loss }) ==> absorbed(
            c,
            line,
        ).0.done == Some((checkpoint_dir, final_loss)),
        !(line matches Some(StatusLineView::Done { checkpoint_dir, final_loss })) ==> absorbed(
            c,
            line,
        ).0.done == c.done,
        line matches Some(StatusLineView::Failed { error }) ==> absorbed(c, line).0.failed == Some(
            error,
        ),
        !(line matches Some(StatusLineView::Failed { error })) ==> absorbed(c, line).0.failed
            == c.failed,
{
}

/// A run ends well exactly where no failure was reported, the wrapper succeeded, and it
/// reported that it was done; the result is then what it reported last, with the time the
/// run took. Otherwise a reported failure is passed on in its own words, then the status.
pub proof fn lemma_when_a_run_ends_well(
    c: CollectedView,
    success: bool,
    status: Seq<char>,
    elapsed: Span,
)
    ensures
        ({
            let r = result_of(c, success, status, elapsed);
            &&& r is Ok <==> c.failed is None && success && c.done is Some
            &&& r matches Ok(a) ==> Some((a.checkpoint_dir, a.final_loss)) == c.done && a.elapsed
                == elapsed
            &&& c.failed matches Some(m) ==> r == Err::<HfArtifactView, RunErrorView>(
                RunErrorView::WrapperFailed { message: m },
            )
            &&& c.failed is None && !success ==> r == Err::<HfArtifactView, RunErrorView>(
                RunErrorView::Failed { status },
            )
            &&& c.failed is None && success && c.done is None ==> (r matches Err(e) && e is Failed)
        }),
{
}

/// An event that does not belong where the run stands changes nothing.
pub proof fn lemma_a_stray_event_changes_nothing(s: HfRunnerView, e: HfEvent)
    ensures
        hf_step(s, e).1 is Nothing ==> hf_step(s, e).0 == s,
        e is Preflight && !(s.phase is Idle) ==> hf_step(s, e).1 is Nothing,
        e is Prepared && !(s.phase is Cleared) ==> hf_step(s, e).1 is Nothing,
        e is Launched && !(s.phase is Spawning) ==> hf_step(s, e).1 is Nothing,
        e is Registered && !(s.phase is Registering) ==> hf_step(s, e).1 is Nothing,
        (e is Line || e is Exited) && !(s.phase is Running) ==> hf_step(s, e).1 is Nothing,
{
}

/// The wrapper is looked for beside the program first, and then below the working directory
/// and each directory above it, from the nearest up, always at the same place.
pub proof fn lemma_where_the_wrapper_is_looked_for(
    exe_dir: Option<Seq<char>>,
    cwd: Option<Seq<char>>,
    i: int,
)
    ensures
        ({
            let c = candidates_of(exe_dir, cwd);
            let own: int = if exe_dir is Some {
                1
            } else {
                0
            };
            &&& exe_dir matches Some(d) ==> c[0] == text::joined(
                text::joined(d, "python"@),
                "hf_trainer_runner.py"@,
            )
            &&& cwd is None ==> c.len() == own
            &&& cwd matches Some(d) ==> {
                &&& c.len() == own + text::ancestors_of(d).len()
                &&& 0 <= i < text::ancestors_of(d).len() ==> c[own + i] == text::joined(
                    text::joined(
                        text::joined(
                            text::joined(
                                text::joined(text::ancestors_of(d)[i], "src"@),
                                "backends"@,
                            ),
                            "hf_trainer"@,
                        ),
                        "python"@,
                    ),
                    "hf_trainer_runner.py"@,
                )
            }
        }),
{
}

/// What is shown of a failure gives everything it holds.
pub proof fn lemma_a_failure_is_shown_whole(e: RunErrorView)
    ensures
        e matches RunErrorView::ChildControl { operation, pid, source } ==> {
            &&& text::occurs_in(shown(e), "child control "@ + operation)
            &&& text::occurs_in(shown(e), source)
        },
        e matches RunErrorView::Venv(v) ==> text::occurs_in(shown(e), venv::shown(v)),
        e matches RunErrorView::Spawn { python, source } ==> text::occurs_in(shown(e), python)
            && text::occurs_in(shown(e), source),
        e matches RunErrorView::Failed { status } ==> text::occurs_in(shown(e), status),
        e matches RunErrorView::WrapperFailed { message } ==> text::occurs_in(shown(e), message),
        e matches RunErrorView::Io { path, source } ==> text::occurs_in(shown(e), path)
            && text::occurs_in(shown(e), source),
        e matches RunErrorView::SerializeJob(m) ==> text::occurs_in(shown(e), m),
        pid_shown(None) == "None"@,
{
    match e {
        RunErrorView::ChildControl { operation, pid, source } => {
            let a = "child control "@ + operation;
            let b = " failed for pid "@;
            let p = pid_shown(pid);
            text::lemma_the_ends_occur(a, b);
            text::lemma_it_occurs_in_more(a + b, a, p);
            text::lemma_it_occurs_in_more(a + b + p, a, ": "@);
            text::lemma_it_occurs_in_more(a + b + p + ": "@, a, source);
            text::lemma_the_ends_occur(a + b + p + ": "@, source);
        },
        RunErrorView::Venv(v) => text::lemma_the_ends_occur("venv: "@, venv::shown(v)),
        RunErrorView::Spawn { python, source } => {
            let a = "python -m hf_trainer_runner spawn at "@;
            text::lemma_the_ends_occur(a, python);
            text::lemma_it_occurs_in_more(a + python, python, ": "@);
            text::lemma_it_occurs_in_more(a + python + ": "@, python, source);
            text::lemma_the_ends_occur(a + python + ": "@, source);
        },
        RunErrorView::Failed { status } => text::lemma_a_part_occurs(
            "python wrapper exited with status "@,
            status,
            " and emitted no Done line"@,
        ),
        RunErrorView::WrapperFailed { message } => text::lemma_the_ends_occur(
            "python wrapper reported failure: "@,
            message,
        ),
        RunErrorView::Io { path, source } => {
            text::lemma_the_ends_occur("io at "@, path);
            text::lemma_it_occurs_in_more("io at "@ + path, path, ": "@);
            text::lemma_it_occurs_in_more("io at "@ + path + ": "@, path, source);
            text::lemma_the_ends_occur("io at "@ + path + ": "@, source);
        },
        RunErrorView::SerializeJob(m) => text::lemma_the_ends_occur("serialize job spec: "@, m),
    }
}

/// Lines, results and actions are seen as what they hold, part by part.
pub proof fn lemma_lines_and_results_are_seen_as_they_are(
    l: StatusLine,
    r: Result<HfRunArtifact, RunError>,
    child: Option<u32>,
    program: String,
    args: Vec<String>,
)
    ensures
        said(Some(l)) == Some(l@),
        said(None) is None,
        l matches StatusLine::Step { step, total, loss, lr } ==> l@ == (StatusLineView::Step {
            step,
            total,
            loss,
            lr,
        }),
        l matches StatusLine::Saved { path } ==> l@ == (StatusLineView::Saved { path: path@ }),
        l matches StatusLine::Done { checkpoint_dir, final_loss } ==> l@ == (StatusLineView::Done {
            checkpoint_dir: checkpoint_dir@,
            final_loss,
        }),
        l matches StatusLine::Failed { error } ==> l@ == (StatusLineView::Failed { error: error@ }),
        r matches Err(e) ==> outcome(r) == Err::<HfArtifactView, RunErrorView>(e@),
        r matches Ok(a) ==> (outcome(r) matches Ok(v) && v.checkpoint_dir == a.checkpoint_dir@
            && v.final_loss == a.final_loss && v.elapsed == a.elapsed),
        (HfAction::Finish { result: r, unregister: child })@ == HfActionView::Finish(
            outcome(r),
            child,
        ),
        (HfAction::Launch { program, args })@ == (HfActionView::Launch {
            program: program@,
            args: text::texts(args@),
        }),
        forall|pid: u32| #[trigger] HfAction::Register(pid)@ == HfActionView::Register(pid),
        forall|s: StatusLine| #[trigger] HfAction::Forward(s)@ == HfActionView::Forward(s@),
{
}

} // verus!
