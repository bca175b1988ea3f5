//! The managed Python environment of the HuggingFace backend.
//!
//! The environment is built on first use and stamped with a version. Callers
//! that find a matching stamp use it as it is. Of several callers that do not,
//! one holds a lock file and builds; the others wait for the stamp, and break
//! the lock where its holder is dead.
//!
//! Files, processes and the clock belong to the caller; [`ensure_venv`] says
//! what to do after each thing that happened.

use vstd::prelude::*;
use vstd::string::*;

use crate::process::CommandExit;
use crate::text;
use crate::text::{add_text, join, parse_i32, same, trim};

verus! {

/// The version stamp. An environment with another stamp is rebuilt.
pub const VENV_VERSION: &'static str = "1";

/// How long a caller waits for another one's build, in seconds.
pub const WAIT_SECONDS: u64 = 1800;

/// The pinned packages.
pub open spec fn pinned() -> Seq<Seq<char>> {
    seq![
        "transformers>=4.45,<5"@,
        "datasets>=2.20,<3"@,
        "accelerate>=0.34,<2"@,
        "peft>=0.13,<1"@,
        "bitsandbytes>=0.43,<1"@,
        "trl>=0.11,<1"@,
        "torch>=2.4,<3"@,
        "safetensors>=0.4,<1"@,
    ]
}

/// The pinned packages. A change of the pins comes with a change of the stamp.
pub fn required_pkgs() -> (v: Vec<String>)
    ensures
        text::texts(v@) == pinned(),
{
    let mut v: Vec<String> = Vec::new();
    assert(text::texts(v@) =~= Seq::<Seq<char>>::empty());
    add_required(&mut v);
    assert(text::texts(v@) =~= pinned());
    v
}

/// Appends the pinned packages.
fn add_required(v: &mut Vec<String>)
    ensures
        text::texts(final(v)@) == text::texts(old(v)@) + pinned(),
{
    add_text(v, "transformers>=4.45,<5");
    add_text(v, "datasets>=2.20,<3");
    add_text(v, "accelerate>=0.34,<2");
    add_text(v, "peft>=0.13,<1");
    add_text(v, "bitsandbytes>=0.43,<1");
    add_text(v, "trl>=0.11,<1");
    add_text(v, "torch>=2.4,<3");
    add_text(v, "safetensors>=0.4,<1");
    assert(text::texts(v@) =~= text::texts(old(v)@) + pinned());
}

/// Where the environment lives: the override (`BLUT_HF_VENV`), else
/// `blut/hf-venv` below the local data directory, or below `/tmp` where there
/// is none.
pub fn venv_root(configured: Option<&str>, data_local_dir: Option<&str>) -> (r: String)
    ensures
        r@ == match configured {
            Some(p) => p@,
            None => text::joined(
                text::joined(
                    match data_local_dir {
                        Some(d) => d@,
                        None => "/tmp"@,
                    },
                    "blut"@,
                ),
                "hf-venv"@,
            ),
        },
{
    match configured {
        Some(p) => p.to_string(),
        None => {
            let home: &str = match data_local_dir {
                Some(d) => d,
                None => "/tmp",
            };
            join(join(home, "blut").as_str(), "hf-venv")
        },
    }
}

/// The file of the environment's interpreter.
pub open spec fn python_file(root: Seq<char>) -> Seq<char> {
    text::joined(text::joined(root, "bin"@), "python"@)
}

/// The file that holds the stamp.
pub open spec fn marker_file(root: Seq<char>) -> Seq<char> {
    text::joined(root, ".blut_hf_venv_version"@)
}

/// The file held while the environment is built.
pub open spec fn lock_file(root: Seq<char>) -> Seq<char> {
    text::joined(root, ".blut_hf_venv_lock"@)
}

/// The file of the environment's `pip`.
pub open spec fn pip_file(root: Seq<char>) -> Seq<char> {
    text::joined(text::joined(root, "bin"@), "pip"@)
}

/// The interpreter of the environment.
pub fn python_path(venv_root: &str) -> (r: String)
    ensures
        r@ == python_file(venv_root@),
{
    join(join(venv_root, "bin").as_str(), "python")
}

/// The stamp of the environment.
pub fn marker_path(venv_root: &str) -> (r: String)
    ensures
        r@ == marker_file(venv_root@),
{
    join(venv_root, ".blut_hf_venv_version")
}

/// The lock of the environment.
pub fn lock_path(venv_root: &str) -> (r: String)
    ensures
        r@ == lock_file(venv_root@),
{
    join(venv_root, ".blut_hf_venv_lock")
}

/// What signal 0 says of a process.
#[derive(Clone, Copy, Debug, PartialEq, Eq, Structural)]
pub enum Probe {
    /// It is alive.
    Alive,
    /// There is no such process.
    Gone,
    /// It is alive and belongs to someone else.
    NotOurs,
    /// Nothing that tells.
    Unknown,
}

/// The process that a lock file names: the number in it, white space around it
/// dropped.
pub open spec fn holder_of(body: Option<Seq<char>>) -> Option<int> {
    match body {
        Some(b) => text::signed_number(text::trimmed(b)),
        None => None,
    }
}

/// The process that a lock file names. `None` where the file cannot be read or
/// holds no number.
pub fn lock_holder(body: Option<&str>) -> (r: Option<i32>)
    ensures
        r is Some <==> holder_of(
            match body {
                Some(b) => Some(b@),
                None => None,
            },
        ) is Some,
        r matches Some(pid) ==> holder_of(Some(body->0@)) == Some(pid as int),
{
    match body {
        Some(b) => parse_i32(trim(b).as_str()),
        None => None,
    }
}

/// Whether a lock can be taken over: nobody can be read out of it, or its holder
/// is gone. `probe` is what signal 0 says of the holder.
pub fn pid_in_lock_is_dead(body: Option<&str>, probe: Probe) -> (r: bool)
    ensures
        r == (holder_of(
            match body {
                Some(b) => Some(b@),
                None => None,
            },
        ) is None || probe == Probe::Gone),
{
    match lock_holder(body) {
        None => true,
        Some(_) => match probe {
            Probe::Gone => true,
            _ => false,
        },
    }
}

/// Why there is no environment.
#[derive(Debug, PartialEq, Eq)]
pub enum VenvError {
    PythonMissing { venv_root: String },
    VenvCreateFailed { venv_root: String, status: String },
    PipFailed { status: String },
    Io { path: String, source: String },
    LockTimeout { path: String },
}

/// What a [`VenvError`] says.
#[verifier::ext_equal]
pub enum VenvErrorView {
    PythonMissing { venv_root: Seq<char> },
    VenvCreateFailed { venv_root: Seq<char>, status: Seq<char> },
    PipFailed { status: Seq<char> },
    Io { path: Seq<char>, source: Seq<char> },
    LockTimeout { path: Seq<char> },
}

impl View for VenvError {
    type V = VenvErrorView;

    open spec fn view(&self) -> VenvErrorView {
        match *self {
            VenvError::PythonMissing { venv_root } => VenvErrorView::PythonMissing {
                venv_root: venv_root@,
            },
            VenvError::VenvCreateFailed { venv_root, status } => VenvErrorView::VenvCreateFailed {
                venv_root: venv_root@,
                status: status@,
            },
            VenvError::PipFailed { status } => VenvErrorView::PipFailed { status: status@ },
            VenvError::Io { path, source } => VenvErrorView::Io { path: path@, source: source@ },
            VenvError::LockTimeout { path } => VenvErrorView::LockTimeout { path: path@ },
        }
    }
}

/// The text shown for a failure.
pub open spec fn shown(e: VenvErrorView) -> Seq<char> {
    match e {
        VenvErrorView::PythonMissing { venv_root } => "python3 not on PATH; can't bootstrap venv at "@
            + venv_root,
        VenvErrorView::VenvCreateFailed { venv_root, status } => "`python -m venv` failed at "@
            + venv_root + ": "@ + status,
        VenvErrorView::PipFailed { status } => "pip install failed: "@ + status,
        VenvErrorView::Io { path, source } => "io at "@ + path + ": "@ + source,
        VenvErrorView::LockTimeout { path } => "timed out waiting for concurrent venv provisioning ("@
            + path + ")"@,
    }
}

impl VenvError {
    /// The text shown for the failure.
    pub fn to_text(&self) -> (s: String)
        ensures
            s@ == shown(self@),
    {
        match self {
            VenvError::PythonMissing {
                venv_root,
            } => "python3 not on PATH; can't bootstrap venv at ".to_string().concat(
                venv_root.as_str(),
            ),
            VenvError::VenvCreateFailed {
                venv_root,
                status,
            } => "`python -m venv` failed at ".to_string().concat(venv_root.as_str()).concat(
                ": ",
            ).concat(status.as_str()),
            VenvError::PipFailed { status } => "pip install failed: ".to_string().concat(
                status.as_str(),
            ),
            VenvError::Io { path, source } => "io at ".to_string().concat(path.as_str()).concat(
                ": ",
            ).concat(source.as_str()),
            VenvError::LockTimeout {
                path,
            } => "timed out waiting for concurrent venv provisioning (".to_string().concat(
                path.as_str(),
            ).concat(")"),
        }
    }
}

/// What is on disk: the text of the stamp where it can be read, and whether the
/// interpreter is there.
pub struct Inspection {
    pub marker: Option<String>,
    pub python: bool,
}

/// The environment can be used as it is.
pub open spec fn is_current(i: Inspection) -> bool {
    i.python && (i.marker matches Some(m) && text::trimmed(m@) == VENV_VERSION@)
}

/// Whether the environment can be used as it is.
pub fn current(i: &Inspection) -> (r: bool)
    ensures
        r == is_current(*i),
{
    match &i.marker {
        Some(m) => i.python && same(trim(m.as_str()).as_str(), VENV_VERSION),
        None => false,
    }
}

/// Where a caller stands.
#[derive(Clone, Copy, Debug, PartialEq, Eq, Structural)]
pub enum VenvPhase {
    /// Nothing has been looked at.
    Start,
    /// The lock was asked for.
    Locking,
    /// Another caller builds.
    Waiting,
    /// An interpreter to build with is looked for.
    FindingPython,
    /// The environment is created.
    Creating,
    /// `pip` is upgraded.
    UpgradingPip,
    /// The packages are installed.
    Installing,
    /// The stamp is written.
    Stamping,
    /// The caller has its answer.
    Finished,
}

/// What has happened.
pub enum VenvEvent {
    /// The disk was looked at.
    Inspected(Inspection),
    /// The lock file was created by this caller.
    LockTaken,
    /// The lock file exists: its text where it can be read, and what is known of
    /// its holder.
    LockHeld { body: Option<String>, probe: Probe },
    /// A file operation failed at this path.
    IoFailed { path: String, source: String },
    /// Another caller's build was looked at, this long after the wait began.
    Watched { inspection: Inspection, elapsed_seconds: u64 },
    /// An interpreter was looked for.
    PythonFound(Option<String>),
    /// A command ended, or could not be run.
    CommandEnded(Result<CommandExit, String>),
    /// The stamp was written, or could not be.
    MarkerWritten(Result<(), String>),
}

/// What to do next.
#[derive(Debug)]
pub enum VenvAction {
    /// The event does not belong here.
    Nothing,
    /// Create this lock file, for this caller alone.
    TakeLock(String),
    /// Remove this lock file and start over.
    BreakLock(String),
    /// Look at the other caller's build.
    Watch,
    /// Wait two seconds, then look again.
    Sleep,
    /// Look for an interpreter.
    FindPython,
    /// Run this command.
    Run { program: String, args: Vec<String> },
    /// Write the stamp.
    WriteMarker { path: String, content: &'static str },
    /// Done: the interpreter, or why there is none. The lock file is removed
    /// where this caller holds it.
    Done { result: Result<String, VenvError>, release: bool },
}

/// An action as values.
#[verifier::ext_equal]
pub enum VenvActionView {
    Nothing,
    TakeLock(Seq<char>),
    BreakLock(Seq<char>),
    Watch,
    Sleep,
    FindPython,
    Run { program: Seq<char>, args: Seq<Seq<char>> },
    WriteMarker { path: Seq<char>, content: Seq<char> },
    Done { result: Result<Seq<char>, VenvErrorView>, release: bool },
}

impl View for VenvAction {
    type V = VenvActionView;

    open spec fn view(&self) -> VenvActionView {
        match *self {
            VenvAction::Nothing => VenvActionView::Nothing,
            VenvAction::TakeLock(p) => VenvActionView::TakeLock(p@),
            VenvAction::BreakLock(p) => VenvActionView::BreakLock(p@),
            VenvAction::Watch => VenvActionView::Watch,
            VenvAction::Sleep => VenvActionView::Sleep,
            VenvAction::FindPython => VenvActionView::FindPython,
            VenvAction::Run { program, args } => VenvActionView::Run {
                program: program@,
                args: text::texts(args@),
            },
            VenvAction::WriteMarker { path, content } => VenvActionView::WriteMarker {
                path: path@,
                content: content@,
            },
            VenvAction::Done { result, release } => VenvActionView::Done {
                result: match result {
                    Ok(p) => Ok(p@),
                    Err(e) => Err(e@),
                },
                release,
            },
        }
    }
}

/// Done with an interpreter.
pub open spec fn ready(root: Seq<char>, release: bool) -> (VenvPhase, VenvActionView) {
    (
        VenvPhase::Finished,
        VenvActionView::Done {
            result: Ok::<Seq<char>, VenvErrorView>(python_file(root)),
            release,
        },
    )
}

/// Done without one.
pub open spec fn refused(e: VenvErrorView, release: bool) -> (VenvPhase, VenvActionView) {
    (
        VenvPhase::Finished,
        VenvActionView::Done { result: Err::<Seq<char>, VenvErrorView>(e), release },
    )
}

/// What a command of the build leads to: its failure ends the build and gives
/// the lock back, its success leads to `next`.
pub open spec fn after_command(
    outcome: Result<CommandExit, String>,
    path: Seq<char>,
    failure: spec_fn(Seq<char>) -> VenvErrorView,
    next: (VenvPhase, VenvActionView),
) -> (VenvPhase, VenvActionView) {
    match outcome {
        Err(source) => refused(VenvErrorView::Io { path, source: source@ }, true),
        Ok(exit) => if exit.success {
            next
        } else {
            refused(failure(exit.status@), true)
        },
    }
}

/// The next phase and the action that an event calls for.
pub open spec fn venv_step(root: Seq<char>, phase: VenvPhase, e: VenvEvent) -> (
    VenvPhase,
    VenvActionView,
) {
    match (phase, e) {
        (VenvPhase::Start, VenvEvent::Inspected(i)) => if is_current(i) {
            ready(root, false)
        } else {
            (VenvPhase::Locking, VenvActionView::TakeLock(lock_file(root)))
        },
        (VenvPhase::Locking, VenvEvent::LockTaken) => (
            VenvPhase::FindingPython,
            VenvActionView::FindPython,
        ),
        (VenvPhase::Locking, VenvEvent::LockHeld { body, probe }) => if holder_of(
            text::optional(body),
        ) is None || probe == Probe::Gone {
            (VenvPhase::Start, VenvActionView::BreakLock(lock_file(root)))
        } else {
            (VenvPhase::Waiting, VenvActionView::Watch)
        },
        (VenvPhase::Locking, VenvEvent::IoFailed { path, source }) => refused(
            VenvErrorView::Io { path: path@, source: source@ },
            false,
        ),
        (VenvPhase::Waiting, VenvEvent::Watched { inspection, elapsed_seconds }) => if elapsed_seconds
            >= WAIT_SECONDS {
            refused(VenvErrorView::LockTimeout { path: marker_file(root) }, false)
        } else if is_current(inspection) {
            ready(root, false)
        } else {
            (VenvPhase::Waiting, VenvActionView::Sleep)
        },
        (VenvPhase::FindingPython, VenvEvent::PythonFound(None)) => refused(
            VenvErrorView::PythonMissing { venv_root: root },
            true,
        ),
        (VenvPhase::FindingPython, VenvEvent::PythonFound(Some(python3))) => (
            VenvPhase::Creating,
            VenvActionView::Run { program: python3@, args: seq!["-m"@, "venv"@, root] },
        ),
        (VenvPhase::Creating, VenvEvent::CommandEnded(r)) => after_command(
            r,
            root,
            |status: Seq<char>| VenvErrorView::VenvCreateFailed { venv_root: root, status },
            (
                VenvPhase::UpgradingPip,
                VenvActionView::Run {
                    program: pip_file(root),
                    args: seq!["install"@, "--upgrade"@, "pip"@],
                },
            ),
        ),
        (VenvPhase::UpgradingPip, VenvEvent::CommandEnded(r)) => after_command(
            r,
            pip_file(root),
            |status: Seq<char>| VenvErrorView::PipFailed { status },
            (
                VenvPhase::Installing,
                VenvActionView::Run { program: pip_file(root), args: seq!["install"@] + pinned() },
            ),
        ),
        (VenvPhase::Installing, VenvEvent::CommandEnded(r)) => after_command(
            r,
            pip_file(root),
            |status: Seq<char>| VenvErrorView::PipFailed { status },
            (
                VenvPhase::Stamping,
                VenvActionView::WriteMarker { path: marker_file(root), content: VENV_VERSION@ },
            ),
        ),
        (VenvPhase::Stamping, VenvEvent::MarkerWritten(Ok(_))) => ready(root, true),
        (VenvPhase::Stamping, VenvEvent::MarkerWritten(Err(source))) => refused(
            VenvErrorView::Io { path: marker_file(root), source: source@ },
            true,
        ),
        _ => (phase, VenvActionView::Nothing),
    }
}

/// The answer: the interpreter of the environment.
fn answer(root: &str, release: bool) -> (r: (VenvPhase, VenvAction))
    ensures
        (r.0, r.1@) == ready(root@, release),
{
    (VenvPhase::Finished, VenvAction::Done { result: Ok(python_path(root)), release })
}

/// The answer: no environment.
fn refuse(e: VenvError, release: bool) -> (r: (VenvPhase, VenvAction))
    ensures
        (r.0, r.1@) == refused(e@, release),
{
    (VenvPhase::Finished, VenvAction::Done { result: Err(e), release })
}

/// The environment's `pip`.
fn pip_path(root: &str) -> (r: String)
    ensures
        r@ == pip_file(root@),
{
    join(join(root, "bin").as_str(), "pip")
}

/// What a command of the build leads to.
fn provision(root: &str, phase: VenvPhase, outcome: Result<CommandExit, String>) -> (r: (
    VenvPhase,
    VenvAction,
))
    requires
        phase == VenvPhase::Creating || phase == VenvPhase::UpgradingPip || phase
            == VenvPhase::Installing,
    ensures
        (r.0, r.1@) == venv_step(root@, phase, VenvEvent::CommandEnded(outcome)),
{
    let exit = match outcome {
        Ok(exit) => exit,
        Err(source) => {
            let path = match phase {
                VenvPhase::Creating => root.to_string(),
                _ => pip_path(root),
            };
            return refuse(VenvError::Io { path, source }, true);
        },
    };
    let mut args: Vec<String> = Vec::new();
    assert(text::texts(args@) =~= Seq::<Seq<char>>::empty());
    match phase {
        VenvPhase::Creating => {
            if !exit.success {
                return refuse(
                    VenvError::VenvCreateFailed {
                        venv_root: root.to_string(),
                        status: exit.status,
                    },
                    true,
                );
            }
            add_text(&mut args, "install");
            add_text(&mut args, "--upgrade");
            add_text(&mut args, "pip");
            (VenvPhase::UpgradingPip, VenvAction::Run { program: pip_path(root), args })
        },
        VenvPhase::UpgradingPip => {
            if !exit.success {
                return refuse(VenvError::PipFailed { status: exit.status }, true);
            }
            add_text(&mut args, "install");
            add_required(&mut args);
            assert(text::texts(args@) =~= seq!["install"@] + pinned());
            (VenvPhase::Installing, VenvAction::Run { program: pip_path(root), args })
        },
        _ => {
            if !exit.success {
                return refuse(VenvError::PipFailed { status: exit.status }, true);
            }
            (
                VenvPhase::Stamping,
                VenvAction::WriteMarker { path: marker_path(root), content: VENV_VERSION },
            )
        },
    }
}

/// Advances a caller that wants the environment by one event.
pub fn ensure_venv(root: &str, phase: VenvPhase, event: VenvEvent) -> (r: (VenvPhase, VenvAction))
    ensures
        (r.0, r.1@) == venv_step(root@, phase, event),
{
    match (phase, event) {
        (VenvPhase::Start, VenvEvent::Inspected(i)) => if current(&i) {
            answer(root, false)
        } else {
            (VenvPhase::Locking, VenvAction::TakeLock(lock_path(root)))
        },
        (VenvPhase::Locking, VenvEvent::LockTaken) => (
            VenvPhase::FindingPython,
            VenvAction::FindPython,
        ),
        (VenvPhase::Locking, VenvEvent::LockHeld { body, probe }) => {
            let b: Option<&str> = match &body {
                Some(s) => Some(s.as_str()),
                None => None,
            };
            if pid_in_lock_is_dead(b, probe) {
                (VenvPhase::Start, VenvAction::BreakLock(lock_path(root)))
            } else {
                (VenvPhase::Waiting, VenvAction::Watch)
            }
        },
        (VenvPhase::Locking, VenvEvent::IoFailed { path, source }) => refuse(
            VenvError::Io { path, source },
            false,
        ),
        (VenvPhase::Waiting, VenvEvent::Watched { inspection, elapsed_seconds }) => if elapsed_seconds
            >= WAIT_SECONDS {
            refuse(VenvError::LockTimeout { path: marker_path(root) }, false)
        } else if current(&inspection) {
            answer(root, false)
        } else {
            (VenvPhase::Waiting, VenvAction::Sleep)
        },
        (VenvPhase::FindingPython, VenvEvent::PythonFound(found)) => match found {
            None => refuse(VenvError::PythonMissing { venv_root: root.to_string() }, true),
            Some(python3) => {
                let mut args: Vec<String> = Vec::new();
                assert(text::texts(args@) =~= Seq::<Seq<char>>::empty());
                add_text(&mut args, "-m");
                add_text(&mut args, "venv");
                add_text(&mut args, root);
                (VenvPhase::Creating, VenvAction::Run { program: python3, args })
            },
        },
        (VenvPhase::Creating, VenvEvent::CommandEnded(r)) => provision(root, phase, r),
        (VenvPhase::UpgradingPip, VenvEvent::CommandEnded(r)) => provision(root, phase, r),
        (VenvPhase::Installing, VenvEvent::CommandEnded(r)) => provision(root, phase, r),
        (VenvPhase::Stamping, VenvEvent::MarkerWritten(r)) => match r {
            Ok(_) => answer(root, true),
            Err(source) => refuse(VenvError::Io { path: marker_path(root), source }, true),
        },
        _ => (phase, VenvAction::Nothing),
    }
}

/// The caller holds the lock in this phase.
pub open spec fn holds_lock(phase: VenvPhase) -> bool {
    match phase {
        VenvPhase::FindingPython | VenvPhase::Creating | VenvPhase::UpgradingPip
        | VenvPhase::Installing | VenvPhase::Stamping => true,
        _ => false,
    }
}

/// The lock is released whatever becomes of the build: a caller that holds it
/// and is done removes it, and nobody else ever does.
pub proof fn lemma_the_builder_releases_the_lock(root: Seq<char>, phase: VenvPhase, e: VenvEvent)
    ensures
        venv_step(root, phase, e).1 matches VenvActionView::Done { result, release } ==> release
            == holds_lock(phase),
        holds_lock(phase) && !(venv_step(root, phase, e).1 is Done) ==> holds_lock(
            venv_step(root, phase, e).0,
        ),
        !holds_lock(phase) && holds_lock(venv_step(root, phase, e).0) ==> e is LockTaken,
{
}

/// An interpreter is handed out only from an environment with the current
/// stamp, or right after the stamp was written.
pub proof fn lemma_an_interpreter_comes_from_a_stamped_environment(
    root: Seq<char>,
    phase: VenvPhase,
    e: VenvEvent,
)
    requires
        venv_step(root, phase, e).1 matches VenvActionView::Done { result, release } && result is Ok,
    ensures
        venv_step(root, phase, e).1->result == Ok::<Seq<char>, VenvErrorView>(python_file(root)),
        match e {
            VenvEvent::Inspected(i) => is_current(i),
            VenvEvent::Watched { inspection, .. } => is_current(inspection),
            VenvEvent::MarkerWritten(r) => r is Ok && phase == VenvPhase::Stamping,
            _ => false,
        },
{
}

/// A live holder keeps its lock: it is broken only where nobody can be read out
/// of it or its holder is gone.
pub proof fn lemma_a_live_holder_keeps_its_lock(
    root: Seq<char>,
    phase: VenvPhase,
    body: Option<String>,
    probe: Probe,
)
    requires
        holder_of(text::optional(body)) is Some,
        probe != Probe::Gone,
    ensures
        !(venv_step(root, phase, VenvEvent::LockHeld { body, probe }).1 is BreakLock),
{
}

/// The files of an environment stand below its root and apart from each other.
pub proof fn lemma_the_files_of_an_environment(root: Seq<char>)
    ensures
        python_file(root) == text::joined(text::joined(root, "bin"@), "python"@),
        pip_file(root) == text::joined(text::joined(root, "bin"@), "pip"@),
        marker_file(root) == text::joined(root, ".blut_hf_venv_version"@),
        lock_file(root) == text::joined(root, ".blut_hf_venv_lock"@),
        python_file(root) != pip_file(root),
        marker_file(root) != lock_file(root),
{
    reveal_strlit("python");
    reveal_strlit("pip");
    reveal_strlit(".blut_hf_venv_version");
    reveal_strlit(".blut_hf_venv_lock");
    assert("python"@.len() == 6 && "pip"@.len() == 3);
    assert(".blut_hf_venv_version"@.len() == 21 && ".blut_hf_venv_lock"@.len() == 18);
    text::lemma_children_stay_apart(text::joined(root, "bin"@), "python"@, "pip"@);
    text::lemma_children_stay_apart(root, ".blut_hf_venv_version"@, ".blut_hf_venv_lock"@);
}

/// An environment is used as it is exactly where its interpreter is there and its stamp,
/// without the white space around it, is the current one.
pub proof fn lemma_which_environments_are_current(i: Inspection)
    ensures
        is_current(i) <==> i.python && i.marker is Some && text::trimmed(i.marker->0@)
            == VENV_VERSION@,
        i.python && i.marker is Some && i.marker->0@ == VENV_VERSION@ ==> is_current(i),
        i.marker is None || !i.python ==> !is_current(i),
        i.marker is Some && text::is_blank(i.marker->0@) ==> !is_current(i),
{
    reveal_strlit("1");
    assert("1"@.len() == 1 && "1"@[0] == '1');
    assert(!text::is_white('1'));
    assert(text::trimmed("1"@) == "1"@);
    if let Some(m) = i.marker {
        text::lemma_trimming_drops_white_space_alone(m@);
    }
}

/// The process that a lock names is the number in it, whatever white space is around it;
/// a lock that cannot be read, is blank, or holds something else names none.
pub proof fn lemma_which_process_a_lock_names(pid: nat, body: Option<Seq<char>>)
    ensures
        pid <= i32::MAX ==> holder_of(Some(text::decimal(pid))) == Some(pid as int),
        body matches Some(b) ==> holder_of(body) == holder_of(Some(text::trimmed(b))),
        body is None ==> holder_of(body) is None,
        body matches Some(b) ==> (text::is_blank(b) ==> holder_of(body) is None),
{
    text::lemma_signed_numbers_read_back(pid);
    text::lemma_decimal_reads_back(pid);
    let d = text::decimal(pid);
    assert(text::is_digit(d[0]));
    assert(text::is_digit(d[d.len() - 1]));
    assert(!text::is_white(d[0]) && !text::is_white(d.last()));
    assert(text::trimmed(d) == d);
    if let Some(b) = body {
        text::lemma_trimming_drops_white_space_alone(b);
        if text::is_blank(b) {
            assert(text::trimmed(b) =~= Seq::<char>::empty());
        }
    }
}

/// The environment is built in one order, each command after the one before it succeeded:
/// it is created with the interpreter that was found, its `pip` is upgraded, the pinned
/// packages are installed, and last it is stamped.
pub proof fn lemma_an_environment_is_built_in_order(
    root: Seq<char>,
    python3: String,
    exit: CommandExit,
)
    requires
        exit.success,
    ensures
        venv_step(root, VenvPhase::FindingPython, VenvEvent::PythonFound(Some(python3))) == (
            VenvPhase::Creating,
            VenvActionView::Run { program: python3@, args: seq!["-m"@, "venv"@, root] },
        ),
        venv_step(root, VenvPhase::Creating, VenvEvent::CommandEnded(Ok(exit))) == (
            VenvPhase::UpgradingPip,
            VenvActionView::Run {
                program: pip_file(root),
                args: seq!["install"@, "--upgrade"@, "pip"@],
            },
        ),
        venv_step(root, VenvPhase::UpgradingPip, VenvEvent::CommandEnded(Ok(exit))) matches (
            VenvPhase::Installing,
            VenvActionView::Run { program, args },
        ) && program == pip_file(root) && args.len() == 1 + pinned().len() && args[0] == "install"@
            && args.skip(1) == pinned(),
        venv_step(root, VenvPhase::Installing, VenvEvent::CommandEnded(Ok(exit))) == (
            VenvPhase::Stamping,
            VenvActionView::WriteMarker { path: marker_file(root), content: VENV_VERSION@ },
        ),
{
    assert((seq!["install"@] + pinned()).skip(1) =~= pinned());
}

/// A command that fails ends the build: no environment comes of it, the lock is given back,
/// and what is said gives its status.
pub proof fn lemma_a_failed_command_ends_the_build(
    root: Seq<char>,
    phase: VenvPhase,
    run: Result<CommandExit, String>,
)
    requires
        phase == VenvPhase::Creating || phase == VenvPhase::UpgradingPip || phase
            == VenvPhase::Installing,
        run is Err || !run->Ok_0.success,
    ensures
        ({
            let (next, action) = venv_step(root, phase, VenvEvent::CommandEnded(run));
            &&& next == VenvPhase::Finished
            &&& action matches VenvActionView::Done { result: Err(e), release } && {
                &&& release
                &&& run matches Err(m) ==> (e matches VenvErrorView::Io { path, source } && source
                    == m@ && path == (if phase == VenvPhase::Creating {
                    root
                } else {
                    pip_file(root)
                }))
                &&& (run is Ok && phase == VenvPhase::Creating) ==> e == (
                VenvErrorView::VenvCreateFailed { venv_root: root, status: run->Ok_0.status@ })
                &&& (run is Ok && phase != VenvPhase::Creating) ==> e == (
                VenvErrorView::PipFailed { status: run->Ok_0.status@ })
            }
        }),
{
}

/// How a caller starts: a current environment is handed out at once and without a lock; for
/// any other the lock is asked for, and whoever gets it builds.
pub proof fn lemma_how_a_caller_starts(root: Seq<char>, i: Inspection)
    ensures
        is_current(i) ==> venv_step(root, VenvPhase::Start, VenvEvent::Inspected(i)) == (
            VenvPhase::Finished,
            VenvActionView::Done {
                result: Ok::<Seq<char>, VenvErrorView>(python_file(root)),
                release: false,
            },
        ),
        !is_current(i) ==> venv_step(root, VenvPhase::Start, VenvEvent::Inspected(i)) == (
            VenvPhase::Locking,
            VenvActionView::TakeLock(lock_file(root)),
        ),
        venv_step(root, VenvPhase::Locking, VenvEvent::LockTaken) == (
            VenvPhase::FindingPython,
            VenvActionView::FindPython,
        ),
        venv_step(root, VenvPhase::FindingPython, VenvEvent::PythonFound(None)).1 matches
            VenvActionView::Done { result: Err(e), release } && release && e == (
        VenvErrorView::PythonMissing { venv_root: root }),
{
}

/// How a caller waits: it is handed the environment as soon as it is current, looks again
/// while it is not, and gives up after half an hour; the lock is not its own to remove.
pub proof fn lemma_how_a_caller_waits(root: Seq<char>, inspection: Inspection, elapsed_seconds: u64)
    ensures
        ({
            let (next, action) = venv_step(
                root,
                VenvPhase::Waiting,
                VenvEvent::Watched { inspection, elapsed_seconds },
            );
            &&& elapsed_seconds >= 1800 ==> (action matches VenvActionView::Done {
                result: Err(e),
                release,
            } && !release && e is LockTimeout)
            &&& elapsed_seconds < 1800 && is_current(inspection) ==> action == (
            VenvActionView::Done {
                result: Ok::<Seq<char>, VenvErrorView>(python_file(root)),
                release: false,
            })
            &&& elapsed_seconds < 1800 && !is_current(inspection) ==> action is Sleep && next
                == VenvPhase::Waiting
        }),
{
}

/// A lock is broken exactly where it names nobody or its holder is gone, and the caller
/// then starts over; otherwise the caller waits. A lock that cannot be made is a failure.
pub proof fn lemma_when_a_lock_is_broken(
    root: Seq<char>,
    body: Option<String>,
    probe: Probe,
    path: String,
    source: String,
)
    ensures
        ({
            let (next, action) = venv_step(
                root,
                VenvPhase::Locking,
                VenvEvent::LockHeld { body, probe },
            );
            let broken = holder_of(text::optional(body)) is None || probe == Probe::Gone;
            &&& broken ==> next == VenvPhase::Start && action == VenvActionView::BreakLock(
                lock_file(root),
            )
            &&& !broken ==> next == VenvPhase::Waiting && action is Watch
        }),
        venv_step(root, VenvPhase::Locking, VenvEvent::IoFailed { path, source }).1 == (
        VenvActionView::Done {
            result: Err::<Seq<char>, VenvErrorView>(
                VenvErrorView::Io { path: path@, source: source@ },
            ),
            release: false,
        }),
{
}

/// How a build ends: once stamped the environment is handed out, and where the stamp could
/// not be written it is not; the lock is given back either way.
pub proof fn lemma_how_a_build_ends(root: Seq<char>, written: Result<(), String>)
    ensures
        venv_step(root, VenvPhase::Stamping, VenvEvent::MarkerWritten(written)).1 matches
            VenvActionView::Done { result, release } && {
            &&& release
            &&& written is Ok ==> result == Ok::<Seq<char>, VenvErrorView>(python_file(root))
            &&& written matches Err(m) ==> result == Err::<Seq<char>, VenvErrorView>(
                VenvErrorView::Io { path: marker_file(root), source: m@ },
            )
        },
{
}

/// An event that does not belong where a caller stands changes nothing.
pub proof fn lemma_a_stray_event_changes_nothing(root: Seq<char>, phase: VenvPhase, e: VenvEvent)
    ensures
        venv_step(root, phase, e).1 is Nothing ==> venv_step(root, phase, e).0 == phase,
        phase == VenvPhase::Finished ==> venv_step(root, phase, e).1 is Nothing,
        e is Inspected && phase != VenvPhase::Start ==> venv_step(root, phase, e).1 is Nothing,
        (e is LockTaken || e is LockHeld || e is IoFailed) && phase != VenvPhase::Locking
            ==> venv_step(root, phase, e).1 is Nothing,
        e is Watched && phase != VenvPhase::Waiting ==> venv_step(root, phase, e).1 is Nothing,
        e is PythonFound && phase != VenvPhase::FindingPython ==> venv_step(root, phase, e).1
            is Nothing,
        e is MarkerWritten && phase != VenvPhase::Stamping ==> venv_step(root, phase, e).1
            is Nothing,
{
}

/// What is shown of a failure gives everything it holds.
pub proof fn lemma_a_failure_is_shown_whole(e: VenvErrorView)
    ensures
        e matches VenvErrorView::PythonMissing { venv_root } ==> text::occurs_in(
            shown(e),
            venv_root,
        ),
        e matches VenvErrorView::VenvCreateFailed { venv_root, status } ==> text::occurs_in(
            shown(e),
            venv_root,
        ) && text::occurs_in(shown(e), status),
        e matches VenvErrorView::PipFailed { status } ==> text::occurs_in(shown(e), status),
        e matches VenvErrorView::Io { path, source } ==> text::occurs_in(shown(e), path)
            && text::occurs_in(shown(e), source),
        e matches VenvErrorView::LockTimeout { path } ==> text::occurs_in(shown(e), path),
{
    match e {
        VenvErrorView::PythonMissing { venv_root } => text::lemma_the_ends_occur(
            "python3 not on PATH; can't bootstrap venv at "@,
            venv_root,
        ),
        VenvErrorView::VenvCreateFailed { venv_root, status } => {
            let a = "`python -m venv` failed at "@;
            text::lemma_the_ends_occur(a, venv_root);
            text::lemma_it_occurs_in_more(a + venv_root, venv_root, ": "@);
            text::lemma_it_occurs_in_more(a + venv_root + ": "@, venv_root, status);
            text::lemma_the_ends_occur(a + venv_root + ": "@, status);
        },
        VenvErrorView::PipFailed { status } => text::lemma_the_ends_occur(
            "pip install failed: "@,
            status,
        ),
        VenvErrorView::Io { path, source } => {
            text::lemma_the_ends_occur("io at "@, path);
            text::lemma_it_occurs_in_more("io at "@ + path, path, ": "@);
            text::lemma_it_occurs_in_more("io at "@ + path + ": "@, path, source);
            text::lemma_the_ends_occur("io at "@ + path + ": "@, source);
        },
        VenvErrorView::LockTimeout { path } => text::lemma_a_part_occurs(
            "timed out waiting for concurrent venv provisioning ("@,
            path,
            ")"@,
        ),
    }
}

/// The packages that training needs are all pinned, and each one both from below and from
/// above.
pub proof fn lemma_every_package_is_bounded(i: int)
    ensures
        pinned().len() == 8,
        0 <= i < pinned().len() ==> text::occurs_in(pinned()[i], ">="@) && text::occurs_in(
            pinned()[i],
            ",<"@,
        ),
        pinned().contains("transformers>=4.45,<5"@),
        pinned().contains("datasets>=2.20,<3"@),
        pinned().contains("accelerate>=0.34,<2"@),
        pinned().contains("peft>=0.13,<1"@),
        pinned().contains("bitsandbytes>=0.43,<1"@),
        pinned().contains("trl>=0.11,<1"@),
        pinned().contains("torch>=2.4,<3"@),
        pinned().contains("safetensors>=0.4,<1"@),
{
    let p = pinned();
    assert(p[0] == "transformers>=4.45,<5"@);
    assert(p[1] == "datasets>=2.20,<3"@);
    assert(p[2] == "accelerate>=0.34,<2"@);
    assert(p[3] == "peft>=0.13,<1"@);
    assert(p[4] == "bitsandbytes>=0.43,<1"@);
    assert(p[5] == "trl>=0.11,<1"@);
    assert(p[6] == "torch>=2.4,<3"@);
    assert(p[7] == "safetensors>=0.4,<1"@);
    if 0 <= i < p.len() {
        lemma_where_the_bounds_stand(i);
    }
}

/// Where the two bounds stand in a pin.
proof fn lemma_where_the_bounds_stand(i: int)
    requires
        0 <= i < pinned().len(),
    ensures
        text::occurs_in(pinned()[i], ">="@),
        text::occurs_in(pinned()[i], ",<"@),
{
    reveal_strlit(">=");
    reveal_strlit(",<");
    reveal_strlit("transformers>=4.45,<5");
    reveal_strlit("datasets>=2.20,<3");
    reveal_strlit("accelerate>=0.34,<2");
    reveal_strlit("peft>=0.13,<1");
    reveal_strlit("bitsandbytes>=0.43,<1");
    reveal_strlit("trl>=0.11,<1");
    reveal_strlit("torch>=2.4,<3");
    reveal_strlit("safetensors>=0.4,<1");
    let s = pinned()[i];
    let (low, high): (int, int) = if i == 0 {
        (12, 18)
    } else if i == 1 {
        (8, 14)
    } else if i == 2 {
        (10, 16)
    } else if i == 3 {
        (4, 10)
    } else if i == 4 {
        (12, 18)
    } else if i == 5 {
        (3, 9)
    } else if i == 6 {
        (5, 10)
    } else {
        (11, 16)
    };
    assert(s[low] == '>' && s[low + 1] == '=');
    assert(s[high] == ',' && s[high + 1] == '<');
    assert(s.subrange(low, low + 2) =~= ">="@);
    assert(s.subrange(high, high + 2) =~= ",<"@);
    assert(text::occurs_at(s, ">="@, low));
    assert(text::occurs_at(s, ",<"@, high));
}

} // verus!
