//! Launching the generic trainer, `blut_core.trainer`.

use vstd::prelude::*;
use vstd::string::*;

use crate::distributed;
use crate::distributed::{launch_prefix, RendezvousEnv};
use crate::error::{StageError, StageErrorView};
use crate::process;
use crate::process::{module_outcome, CommandExit, ModuleCommand, ModuleCommandView};
use crate::text;
use crate::text::add_text;

verus! {

/// The command that runs the trainer: the launch prefix of the run, then the
/// module and its configuration file.
pub open spec fn command_of(prefix: Seq<Seq<char>>, config_path: Seq<char>) -> ModuleCommandView {
    ModuleCommandView {
        program: "python3"@,
        args: prefix.push("-m"@).push("blut_core.trainer"@).push("--config"@).push(config_path),
    }
}

/// The command that runs the trainer on `nproc` processes on each of `nnodes`
/// nodes. A run across nodes without a rendezvous is a failure of the backend.
pub fn trainer_command(config_path: &str, nproc: u32, nnodes: u32, env: &RendezvousEnv) -> (r:
    Result<ModuleCommand, StageError>)
    ensures
        match r {
            Ok(c) => distributed::prefix_of(nproc as nat, nnodes as nat, *env) is Ok && c@
                == command_of(
                distributed::prefix_of(nproc as nat, nnodes as nat, *env)->Ok_0,
                config_path@,
            ),
            Err(e) => distributed::prefix_of(nproc as nat, nnodes as nat, *env) is Err && e@
                == StageErrorView::Backend(
                distributed::prefix_of(nproc as nat, nnodes as nat, *env)->Err_0,
            ),
        },
{
    let mut args = match launch_prefix(nproc, nnodes, env) {
        Ok(prefix) => prefix,
        Err(e) => {
            return Err(StageError::Backend(e));
        },
    };
    add_text(&mut args, "-m");
    add_text(&mut args, "blut_core.trainer");
    add_text(&mut args, "--config");
    add_text(&mut args, config_path);
    Ok(ModuleCommand { program: "python3".to_string(), args })
}

/// The device that a run is pinned to. With several processes on a node each one
/// picks its own, and a pin would put them all on one card; a single process on a
/// node is pinned to the device it was granted.
pub fn pinned_device(nproc: u32, granted: Option<usize>) -> (r: Option<usize>)
    ensures
        r == if nproc <= 1 {
            granted
        } else {
            None
        },
{
    if nproc <= 1 {
        granted
    } else {
        None
    }
}

/// What a run without a checkpoint means: the output directory is there and holds
/// something, or the backend failed.
pub fn checkpoint_outcome(output_dir: &str, produced: bool) -> (r: Result<(), StageError>)
    ensures
        r is Ok <==> produced,
        r matches Err(e) ==> e@ == StageErrorView::Backend(
            "trainer did not produce checkpoint in "@ + output_dir@,
        ),
{
    if !produced {
        return Err(
            StageError::Backend(
                "trainer did not produce checkpoint in ".to_string().concat(output_dir),
            ),
        );
    }
    Ok(())
}

/// Why a run left no checkpoint, the first thing found: the trainer did not end well,
/// or its output directory holds nothing.
pub open spec fn failure(
    run: Result<CommandExit, String>,
    output_dir: Seq<char>,
    produced: bool,
) -> Option<StageErrorView> {
    match process::module_failure("blut_core.trainer"@, run) {
        Some(f) => Some(f),
        None => if produced {
            None
        } else {
            Some(StageErrorView::Backend("trainer did not produce checkpoint in "@ + output_dir))
        },
    }
}

/// What the end of a training run means: it left a checkpoint, or the backend failed.
pub fn trained(run: Result<CommandExit, String>, output_dir: &str, produced: bool) -> (r: Result<
    (),
    StageError,
>)
    ensures
        match r {
            Ok(_) => failure(run, output_dir@, produced) is None,
            Err(e) => failure(run, output_dir@, produced) == Some(e@),
        },
{
    match module_outcome("blut_core.trainer", run) {
        Ok(_) => checkpoint_outcome(output_dir, produced),
        Err(e) => Err(e),
    }
}

/// How many devices a run holds on a node: one for each process.
pub fn permits(nproc: u32) -> (n: u32)
    ensures
        n == distributed::at_least_one(nproc as nat),
{
    if nproc == 0 {
        1
    } else {
        nproc
    }
}

/// How much memory a run reserves on a node, in GiB: four for each process.
pub fn memory_gib(nproc: u32) -> (n: u32)
    requires
        nproc <= u32::MAX / 4,
    ensures
        n == 4 * distributed::at_least_one(nproc as nat),
{
    4 * permits(nproc)
}

/// The trainer runs as a module, under whatever the run is launched with: the launch
/// prefix stands first, unchanged, and the last argument is the configuration file.
pub proof fn lemma_the_trainer_is_told_its_configuration(
    prefix: Seq<Seq<char>>,
    config_path: Seq<char>,
)
    ensures
        ({
            let c = command_of(prefix, config_path);
            &&& c.program == "python3"@
            &&& c.args.take(prefix.len() as int) == prefix
            &&& c.args.skip(prefix.len() as int) == seq![
                "-m"@,
                "blut_core.trainer"@,
                "--config"@,
                config_path,
            ]
        }),
{
    let args = command_of(prefix, config_path).args;
    assert(args.take(prefix.len() as int) =~= prefix);
    assert(args.skip(prefix.len() as int) =~= seq![
        "-m"@,
        "blut_core.trainer"@,
        "--config"@,
        config_path,
    ]);
}

/// A training run left a checkpoint exactly where the trainer succeeded and there is
/// something in its output directory; what is said otherwise is said of the trainer before
/// the directory, and names it.
pub proof fn lemma_a_checkpoint_needs_a_good_end(
    run: Result<CommandExit, String>,
    output_dir: Seq<char>,
    produced: bool,
)
    ensures
        failure(run, output_dir, produced) is None <==> run is Ok && run->Ok_0.success && produced,
        failure(run, output_dir, produced) matches Some(f) ==> f is Backend,
        run is Err || !run->Ok_0.success ==> failure(run, output_dir, produced)
            == process::module_failure("blut_core.trainer"@, run),
        run is Ok && run->Ok_0.success && !produced ==> (failure(
            run,
            output_dir,
            produced,
        ) matches Some(StageErrorView::Backend(m)) && text::occurs_in(m, output_dir)),
{
    text::lemma_the_ends_occur("trainer did not produce checkpoint in "@, output_dir);
}

} // verus!
