//! Commands to run, and what their ends mean.

use vstd::prelude::*;
use vstd::string::*;

use crate::error::{StageError, StageErrorView};
use crate::text;

verus! {

/// How a process ended: whether it succeeded, and its exit status in words.
pub struct CommandExit {
    pub success: bool,
    pub status: String,
}

/// A program and its arguments.
#[derive(Debug, PartialEq, Eq)]
pub struct ModuleCommand {
    pub program: String,
    pub args: Vec<String>,
}

/// A command as texts.
#[verifier::ext_equal]
pub struct ModuleCommandView {
    pub program: Seq<char>,
    pub args: Seq<Seq<char>>,
}

impl View for ModuleCommand {
    type V = ModuleCommandView;

    open spec fn view(&self) -> ModuleCommandView {
        ModuleCommandView { program: self.program@, args: text::texts(self.args@) }
    }
}

/// What the end of a Python module says of a stage: `None` where it succeeded.
pub open spec fn module_failure(module: Seq<char>, run: Result<CommandExit, String>) -> Option<
    StageErrorView,
> {
    match run {
        Err(e) => Some(StageErrorView::Backend("failed to run "@ + module + ": "@ + e@)),
        Ok(exit) => if exit.success {
            None
        } else {
            Some(StageErrorView::Backend(module + " exited with "@ + exit.status@))
        },
    }
}

/// What the end of a Python module means for the stage that ran it: a module that
/// could not be run, or did not succeed, is a failure of the backend.
pub fn module_outcome(module: &str, run: Result<CommandExit, String>) -> (r: Result<(), StageError>)
    ensures
        match r {
            Ok(_) => module_failure(module@, run) is None,
            Err(e) => module_failure(module@, run) == Some(e@),
        },
{
    match run {
        Err(e) => Err(
            StageError::Backend(
                "failed to run ".to_string().concat(module).concat(": ").concat(e.as_str()),
            ),
        ),
        Ok(exit) => if exit.success {
            Ok(())
        } else {
            Err(
                StageError::Backend(
                    module.to_string().concat(" exited with ").concat(exit.status.as_str()),
                ),
            )
        },
    }
}

/// A module has not failed exactly where it could be run and succeeded. A failure is one of
/// the backend, and names the module and what is known of its end.
pub proof fn lemma_only_success_is_no_failure(module: Seq<char>, run: Result<CommandExit, String>)
    ensures
        module_failure(module, run) is None <==> run is Ok && run->Ok_0.success,
        module_failure(module, run) matches Some(f) ==> (f matches StageErrorView::Backend(m)
            && text::occurs_in(m, module)),
        run matches Err(e) ==> (module_failure(module, run) matches Some(StageErrorView::Backend(m))
            && text::occurs_in(m, e@) && text::occurs_in(m, "failed to run "@)),
        (run matches Ok(exit) && !exit.success) ==> (module_failure(module, run) matches Some(
            StageErrorView::Backend(m),
        ) && text::occurs_in(m, run->Ok_0.status@)),
{
    match run {
        Err(e) => {
            let a = "failed to run "@;
            text::lemma_the_ends_occur(a, module);
            text::lemma_it_occurs_in_more(a + module, module, ": "@);
            text::lemma_it_occurs_in_more(a + module + ": "@, module, e@);
            text::lemma_it_occurs_in_more(a + module, a, ": "@);
            text::lemma_it_occurs_in_more(a + module + ": "@, a, e@);
            text::lemma_the_ends_occur(a + module + ": "@, e@);
        },
        Ok(exit) => {
            text::lemma_the_ends_occur(module, " exited with "@);
            text::lemma_it_occurs_in_more(module + " exited with "@, module, exit.status@);
            text::lemma_the_ends_occur(module + " exited with "@, exit.status@);
        },
    }
}

} // verus!
