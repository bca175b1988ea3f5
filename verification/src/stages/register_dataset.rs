//! The stage `register_dataset`: enters a dataset in the registry, and hands it on
//! unchanged.

use vstd::prelude::*;
use vstd::string::*;

use crate::artifact::DatasetJsonl;
use crate::error::{StageError, StageErrorView};
use crate::framework::Stage;
use crate::stages::util;
use crate::stages::util::check_name;

verus! {

/// The name of the stage.
pub const NAME: &'static str = "register_dataset";

/// The stage.
pub struct RegisterDataset;

impl Stage for RegisterDataset {
    const NAME: &'static str = NAME;

    const SCHEMA: u32 = 1;

    const DETERMINISTIC: bool = true;
}

/// The arguments.
#[derive(Debug, PartialEq, Eq)]
pub struct Args {
    pub name: String,
    /// A tag: `sft`, `dpo`, `distill`.
    pub kind: String,
    pub metadata: Option<String>,
}

/// The tag where none is given.
pub fn default_kind() -> (s: String)
    ensures
        s@ == "sft"@,
{
    "sft".to_string()
}

impl RegisterDataset {
    /// Checks the name.
    pub fn check(&self, args: &Args) -> (r: Result<(), StageError>)
        ensures
            match r {
                Ok(_) => util::name_complaint(args.name@) is None,
                Err(e) => util::name_complaint(args.name@) is Some && e@
                    == StageErrorView::BadInput(util::name_complaint(args.name@)->0),
            },
    {
        check_name(args.name.as_str())
    }

    /// What the registry's answer means: the dataset as it came, or a failure of
    /// the backend.
    pub fn registered(&self, input: DatasetJsonl, entered: Result<(), String>) -> (r: Result<
        DatasetJsonl,
        StageError,
    >)
        ensures
            match r {
                Ok(d) => entered is Ok && d == input,
                Err(e) => entered is Err && e@ == StageErrorView::Backend(entered->Err_0@),
            },
    {
        match entered {
            Ok(_) => Ok(input),
            Err(m) => Err(StageError::Backend(m)),
        }
    }
}

} // verus!
