//! The stage `materialize_dataset_path`: makes a dataset out of a file or of a
//! registered name. The bytes are copied into the stage's own directory; count
//! and hash are those of the copy.

use vstd::prelude::*;
use vstd::string::*;

use crate::artifact::{ContentHash, DatasetJsonl};
use crate::error::{bad_input, StageError, StageErrorView};
use crate::framework::Stage;
use crate::jsonl;
use crate::jsonl::count;
use crate::stages::util;
use crate::stages::util::{refuse_missing, refuse_parent_dir};
use crate::text;
use crate::text::join;

verus! {

/// The name of the stage.
pub const NAME: &'static str = "materialize_dataset_path";

/// The stage.
pub struct MaterializeDatasetPath;

impl Stage for MaterializeDatasetPath {
    const NAME: &'static str = NAME;

    const SCHEMA: u32 = 2;

    const DETERMINISTIC: bool = true;
}

/// The arguments: exactly one of the two is given.
#[derive(Debug, PartialEq, Eq)]
pub struct Args {
    pub path: Option<String>,
    pub registered_name: Option<String>,
}

impl Default for Args {
    fn default() -> (a: Self)
        ensures
            a.path is None,
            a.registered_name is None,
    {
        Args { path: None, registered_name: None }
    }
}

/// Where a dataset comes from.
#[derive(Debug, PartialEq, Eq)]
pub enum Source {
    Path(String),
    Registered(String),
}

/// What is wrong with the arguments, the first thing found. A path is looked at
/// before anything else.
pub open spec fn complaint(args: Args) -> Option<Seq<char>> {
    if args.path is Some && text::has_parent_component(args.path->0@) {
        Some(util::parent_message("path"@, args.path->0@))
    } else if args.path is Some && args.registered_name is Some {
        Some(
            "materialize_dataset_path: pass exactly one of path / registered_name, not both"@,
        )
    } else if args.path is None && args.registered_name is None {
        Some("materialize_dataset_path: one of path / registered_name is required"@)
    } else {
        None
    }
}

impl MaterializeDatasetPath {
    /// Where the dataset comes from.
    pub fn source(&self, args: &Args) -> (r: Result<Source, StageError>)
        ensures
            match r {
                Ok(Source::Path(p)) => complaint(*args) is None && args.path == Some(p),
                Ok(Source::Registered(n)) => complaint(*args) is None && args.registered_name
                    == Some(n),
                Err(e) => complaint(*args) is Some && e@ == StageErrorView::BadInput(
                    complaint(*args)->0,
                ),
            },
    {
        match &args.path {
            Some(p) => {
                match refuse_parent_dir("path", p.as_str()) {
                    Ok(_) => {},
                    Err(e) => {
                        return Err(e);
                    },
                }
                match &args.registered_name {
                    Some(_) => Err(
                        bad_input(
                            "materialize_dataset_path: pass exactly one of path / registered_name, not both",
                        ),
                    ),
                    None => Ok(Source::Path(p.clone())),
                }
            },
            None => match &args.registered_name {
                Some(n) => Ok(Source::Registered(n.clone())),
                None => Err(
                    bad_input(
                        "materialize_dataset_path: one of path / registered_name is required",
                    ),
                ),
            },
        }
    }

    /// The file behind a registered name, as the registry has it.
    pub fn registered(&self, name: &str, source_path: Option<String>) -> (r: Result<
        String,
        StageError,
    >)
        ensures
            match r {
                Ok(p) => source_path == Some(p),
                Err(e) => source_path is None && e@ == StageErrorView::BadInput(
                    "registered dataset '"@ + name@ + "' not found"@,
                ),
            },
    {
        match source_path {
            Some(p) => Ok(p),
            None => Err(
                bad_input(
                    "registered dataset '".to_string().concat(name).concat("' not found").as_str(),
                ),
            ),
        }
    }

    /// Refuses a file that is not there.
    pub fn check_found(&self, path: &str, exists: bool) -> (r: Result<(), StageError>)
        ensures
            r is Ok <==> exists,
            r matches Err(e) ==> e@ == StageErrorView::BadInput(
                "dataset path"@ + " not found: "@ + path@,
            ),
    {
        refuse_missing("dataset path", path, exists)
    }

    /// Where the copy goes.
    pub fn output_path(&self, stage_dir: &str) -> (p: String)
        ensures
            p@ == text::joined(stage_dir@, "dataset.jsonl"@),
    {
        join(stage_dir, "dataset.jsonl")
    }

    /// The dataset that a copy with this text makes.
    pub fn dataset(&self, stage_dir: &str, body: &str, content_hash: ContentHash) -> (d:
        DatasetJsonl)
        requires
            body@.len() <= i64::MAX,
        ensures
            d.path@ == text::joined(stage_dir@, "dataset.jsonl"@),
            d.content_hash == content_hash,
            d.n_examples == jsonl::filled(jsonl::lines_of(body@)).len(),
    {
        DatasetJsonl {
            path: self.output_path(stage_dir),
            content_hash,
            n_examples: count(body),
        }
    }
}

/// A source is accepted exactly where one of the two is given and not the other, and a
/// path does not go up.
pub proof fn lemma_which_sources_are_accepted(args: Args)
    ensures
        complaint(args) is None <==> {
            &&& (args.path is Some) != (args.registered_name is Some)
            &&& args.path matches Some(p) ==> !text::has_parent_component(p@)
        },
        args.path is Some && text::has_parent_component(args.path->0@) ==> (complaint(
            args,
        ) matches Some(m) && text::occurs_in(m, args.path->0@)),
        args.path is Some && !text::has_parent_component(args.path->0@) && args.registered_name
            is Some ==> complaint(args) == Some(
            "materialize_dataset_path: pass exactly one of path / registered_name, not both"@,
        ),
        args.path is None && args.registered_name is None ==> complaint(args) == Some(
            "materialize_dataset_path: one of path / registered_name is required"@,
        ),
{
    if let Some(p) = args.path {
        util::lemma_a_refused_path_is_quoted("path"@, p@);
    }
}

} // verus!
