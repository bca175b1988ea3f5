//! The stage `materialize_for_eval`: a checkpoint and a dataset on disk, as the
//! pair that the evaluation stages take.

use vstd::prelude::*;
use vstd::string::*;

use crate::artifact::{ContentHash, DatasetJsonl, HfCheckpoint};
use crate::error::{StageError, StageErrorView};
use crate::framework::Stage;
use crate::jsonl;
use crate::jsonl::count;
use crate::stages::util;
use crate::stages::util::{refuse_missing, refuse_parent_dir};
use crate::text;

verus! {

/// The name of the stage.
pub const NAME: &'static str = "materialize_for_eval";

/// The stage.
pub struct MaterializeForEval;

impl Stage for MaterializeForEval {
    const NAME: &'static str = NAME;

    const SCHEMA: u32 = 1;

    const DETERMINISTIC: bool = true;
}

/// The arguments.
#[derive(Debug, PartialEq, Eq)]
pub struct Args {
    pub model_path: String,
    pub base_model: String,
    pub dataset_path: String,
}

/// What is wrong with the arguments, the first thing found, where it is known
/// which of the two paths exist.
pub open spec fn complaint(args: Args, model_exists: bool, dataset_exists: bool) -> Option<
    Seq<char>,
> {
    if text::has_parent_component(args.model_path@) {
        Some(util::parent_message("model_path"@, args.model_path@))
    } else if text::has_parent_component(args.dataset_path@) {
        Some(util::parent_message("dataset_path"@, args.dataset_path@))
    } else if !model_exists {
        Some("model_path"@ + " not found: "@ + args.model_path@)
    } else if !dataset_exists {
        Some("dataset_path"@ + " not found: "@ + args.dataset_path@)
    } else {
        None
    }
}

impl MaterializeForEval {
    /// Checks the two paths.
    pub fn check(&self, args: &Args, model_exists: bool, dataset_exists: bool) -> (r: Result<
        (),
        StageError,
    >)
        ensures
            match r {
                Ok(_) => complaint(*args, model_exists, dataset_exists) is None,
                Err(e) => complaint(*args, model_exists, dataset_exists) is Some && e@
                    == StageErrorView::BadInput(
                    complaint(*args, model_exists, dataset_exists)->0,
                ),
            },
    {
        match refuse_parent_dir("model_path", args.model_path.as_str()) {
            Ok(_) => {},
            Err(e) => {
                return Err(e);
            },
        }
        match refuse_parent_dir("dataset_path", args.dataset_path.as_str()) {
            Ok(_) => {},
            Err(e) => {
                return Err(e);
            },
        }
        match refuse_missing("model_path", args.model_path.as_str(), model_exists) {
            Ok(_) => {},
            Err(e) => {
                return Err(e);
            },
        }
        refuse_missing("dataset_path", args.dataset_path.as_str(), dataset_exists)
    }

    /// The checkpoint and the dataset, with the dataset's text for its count.
    pub fn artifacts(
        &self,
        args: &Args,
        model_hash: ContentHash,
        dataset_hash: ContentHash,
        body: &str,
    ) -> (r: (HfCheckpoint, DatasetJsonl))
        requires
            body@.len() <= i64::MAX,
        ensures
            r.0.path == args.model_path,
            r.0.base_model == args.base_model,
            r.0.method_tag@ == "loaded"@,
            r.0.content_hash == model_hash,
            r.0.final_loss == 0,
            r.1.path == args.dataset_path,
            r.1.content_hash == dataset_hash,
            r.1.n_examples == jsonl::filled(jsonl::lines_of(body@)).len(),
    {
        (
            HfCheckpoint {
                path: args.model_path.clone(),
                base_model: args.base_model.clone(),
                method_tag: "loaded".to_string(),
                content_hash: model_hash,
                final_loss: 0,
            },
            DatasetJsonl {
                path: args.dataset_path.clone(),
                content_hash: dataset_hash,
                n_examples: count(body),
            },
        )
    }
}

/// The paths are accepted exactly where neither goes up and both are there; what is said
/// otherwise quotes the path at fault.
pub proof fn lemma_which_paths_are_accepted(args: Args, model_exists: bool, dataset_exists: bool)
    ensures
        ({
            let wrong = complaint(args, model_exists, dataset_exists);
            let model_up = text::has_parent_component(args.model_path@);
            let dataset_up = text::has_parent_component(args.dataset_path@);
            &&& wrong is None <==> !model_up && !dataset_up && model_exists && dataset_exists
            &&& model_up || (!dataset_up && !model_exists) ==> (wrong matches Some(m)
                && text::occurs_in(m, args.model_path@) && text::occurs_in(m, "model_path"@))
            &&& !model_up && (dataset_up || (model_exists && !dataset_exists)) ==> (
            wrong matches Some(m) && text::occurs_in(m, args.dataset_path@) && text::occurs_in(
                m,
                "dataset_path"@,
            ))
        }),
{
    util::lemma_a_refused_path_is_quoted("model_path"@, args.model_path@);
    util::lemma_a_refused_path_is_quoted("dataset_path"@, args.dataset_path@);
    let a = "model_path"@ + " not found: "@;
    let b = "dataset_path"@ + " not found: "@;
    text::lemma_the_ends_occur("model_path"@, " not found: "@);
    text::lemma_the_ends_occur("dataset_path"@, " not found: "@);
    text::lemma_it_occurs_in_more(a, "model_path"@, args.model_path@);
    text::lemma_it_occurs_in_more(b, "dataset_path"@, args.dataset_path@);
    text::lemma_the_ends_occur(a, args.model_path@);
    text::lemma_the_ends_occur(b, args.dataset_path@);
}

} // verus!
