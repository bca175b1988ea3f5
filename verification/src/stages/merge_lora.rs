//! The stage `merge_lora`: a checkpoint with an adapter becomes a self-contained one.
//! What is done goes by the checkpoint's method tag: one without an adapter passes
//! through, any other is merged by the trainer into a new directory.

use vstd::prelude::*;
use vstd::string::*;

use crate::artifact::{ContentHash, HfCheckpoint};
use crate::error::{bad_input, StageError, StageErrorView};
use crate::framework::Stage;
use crate::process;
use crate::process::{module_outcome, CommandExit};
use crate::text;
use crate::text::{join, same};

verus! {

/// The name of the stage.
pub const NAME: &'static str = "merge_lora";

/// The stage.
pub struct MergeLora;

impl Stage for MergeLora {
    const NAME: &'static str = NAME;

    const SCHEMA: u32 = 1;

    const DETERMINISTIC: bool = true;
}

/// The arguments.
#[derive(Clone, Copy, Debug, PartialEq, Eq)]
pub struct Args {
    /// Only relabel the checkpoint. Where this is not set, an adapter is merged.
    pub passthrough_only: bool,
}

impl Default for Args {
    fn default() -> (a: Self)
        ensures
            !a.passthrough_only,
    {
        Args { passthrough_only: false }
    }
}

/// A checkpoint with this tag has no adapter to merge.
pub open spec fn is_merged(tag: Seq<char>) -> bool {
    tag == "full"@ || tag == "qlora_merged"@ || tag == "lora_merged"@
}

/// The tag after merging.
pub open spec fn merged_tag(tag: Seq<char>) -> Seq<char> {
    if is_merged(tag) {
        tag
    } else {
        tag + "_merged"@
    }
}

/// An adapter of a checkpoint with this tag is to be merged.
pub open spec fn is_to_merge(tag: Seq<char>, passthrough_only: bool) -> bool {
    tag.len() > 0 && !is_merged(tag) && !passthrough_only
}

/// The directory that a merge writes its checkpoint to.
pub open spec fn merge_dir(stage_dir: Seq<char>) -> Seq<char> {
    text::joined(stage_dir, "merged"@)
}

/// Why a merge left no checkpoint, the first thing found: the trainer did not end
/// well, or the directory holds nothing.
pub open spec fn merge_failure(
    run: Result<CommandExit, String>,
    stage_dir: Seq<char>,
    produced: bool,
) -> Option<StageErrorView> {
    match process::module_failure("trainer.py --merge-only"@, run) {
        Some(f) => Some(f),
        None => if produced {
            None
        } else {
            Some(
                StageErrorView::Backend(
                    "trainer.py --merge-only did not produce "@ + merge_dir(stage_dir),
                ),
            )
        },
    }
}

/// What a merge wrote: a checkpoint directory and its hash.
#[derive(Debug, PartialEq, Eq)]
pub struct Merged {
    pub path: String,
    pub content_hash: ContentHash,
}

/// `c` is the checkpoint that `input` becomes. It has its tag marked as merged, and
/// where a merge was due and there was an adapter, it is what the merge wrote.
pub open spec fn is_result(
    c: HfCheckpoint,
    input: HfCheckpoint,
    args: Args,
    merged: Option<Merged>,
) -> bool {
    &&& c.method_tag@ == merged_tag(input.method_tag@)
    &&& c.base_model == input.base_model
    &&& c.final_loss == input.final_loss
    &&& if is_to_merge(input.method_tag@, args.passthrough_only) && merged is Some {
        c.path == merged->0.path && c.content_hash == merged->0.content_hash
    } else {
        c.path == input.path && c.content_hash == input.content_hash
    }
}

/// Whether a checkpoint with this tag has no adapter to merge.
fn merged_already(tag: &str) -> (r: bool)
    ensures
        r == is_merged(tag@),
{
    same(tag, "full") || same(tag, "qlora_merged") || same(tag, "lora_merged")
}

impl MergeLora {
    /// Whether an adapter of the checkpoint is to be merged.
    pub fn merges(&self, input: &HfCheckpoint, args: &Args) -> (r: bool)
        ensures
            r == is_to_merge(input.method_tag@, args.passthrough_only),
    {
        let tag = input.method_tag.as_str();
        !tag.is_empty() && !merged_already(tag) && !args.passthrough_only
    }

    /// The directory that a merge writes its checkpoint to.
    pub fn output_dir(&self, stage_dir: &str) -> (p: String)
        ensures
            p@ == merge_dir(stage_dir@),
    {
        join(stage_dir, "merged")
    }

    /// What the end of a merge means: it left a checkpoint, or the backend failed.
    pub fn merge_outcome(
        &self,
        run: Result<CommandExit, String>,
        stage_dir: &str,
        produced: bool,
    ) -> (r: Result<(), StageError>)
        ensures
            match r {
                Ok(_) => merge_failure(run, stage_dir@, produced) is None,
                Err(e) => merge_failure(run, stage_dir@, produced) == Some(e@),
            },
    {
        match module_outcome("trainer.py --merge-only", run) {
            Ok(_) => {},
            Err(e) => {
                return Err(e);
            },
        }
        if !produced {
            return Err(
                StageError::Backend(
                    "trainer.py --merge-only did not produce ".to_string().concat(
                        self.output_dir(stage_dir).as_str(),
                    ),
                ),
            );
        }
        Ok(())
    }

    /// The checkpoint that the stage hands on. `merged` is what the merge wrote; there
    /// is none where the checkpoint holds no adapter, and the relabelling is then all
    /// there is to do. A checkpoint without a tag is refused.
    pub fn run(&self, input: HfCheckpoint, args: &Args, merged: Option<Merged>) -> (r: Result<
        HfCheckpoint,
        StageError,
    >)
        ensures
            match r {
                Ok(c) => input.method_tag@.len() > 0 && is_result(c, input, *args, merged),
                Err(e) => {
                    &&& input.method_tag@.len() == 0
                    &&& e@ == StageErrorView::BadInput(
                        "HfCheckpoint must carry a non-empty method_tag"@,
                    )
                },
            },
    {
        let tag = input.method_tag.as_str();
        if tag.is_empty() {
            return Err(bad_input("HfCheckpoint must carry a non-empty method_tag"));
        }
        if merged_already(tag) {
            return Ok(input);
        }
        let (path, content_hash) = match merged {
            Some(m) => if args.passthrough_only {
                (input.path, input.content_hash)
            } else {
                (m.path, m.content_hash)
            },
            None => (input.path, input.content_hash),
        };
        Ok(
            HfCheckpoint {
                path,
                base_model: input.base_model,
                method_tag: input.method_tag.concat("_merged"),
                content_hash,
                final_loss: input.final_loss,
            },
        )
    }
}

/// Merging twice is merging once, for the methods that training leaves.
pub proof fn lemma_merging_twice_is_merging_once(tag: Seq<char>)
    requires
        is_merged(tag) || tag == "qlora"@ || tag == "lora"@,
    ensures
        merged_tag(merged_tag(tag)) == merged_tag(tag),
        is_merged(merged_tag(tag)),
{
    reveal_strlit("qlora");
    reveal_strlit("lora");
    reveal_strlit("_merged");
    reveal_strlit("qlora_merged");
    reveal_strlit("lora_merged");
    assert("qlora"@ + "_merged"@ =~= "qlora_merged"@);
    assert("lora"@ + "_merged"@ =~= "lora_merged"@);
}

/// Only relabelling a checkpoint leaves it where it is, whatever a merge wrote, and so
/// does a tag without an adapter.
pub proof fn lemma_a_relabelled_checkpoint_stays_where_it_is(
    c: HfCheckpoint,
    input: HfCheckpoint,
    args: Args,
    merged: Option<Merged>,
)
    requires
        is_result(c, input, args, merged),
        args.passthrough_only || is_merged(input.method_tag@),
    ensures
        c.path == input.path,
        c.content_hash == input.content_hash,
{
}

/// Which checkpoints are merged: those with an adapter, unless only a relabelling is asked
/// for. Full checkpoints, merged ones and ones without a tag are not.
pub proof fn lemma_which_checkpoints_are_merged(tag: Seq<char>, passthrough_only: bool)
    ensures
        is_to_merge(tag, passthrough_only) <==> {
            &&& !passthrough_only
            &&& tag.len() > 0
            &&& tag != "full"@
            &&& tag != "lora_merged"@
            &&& tag != "qlora_merged"@
        },
        is_to_merge("lora"@, false),
        is_to_merge("qlora"@, false),
{
    reveal_strlit("lora");
    reveal_strlit("qlora");
    reveal_strlit("full");
    reveal_strlit("lora_merged");
    reveal_strlit("qlora_merged");
    assert("lora"@.len() == 4 && "lora"@[0] == 'l');
    assert("full"@.len() == 4 && "full"@[0] == 'f');
    assert("qlora"@.len() == 5);
    assert("lora_merged"@.len() == 11 && "qlora_merged"@.len() == 12);
}

/// The tag says that a checkpoint was merged and keeps the method it was trained with: it
/// stays as it is where there was no adapter, and has `_merged` behind it otherwise.
pub proof fn lemma_the_tag_tells_of_the_merge(tag: Seq<char>, other: Seq<char>)
    ensures
        merged_tag(tag).take(tag.len() as int) == tag,
        tag == "full"@ || tag == "lora_merged"@ || tag == "qlora_merged"@ ==> merged_tag(tag)
            == tag,
        tag != "full"@ && tag != "lora_merged"@ && tag != "qlora_merged"@ ==> merged_tag(tag)
            == tag + "_merged"@,
        !is_merged(tag) && !is_merged(other) && merged_tag(tag) == merged_tag(other) ==> tag
            == other,
{
    assert(merged_tag(tag).take(tag.len() as int) =~= tag);
    if !is_merged(tag) && !is_merged(other) && merged_tag(tag) == merged_tag(other) {
        assert((tag + "_merged"@).len() == (other + "_merged"@).len());
        assert((tag + "_merged"@).take(tag.len() as int) =~= tag);
        assert((other + "_merged"@).take(tag.len() as int) =~= other);
    }
}

/// A merged checkpoint is what the merge wrote, and nothing else about it changes but its
/// tag: the model it was made from and its loss stay.
pub proof fn lemma_what_a_merge_hands_on(
    c: HfCheckpoint,
    input: HfCheckpoint,
    args: Args,
    merged: Option<Merged>,
)
    requires
        is_result(c, input, args, merged),
    ensures
        c.base_model@ == input.base_model@,
        c.final_loss == input.final_loss,
        c.method_tag@.take(input.method_tag@.len() as int) == input.method_tag@,
        merged is Some && input.method_tag@ == "lora"@ && !args.passthrough_only ==> c.path@
            == merged->0.path@ && c.content_hash == merged->0.content_hash && c.method_tag@
            == "lora_merged"@,
        merged is Some && input.method_tag@ == "qlora"@ && !args.passthrough_only ==> c.path@
            == merged->0.path@ && c.content_hash == merged->0.content_hash && c.method_tag@
            == "qlora_merged"@,
        merged is None ==> c.path@ == input.path@ && c.content_hash == input.content_hash,
        input.method_tag@ == "full"@ ==> c.path@ == input.path@ && c.method_tag@ == "full"@,
{
    lemma_the_tag_tells_of_the_merge(input.method_tag@, input.method_tag@);
    lemma_which_checkpoints_are_merged(input.method_tag@, args.passthrough_only);
    reveal_strlit("qlora");
    reveal_strlit("lora");
    reveal_strlit("_merged");
    reveal_strlit("qlora_merged");
    reveal_strlit("lora_merged");
    assert("qlora"@ + "_merged"@ =~= "qlora_merged"@);
    assert("lora"@ + "_merged"@ =~= "lora_merged"@);
}

/// A merge succeeded exactly where the trainer did and left something in the directory
/// `merged` of the stage.
pub proof fn lemma_a_merge_needs_a_good_end(
    run: Result<CommandExit, String>,
    stage_dir: Seq<char>,
    produced: bool,
)
    ensures
        merge_failure(run, stage_dir, produced) is None <==> run is Ok && run->Ok_0.success
            && produced,
        merge_failure(run, stage_dir, produced) matches Some(f) ==> f is Backend,
        run is Ok && run->Ok_0.success && !produced ==> (merge_failure(
            run,
            stage_dir,
            produced,
        ) matches Some(StageErrorView::Backend(m)) && text::occurs_in(
            m,
            text::joined(stage_dir, "merged"@),
        )),
        merge_dir(stage_dir) == text::joined(stage_dir, "merged"@),
{
    text::lemma_the_ends_occur(
        "trainer.py --merge-only did not produce "@,
        text::joined(stage_dir, "merged"@),
    );
}

} // verus!
