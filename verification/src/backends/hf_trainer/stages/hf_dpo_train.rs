//! The stage `hf_dpo_train`: preference training with `trl.DPOTrainer`.

use vstd::prelude::*;
use vstd::string::*;

use crate::artifact::{ContentHash, HfCheckpoint, PreferenceJsonl};
use crate::backends::hf_trainer::runner::{DpoConfig, HfRunArtifact, HfTrainerJob};
use crate::backends::HfTrainerBackend;
use crate::error::{bad_input, StageError, StageErrorView};
use crate::framework::{Compatible, Stage};
use crate::json;
use crate::json::{duplicate_entries, Json};
use crate::number::Real;
use crate::text;
use crate::text::{decimal_int_text, join};

verus! {

/// The name of the stage.
pub const NAME: &'static str = "hf_dpo_train";

/// The stage.
pub struct HfDpoTrain;

impl Compatible<HfTrainerBackend> for HfDpoTrain {

}

impl Stage for HfDpoTrain {
    const NAME: &'static str = NAME;

    const SCHEMA: u32 = 1;

    const DETERMINISTIC: bool = false;
}

/// The arguments.
#[derive(Debug, PartialEq, Eq)]
pub struct Args {
    pub base_model: String,
    pub beta: Real,
    pub lr: Real,
    pub epochs: u32,
    pub batch_size: u32,
    pub grad_accum: u32,
    pub seq_len: u32,
    pub seed: u64,
    /// Further training arguments, handed on as they are.
    pub extra: Vec<(String, Json)>,
    pub nproc_per_node: u32,
    pub nnodes: u32,
}

/// The batch size where none is given.
pub fn default_batch() -> (n: u32)
    ensures
        n == 1,
{
    1
}

/// The gradient accumulation where none is given.
pub fn default_grad_accum() -> (n: u32)
    ensures
        n == 8,
{
    8
}

/// The sequence length where none is given.
pub fn default_seq_len() -> (n: u32)
    ensures
        n == 4096,
{
    4096
}

/// The seed where none is given.
pub fn default_seed() -> (n: u64)
    ensures
        n == 42,
{
    42
}

/// What is wrong with an input and arguments, the first thing found.
pub open spec fn complaint(input: PreferenceJsonl, args: Args) -> Option<Seq<char>> {
    if input.n_pairs <= 0 {
        Some(
            "preferences must be non-empty (n_pairs = "@ + text::decimal_int(input.n_pairs as int)
                + ")"@,
        )
    } else if args.seq_len == 0 {
        Some("seq_len must be > 0"@)
    } else if !args.beta.is_positive_finite() {
        Some("beta must be positive finite; got "@ + args.beta.shown@)
    } else if !args.lr.is_positive_finite() {
        Some("lr must be positive finite; got "@ + args.lr.shown@)
    } else if args.epochs == 0 {
        Some("epochs must be > 0"@)
    } else if args.base_model@.len() == 0 {
        Some("base_model must be non-empty"@)
    } else {
        None
    }
}

/// `job` is the preference job that the arguments describe.
pub open spec fn is_job_of(
    job: HfTrainerJob,
    input: PreferenceJsonl,
    args: Args,
    stage_dir: Seq<char>,
) -> bool {
    &&& job.task@ == "dpo"@
    &&& job.base_model == args.base_model
    &&& job.train_dataset_path == input.path
    &&& job.eval_dataset_path is None
    &&& job.output_dir@ == text::joined(stage_dir, "checkpoint"@)
    &&& job.lr == args.lr
    &&& job.epochs == args.epochs
    &&& job.batch_size == args.batch_size
    &&& job.grad_accum == args.grad_accum
    &&& job.seq_len == args.seq_len
    &&& job.seed == args.seed
    &&& json::entries_view(job.extra@) == json::entries_view(args.extra@)
    &&& job.peft is None
    &&& job.dpo == Some(DpoConfig { beta: args.beta, preferences_path: None })
    &&& job.nproc_per_node == args.nproc_per_node
    &&& job.nnodes == args.nnodes
}

impl HfDpoTrain {
    /// Checks the input and the arguments, and describes the job. The first
    /// thing wrong is a failed precondition.
    pub fn job(&self, input: &PreferenceJsonl, args: &Args, stage_dir: &str) -> (r: Result<
        HfTrainerJob,
        StageError,
    >)
        ensures
            match r {
                Ok(job) => complaint(*input, *args) is None && is_job_of(
                    job,
                    *input,
                    *args,
                    stage_dir@,
                ),
                Err(e) => complaint(*input, *args) is Some && e@ == StageErrorView::BadInput(
                    complaint(*input, *args)->0,
                ),
            },
    {
        if input.n_pairs <= 0 {
            return Err(
                bad_input(
                    "preferences must be non-empty (n_pairs = ".to_string().concat(
                        decimal_int_text(input.n_pairs).as_str(),
                    ).concat(")").as_str(),
                ),
            );
        }
        if args.seq_len == 0 {
            return Err(bad_input("seq_len must be > 0"));
        }
        if !args.beta.positive_finite() {
            return Err(
                bad_input(
                    "beta must be positive finite; got ".to_string().concat(
                        args.beta.shown.as_str(),
                    ).as_str(),
                ),
            );
        }
        if !args.lr.positive_finite() {
            return Err(
                bad_input(
                    "lr must be positive finite; got ".to_string().concat(
                        args.lr.shown.as_str(),
                    ).as_str(),
                ),
            );
        }
        if args.epochs == 0 {
            return Err(bad_input("epochs must be > 0"));
        }
        if args.base_model.as_str().is_empty() {
            return Err(bad_input("base_model must be non-empty"));
        }
        Ok(
            HfTrainerJob {
                task: "dpo".to_string(),
                base_model: args.base_model.clone(),
                train_dataset_path: input.path.clone(),
                eval_dataset_path: None,
                output_dir: join(stage_dir, "checkpoint"),
                lr: args.lr.clone(),
                epochs: args.epochs,
                batch_size: args.batch_size,
                grad_accum: args.grad_accum,
                seq_len: args.seq_len,
                seed: args.seed,
                extra: duplicate_entries(&args.extra),
                peft: None,
                dpo: Some(DpoConfig { beta: args.beta.clone(), preferences_path: None }),
                nproc_per_node: args.nproc_per_node,
                nnodes: args.nnodes,
            },
        )
    }

    /// The checkpoint that a run produced. A loss that was not reported is zero.
    pub fn checkpoint(
        &self,
        args: &Args,
        artifact: HfRunArtifact,
        content_hash: ContentHash,
    ) -> (c: HfCheckpoint)
        ensures
            c.path == artifact.checkpoint_dir,
            c.base_model == args.base_model,
            c.method_tag@ == "dpo"@,
            c.content_hash == content_hash,
            c.final_loss == match artifact.final_loss {
                Some(bits) => bits,
                None => 0,
            },
    {
        HfCheckpoint {
            path: artifact.checkpoint_dir,
            base_model: args.base_model.clone(),
            method_tag: "dpo".to_string(),
            content_hash,
            final_loss: match artifact.final_loss {
                Some(bits) => bits,
                None => 0,
            },
        }
    }
}

/// A job is accepted exactly where there are preferences, a model, a usable weight and
/// learning rate, a sequence length and an epoch.
pub proof fn lemma_what_is_accepted(input: PreferenceJsonl, args: Args)
    ensures
        complaint(input, args) is None <==> {
            &&& input.n_pairs > 0
            &&& args.seq_len > 0
            &&& 0 < args.beta.bits < 0x7F80_0000
            &&& 0 < args.lr.bits < 0x7F80_0000
            &&& args.epochs > 0
            &&& args.base_model@.len() > 0
        },
        input.n_pairs <= 0 ==> (complaint(input, args) matches Some(m) && text::occurs_in(
            m,
            text::decimal_int(input.n_pairs as int),
        )),
        input.n_pairs > 0 && args.seq_len == 0 ==> complaint(input, args) == Some(
            "seq_len must be > 0"@,
        ),
{
    text::lemma_a_part_occurs(
        "preferences must be non-empty (n_pairs = "@,
        text::decimal_int(input.n_pairs as int),
        ")"@,
    );
}

/// A job carries every argument unchanged. It trains on the preferences with the weight
/// that is given, without an adapter and without an evaluation.
pub proof fn lemma_a_job_carries_its_arguments(
    job: HfTrainerJob,
    input: PreferenceJsonl,
    args: Args,
    stage_dir: Seq<char>,
)
    requires
        is_job_of(job, input, args, stage_dir),
    ensures
        job.task@ == "dpo"@,
        job.base_model@ == args.base_model@,
        job.train_dataset_path@ == input.path@,
        job.eval_dataset_path is None,
        job.output_dir@ == text::joined(stage_dir, "checkpoint"@),
        job.lr == args.lr,
        job.epochs == args.epochs,
        job.batch_size == args.batch_size,
        job.grad_accum == args.grad_accum,
        job.seq_len == args.seq_len,
        job.seed == args.seed,
        job.nproc_per_node == args.nproc_per_node,
        job.nnodes == args.nnodes,
        job.peft is None,
        job.dpo matches Some(d) && d.beta == args.beta && d.preferences_path is None,
        forall|key: Seq<char>|
            json::lookup(json::entries_view(job.extra@), key) == #[trigger] json::lookup(
                json::entries_view(args.extra@),
                key,
            ),
{
}

} // verus!
