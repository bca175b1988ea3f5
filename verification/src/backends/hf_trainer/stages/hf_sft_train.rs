//! The stage `hf_sft_train`: supervised fine-tuning with `transformers.Trainer`.

use vstd::prelude::*;
use vstd::string::*;

use crate::artifact::{ContentHash, DatasetJsonl, HfCheckpoint};
use crate::backends::hf_trainer::runner::{HfRunArtifact, HfTrainerJob, PeftConfig};
use crate::backends::HfTrainerBackend;
use crate::error::{bad_input, StageError, StageErrorView};
use crate::framework::{Compatible, Stage};
use crate::json;
use crate::json::{duplicate_entries, Json};
use crate::number::Real;
use crate::text;
use crate::text::{decimal_int_text, join, same};

verus! {

/// The name of the stage.
pub const NAME: &'static str = "hf_sft_train";

/// The stage.
pub struct HfSftTrain;

impl Compatible<HfTrainerBackend> for HfSftTrain {

}

impl Stage for HfSftTrain {
    const NAME: &'static str = NAME;

    const SCHEMA: u32 = 1;

    const DETERMINISTIC: bool = false;
}

/// The arguments.
#[derive(Debug, PartialEq, Eq)]
pub struct Args {
    pub base_model: String,
    /// `lora`, `qlora` or `full`.
    pub method: String,
    pub rank: u32,
    pub alpha: u32,
    pub lr: Real,
    pub epochs: u32,
    pub batch_size: u32,
    pub grad_accum: u32,
    pub seq_len: u32,
    pub seed: u64,
    /// Empty: no evaluation dataset.
    pub eval_dataset_path: String,
    /// Further training arguments, handed on as they are.
    pub extra: Vec<(String, Json)>,
    pub nproc_per_node: u32,
    pub nnodes: u32,
}

/// The method where none is given.
pub fn default_method() -> (s: String)
    ensures
        s@ == "qlora"@,
{
    "qlora".to_string()
}

/// The adapter rank where none is given.
pub fn default_rank() -> (n: u32)
    ensures
        n == 16,
{
    16
}

/// The adapter scale where none is given.
pub fn default_alpha() -> (n: u32)
    ensures
        n == 32,
{
    32
}

/// The batch size where none is given.
pub fn default_batch() -> (n: u32)
    ensures
        n == 1,
{
    1
}

/// The gradient accumulation where none is given.
pub fn default_grad_accum() -> (n: u32)
    ensures
        n == 8,
{
    8
}

/// The sequence length where none is given.
pub fn default_seq_len() -> (n: u32)
    ensures
        n == 4096,
{
    4096
}

/// The seed where none is given.
pub fn default_seed() -> (n: u64)
    ensures
        n == 42,
{
    42
}

/// A method that the stage knows.
pub open spec fn is_method(m: Seq<char>) -> bool {
    m == "qlora"@ || m == "lora"@ || m == "full"@
}

/// What is wrong with an input and arguments, the first thing found.
pub open spec fn complaint(input: DatasetJsonl, args: Args) -> Option<Seq<char>> {
    if input.n_examples <= 0 {
        Some(
            "dataset has no examples (n_examples = "@ + text::decimal_int(input.n_examples as int)
                + ")"@,
        )
    } else if args.seq_len == 0 {
        Some("seq_len must be > 0"@)
    } else if !is_method(args.method@) {
        Some("method '"@ + args.method@ + "' must be qlora|lora|full"@)
    } else if !args.lr.is_positive_finite() {
        Some("lr must be positive finite; got "@ + args.lr.shown@)
    } else if args.epochs == 0 || args.batch_size == 0 || args.grad_accum == 0 {
        Some("epochs/batch_size/grad_accum must be > 0"@)
    } else if args.base_model@.len() == 0 {
        Some("base_model must be non-empty"@)
    } else {
        None
    }
}

/// `job` is the supervised job that the arguments describe.
pub open spec fn is_job_of(
    job: HfTrainerJob,
    input: DatasetJsonl,
    args: Args,
    stage_dir: Seq<char>,
) -> bool {
    &&& job.task@ == "sft"@
    &&& job.base_model == args.base_model
    &&& job.train_dataset_path == input.path
    &&& text::optional(job.eval_dataset_path) == if args.eval_dataset_path@.len() == 0 {
        None
    } else {
        Some(args.eval_dataset_path@)
    }
    &&& job.output_dir@ == text::joined(stage_dir, "checkpoint"@)
    &&& job.lr == args.lr
    &&& job.epochs == args.epochs
    &&& job.batch_size == args.batch_size
    &&& job.grad_accum == args.grad_accum
    &&& job.seq_len == args.seq_len
    &&& job.seed == args.seed
    &&& json::entries_view(job.extra@) == json::entries_view(args.extra@)
    &&& job.peft == if args.method@ == "full"@ {
        None
    } else {
        Some(PeftConfig { method: args.method, rank: args.rank, alpha: args.alpha })
    }
    &&& job.dpo is None
    &&& job.nproc_per_node == args.nproc_per_node
    &&& job.nnodes == args.nnodes
}

impl HfSftTrain {
    /// Checks the input and the arguments, and describes the job. The first
    /// thing wrong is a failed precondition.
    pub fn job(&self, input: &DatasetJsonl, args: &Args, stage_dir: &str) -> (r: Result<
        HfTrainerJob,
        StageError,
    >)
        ensures
            match r {
                Ok(job) => complaint(*input, *args) is None && is_job_of(
                    job,
                    *input,
                    *args,
                    stage_dir@,
                ),
                Err(e) => complaint(*input, *args) is Some && e@ == StageErrorView::BadInput(
                    complaint(*input, *args)->0,
                ),
            },
    {
        if input.n_examples <= 0 {
            return Err(
                bad_input(
                    "dataset has no examples (n_examples = ".to_string().concat(
                        decimal_int_text(input.n_examples).as_str(),
                    ).concat(")").as_str(),
                ),
            );
        }
        if args.seq_len == 0 {
            return Err(bad_input("seq_len must be > 0"));
        }
        let method = args.method.as_str();
        let full: bool = same(method, "full");
        if !(same(method, "qlora") || same(method, "lora") || full) {
            return Err(
                bad_input(
                    "method '".to_string().concat(method).concat(
                        "' must be qlora|lora|full",
                    ).as_str(),
                ),
            );
        }
        if !args.lr.positive_finite() {
            return Err(
                bad_input(
                    "lr must be positive finite; got ".to_string().concat(
                        args.lr.shown.as_str(),
                    ).as_str(),
                ),
            );
        }
        if args.epochs == 0 || args.batch_size == 0 || args.grad_accum == 0 {
            return Err(bad_input("epochs/batch_size/grad_accum must be > 0"));
        }
        if args.base_model.as_str().is_empty() {
            return Err(bad_input("base_model must be non-empty"));
        }
        let peft = if full {
            None
        } else {
            Some(PeftConfig { method: args.method.clone(), rank: args.rank, alpha: args.alpha })
        };
        let eval_dataset_path = if args.eval_dataset_path.as_str().is_empty() {
            None
        } else {
            Some(args.eval_dataset_path.clone())
        };
        Ok(
            HfTrainerJob {
                task: "sft".to_string(),
                base_model: args.base_model.clone(),
                train_dataset_path: input.path.clone(),
                eval_dataset_path,
                output_dir: join(stage_dir, "checkpoint"),
                lr: args.lr.clone(),
                epochs: args.epochs,
                batch_size: args.batch_size,
                grad_accum: args.grad_accum,
                seq_len: args.seq_len,
                seed: args.seed,
                extra: duplicate_entries(&args.extra),
                peft,
                dpo: None,
                nproc_per_node: args.nproc_per_node,
                nnodes: args.nnodes,
            },
        )
    }

    /// The checkpoint that a run produced. A loss that was not reported is zero.
    pub fn checkpoint(
        &self,
        args: &Args,
        artifact: HfRunArtifact,
        content_hash: ContentHash,
    ) -> (c: HfCheckpoint)
        ensures
            c == (HfCheckpoint {
                path: artifact.checkpoint_dir,
                base_model: args.base_model,
                method_tag: args.method,
                content_hash,
                final_loss: match artifact.final_loss {
                    Some(bits) => bits,
                    None => 0,
                },
            }),
    {
        HfCheckpoint {
            path: artifact.checkpoint_dir,
            base_model: args.base_model.clone(),
            method_tag: args.method.clone(),
            content_hash,
            final_loss: match artifact.final_loss {
                Some(bits) => bits,
                None => 0,
            },
        }
    }
}

/// A job is accepted exactly where there are examples, a known method, a usable learning
/// rate, a model, and no count is zero.
pub proof fn lemma_what_is_accepted(input: DatasetJsonl, args: Args)
    ensures
        complaint(input, args) is None <==> {
            &&& input.n_examples > 0
            &&& args.seq_len > 0
            &&& args.method@ == "qlora"@ || args.method@ == "lora"@ || args.method@ == "full"@
            &&& 0 < args.lr.bits < 0x7F80_0000
            &&& args.epochs > 0
            &&& args.batch_size > 0
            &&& args.grad_accum > 0
            &&& args.base_model@.len() > 0
        },
        input.n_examples <= 0 ==> (complaint(input, args) matches Some(m) && text::occurs_in(
            m,
            text::decimal_int(input.n_examples as int),
        )),
        input.n_examples > 0 && args.seq_len == 0 ==> complaint(input, args) == Some(
            "seq_len must be > 0"@,
        ),
        input.n_examples > 0 && args.seq_len > 0 && args.method@ != "qlora"@ && args.method@
            != "lora"@ && args.method@ != "full"@ ==> (complaint(input, args) matches Some(m)
            && text::occurs_in(m, args.method@)),
{
    text::lemma_a_part_occurs(
        "dataset has no examples (n_examples = "@,
        text::decimal_int(input.n_examples as int),
        ")"@,
    );
    text::lemma_a_part_occurs("method '"@, args.method@, "' must be qlora|lora|full"@);
}

/// A job carries every argument unchanged: it trains on the dataset, evaluates on the
/// one that is named, if one is, and has an adapter of the named method, rank and scale
/// unless the method is `full`. It has no preferences.
pub proof fn lemma_a_job_carries_its_arguments(
    job: HfTrainerJob,
    input: DatasetJsonl,
    args: Args,
    stage_dir: Seq<char>,
)
    requires
        is_job_of(job, input, args, stage_dir),
    ensures
        job.task@ == "sft"@,
        job.base_model@ == args.base_model@,
        job.train_dataset_path@ == input.path@,
        job.eval_dataset_path is Some <==> args.eval_dataset_path@.len() > 0,
        job.eval_dataset_path matches Some(p) ==> p@ == args.eval_dataset_path@,
        job.output_dir@ == text::joined(stage_dir, "checkpoint"@),
        job.lr == args.lr,
        job.epochs == args.epochs,
        job.batch_size == args.batch_size,
        job.grad_accum == args.grad_accum,
        job.seq_len == args.seq_len,
        job.seed == args.seed,
        job.nproc_per_node == args.nproc_per_node,
        job.nnodes == args.nnodes,
        job.peft is None <==> args.method@ == "full"@,
        job.peft matches Some(p) ==> p.method@ == args.method@ && p.rank == args.rank && p.alpha
            == args.alpha,
        job.dpo is None,
        forall|key: Seq<char>|
            json::lookup(json::entries_view(job.extra@), key) == #[trigger] json::lookup(
                json::entries_view(args.extra@),
                key,
            ),
{
}

} // verus!
