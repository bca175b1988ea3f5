//! The stage `sft_train`: supervised fine-tuning with `trainer.py`.

use vstd::prelude::*;
use vstd::string::*;

use crate::artifact::{ContentHash, DatasetJsonl, HfCheckpoint};
use crate::error::{bad_input, StageError, StageErrorView};
use crate::framework::Stage;
use crate::number::Real;
use crate::spec::{Method, Optim, TrainSpec};
use crate::text;
use crate::text::{join, same};

verus! {

/// The name of the stage.
pub const NAME: &'static str = "sft_train";

/// The stage.
pub struct SftTrain;

impl Stage for SftTrain {
    const NAME: &'static str = NAME;

    const SCHEMA: u32 = 1;

    const DETERMINISTIC: bool = true;
}

/// The arguments.
#[derive(Debug, PartialEq, Eq)]
pub struct Args {
    pub base_model: String,
    pub output_name: String,
    /// `qlora`, `lora` or `full`.
    pub method: String,
    pub rank: u32,
    pub alpha: u32,
    pub optimizer: String,
    pub lr: Real,
    pub epochs: u32,
    pub batch_size: u32,
    pub grad_accum: u32,
    pub seq_len: u32,
    pub seed: u64,
}

/// The method that a name stands for.
pub open spec fn method_of(name: Seq<char>, rank: u32, alpha: u32) -> Option<Method> {
    if name == "qlora"@ {
        Some(Method::QLora { rank, alpha })
    } else if name == "lora"@ {
        Some(Method::Lora { rank, alpha })
    } else if name == "full"@ {
        Some(Method::Full)
    } else {
        None
    }
}

/// The optimizer that a name stands for.
pub open spec fn optim_of(name: Seq<char>) -> Option<Optim> {
    if name == "adam_w"@ || name == "adamw"@ {
        Some(Optim::AdamW)
    } else if name == "adam_w8bit"@ || name == "adamw8bit"@ {
        Some(Optim::AdamW8bit)
    } else if name == "apollo_mini"@ {
        Some(Optim::ApolloMini)
    } else if name == "apollo_rank4"@ || name == "apollo"@ {
        Some(Optim::ApolloRank4)
    } else {
        None
    }
}

fn method(name: &str, rank: u32, alpha: u32) -> (r: Option<Method>)
    ensures
        r == method_of(name@, rank, alpha),
{
    if same(name, "qlora") {
        Some(Method::QLora { rank, alpha })
    } else if same(name, "lora") {
        Some(Method::Lora { rank, alpha })
    } else if same(name, "full") {
        Some(Method::Full)
    } else {
        None
    }
}

fn optim(name: &str) -> (r: Option<Optim>)
    ensures
        r == optim_of(name@),
{
    if same(name, "adam_w") || same(name, "adamw") {
        Some(Optim::AdamW)
    } else if same(name, "adam_w8bit") || same(name, "adamw8bit") {
        Some(Optim::AdamW8bit)
    } else if same(name, "apollo_mini") {
        Some(Optim::ApolloMini)
    } else if same(name, "apollo_rank4") || same(name, "apollo") {
        Some(Optim::ApolloRank4)
    } else {
        None
    }
}

/// What is wrong with the numbers, the first thing found.
pub open spec fn number_complaint(args: Args) -> Option<Seq<char>> {
    if args.epochs == 0 || args.batch_size == 0 || args.grad_accum == 0 {
        Some("epochs/batch_size/grad_accum must be > 0"@)
    } else if !args.lr.is_positive_finite() {
        Some("lr must be positive finite; got "@ + args.lr.shown@)
    } else {
        None
    }
}

/// What is wrong with the names, the first thing found.
pub open spec fn name_complaint(args: Args) -> Option<Seq<char>> {
    if method_of(args.method@, args.rank, args.alpha) is None {
        Some("unknown method '"@ + args.method@ + "', expected qlora|lora|full"@)
    } else if optim_of(args.optimizer@) is None {
        Some("unknown optimizer '"@ + args.optimizer@ + "'"@)
    } else {
        None
    }
}

/// `spec` is the run that the arguments describe.
pub open spec fn is_spec_of(
    spec: TrainSpec,
    input: DatasetJsonl,
    args: Args,
    stage_dir: Seq<char>,
) -> bool {
    &&& spec.base_model == args.base_model
    &&& spec.output_name == args.output_name
    &&& spec.output_dir@ == text::joined(stage_dir, "checkpoint"@)
    &&& method_of(args.method@, args.rank, args.alpha) == Some(spec.method)
    &&& spec.dataset_path == input.path
    &&& optim_of(args.optimizer@) == Some(spec.optimizer)
    &&& spec.lr == args.lr
    &&& spec.epochs == args.epochs
    &&& spec.batch_size == args.batch_size
    &&& spec.grad_accum == args.grad_accum
    &&& spec.seq_len == args.seq_len
    &&& spec.seed == args.seed
    &&& spec.quant@ == "Q4_K_M"@
    &&& spec.skip_convert
    &&& spec.nproc_per_node == 1
    &&& spec.nnodes == 1
    &&& spec.dpo_beta is None
}

impl SftTrain {
    /// Checks the numbers.
    pub fn check(&self, args: &Args) -> (r: Result<(), StageError>)
        ensures
            match r {
                Ok(_) => number_complaint(*args) is None,
                Err(e) => number_complaint(*args) is Some && e@ == StageErrorView::BadInput(
                    number_complaint(*args)->0,
                ),
            },
    {
        if args.epochs == 0 || args.batch_size == 0 || args.grad_accum == 0 {
            return Err(bad_input("epochs/batch_size/grad_accum must be > 0"));
        }
        if !args.lr.positive_finite() {
            return Err(
                bad_input(
                    "lr must be positive finite; got ".to_string().concat(
                        args.lr.shown.as_str(),
                    ).as_str(),
                ),
            );
        }
        Ok(())
    }

    /// Reads the names, and describes the run.
    pub fn spec(&self, input: &DatasetJsonl, args: &Args, stage_dir: &str) -> (r: Result<
        TrainSpec,
        StageError,
    >)
        ensures
            match r {
                Ok(spec) => name_complaint(*args) is None && is_spec_of(
                    spec,
                    *input,
                    *args,
                    stage_dir@,
                ),
                Err(e) => name_complaint(*args) is Some && e@ == StageErrorView::BadInput(
                    name_complaint(*args)->0,
                ),
            },
    {
        let method = match method(args.method.as_str(), args.rank, args.alpha) {
            Some(m) => m,
            None => {
                return Err(
                    bad_input(
                        "unknown method '".to_string().concat(args.method.as_str()).concat(
                            "', expected qlora|lora|full",
                        ).as_str(),
                    ),
                );
            },
        };
        let optimizer = match optim(args.optimizer.as_str()) {
            Some(o) => o,
            None => {
                return Err(
                    bad_input(
                        "unknown optimizer '".to_string().concat(args.optimizer.as_str()).concat(
                            "'",
                        ).as_str(),
                    ),
                );
            },
        };
        Ok(
            TrainSpec {
                base_model: args.base_model.clone(),
                output_name: args.output_name.clone(),
                output_dir: join(stage_dir, "checkpoint"),
                method,
                dataset_path: input.path.clone(),
                optimizer,
                lr: args.lr.clone(),
                epochs: args.epochs,
                batch_size: args.batch_size,
                grad_accum: args.grad_accum,
                seq_len: args.seq_len,
                seed: args.seed,
                quant: "Q4_K_M".to_string(),
                skip_convert: true,
                nproc_per_node: 1,
                nnodes: 1,
                dpo_beta: None,
            },
        )
    }

    /// What the engine's check of a description means for the stage: one out of
    /// range is a failed precondition.
    pub fn validated(&self, checked: Result<(), String>) -> (r: Result<(), StageError>)
        ensures
            r is Ok <==> checked is Ok,
            r matches Err(e) ==> e@ == StageErrorView::BadInput(checked->Err_0@),
    {
        match checked {
            Ok(_) => Ok(()),
            Err(m) => Err(StageError::BadInput(m)),
        }
    }

    /// The checkpoint that a run with this final loss left.
    pub fn checkpoint(
        &self,
        args: &Args,
        stage_dir: &str,
        final_loss: u32,
        content_hash: ContentHash,
    ) -> (c: HfCheckpoint)
        ensures
            c.path@ == text::joined(stage_dir@, "checkpoint"@),
            c.base_model == args.base_model,
            c.method_tag == args.method,
            c.content_hash == content_hash,
            c.final_loss == final_loss,
    {
        HfCheckpoint {
            path: join(stage_dir, "checkpoint"),
            base_model: args.base_model.clone(),
            method_tag: args.method.clone(),
            content_hash,
            final_loss,
        }
    }
}

/// No two names of methods, and no two names of optimizers, are the same text.
proof fn lemma_names_are_told_apart()
    ensures
        "qlora"@.len() == 5,
        "lora"@.len() == 4 && "lora"@[0] == 'l',
        "full"@.len() == 4 && "full"@[0] == 'f',
        "adam_w"@.len() == 6 && "adam_w"@[1] == 'd',
        "adamw"@.len() == 5,
        "adam_w8bit"@.len() == 10,
        "adamw8bit"@.len() == 9,
        "apollo_mini"@.len() == 11,
        "apollo_rank4"@.len() == 12,
        "apollo"@.len() == 6 && "apollo"@[1] == 'p',
{
    reveal_strlit("qlora");
    reveal_strlit("lora");
    reveal_strlit("full");
    reveal_strlit("adam_w");
    reveal_strlit("adamw");
    reveal_strlit("adam_w8bit");
    reveal_strlit("adamw8bit");
    reveal_strlit("apollo_mini");
    reveal_strlit("apollo_rank4");
    reveal_strlit("apollo");
}

/// A run is described with the method that its arguments name, at the rank and scale
/// that they give, and with the optimizer that they name.
pub proof fn lemma_a_run_trains_as_it_is_named(
    spec: TrainSpec,
    input: DatasetJsonl,
    args: Args,
    stage_dir: Seq<char>,
)
    requires
        is_spec_of(spec, input, args, stage_dir),
    ensures
        args.method@ == "lora"@ <==> spec.method is Lora,
        args.method@ == "qlora"@ <==> spec.method is QLora,
        args.method@ == "full"@ <==> spec.method is Full,
        args.method@ == "lora"@ ==> spec.method == (Method::Lora {
            rank: args.rank,
            alpha: args.alpha,
        }),
        args.method@ == "qlora"@ ==> spec.method == (Method::QLora {
            rank: args.rank,
            alpha: args.alpha,
        }),
        args.optimizer@ == "adam_w"@ || args.optimizer@ == "adamw"@ <==> spec.optimizer
            == Optim::AdamW,
        args.optimizer@ == "adam_w8bit"@ || args.optimizer@ == "adamw8bit"@ <==> spec.optimizer
            == Optim::AdamW8bit,
        args.optimizer@ == "apollo_mini"@ <==> spec.optimizer == Optim::ApolloMini,
        args.optimizer@ == "apollo_rank4"@ || args.optimizer@ == "apollo"@ <==> spec.optimizer
            == Optim::ApolloRank4,
{
    lemma_names_are_told_apart();
}

/// Every other argument of a run is in its description unchanged. The rest is fixed: one
/// process, nothing converted, and no preferences.
pub proof fn lemma_a_run_is_described_by_its_arguments(
    spec: TrainSpec,
    input: DatasetJsonl,
    args: Args,
    stage_dir: Seq<char>,
)
    requires
        is_spec_of(spec, input, args, stage_dir),
    ensures
        spec.dataset_path@ == input.path@,
        spec.base_model@ == args.base_model@,
        spec.output_name@ == args.output_name@,
        spec.output_dir@ == text::joined(stage_dir, "checkpoint"@),
        spec.lr == args.lr,
        spec.epochs == args.epochs,
        spec.batch_size == args.batch_size,
        spec.grad_accum == args.grad_accum,
        spec.seq_len == args.seq_len,
        spec.seed == args.seed,
        spec.quant@ == "Q4_K_M"@,
        spec.skip_convert,
        spec.nproc_per_node == 1 && spec.nnodes == 1,
        spec.dpo_beta is None,
{
}

/// Runs that name other methods are described with other methods, and so are runs with
/// an adapter of another rank or scale.
pub proof fn lemma_other_methods_are_other_runs(
    spec: TrainSpec,
    input: DatasetJsonl,
    args: Args,
    stage_dir: Seq<char>,
    other_spec: TrainSpec,
    other_input: DatasetJsonl,
    other: Args,
    other_dir: Seq<char>,
)
    requires
        is_spec_of(spec, input, args, stage_dir),
        is_spec_of(other_spec, other_input, other, other_dir),
        spec.method == other_spec.method,
    ensures
        args.method@ == other.method@,
        args.method@ != "full"@ ==> args.rank == other.rank && args.alpha == other.alpha,
{
    lemma_names_are_told_apart();
}

/// The names are accepted exactly where the method is one of three and the optimizer one
/// of seven; a name that is not is quoted, the method's before the optimizer's.
pub proof fn lemma_which_names_are_accepted(args: Args)
    ensures
        name_complaint(args) is None <==> {
            &&& {
                ||| args.method@ == "qlora"@
                ||| args.method@ == "lora"@
                ||| args.method@ == "full"@
            }
            &&& {
                ||| args.optimizer@ == "adam_w"@
                ||| args.optimizer@ == "adamw"@
                ||| args.optimizer@ == "adam_w8bit"@
                ||| args.optimizer@ == "adamw8bit"@
                ||| args.optimizer@ == "apollo_mini"@
                ||| args.optimizer@ == "apollo_rank4"@
                ||| args.optimizer@ == "apollo"@
            }
        },
        args.method@ != "qlora"@ && args.method@ != "lora"@ && args.method@ != "full"@ ==> (
        name_complaint(args) matches Some(m) && text::occurs_in(m, args.method@)
            && text::occurs_in(m, "unknown method '"@)),
        name_complaint(args) is Some && (args.method@ == "qlora"@ || args.method@ == "lora"@
            || args.method@ == "full"@) ==> text::occurs_in(
            name_complaint(args)->0,
            args.optimizer@,
        ) && text::occurs_in(name_complaint(args)->0, "unknown optimizer '"@),
{
    let a = "unknown method '"@;
    let b = "unknown optimizer '"@;
    text::lemma_a_part_occurs(a, args.method@, "', expected qlora|lora|full"@);
    text::lemma_the_ends_occur(a, args.method@);
    text::lemma_it_occurs_in_more(a + args.method@, a, "', expected qlora|lora|full"@);
    text::lemma_a_part_occurs(b, args.optimizer@, "'"@);
    text::lemma_the_ends_occur(b, args.optimizer@);
    text::lemma_it_occurs_in_more(b + args.optimizer@, b, "'"@);
}

/// The numbers are accepted exactly where every count is positive and the learning rate
/// is positive and finite.
pub proof fn lemma_which_numbers_are_accepted(args: Args)
    ensures
        number_complaint(args) is None <==> args.epochs > 0 && args.batch_size > 0
            && args.grad_accum > 0 && 0 < args.lr.bits < 0x7F80_0000,
        args.epochs == 0 || args.batch_size == 0 || args.grad_accum == 0 ==> number_complaint(args)
            == Some("epochs/batch_size/grad_accum must be > 0"@),
        args.epochs > 0 && args.batch_size > 0 && args.grad_accum > 0 && number_complaint(
            args,
        ) is Some ==> text::occurs_in(number_complaint(args)->0, args.lr.shown@),
{
    text::lemma_the_ends_occur("lr must be positive finite; got "@, args.lr.shown@);
}

} // verus!
