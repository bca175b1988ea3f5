//! The description of a training run, as `trainer.py` takes it.

use vstd::prelude::*;

use crate::number::Real;

verus! {

/// The fine-tuning method.
#[derive(Clone, Copy, Debug, PartialEq, Eq, Structural)]
pub enum Method {
    QLora { rank: u32, alpha: u32 },
    Lora { rank: u32, alpha: u32 },
    Full,
}

/// The optimizer.
#[derive(Clone, Copy, Debug, PartialEq, Eq, Structural)]
pub enum Optim {
    AdamW,
    AdamW8bit,
    ApolloMini,
    ApolloRank4,
}

/// A training run.
#[derive(Debug, PartialEq, Eq)]
pub struct TrainSpec {
    pub base_model: String,
    pub output_name: String,
    pub output_dir: String,
    pub method: Method,
    /// The file of training examples.
    pub dataset_path: String,
    pub optimizer: Optim,
    pub lr: Real,
    pub epochs: u32,
    pub batch_size: u32,
    pub grad_accum: u32,
    pub seq_len: u32,
    pub seed: u64,
    pub quant: String,
    pub skip_convert: bool,
    pub nproc_per_node: u32,
    pub nnodes: u32,
    /// The weight of the preference loss, where preferences are trained on.
    pub dpo_beta: Option<Real>,
}

} // verus!
