//! Which stages go with which backend, all in one place.
//!
//! A pure transform of data goes with every backend. A stage that drives the LAMU
//! trainer, or writes to the local registries, names its backends.

use vstd::prelude::*;

use crate::backends::{HfTrainerBackend, LamuTrainerBackend};
use crate::framework::{Compatible, TrainingBackend};
use crate::stages::convert_gguf::ConvertGguf;
use crate::stages::distill_train::DistillTrain;
use crate::stages::dpo_train::DpoTrain;
use crate::stages::eval_judge::EvalJudge;
use crate::stages::eval_lm_harness::EvalLmHarness;
use crate::stages::eval_loss::EvalLoss;
use crate::stages::filter_dataset::FilterDataset;
use crate::stages::materialize_conversations::MaterializeConversations;
use crate::stages::materialize_dataset_path::MaterializeDatasetPath;
use crate::stages::materialize_for_eval::MaterializeForEval;
use crate::stages::merge_lora::MergeLora;
use crate::stages::merge_reports::MergeReports;
use crate::stages::register_dataset::RegisterDataset;
use crate::stages::register_model::RegisterModel;
use crate::stages::sft_train::SftTrain;
use crate::stages::split_train_eval::SplitTrainEval;
use crate::stages::take_eval::TakeEval;
use crate::stages::take_train::TakeTrain;

verus! {

impl<B: TrainingBackend> Compatible<B> for FilterDataset {

}

impl<B: TrainingBackend> Compatible<B> for SplitTrainEval {

}

impl<B: TrainingBackend> Compatible<B> for TakeTrain {

}

impl<B: TrainingBackend> Compatible<B> for TakeEval {

}

impl<B: TrainingBackend> Compatible<B> for MaterializeForEval {

}

impl<B: TrainingBackend> Compatible<B> for EvalLoss {

}

impl<B: TrainingBackend> Compatible<B> for EvalLmHarness {

}

impl<B: TrainingBackend> Compatible<B> for EvalJudge {

}

impl<B: TrainingBackend> Compatible<B> for MergeReports {

}

impl<B: TrainingBackend> Compatible<B> for MergeLora {

}

impl Compatible<LamuTrainerBackend> for MaterializeConversations {

}

impl Compatible<LamuTrainerBackend> for MaterializeDatasetPath {

}

impl Compatible<LamuTrainerBackend> for RegisterDataset {

}

impl Compatible<LamuTrainerBackend> for SftTrain {

}

impl Compatible<LamuTrainerBackend> for DpoTrain {

}

impl Compatible<LamuTrainerBackend> for DistillTrain {

}

impl Compatible<LamuTrainerBackend> for ConvertGguf {

}

impl Compatible<LamuTrainerBackend> for RegisterModel {

}

impl Compatible<HfTrainerBackend> for MaterializeDatasetPath {

}

impl Compatible<HfTrainerBackend> for MaterializeConversations {

}

impl Compatible<HfTrainerBackend> for RegisterDataset {

}

impl Compatible<HfTrainerBackend> for ConvertGguf {

}

impl Compatible<HfTrainerBackend> for RegisterModel {

}

} // verus!
