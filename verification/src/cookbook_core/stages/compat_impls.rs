//! The stages of the core cookbook go with every backend.

use vstd::prelude::*;

use crate::cookbook_core::stages::evaluate_model::{
    EvaluateHeldOut, EvaluateLoadedDataset, EvaluateModel,
};
use crate::cookbook_core::stages::load_dataset::LoadDataset;
use crate::cookbook_core::stages::train_model::{TrainModel, TrainModelOnSplit};
use crate::framework::{Compatible, TrainingBackend};

verus! {

impl<B: TrainingBackend> Compatible<B> for LoadDataset {

}

impl<B: TrainingBackend> Compatible<B> for TrainModel {

}

impl<B: TrainingBackend> Compatible<B> for TrainModelOnSplit {

}

impl<B: TrainingBackend> Compatible<B> for EvaluateModel {

}

impl<B: TrainingBackend> Compatible<B> for EvaluateLoadedDataset {

}

impl<B: TrainingBackend> Compatible<B> for EvaluateHeldOut {

}

} // verus!
