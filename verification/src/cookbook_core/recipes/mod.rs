//! The recipes of the core cookbook.

pub mod eval_only;
pub mod finetune_pretrained;
pub mod shared;
pub mod train_from_dataset;
