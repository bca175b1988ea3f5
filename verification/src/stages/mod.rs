//! The stages of the standard cookbook.

pub mod catalog;
mod compat_impls;
pub mod convert_gguf;
pub mod distill_train;
pub mod dpo_train;
pub mod eval_judge;
pub mod eval_lm_harness;
pub mod eval_loss;
pub mod evaluate_model;
pub mod filter_dataset;
pub mod materialize_conversations;
pub mod materialize_dataset_path;
pub mod materialize_for_eval;
pub mod merge_lora;
pub mod merge_reports;
pub mod register_dataset;
pub mod register_model;
pub mod sft_train;
pub mod split_train_eval;
pub mod take_eval;
pub mod take_train;
pub mod train_model;
pub mod util;
