//! The HuggingFace Trainer backend: a Python wrapper around
//! `transformers.Trainer` and `trl.DPOTrainer`, run in a managed environment.

pub mod requirements;
pub mod runner;
pub mod stages;
pub mod venv;

pub use runner::{DpoConfig, HfRunArtifact, HfTrainerJob, HfTrainerRunner, PeftConfig, StatusLine};
pub use stages::hf_dpo_train::HfDpoTrain;
pub use stages::hf_sft_train::HfSftTrain;
pub use venv::{ensure_venv, venv_root, VenvError};
