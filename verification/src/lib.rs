//! The decisions of the standard and core cookbooks of the BLUT engine.
//!
//! A cookbook is a set of stages (load, filter, split, train, merge, convert,
//! register, evaluate) and of recipes that wire them into plans. What a stage checks,
//! what it asks the outside world for, and what it makes of the answer is stated and
//! proved here. Files, processes and the network belong to the program around it.

pub mod artifact;
pub mod backends;
pub mod cookbook;
pub mod cookbook_core;
pub mod distributed;
pub mod error;
pub mod evaluator;
pub mod framework;
pub mod json;
pub mod jsonl;
pub mod number;
pub mod plan;
pub mod process;
pub mod recipes;
pub mod span;
pub mod spec;
pub mod stages;
pub mod text;
pub mod trainer;

pub use backends::lamu::python_backend::{PythonTrainBackend, TrainArtifact};
pub use backends::lamu::status::StatusUpdate;
pub use backends::{HfTrainerBackend, LamuTrainerBackend};
pub use cookbook::StandardCookbook;
pub use error::TrainError;
pub use framework::TrainingBackend;
pub use spec::{Method, Optim, TrainSpec};
