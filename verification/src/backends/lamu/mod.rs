//! The LAMU backend: `trainer.py` as a subprocess.

pub mod python_backend;
pub mod status;
