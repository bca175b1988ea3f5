//! The stage `register_model`: enters a model in the registry, and hands it on with
//! the name it was entered under.

use vstd::prelude::*;
use vstd::string::*;

use crate::artifact::GgufModel;
use crate::error::{StageError, StageErrorView};
use crate::framework::Stage;
use crate::stages::util;
use crate::stages::util::check_name;

verus! {

/// The name of the stage.
pub const NAME: &'static str = "register_model";

/// The stage.
pub struct RegisterModel;

impl Stage for RegisterModel {
    const NAME: &'static str = NAME;

    const SCHEMA: u32 = 1;

    const DETERMINISTIC: bool = true;
}

/// The arguments.
#[derive(Debug, PartialEq, Eq)]
pub struct Args {
    pub name: String,
    /// Notes kept with the entry.
    pub notes: String,
    /// The architecture tag.
    pub arch: String,
}

/// The architecture tag where none is given.
pub fn default_arch() -> (s: String)
    ensures
        s@ == "trained"@,
{
    "trained".to_string()
}

/// The format of a model's file.
#[derive(Clone, Copy, Debug, PartialEq, Eq, Structural)]
pub enum ModelFormat {
    Gguf,
    SafeTensors,
    Hf,
}

/// What serves a model.
#[derive(Clone, Copy, Debug, PartialEq, Eq, Structural)]
pub enum BackendType {
    LlamaCpp,
    Megakernel,
    Dflash,
}

/// What a model can do.
#[derive(Clone, Copy, Debug, PartialEq, Eq, Structural)]
pub enum Capability {
    Chat,
    Code,
    Reasoning,
    Vision,
    Embedding,
}

/// Whether a model can be used.
#[derive(Clone, Copy, Debug, PartialEq, Eq, Structural)]
pub enum ModelStatus {
    Available,
    Deprecated,
    Broken,
}

/// An entry of the registry. A size of zero is one that is not known; `params_b` holds
/// the bits of a single-precision number.
#[derive(Debug, PartialEq, Eq)]
pub struct Entry {
    pub name: String,
    pub path: String,
    pub format: ModelFormat,
    pub backend: BackendType,
    pub arch: String,
    pub params_b: u32,
    pub quant: String,
    pub vram_mb: u32,
    pub context_max: u32,
    pub capabilities: Vec<Capability>,
    pub notes: String,
    pub status: ModelStatus,
}

/// What the entries of all trained models share: a GGUF file for llama.cpp that can
/// chat, of unknown size, and free to use.
pub open spec fn is_of_a_trained_model(e: Entry) -> bool {
    &&& e.format == ModelFormat::Gguf
    &&& e.backend == BackendType::LlamaCpp
    &&& e.params_b == 0
    &&& e.vram_mb == 0
    &&& e.context_max == 0
    &&& e.capabilities@ == seq![Capability::Chat]
    &&& e.status == ModelStatus::Available
}

impl RegisterModel {
    /// Checks the name, and describes the entry.
    pub fn entry(&self, input: &GgufModel, args: &Args) -> (r: Result<Entry, StageError>)
        ensures
            match r {
                Ok(e) => {
                    &&& util::name_complaint(args.name@) is None
                    &&& is_of_a_trained_model(e)
                    &&& e.name == args.name
                    &&& e.path == input.path
                    &&& e.arch == args.arch
                    &&& e.quant == input.quant
                    &&& e.notes == args.notes
                },
                Err(e) => util::name_complaint(args.name@) is Some && e@
                    == StageErrorView::BadInput(util::name_complaint(args.name@)->0),
            },
    {
        match check_name(args.name.as_str()) {
            Ok(_) => {},
            Err(e) => {
                return Err(e);
            },
        }
        let capabilities: Vec<Capability> = vec![Capability::Chat];
        assert(capabilities@ =~= seq![Capability::Chat]);
        Ok(
            Entry {
                name: args.name.clone(),
                path: input.path.clone(),
                format: ModelFormat::Gguf,
                backend: BackendType::LlamaCpp,
                arch: args.arch.clone(),
                params_b: 0,
                quant: input.quant.clone(),
                vram_mb: 0,
                context_max: 0,
                capabilities,
                notes: args.notes.clone(),
                status: ModelStatus::Available,
            },
        )
    }

    /// What the registry's answer means: the model with its name, or a failure of
    /// the backend.
    pub fn registered(&self, input: GgufModel, args: &Args, entered: Result<(), String>) -> (r:
        Result<GgufModel, StageError>)
        ensures
            match r {
                Ok(m) => entered is Ok && m == (GgufModel {
                    registered_as: Some(args.name),
                    ..input
                }),
                Err(e) => entered is Err && e@ == StageErrorView::Backend(entered->Err_0@),
            },
    {
        match entered {
            Ok(_) => Ok(
                GgufModel {
                    path: input.path,
                    quant: input.quant,
                    content_hash: input.content_hash,
                    registered_as: Some(args.name.clone()),
                },
            ),
            Err(m) => Err(StageError::Backend(m)),
        }
    }
}

/// A trained model is entered as one that llama.cpp serves from a GGUF file, that can chat
/// and nothing else, that is free to use, and of which no size is claimed.
pub proof fn lemma_what_an_entry_claims(e: Entry)
    requires
        is_of_a_trained_model(e),
    ensures
        e.format == ModelFormat::Gguf,
        e.backend == BackendType::LlamaCpp,
        e.status == ModelStatus::Available,
        forall|c: Capability| #[trigger] e.capabilities@.contains(c) <==> c == Capability::Chat,
        e.params_b == 0 && e.vram_mb == 0 && e.context_max == 0,
{
    assert(e.capabilities@[0] == Capability::Chat);
}

} // verus!
