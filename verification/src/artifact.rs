//! The typed values that pass between stages.

use vstd::prelude::*;

use crate::json::Json;

verus! {

/// A SHA-256 content hash.
#[derive(Clone, Copy, Debug, PartialEq, Eq)]
pub struct ContentHash(pub [u8; 32]);

/// The SHA-256 digest of some bytes.
pub uninterp spec fn content_digest(bytes: Seq<u8>) -> Seq<u8>;

/// Calls `blut::framework::artifact::ContentHash::of_bytes`, which hashes the bytes
/// with SHA-256. The digest is named by `content_digest`, not spelled out.
#[verifier::external_body]
pub(crate) fn digest(bytes: &[u8]) -> (h: ContentHash)
    ensures
        h.0@ == content_digest(bytes@),
{
    ContentHash(blut::framework::artifact::ContentHash::of_bytes(bytes).0)
}

/// A dataset on disk, one JSON example per line.
#[derive(Debug, PartialEq, Eq)]
pub struct DatasetJsonl {
    pub path: String,
    pub content_hash: ContentHash,
    pub n_examples: i64,
}

/// A dataset in two halves.
#[derive(Debug, PartialEq, Eq)]
pub struct DatasetSplit {
    pub train: DatasetJsonl,
    pub eval: DatasetJsonl,
}

/// A file of preference pairs.
#[derive(Debug, PartialEq, Eq)]
pub struct PreferenceJsonl {
    pub path: String,
    pub content_hash: ContentHash,
    pub n_pairs: i64,
}

/// A checkpoint directory. `final_loss` holds the bits of the single-precision
/// training loss.
#[derive(Debug, PartialEq, Eq)]
pub struct HfCheckpoint {
    pub path: String,
    pub base_model: String,
    pub method_tag: String,
    pub content_hash: ContentHash,
    pub final_loss: u32,
}

/// A converted model, and the name it was registered under, if it was.
#[derive(Debug, PartialEq, Eq)]
pub struct GgufModel {
    pub path: String,
    pub quant: String,
    pub content_hash: ContentHash,
    pub registered_as: Option<String>,
}

/// The outcome of an evaluation.
#[derive(Debug, PartialEq, Eq)]
pub struct EvalReport {
    pub path: String,
    pub evaluator: String,
    pub metrics: Json,
    pub content_hash: ContentHash,
}

impl Clone for DatasetJsonl {
    fn clone(&self) -> (r: Self)
        ensures
            r == *self,
    {
        DatasetJsonl {
            path: self.path.clone(),
            content_hash: self.content_hash,
            n_examples: self.n_examples,
        }
    }
}

impl Clone for HfCheckpoint {
    fn clone(&self) -> (r: Self)
        ensures
            r == *self,
    {
        HfCheckpoint {
            path: self.path.clone(),
            base_model: self.base_model.clone(),
            method_tag: self.method_tag.clone(),
            content_hash: self.content_hash,
            final_loss: self.final_loss,
        }
    }
}

} // verus!
