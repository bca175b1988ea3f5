//! The trainer's status lines: one JSON object per line of its output.

use blut::protocol;
use vstd::prelude::*;

use crate::text;

verus! {

/// One progress event of the trainer. A single-precision number is held by its
/// IEEE-754 bits.
#[derive(Debug, PartialEq, Eq)]
pub enum StatusUpdate {
    /// A training step was completed.
    Step { step: u32, total: u32, loss: u32, lr: u32, vram_mb: u32 },
    /// An evaluation pass ran at this training step.
    Eval { step: u32, eval_loss: u32 },
    /// A checkpoint was written.
    Saved { path: String },
    /// Final success.
    Done { final_loss: u32, checkpoint_dir: String },
    /// Final failure.
    Failed { error: String },
    /// A sign of life, without training semantics.
    Heartbeat { phase: Option<String>, vram_mb: Option<u32> },
}

/// What a [`StatusUpdate`] says.
#[verifier::ext_equal]
pub enum StatusView {
    Step { step: u32, total: u32, loss: u32, lr: u32, vram_mb: u32 },
    Eval { step: u32, eval_loss: u32 },
    Saved { path: Seq<char> },
    Done { final_loss: u32, checkpoint_dir: Seq<char> },
    Failed { error: Seq<char> },
    Heartbeat { phase: Option<Seq<char>>, vram_mb: Option<u32> },
}

impl View for StatusUpdate {
    type V = StatusView;

    open spec fn view(&self) -> StatusView {
        match *self {
            StatusUpdate::Step { step, total, loss, lr, vram_mb } => StatusView::Step {
                step,
                total,
                loss,
                lr,
                vram_mb,
            },
            StatusUpdate::Eval { step, eval_loss } => StatusView::Eval { step, eval_loss },
            StatusUpdate::Saved { path } => StatusView::Saved { path: path@ },
            StatusUpdate::Done { final_loss, checkpoint_dir } => StatusView::Done {
                final_loss,
                checkpoint_dir: checkpoint_dir@,
            },
            StatusUpdate::Failed { error } => StatusView::Failed { error: error@ },
            StatusUpdate::Heartbeat { phase, vram_mb } => StatusView::Heartbeat {
                phase: text::optional(phase),
                vram_mb,
            },
        }
    }
}

/// The status update that a line holds for `serde_json`, if it holds one.
pub uninterp spec fn status_of_line(line: Seq<char>) -> Option<StatusView>;

/// What an optional update says.
pub open spec fn said(update: Option<StatusUpdate>) -> Option<StatusView> {
    match update {
        Some(u) => Some(u@),
        None => None,
    }
}

/// Calls `serde_json::from_str` for `blut::protocol::StatusUpdate` and hands the
/// value out as the library's own type, number for bits and path for text.
/// Which line holds which update is named by `status_of_line`, not spelled out.
#[verifier::external_body]
pub(crate) fn parse_status(line: &str) -> (r: Option<StatusUpdate>)
    ensures
        said(r) == status_of_line(line@),
{
    Some(match serde_json::from_str(line).ok()? {
        protocol::StatusUpdate::Step { step, total, loss, lr, vram_mb } =>
            StatusUpdate::Step { step, total, loss: loss.to_bits(), lr: lr.to_bits(), vram_mb },
        protocol::StatusUpdate::Eval { step, eval_loss } =>
            StatusUpdate::Eval { step, eval_loss: eval_loss.to_bits() },
        protocol::StatusUpdate::Saved { path } => StatusUpdate::Saved { path: path.display().to_string() },
        protocol::StatusUpdate::Done { final_loss: x, checkpoint_dir: d } =>
            StatusUpdate::Done { final_loss: x.to_bits(), checkpoint_dir: d.display().to_string() },
        protocol::StatusUpdate::Failed { error } => StatusUpdate::Failed { error },
        protocol::StatusUpdate::Heartbeat { phase, vram_mb } => StatusUpdate::Heartbeat { phase, vram_mb },
    })
}

/// An update is seen as what it says, part by part.
pub proof fn lemma_updates_are_seen_as_they_are(u: StatusUpdate)
    ensures
        said(Some(u)) == Some(u@),
        said(None) is None,
        u matches StatusUpdate::Step { step, total, loss, lr, vram_mb } ==> u@ == (
        StatusView::Step { step, total, loss, lr, vram_mb }),
        u matches StatusUpdate::Eval { step, eval_loss } ==> u@ == (StatusView::Eval {
            step,
            eval_loss,
        }),
        u matches StatusUpdate::Saved { path } ==> u@ == (StatusView::Saved { path: path@ }),
        u matches StatusUpdate::Done { final_loss, checkpoint_dir } ==> u@ == (StatusView::Done {
            final_loss,
            checkpoint_dir: checkpoint_dir@,
        }),
        u matches StatusUpdate::Failed { error } ==> u@ == (StatusView::Failed { error: error@ }),
        u is Heartbeat <==> u@ is Heartbeat,
{
}

} // verus!
