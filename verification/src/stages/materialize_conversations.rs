//! The stage `materialize_conversations`: a training set out of the recorded
//! conversations of a window of time.

use vstd::prelude::*;
use vstd::string::*;

use crate::artifact::{ContentHash, DatasetJsonl};
use crate::error::{bad_input, StageError, StageErrorView};
use crate::framework::Stage;
use crate::text;
use crate::text::{decimal_text, join};

verus! {

/// The name of the stage.
pub const NAME: &'static str = "materialize_conversations";

/// The stage.
pub struct MaterializeConversations;

impl Stage for MaterializeConversations {
    const NAME: &'static str = NAME;

    const SCHEMA: u32 = 1;

    const DETERMINISTIC: bool = true;
}

/// The arguments.
#[derive(Clone, Copy, Debug, PartialEq, Eq)]
pub struct Args {
    /// How far back to go. Zero is everything.
    pub since_seconds: u64,
}

/// What an export of conversations came to.
#[derive(Clone, Copy, Debug, PartialEq, Eq)]
pub struct DumpStats {
    pub n_conversations: u64,
    pub n_turns: u64,
    pub n_dropped_short: u64,
    pub n_dropped_filtered_below_min: u64,
    pub n_dropped_errors: u64,
    pub n_dropped_oversize: u64,
}

/// What is said where the window holds nothing of use.
pub open spec fn nothing_message(args: Args, s: DumpStats) -> Seq<char> {
    "no usable conversations in window (since "@ + text::decimal(args.since_seconds as nat)
        + "s); "@ + text::decimal(s.n_dropped_short as nat) + " short, "@ + text::decimal(
        s.n_dropped_filtered_below_min as nat,
    ) + " filtered, "@ + text::decimal(s.n_dropped_errors as nat) + " error msgs, "@
        + text::decimal(s.n_dropped_oversize as nat) + " oversize"@
}

impl MaterializeConversations {
    /// Where the export goes.
    pub fn output_path(&self, stage_dir: &str) -> (p: String)
        ensures
            p@ == text::joined(stage_dir@, "dataset.jsonl"@),
    {
        join(stage_dir, "dataset.jsonl")
    }

    /// Refuses an export without a conversation in it.
    pub fn check(&self, args: &Args, stats: &DumpStats) -> (r: Result<(), StageError>)
        ensures
            r is Ok <==> stats.n_conversations != 0,
            r matches Err(e) ==> e@ == StageErrorView::BadInput(nothing_message(*args, *stats)),
    {
        if stats.n_conversations == 0 {
            return Err(
                bad_input(
                    "no usable conversations in window (since ".to_string().concat(
                        decimal_text(args.since_seconds).as_str(),
                    ).concat("s); ").concat(decimal_text(stats.n_dropped_short).as_str()).concat(
                        " short, ",
                    ).concat(decimal_text(stats.n_dropped_filtered_below_min).as_str()).concat(
                        " filtered, ",
                    ).concat(decimal_text(stats.n_dropped_errors).as_str()).concat(
                        " error msgs, ",
                    ).concat(decimal_text(stats.n_dropped_oversize).as_str()).concat(
                        " oversize",
                    ).as_str(),
                ),
            );
        }
        Ok(())
    }

    /// The dataset that an export makes: an example is a turn.
    pub fn dataset(&self, stage_dir: &str, stats: &DumpStats, content_hash: ContentHash) -> (d:
        DatasetJsonl)
        requires
            stats.n_turns <= i64::MAX,
        ensures
            d.path@ == text::joined(stage_dir@, "dataset.jsonl"@),
            d.content_hash == content_hash,
            d.n_examples == stats.n_turns,
    {
        DatasetJsonl {
            path: self.output_path(stage_dir),
            content_hash,
            n_examples: stats.n_turns as i64,
        }
    }
}

/// What is said of an empty window gives the window and each count before its own name.
pub proof fn lemma_an_empty_window_is_explained(args: Args, s: DumpStats)
    ensures
        ({
            let m = nothing_message(args, s);
            &&& text::occurs_in(
                m,
                "no usable conversations in window (since "@ + text::decimal(
                    args.since_seconds as nat,
                ) + "s); "@,
            )
            &&& text::occurs_in(
                m,
                "s); "@ + text::decimal(s.n_dropped_short as nat) + " short, "@,
            )
            &&& text::occurs_in(
                m,
                " short, "@ + text::decimal(s.n_dropped_filtered_below_min as nat)
                    + " filtered, "@,
            )
            &&& text::occurs_in(
                m,
                " filtered, "@ + text::decimal(s.n_dropped_errors as nat) + " error msgs, "@,
            )
            &&& text::occurs_in(
                m,
                " error msgs, "@ + text::decimal(s.n_dropped_oversize as nat) + " oversize"@,
            )
        }),
{
    let l0 = "no usable conversations in window (since "@;
    let w = text::decimal(args.since_seconds as nat);
    let a = text::decimal(s.n_dropped_short as nat);
    let b = text::decimal(s.n_dropped_filtered_below_min as nat);
    let c = text::decimal(s.n_dropped_errors as nat);
    let d = text::decimal(s.n_dropped_oversize as nat);
    let s1 = l0 + w + "s); "@;
    let s2 = s1 + a + " short, "@;
    let s3 = s2 + b + " filtered, "@;
    let s4 = s3 + c + " error msgs, "@;
    let p1 = s1;
    let p2 = "s); "@ + a + " short, "@;
    let p3 = " short, "@ + b + " filtered, "@;
    let p4 = " filtered, "@ + c + " error msgs, "@;
    text::lemma_the_ends_occur(p1, a);
    text::lemma_a_stretch_occurs(l0 + w, "s); "@, a, " short, "@);
    text::lemma_a_stretch_occurs(s1 + a, " short, "@, b, " filtered, "@);
    text::lemma_a_stretch_occurs(s2 + b, " filtered, "@, c, " error msgs, "@);
    text::lemma_a_stretch_occurs(s3 + c, " error msgs, "@, d, " oversize"@);
    text::lemma_it_occurs_in_more(s1 + a, p1, " short, "@);
    text::lemma_it_occurs_in_more(s2, p1, b);
    text::lemma_it_occurs_in_more(s2 + b, p1, " filtered, "@);
    text::lemma_it_occurs_in_more(s3, p1, c);
    text::lemma_it_occurs_in_more(s3 + c, p1, " error msgs, "@);
    text::lemma_it_occurs_in_more(s4, p1, d);
    text::lemma_it_occurs_in_more(s4 + d, p1, " oversize"@);
    text::lemma_it_occurs_in_more(s2, p2, b);
    text::lemma_it_occurs_in_more(s2 + b, p2, " filtered, "@);
    text::lemma_it_occurs_in_more(s3, p2, c);
    text::lemma_it_occurs_in_more(s3 + c, p2, " error msgs, "@);
    text::lemma_it_occurs_in_more(s4, p2, d);
    text::lemma_it_occurs_in_more(s4 + d, p2, " oversize"@);
    text::lemma_it_occurs_in_more(s3, p3, c);
    text::lemma_it_occurs_in_more(s3 + c, p3, " error msgs, "@);
    text::lemma_it_occurs_in_more(s4, p3, d);
    text::lemma_it_occurs_in_more(s4 + d, p3, " oversize"@);
    text::lemma_it_occurs_in_more(s4, p4, d);
    text::lemma_it_occurs_in_more(s4 + d, p4, " oversize"@);
}

} // verus!
