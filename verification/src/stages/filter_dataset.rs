//! The stage `filter_dataset`: keeps the examples that meet the thresholds.
//!
//! An example is one line of JSON with an array `messages`. It is dropped where
//! it has too few messages, where a message is too long, or, on request, where a
//! tool reported an error. A line that is no JSON is counted apart, so that an
//! upstream fault does not pass for a predicate.

use vstd::prelude::*;
use vstd::string::*;

use crate::artifact::{ContentHash, DatasetJsonl};
use crate::error::{bad_input, StageError, StageErrorView};
use crate::framework::Stage;
use crate::json;
use crate::json::{parse, Json, JsonView};
use crate::jsonl;
use crate::text;
use crate::text::{add_text, blank, decimal_int_text, decimal_text, has_text, join, same};

verus! {

/// The name of the stage.
pub const NAME: &'static str = "filter_dataset";

/// The stage.
pub struct FilterDataset;

impl Stage for FilterDataset {
    const NAME: &'static str = NAME;

    const SCHEMA: u32 = 1;

    const DETERMINISTIC: bool = true;
}

/// The arguments. A threshold of zero is no threshold.
#[derive(Clone, Copy, Debug, PartialEq, Eq)]
pub struct Args {
    /// An example has at least this many messages.
    pub min_turns: u32,
    /// No message has more bytes of UTF-8 than this.
    pub max_msg_bytes: u32,
    /// Drop an example in which a tool reported an error.
    pub drop_errors: bool,
}

/// What becomes of a line.
#[derive(Clone, Copy, Debug, PartialEq, Eq, Structural)]
pub enum Verdict {
    Keep,
    DropPredicate,
    DropMalformed,
}

/// The string under `key` of a message; empty where there is none.
pub open spec fn text_under(message: JsonView, key: Seq<char>) -> Seq<char> {
    match json::member(message, key) {
        Some(JsonView::Text(s)) => s,
        _ => Seq::empty(),
    }
}

/// A text that speaks of an error.
pub open spec fn speaks_of_error(s: Seq<char>) -> bool {
    text::occurs_in(s, "Error"@) || text::occurs_in(s, "error"@) || text::occurs_in(s, "Traceback"@)
}

/// A message that drops its example.
pub open spec fn is_offending(message: JsonView, args: Args) -> bool {
    let content = text_under(message, "content"@);
    ||| args.max_msg_bytes > 0 && vstd::utf8::encode_utf8(content).len() > args.max_msg_bytes
    ||| args.drop_errors && text_under(message, "role"@) == "tool"@ && speaks_of_error(content)
}

/// The verdict on what a line was read as.
pub open spec fn verdict_on(value: Result<JsonView, Seq<char>>, args: Args) -> Verdict {
    match value {
        Err(_) => Verdict::DropMalformed,
        Ok(v) => match json::member(v, "messages"@) {
            Some(JsonView::Array(messages)) => if messages.len() < args.min_turns || (exists|i: int|
                0 <= i < messages.len() && is_offending(#[trigger] messages[i], args)) {
                Verdict::DropPredicate
            } else {
                Verdict::Keep
            },
            _ => Verdict::DropPredicate,
        },
    }
}

/// The verdict on a line.
pub open spec fn verdict_of(line: Seq<char>, args: Args) -> Verdict {
    verdict_on(json::json_of_text(line), args)
}

/// A line that is kept.
pub open spec fn is_kept(line: Seq<char>, args: Args) -> bool {
    !text::is_blank(line) && verdict_of(line, args) == Verdict::Keep
}

/// A line that is no JSON.
pub open spec fn is_malformed(line: Seq<char>, args: Args) -> bool {
    !text::is_blank(line) && verdict_of(line, args) == Verdict::DropMalformed
}

/// The string under `key` of a message.
fn text_at<'a>(message: &'a Json, key: &str) -> (s: &'a str)
    ensures
        s@ == text_under(message@, key@),
{
    proof {
        reveal_strlit("");
    }
    match message.get(key) {
        Some(v) => match v.as_str() {
            Some(s) => s,
            None => {
                assert(""@ =~= Seq::<char>::empty());
                ""
            },
        },
        None => {
            assert(""@ =~= Seq::<char>::empty());
            ""
        },
    }
}

/// Whether a message drops its example.
fn offends(message: &Json, args: &Args) -> (r: bool)
    ensures
        r == is_offending(message@, *args),
{
    let content = text_at(message, "content");
    if args.max_msg_bytes > 0 && content.as_bytes().len() > args.max_msg_bytes as usize {
        return true;
    }
    if args.drop_errors {
        let role = text_at(message, "role");
        if same(role, "tool") && (has_text(content, "Error") || has_text(content, "error")
            || has_text(content, "Traceback")) {
            return true;
        }
    }
    false
}

/// The verdict on what a line was read as.
pub fn classify_value(value: &Result<Json, String>, args: &Args) -> (v: Verdict)
    ensures
        v == verdict_on(json::read_as(*value), *args),
{
    let v = match value {
        Err(_) => {
            return Verdict::DropMalformed;
        },
        Ok(v) => v,
    };
    let messages = match v.get("messages") {
        Some(Json::Array(m)) => m,
        _ => {
            return Verdict::DropPredicate;
        },
    };
    let ghost inner = json::member(v@, "messages"@)->0->Array_0;
    assert(inner.len() == messages@.len());
    if messages.len() < args.min_turns as usize {
        return Verdict::DropPredicate;
    }
    let mut i: usize = 0;
    while i < messages.len()
        invariant
            i <= messages.len(),
            inner.len() == messages@.len(),
            forall|k: int| 0 <= k < messages@.len() ==> inner[k] == (#[trigger] messages@[k])@,
            json::member(v@, "messages"@) == Some(JsonView::Array(inner)),
            *value == Ok::<Json, String>(*v),
            inner.len() >= args.min_turns,
            forall|k: int| 0 <= k < i ==> !is_offending(#[trigger] inner[k], *args),
        decreases messages.len() - i,
    {
        assert(inner[i as int] == messages@[i as int]@);
        if offends(&messages[i], args) {
            assert(is_offending(inner[i as int], *args));
            return Verdict::DropPredicate;
        }
        i += 1;
    }
    Verdict::Keep
}

/// The verdict on a line.
pub fn classify(line: &str, args: &Args) -> (v: Verdict)
    ensures
        v == verdict_of(line@, *args),
{
    let value = parse(line);
    classify_value(&value, args)
}

/// The lines that were kept, and how many were no JSON.
#[derive(Debug, PartialEq, Eq)]
pub struct Filtered {
    pub kept: Vec<String>,
    pub malformed: u64,
}

/// What is said where nothing was kept.
pub open spec fn all_removed_message(n_examples: int, args: Args, malformed: nat) -> Seq<char> {
    "filter_dataset removed all "@ + text::decimal_int(n_examples) + " examples (min_turns="@
        + text::decimal(args.min_turns as nat) + ", max_msg_bytes="@ + text::decimal(
        args.max_msg_bytes as nat,
    ) + ", drop_errors="@ + (if args.drop_errors {
        "true"@
    } else {
        "false"@
    }) + ", malformed="@ + text::decimal(malformed) + ")"@
}

fn all_removed(n_examples: i64, args: &Args, malformed: u64) -> (s: String)
    ensures
        s@ == all_removed_message(n_examples as int, *args, malformed as nat),
{
    let drop_errors: &str = if args.drop_errors {
        "true"
    } else {
        "false"
    };
    "filter_dataset removed all ".to_string().concat(decimal_int_text(n_examples).as_str()).concat(
        " examples (min_turns=",
    ).concat(decimal_text(args.min_turns as u64).as_str()).concat(", max_msg_bytes=").concat(
        decimal_text(args.max_msg_bytes as u64).as_str(),
    ).concat(", drop_errors=").concat(drop_errors).concat(", malformed=").concat(
        decimal_text(malformed).as_str(),
    ).concat(")")
}

/// The lines of a dataset that are kept.
pub open spec fn kept_of(lines: Seq<Seq<char>>, args: Args) -> Seq<Seq<char>> {
    lines.filter(|l: Seq<char>| is_kept(l, args))
}

/// The lines of a dataset that are no JSON.
pub open spec fn malformed_of(lines: Seq<Seq<char>>, args: Args) -> Seq<Seq<char>> {
    lines.filter(|l: Seq<char>| is_malformed(l, args))
}

impl FilterDataset {
    /// Filters the lines of a dataset. That nothing is left is a failed
    /// precondition.
    pub fn run(&self, lines: &Vec<String>, n_examples: i64, args: &Args) -> (r: Result<
        Filtered,
        StageError,
    >)
        ensures
            match r {
                Ok(f) => {
                    &&& kept_of(text::texts(lines@), *args).len() > 0
                    &&& text::texts(f.kept@) == kept_of(text::texts(lines@), *args)
                    &&& f.malformed == malformed_of(text::texts(lines@), *args).len()
                },
                Err(e) => {
                    &&& kept_of(text::texts(lines@), *args).len() == 0
                    &&& e@ == StageErrorView::BadInput(
                        all_removed_message(
                            n_examples as int,
                            *args,
                            malformed_of(text::texts(lines@), *args).len(),
                        ),
                    )
                },
            },
    {
        let ghost all = text::texts(lines@);
        let ghost keep = |l: Seq<char>| is_kept(l, *args);
        let ghost broken = |l: Seq<char>| is_malformed(l, *args);
        let mut kept: Vec<String> = Vec::new();
        let mut malformed: u64 = 0;
        let mut i: usize = 0;
        proof {
            reveal(Seq::filter);
            assert(text::texts(kept@) =~= Seq::<Seq<char>>::empty());
        }
        while i < lines.len()
            invariant
                i <= lines.len(),
                all == text::texts(lines@),
                keep == (|l: Seq<char>| is_kept(l, *args)),
                broken == (|l: Seq<char>| is_malformed(l, *args)),
                text::texts(kept@) == all.take(i as int).filter(keep),
                malformed == all.take(i as int).filter(broken).len(),
                malformed <= i,
            decreases lines.len() - i,
        {
            proof {
                reveal(Seq::filter);
                assert(all.take(i + 1).drop_last() =~= all.take(i as int));
                assert(all[i as int] == lines@[i as int]@);
            }
            if !blank(lines[i].as_str()) {
                match classify(lines[i].as_str(), args) {
                    Verdict::Keep => add_text(&mut kept, lines[i].as_str()),
                    Verdict::DropPredicate => {},
                    Verdict::DropMalformed => malformed += 1,
                }
            }
            i += 1;
        }
        assert(all.take(i as int) =~= all);
        assert(kept@.len() == text::texts(kept@).len());
        if kept.len() == 0 {
            return Err(bad_input(all_removed(n_examples, args, malformed).as_str()));
        }
        Ok(Filtered { kept, malformed })
    }

    /// The dataset that the kept lines make.
    pub fn dataset(&self, stage_dir: &str, filtered: &Filtered, content_hash: ContentHash) -> (d:
        DatasetJsonl)
        requires
            filtered.kept.len() <= i64::MAX,
        ensures
            d.path@ == text::joined(stage_dir@, "filtered.jsonl"@),
            d.content_hash == content_hash,
            d.n_examples == filtered.kept.len(),
    {
        DatasetJsonl {
            path: join(stage_dir, "filtered.jsonl"),
            content_hash,
            n_examples: filtered.kept.len() as i64,
        }
    }
}

/// Filtering is stable: what a filter kept it keeps again, all of it and in the
/// same order, and none of it is malformed.
pub proof fn lemma_filtering_twice_changes_nothing(lines: Seq<Seq<char>>, args: Args)
    ensures
        kept_of(kept_of(lines, args), args) == kept_of(lines, args),
        malformed_of(kept_of(lines, args), args).len() == 0,
{
    let keep = |l: Seq<char>| is_kept(l, args);
    let broken = |l: Seq<char>| is_malformed(l, args);
    let kept = kept_of(lines, args);
    assert forall|i: int| 0 <= i < kept.len() implies #[trigger] keep(kept[i]) by {
        lines.lemma_filter_pred(keep, i);
    }
    jsonl::lemma_filter_keeps_all(kept, keep);
    if kept.filter(broken).len() > 0 {
        kept.lemma_filter_pred(broken, 0);
        let l = kept.filter(broken)[0];
        assert(kept.contains(l)) by {
            kept.lemma_filter_contains_rev(broken, l);
        }
        let i = choose|i: int| 0 <= i < kept.len() && kept[i] == l;
        assert(keep(kept[i]));
    }
}

/// Without thresholds every example is kept: only lines that are no JSON, or
/// hold no array of messages, are dropped.
pub proof fn lemma_no_threshold_keeps_every_example(line: Seq<char>, args: Args)
    requires
        args.min_turns == 0,
        args.max_msg_bytes == 0,
        !args.drop_errors,
    ensures
        verdict_of(line, args) == Verdict::Keep <==> (json::json_of_text(line) matches Ok(v)
            && json::member(v, "messages"@) matches Some(JsonView::Array(m))),
{
}

/// The content of a message is within the bound, where there is one.
pub open spec fn fits(message: JsonView, args: Args) -> bool {
    args.max_msg_bytes > 0 ==> (json::member(message, "content"@) matches Some(JsonView::Text(c))
        ==> vstd::utf8::encode_utf8(c).len() <= args.max_msg_bytes)
}

/// A tool reports an error in a message: its content holds one of three words.
pub open spec fn reports_an_error(message: JsonView) -> bool {
    &&& json::member(message, "role"@) == Some(JsonView::Text("tool"@))
    &&& json::member(message, "content"@) matches Some(JsonView::Text(c)) && {
        ||| text::occurs_in(c, "Error"@)
        ||| text::occurs_in(c, "error"@)
        ||| text::occurs_in(c, "Traceback"@)
    }
}

/// An example is kept exactly where it has enough messages and every one of them, at
/// whatever place, is within the bound and, on request, reports no error of a tool.
pub proof fn lemma_a_kept_example_is_sound_at_every_place(
    v: JsonView,
    messages: Seq<JsonView>,
    args: Args,
)
    requires
        json::member(v, "messages"@) == Some(JsonView::Array(messages)),
    ensures
        verdict_on(Ok(v), args) == Verdict::Keep <==> {
            &&& messages.len() >= args.min_turns
            &&& forall|i: int| 0 <= i < messages.len() ==> fits(#[trigger] messages[i], args)
            &&& args.drop_errors ==> forall|i: int|
                0 <= i < messages.len() ==> !reports_an_error(#[trigger] messages[i])
        },
        verdict_on(Ok(v), args) != Verdict::DropMalformed,
{
    reveal_strlit("tool");
    reveal_strlit("Error");
    reveal_strlit("error");
    reveal_strlit("Traceback");
    assert(vstd::utf8::encode_utf8(Seq::<char>::empty()).len() == 0);
    assert(!text::occurs_in(Seq::empty(), "Error"@));
    assert(!text::occurs_in(Seq::empty(), "error"@));
    assert(!text::occurs_in(Seq::empty(), "Traceback"@));
    assert forall|i: int| 0 <= i < messages.len() implies (is_offending(
        #[trigger] messages[i],
        args,
    ) <==> !fits(messages[i], args) || (args.drop_errors && reports_an_error(messages[i]))) by {}
}

/// A text that was read is never malformed, one that could not be read always is, and a
/// value without an array of messages is dropped whatever the thresholds.
pub proof fn lemma_only_what_cannot_be_read_is_malformed(
    value: Result<JsonView, Seq<char>>,
    args: Args,
)
    ensures
        verdict_on(value, args) == Verdict::DropMalformed <==> value is Err,
        value matches Ok(v) && !(json::member(v, "messages"@) matches Some(JsonView::Array(m)))
            ==> verdict_on(value, args) == Verdict::DropPredicate,
{
}

/// The verdict depends on which messages an example has, not on their order.
pub proof fn lemma_the_order_of_messages_is_indifferent(
    v: JsonView,
    w: JsonView,
    messages: Seq<JsonView>,
    reordered: Seq<JsonView>,
    args: Args,
)
    requires
        json::member(v, "messages"@) == Some(JsonView::Array(messages)),
        json::member(w, "messages"@) == Some(JsonView::Array(reordered)),
        messages.to_multiset() == reordered.to_multiset(),
    ensures
        verdict_on(Ok(v), args) == verdict_on(Ok(w), args),
{
    broadcast use vstd::seq_lib::group_to_multiset_ensures;

    assert(messages.to_multiset().len() == messages.len());
    assert(reordered.to_multiset().len() == reordered.len());
    assert forall|i: int| 0 <= i < messages.len() implies reordered.contains(
        #[trigger] messages[i],
    ) by {
        assert(messages.contains(messages[i]));
        assert(reordered.to_multiset().count(messages[i]) > 0);
    }
    assert forall|i: int| 0 <= i < reordered.len() implies messages.contains(
        #[trigger] reordered[i],
    ) by {
        assert(reordered.contains(reordered[i]));
        assert(messages.to_multiset().count(reordered[i]) > 0);
    }
    if exists|i: int| 0 <= i < messages.len() && is_offending(#[trigger] messages[i], args) {
        let i = choose|i: int|
            0 <= i < messages.len() && is_offending(#[trigger] messages[i], args);
        let k = choose|k: int| 0 <= k < reordered.len() && reordered[k] == messages[i];
        assert(is_offending(reordered[k], args));
    }
    if exists|i: int| 0 <= i < reordered.len() && is_offending(#[trigger] reordered[i], args) {
        let i = choose|i: int|
            0 <= i < reordered.len() && is_offending(#[trigger] reordered[i], args);
        let k = choose|k: int| 0 <= k < messages.len() && messages[k] == reordered[i];
        assert(is_offending(messages[k], args));
    }
}

/// Stricter thresholds keep less: what they keep, looser ones keep too.
pub proof fn lemma_stricter_thresholds_keep_less(
    value: Result<JsonView, Seq<char>>,
    strict: Args,
    loose: Args,
)
    requires
        loose.min_turns <= strict.min_turns,
        loose.max_msg_bytes == 0 || 0 < strict.max_msg_bytes <= loose.max_msg_bytes,
        loose.drop_errors ==> strict.drop_errors,
    ensures
        verdict_on(value, strict) == Verdict::Keep ==> verdict_on(value, loose) == Verdict::Keep,
{
    match value {
        Ok(v) => match json::member(v, "messages"@) {
            Some(JsonView::Array(messages)) => {
                assert forall|i: int|
                    0 <= i < messages.len() && is_offending(
                        #[trigger] messages[i],
                        loose,
                    ) implies is_offending(messages[i], strict) by {}
            },
            _ => {},
        },
        Err(_) => {},
    }
}

/// What a filter keeps are lines of the dataset, in their order, and every line is kept
/// or not by itself: the lines of two datasets, one behind the other, are filtered as
/// each of the two is. A line that is kept is not blank, was read, and is sound.
pub proof fn lemma_every_line_is_judged_by_itself(
    a: Seq<Seq<char>>,
    b: Seq<Seq<char>>,
    line: Seq<char>,
    args: Args,
)
    ensures
        kept_of(a + b, args) == kept_of(a, args) + kept_of(b, args),
        malformed_of(a + b, args) == malformed_of(a, args) + malformed_of(b, args),
        kept_of(seq![line], args) == (if !text::is_blank(line) && verdict_on(
            json::json_of_text(line),
            args,
        ) == Verdict::Keep {
            seq![line]
        } else {
            Seq::empty()
        }),
        malformed_of(seq![line], args) == (if !text::is_blank(line) && json::json_of_text(
            line,
        ) is Err {
            seq![line]
        } else {
            Seq::empty()
        }),
{
    let keep = |l: Seq<char>| is_kept(l, args);
    let broken = |l: Seq<char>| is_malformed(l, args);
    Seq::filter_distributes_over_add(a, b, keep);
    Seq::filter_distributes_over_add(a, b, broken);
    reveal(Seq::filter);
    let one = seq![line];
    assert(one.drop_last() =~= Seq::<Seq<char>>::empty());
    assert(Seq::<Seq<char>>::empty().filter(keep) =~= Seq::<Seq<char>>::empty());
    assert(Seq::<Seq<char>>::empty().filter(broken) =~= Seq::<Seq<char>>::empty());
    assert(one.filter(keep) =~= if keep(line) {
        one
    } else {
        Seq::empty()
    });
    assert(one.filter(broken) =~= if broken(line) {
        one
    } else {
        Seq::empty()
    });
}

/// What is said where nothing was kept names each threshold and each count behind its own
/// name.
pub proof fn lemma_an_empty_result_is_explained(n_examples: int, args: Args, malformed: nat)
    ensures
        ({
            let m = all_removed_message(n_examples, args, malformed);
            &&& text::occurs_in(
                m,
                " examples (min_turns="@ + text::decimal(args.min_turns as nat)
                    + ", max_msg_bytes="@,
            )
            &&& text::occurs_in(
                m,
                ", max_msg_bytes="@ + text::decimal(args.max_msg_bytes as nat)
                    + ", drop_errors="@,
            )
            &&& text::occurs_in(m, ", malformed="@ + text::decimal(malformed) + ")"@)
        }),
{
    let s0 = "filter_dataset removed all "@ + text::decimal_int(n_examples);
    let t = text::decimal(args.min_turns as nat);
    let b = text::decimal(args.max_msg_bytes as nat);
    let d = if args.drop_errors {
        "true"@
    } else {
        "false"@
    };
    let k = text::decimal(malformed);
    let l1 = " examples (min_turns="@;
    let l2 = ", max_msg_bytes="@;
    let l3 = ", drop_errors="@;
    let l4 = ", malformed="@;
    let s1 = s0 + l1 + t + l2;
    let s2 = s1 + b + l3;
    let s3 = s2 + d + l4;
    let m = s3 + k + ")"@;
    text::lemma_a_stretch_occurs(s0, l1, t, l2);
    text::lemma_a_stretch_occurs(s0 + l1 + t, l2, b, l3);
    text::lemma_a_stretch_occurs(s2 + d, l4, k, ")"@);
    text::lemma_it_occurs_in_more(s1, l1 + t + l2, b);
    text::lemma_it_occurs_in_more(s1 + b, l1 + t + l2, l3);
    text::lemma_it_occurs_in_more(s2, l1 + t + l2, d);
    text::lemma_it_occurs_in_more(s2 + d, l1 + t + l2, l4);
    text::lemma_it_occurs_in_more(s3, l1 + t + l2, k);
    text::lemma_it_occurs_in_more(s3 + k, l1 + t + l2, ")"@);
    text::lemma_it_occurs_in_more(s2, l2 + b + l3, d);
    text::lemma_it_occurs_in_more(s2 + d, l2 + b + l3, l4);
    text::lemma_it_occurs_in_more(s3, l2 + b + l3, k);
    text::lemma_it_occurs_in_more(s3 + k, l2 + b + l3, ")"@);
}

} // verus!
