//! The stage `merge_reports`: one report out of three, with every report's metrics
//! under its evaluator and the headline numbers side by side.

use vstd::prelude::*;
use vstd::string::*;

use crate::artifact::{ContentHash, EvalReport};
use crate::error::{bad_input, StageError, StageErrorView};
use crate::framework::Stage;
use crate::json;
use crate::json::{add_entry, insert, object, Json, JsonView};
use crate::text;
use crate::text::{add_text, join};

verus! {

/// The name of the stage.
pub const NAME: &'static str = "merge_reports";

/// The stage.
pub struct MergeReports;

impl Stage for MergeReports {
    const NAME: &'static str = NAME;

    const SCHEMA: u32 = 1;

    const DETERMINISTIC: bool = true;
}

/// There are no arguments.
#[derive(Clone, Copy, Debug, PartialEq, Eq)]
pub struct Args {}

/// What is wrong with three reports, the first thing found.
pub open spec fn complaint(a: EvalReport, b: EvalReport, c: EvalReport) -> Option<Seq<char>> {
    if a.evaluator@.len() == 0 {
        Some("EvalReport[0].evaluator must be non-empty"@)
    } else if b.evaluator@.len() == 0 {
        Some("EvalReport[1].evaluator must be non-empty"@)
    } else if c.evaluator@.len() == 0 {
        Some("EvalReport[2].evaluator must be non-empty"@)
    } else {
        None
    }
}

/// The accuracies among some tasks, as numbers are written: those under `acc`.
pub open spec fn accuracies_among(tasks: Seq<(Seq<char>, JsonView)>) -> Seq<Seq<char>>
    decreases tasks.len(),
{
    if tasks.len() == 0 {
        Seq::empty()
    } else {
        let before = accuracies_among(tasks.drop_last());
        match json::member(tasks.last().1, "acc"@) {
            Some(JsonView::Number(n)) => before.push(n),
            _ => before,
        }
    }
}

/// The accuracies of a report's tasks.
pub open spec fn accuracies_of(metrics: JsonView) -> Seq<Seq<char>> {
    match json::member(metrics, "tasks"@) {
        Some(JsonView::Object(tasks)) => accuracies_among(tasks),
        _ => Seq::empty(),
    }
}

/// Entries with one more where there is a value for it.
pub open spec fn with_value(
    entries: Seq<(Seq<char>, JsonView)>,
    key: Seq<char>,
    value: Option<JsonView>,
) -> Seq<(Seq<char>, JsonView)> {
    match value {
        Some(v) => json::inserted(entries, key, v),
        None => entries,
    }
}

/// The headline numbers after one more report: its loss, its mean score, and the
/// mean accuracy of its tasks, each where there is one.
pub open spec fn summed_up(
    entries: Seq<(Seq<char>, JsonView)>,
    evaluator: Seq<char>,
    metrics: JsonView,
    mean_acc: JsonView,
) -> Seq<(Seq<char>, JsonView)> {
    let with_loss = with_value(
        entries,
        evaluator + ".loss"@,
        json::member(metrics, "loss"@),
    );
    let with_score = with_value(
        with_loss,
        evaluator + ".mean_score"@,
        json::member(metrics, "mean_score"@),
    );
    with_value(
        with_score,
        evaluator + ".mean_acc"@,
        if accuracies_of(metrics).len() > 0 {
            Some(mean_acc)
        } else {
            None
        },
    )
}

/// The metrics of a merged report. The last argument holds the mean accuracy of
/// each report, which counts only where the report has accuracies.
pub open spec fn merged(
    a: EvalReport,
    b: EvalReport,
    c: EvalReport,
    means: (JsonView, JsonView, JsonView),
) -> JsonView {
    let none = Seq::<(Seq<char>, JsonView)>::empty();
    let by_evaluator = json::inserted(
        json::inserted(
            json::inserted(none, a.evaluator@, a.metrics@),
            b.evaluator@,
            b.metrics@,
        ),
        c.evaluator@,
        c.metrics@,
    );
    let summary = summed_up(
        summed_up(
            summed_up(none, a.evaluator@, a.metrics@, means.0),
            b.evaluator@,
            b.metrics@,
            means.1,
        ),
        c.evaluator@,
        c.metrics@,
        means.2,
    );
    JsonView::Object(
        seq![
            ("by_evaluator"@, JsonView::Object(by_evaluator)),
            ("summary"@, JsonView::Object(summary)),
        ],
    )
}

/// The accuracies of a report's tasks, as numbers are written.
pub fn accuracies(metrics: &Json) -> (r: Vec<String>)
    ensures
        text::texts(r@) == accuracies_of(metrics@),
{
    let mut r: Vec<String> = Vec::new();
    assert(text::texts(r@) =~= Seq::<Seq<char>>::empty());
    match metrics.get("tasks") {
        Some(Json::Object(tasks)) => {
            let ghost all = json::entries_view(tasks@);
            assert(json::member(metrics@, "tasks"@)->0->Object_0 =~= all);
            let mut i: usize = 0;
            assert(all.take(0) =~= Seq::<(Seq<char>, JsonView)>::empty());
            while i < tasks.len()
                invariant
                    i <= tasks.len(),
                    all == json::entries_view(tasks@),
                    text::texts(r@) == accuracies_among(all.take(i as int)),
                decreases tasks.len() - i,
            {
                assert(all.take(i + 1).drop_last() =~= all.take(i as int));
                assert(all.take(i + 1).last() == (tasks@[i as int].0@, tasks@[i as int].1@));
                match tasks[i].1.get("acc") {
                    Some(Json::Number(n)) => add_text(&mut r, n.as_str()),
                    _ => {},
                }
                i += 1;
            }
            assert(all.take(i as int) =~= all);
        },
        _ => {},
    }
    r
}

/// Inserts a copy of the member `name` of the metrics, where there is one.
fn insert_member(
    entries: &mut Vec<(String, Json)>,
    evaluator: &str,
    suffix: &str,
    metrics: &Json,
    name: &str,
)
    ensures
        json::entries_view(final(entries)@) == with_value(
            json::entries_view(old(entries)@),
            evaluator@ + suffix@,
            json::member(metrics@, name@),
        ),
{
    match metrics.get(name) {
        Some(v) => {
            let key = evaluator.to_string().concat(suffix);
            insert(entries, key.as_str(), v.duplicate());
        },
        None => {},
    }
}

/// Adds the headline numbers of one report.
fn sum_up(entries: &mut Vec<(String, Json)>, report: &EvalReport, mean_acc: &Json)
    ensures
        json::entries_view(final(entries)@) == summed_up(
            json::entries_view(old(entries)@),
            report.evaluator@,
            report.metrics@,
            mean_acc@,
        ),
{
    let evaluator = report.evaluator.as_str();
    insert_member(entries, evaluator, ".loss", &report.metrics, "loss");
    insert_member(entries, evaluator, ".mean_score", &report.metrics, "mean_score");
    let accs = accuracies(&report.metrics);
    assert(text::texts(accs@).len() == accs@.len());
    if accs.len() > 0 {
        let key = evaluator.to_string().concat(".mean_acc");
        insert(entries, key.as_str(), mean_acc.duplicate());
    }
}

impl MergeReports {
    /// Refuses a report without an evaluator.
    pub fn check(&self, a: &EvalReport, b: &EvalReport, c: &EvalReport) -> (r: Result<
        (),
        StageError,
    >)
        ensures
            match r {
                Ok(_) => complaint(*a, *b, *c) is None,
                Err(e) => complaint(*a, *b, *c) is Some && e@ == StageErrorView::BadInput(
                    complaint(*a, *b, *c)->0,
                ),
            },
    {
        if a.evaluator.as_str().is_empty() {
            return Err(bad_input("EvalReport[0].evaluator must be non-empty"));
        }
        if b.evaluator.as_str().is_empty() {
            return Err(bad_input("EvalReport[1].evaluator must be non-empty"));
        }
        if c.evaluator.as_str().is_empty() {
            return Err(bad_input("EvalReport[2].evaluator must be non-empty"));
        }
        Ok(())
    }

    /// The metrics of the merged report, with the mean accuracy of each report.
    pub fn metrics(
        &self,
        a: &EvalReport,
        b: &EvalReport,
        c: &EvalReport,
        mean_a: &Json,
        mean_b: &Json,
        mean_c: &Json,
    ) -> (m: Json)
        ensures
            m@ == merged(*a, *b, *c, (mean_a@, mean_b@, mean_c@)),
    {
        let mut by_evaluator: Vec<(String, Json)> = Vec::new();
        assert(json::entries_view(by_evaluator@) =~= Seq::<(Seq<char>, JsonView)>::empty());
        insert(&mut by_evaluator, a.evaluator.as_str(), a.metrics.duplicate());
        insert(&mut by_evaluator, b.evaluator.as_str(), b.metrics.duplicate());
        insert(&mut by_evaluator, c.evaluator.as_str(), c.metrics.duplicate());
        let mut summary: Vec<(String, Json)> = Vec::new();
        assert(json::entries_view(summary@) =~= Seq::<(Seq<char>, JsonView)>::empty());
        sum_up(&mut summary, a, mean_a);
        sum_up(&mut summary, b, mean_b);
        sum_up(&mut summary, c, mean_c);
        let mut e: Vec<(String, Json)> = Vec::new();
        assert(json::entries_view(e@) =~= Seq::<(Seq<char>, JsonView)>::empty());
        add_entry(&mut e, "by_evaluator", object(by_evaluator));
        add_entry(&mut e, "summary", object(summary));
        assert(json::entries_view(e@) =~= merged(
            *a,
            *b,
            *c,
            (mean_a@, mean_b@, mean_c@),
        )->Object_0);
        object(e)
    }

    /// Where the merged report is written.
    pub fn report_path(&self, stage_dir: &str) -> (p: String)
        ensures
            p@ == text::joined(stage_dir@, "eval_summary.json"@),
    {
        join(stage_dir, "eval_summary.json")
    }

    /// The merged report.
    pub fn report(&self, stage_dir: &str, metrics: Json, content_hash: ContentHash) -> (r:
        EvalReport)
        ensures
            r.path@ == text::joined(stage_dir@, "eval_summary.json"@),
            r.evaluator@ == "merge_reports"@,
            r.metrics == metrics,
            r.content_hash == content_hash,
    {
        EvalReport {
            path: self.report_path(stage_dir),
            evaluator: "merge_reports".to_string(),
            metrics,
            content_hash,
        }
    }
}

/// Every report is found whole under its evaluator, but for one whose evaluator a
/// later report has too: the last report of an evaluator stays.
pub proof fn lemma_every_report_is_kept(
    a: EvalReport,
    b: EvalReport,
    c: EvalReport,
    means: (JsonView, JsonView, JsonView),
)
    ensures
        ({
            let kept = json::member(merged(a, b, c, means), "by_evaluator"@);
            &&& kept is Some
            &&& json::member(kept->0, c.evaluator@) == Some(c.metrics@)
            &&& b.evaluator@ != c.evaluator@ ==> json::member(kept->0, b.evaluator@) == Some(
                b.metrics@,
            )
            &&& a.evaluator@ != b.evaluator@ && a.evaluator@ != c.evaluator@ ==> json::member(
                kept->0,
                a.evaluator@,
            ) == Some(a.metrics@)
        }),
{
    let none = Seq::<(Seq<char>, JsonView)>::empty();
    let one = json::inserted(none, a.evaluator@, a.metrics@);
    let two = json::inserted(one, b.evaluator@, b.metrics@);
    json::lemma_lookup_inserted(none, a.evaluator@, a.metrics@, a.evaluator@);
    json::lemma_lookup_inserted(one, b.evaluator@, b.metrics@, a.evaluator@);
    json::lemma_lookup_inserted(two, c.evaluator@, c.metrics@, a.evaluator@);
    json::lemma_lookup_inserted(two, c.evaluator@, c.metrics@, b.evaluator@);
}

/// Three reports are accepted exactly where each names its evaluator.
pub proof fn lemma_every_report_needs_an_evaluator(a: EvalReport, b: EvalReport, c: EvalReport)
    ensures
        complaint(a, b, c) is None <==> a.evaluator@.len() > 0 && b.evaluator@.len() > 0
            && c.evaluator@.len() > 0,
        a.evaluator@.len() == 0 ==> complaint(a, b, c) == Some(
            "EvalReport[0].evaluator must be non-empty"@,
        ),
        a.evaluator@.len() > 0 && b.evaluator@.len() == 0 ==> complaint(a, b, c) == Some(
            "EvalReport[1].evaluator must be non-empty"@,
        ),
        a.evaluator@.len() > 0 && b.evaluator@.len() > 0 && c.evaluator@.len() == 0 ==> complaint(
            a,
            b,
            c,
        ) == Some("EvalReport[2].evaluator must be non-empty"@),
{
}

/// The accuracies are those of the tasks, in their order: a task adds the number under
/// `acc`, and none where there is no number.
pub proof fn lemma_every_task_adds_its_accuracy(
    a: Seq<(Seq<char>, JsonView)>,
    b: Seq<(Seq<char>, JsonView)>,
    task: (Seq<char>, JsonView),
)
    ensures
        accuracies_among(a + b) == accuracies_among(a) + accuracies_among(b),
        accuracies_among(seq![task]) == (match json::member(task.1, "acc"@) {
            Some(JsonView::Number(n)) => seq![n],
            _ => Seq::empty(),
        }),
        json::member(task.1, "tasks"@) is None ==> accuracies_of(task.1).len() == 0,
        json::member(task.1, "tasks"@) == Some(JsonView::Object(a)) ==> accuracies_of(task.1)
            == accuracies_among(a),
    decreases b.len(),
{
    let one = seq![task];
    assert(one.drop_last() =~= Seq::<(Seq<char>, JsonView)>::empty());
    assert(accuracies_among(one.drop_last()) =~= Seq::<Seq<char>>::empty());
    match json::member(task.1, "acc"@) {
        Some(JsonView::Number(n)) => {
            assert(Seq::<Seq<char>>::empty().push(n) =~= seq![n]);
        },
        _ => {},
    }
    if b.len() == 0 {
        assert(a + b =~= a);
        assert(accuracies_among(a) + accuracies_among(b) =~= accuracies_among(a));
    } else {
        lemma_every_task_adds_its_accuracy(a, b.drop_last(), task);
        assert((a + b).drop_last() =~= a + b.drop_last());
        assert((a + b).last() == b.last());
        assert(accuracies_among(a + b) =~= accuracies_among(a) + accuracies_among(b));
    }
}

/// The keys of the headline numbers are told apart: by the number, and by the evaluator.
proof fn lemma_headline_keys_differ(e: Seq<char>, other: Seq<char>)
    ensures
        e + ".loss"@ != other + ".mean_score"@,
        e + ".loss"@ != other + ".mean_acc"@,
        e + ".mean_score"@ != other + ".mean_acc"@,
        e + ".loss"@ == other + ".loss"@ ==> e == other,
        e + ".mean_score"@ == other + ".mean_score"@ ==> e == other,
        e + ".mean_acc"@ == other + ".mean_acc"@ ==> e == other,
{
    reveal_strlit(".loss");
    reveal_strlit(".mean_score");
    reveal_strlit(".mean_acc");
    assert((e + ".loss"@).last() == 's');
    assert((other + ".mean_score"@).last() == 'e');
    assert((e + ".mean_score"@).last() == 'e');
    assert((other + ".mean_acc"@).last() == 'c');
    let n = e.len() as int;
    if e + ".loss"@ == other + ".loss"@ {
        assert((e + ".loss"@).len() == (other + ".loss"@).len());
        assert((e + ".loss"@).take(n) =~= e);
        assert((other + ".loss"@).take(n) =~= other);
    }
    if e + ".mean_score"@ == other + ".mean_score"@ {
        assert((e + ".mean_score"@).len() == (other + ".mean_score"@).len());
        assert((e + ".mean_score"@).take(n) =~= e);
        assert((other + ".mean_score"@).take(n) =~= other);
    }
    if e + ".mean_acc"@ == other + ".mean_acc"@ {
        assert((e + ".mean_acc"@).len() == (other + ".mean_acc"@).len());
        assert((e + ".mean_acc"@).take(n) =~= e);
        assert((other + ".mean_acc"@).take(n) =~= other);
    }
}

/// What the headline numbers hold under a key after one more report.
proof fn lemma_one_report_is_summed_up(
    entries: Seq<(Seq<char>, JsonView)>,
    evaluator: Seq<char>,
    metrics: JsonView,
    mean: JsonView,
    other: Seq<char>,
)
    ensures
        ({
            let after = summed_up(entries, evaluator, metrics, mean);
            let loss = json::member(metrics, "loss"@);
            let score = json::member(metrics, "mean_score"@);
            &&& loss is Some ==> json::lookup(after, evaluator + ".loss"@) == loss
            &&& loss is None ==> json::lookup(after, evaluator + ".loss"@) == json::lookup(
                entries,
                evaluator + ".loss"@,
            )
            &&& score is Some ==> json::lookup(after, evaluator + ".mean_score"@) == score
            &&& score is None ==> json::lookup(after, evaluator + ".mean_score"@) == json::lookup(
                entries,
                evaluator + ".mean_score"@,
            )
            &&& accuracies_of(metrics).len() > 0 ==> json::lookup(after, evaluator + ".mean_acc"@)
                == Some(mean)
            &&& accuracies_of(metrics).len() == 0 ==> json::lookup(after, evaluator + ".mean_acc"@)
                == json::lookup(entries, evaluator + ".mean_acc"@)
            &&& other != evaluator ==> {
                &&& json::lookup(after, other + ".loss"@) == json::lookup(
                    entries,
                    other + ".loss"@,
                )
                &&& json::lookup(after, other + ".mean_score"@) == json::lookup(
                    entries,
                    other + ".mean_score"@,
                )
                &&& json::lookup(after, other + ".mean_acc"@) == json::lookup(
                    entries,
                    other + ".mean_acc"@,
                )
            }
        }),
{
    lemma_headline_keys_differ(evaluator, evaluator);
    lemma_headline_keys_differ(evaluator, other);
    lemma_headline_keys_differ(other, evaluator);
    let keys = seq![
        evaluator + ".loss"@,
        evaluator + ".mean_score"@,
        evaluator + ".mean_acc"@,
        other + ".loss"@,
        other + ".mean_score"@,
        other + ".mean_acc"@,
    ];
    let with_loss = with_value(entries, evaluator + ".loss"@, json::member(metrics, "loss"@));
    let with_score = with_value(
        with_loss,
        evaluator + ".mean_score"@,
        json::member(metrics, "mean_score"@),
    );
    assert forall|k: int| 0 <= k < 6 implies {
        &&& json::member(metrics, "loss"@) matches Some(v) ==> json::lookup(
            with_loss,
            #[trigger] keys[k],
        ) == (if keys[k] == evaluator + ".loss"@ {
            Some(v)
        } else {
            json::lookup(entries, keys[k])
        })
        &&& json::member(metrics, "mean_score"@) matches Some(v) ==> json::lookup(
            with_score,
            keys[k],
        ) == (if keys[k] == evaluator + ".mean_score"@ {
            Some(v)
        } else {
            json::lookup(with_loss, keys[k])
        })
        &&& accuracies_of(metrics).len() > 0 ==> json::lookup(
            summed_up(entries, evaluator, metrics, mean),
            keys[k],
        ) == (if keys[k] == evaluator + ".mean_acc"@ {
            Some(mean)
        } else {
            json::lookup(with_score, keys[k])
        })
    } by {
        if let Some(v) = json::member(metrics, "loss"@) {
            json::lemma_lookup_inserted(entries, evaluator + ".loss"@, v, keys[k]);
        }
        if let Some(v) = json::member(metrics, "mean_score"@) {
            json::lemma_lookup_inserted(with_loss, evaluator + ".mean_score"@, v, keys[k]);
        }
        json::lemma_lookup_inserted(with_score, evaluator + ".mean_acc"@, mean, keys[k]);
    }
    assert(keys[0] == evaluator + ".loss"@);
    assert(keys[1] == evaluator + ".mean_score"@);
    assert(keys[2] == evaluator + ".mean_acc"@);
    assert(keys[3] == other + ".loss"@);
    assert(keys[4] == other + ".mean_score"@);
    assert(keys[5] == other + ".mean_acc"@);
}

/// The headline numbers of every report stand side by side: under the evaluator's name
/// with `.loss`, `.mean_score` or `.mean_acc` behind it, what the report says, and nothing
/// where it says nothing. The mean accuracy counts only where there are accuracies.
pub proof fn lemma_every_report_has_its_headline(
    a: EvalReport,
    b: EvalReport,
    c: EvalReport,
    means: (JsonView, JsonView, JsonView),
)
    requires
        a.evaluator@ != b.evaluator@,
        a.evaluator@ != c.evaluator@,
        b.evaluator@ != c.evaluator@,
    ensures
        json::member(merged(a, b, c, means), "summary"@) matches Some(s) && {
            &&& json::member(s, a.evaluator@ + ".loss"@) == json::member(a.metrics@, "loss"@)
            &&& json::member(s, b.evaluator@ + ".loss"@) == json::member(b.metrics@, "loss"@)
            &&& json::member(s, c.evaluator@ + ".loss"@) == json::member(c.metrics@, "loss"@)
            &&& json::member(s, a.evaluator@ + ".mean_score"@) == json::member(
                a.metrics@,
                "mean_score"@,
            )
            &&& json::member(s, b.evaluator@ + ".mean_score"@) == json::member(
                b.metrics@,
                "mean_score"@,
            )
            &&& json::member(s, c.evaluator@ + ".mean_score"@) == json::member(
                c.metrics@,
                "mean_score"@,
            )
            &&& json::member(s, a.evaluator@ + ".mean_acc"@) == (if accuracies_of(a.metrics@).len()
                > 0 {
                Some(means.0)
            } else {
                None
            })
            &&& json::member(s, b.evaluator@ + ".mean_acc"@) == (if accuracies_of(b.metrics@).len()
                > 0 {
                Some(means.1)
            } else {
                None
            })
            &&& json::member(s, c.evaluator@ + ".mean_acc"@) == (if accuracies_of(c.metrics@).len()
                > 0 {
                Some(means.2)
            } else {
                None
            })
        },
{
    reveal_strlit("by_evaluator");
    reveal_strlit("summary");
    assert("by_evaluator"@.len() == 12 && "summary"@.len() == 7);
    let e = merged(a, b, c, means)->Object_0;
    assert(e[1].0 == "summary"@);
    json::lemma_lookup_at(e, 1);
    let none = Seq::<(Seq<char>, JsonView)>::empty();
    let one = summed_up(none, a.evaluator@, a.metrics@, means.0);
    let two = summed_up(one, b.evaluator@, b.metrics@, means.1);
    lemma_one_report_is_summed_up(none, a.evaluator@, a.metrics@, means.0, b.evaluator@);
    lemma_one_report_is_summed_up(none, a.evaluator@, a.metrics@, means.0, c.evaluator@);
    lemma_one_report_is_summed_up(one, b.evaluator@, b.metrics@, means.1, a.evaluator@);
    lemma_one_report_is_summed_up(one, b.evaluator@, b.metrics@, means.1, c.evaluator@);
    lemma_one_report_is_summed_up(two, c.evaluator@, c.metrics@, means.2, a.evaluator@);
    lemma_one_report_is_summed_up(two, c.evaluator@, c.metrics@, means.2, b.evaluator@);
}

/// Of several reports of one evaluator the last one that gives a headline number counts:
/// what the last report says always stands, and what the second says unless the last is of
/// the same evaluator.
pub proof fn lemma_the_last_word_of_an_evaluator_counts(
    a: EvalReport,
    b: EvalReport,
    c: EvalReport,
    means: (JsonView, JsonView, JsonView),
)
    ensures
        json::member(merged(a, b, c, means), "summary"@) matches Some(s) && {
            &&& json::member(c.metrics@, "loss"@) is Some ==> json::member(
                s,
                c.evaluator@ + ".loss"@,
            ) == json::member(c.metrics@, "loss"@)
            &&& json::member(c.metrics@, "mean_score"@) is Some ==> json::member(
                s,
                c.evaluator@ + ".mean_score"@,
            ) == json::member(c.metrics@, "mean_score"@)
            &&& accuracies_of(c.metrics@).len() > 0 ==> json::member(
                s,
                c.evaluator@ + ".mean_acc"@,
            ) == Some(means.2)
            &&& b.evaluator@ != c.evaluator@ ==> {
                &&& json::member(b.metrics@, "loss"@) is Some ==> json::member(
                    s,
                    b.evaluator@ + ".loss"@,
                ) == json::member(b.metrics@, "loss"@)
                &&& json::member(b.metrics@, "mean_score"@) is Some ==> json::member(
                    s,
                    b.evaluator@ + ".mean_score"@,
                ) == json::member(b.metrics@, "mean_score"@)
                &&& accuracies_of(b.metrics@).len() > 0 ==> json::member(
                    s,
                    b.evaluator@ + ".mean_acc"@,
                ) == Some(means.1)
            }
        },
{
    reveal_strlit("by_evaluator");
    reveal_strlit("summary");
    assert("by_evaluator"@.len() == 12 && "summary"@.len() == 7);
    let e = merged(a, b, c, means)->Object_0;
    assert(e[1].0 == "summary"@);
    json::lemma_lookup_at(e, 1);
    let none = Seq::<(Seq<char>, JsonView)>::empty();
    let one = summed_up(none, a.evaluator@, a.metrics@, means.0);
    let two = summed_up(one, b.evaluator@, b.metrics@, means.1);
    lemma_one_report_is_summed_up(one, b.evaluator@, b.metrics@, means.1, c.evaluator@);
    lemma_one_report_is_summed_up(two, c.evaluator@, c.metrics@, means.2, b.evaluator@);
}

} // verus!
