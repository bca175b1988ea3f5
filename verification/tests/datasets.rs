use blut_cookbooks::artifact::ContentHash;
use blut_cookbooks::error::StageError;
use blut_cookbooks::json::parse;
use blut_cookbooks::jsonl::{body, count, lines, nonblank};
use blut_cookbooks::number::Real;
use blut_cookbooks::stages::filter_dataset::{
    classify, classify_value, Args, FilterDataset, Filtered, Verdict,
};
use blut_cookbooks::stages::split_train_eval::{self, Halves, SplitTrainEval};
use rand::seq::SliceRandom;
use rand::SeedableRng;

fn hash_of(bytes: &[u8]) -> ContentHash {
    ContentHash(blut::framework::artifact::ContentHash::of_bytes(bytes).0)
}

fn owned(lines: &[&str]) -> Vec<String> {
    lines.iter().map(|l| l.to_string()).collect()
}

fn filter(lines: &[&str], args: Args) -> Result<Filtered, StageError> {
    FilterDataset.run(&owned(lines), lines.len() as i64, &args)
}

fn n_examples(filtered: &Filtered) -> i64 {
    let text = body(&filtered.kept);
    FilterDataset.dataset("/stage", filtered, hash_of(text.as_bytes())).n_examples
}

#[test]
fn drops_short_examples() {
    let out = filter(
        &[
            r#"{"messages":[{"role":"user","content":"hi"}]}"#,
            r#"{"messages":[{"role":"user","content":"a"},{"role":"assistant","content":"b"}]}"#,
        ],
        Args { min_turns: 2, max_msg_bytes: 0, drop_errors: false },
    )
    .unwrap();
    assert_eq!(n_examples(&out), 1);
}

#[test]
fn drops_oversize_messages() {
    let huge = "x".repeat(2000);
    let body = format!(r#"{{"messages":[{{"role":"user","content":"{huge}"}}]}}"#);
    let small = r#"{"messages":[{"role":"user","content":"ok"}]}"#;
    let out = filter(
        &[&body, small],
        Args { min_turns: 0, max_msg_bytes: 1000, drop_errors: false },
    )
    .unwrap();
    assert_eq!(n_examples(&out), 1);
    assert_eq!(out.kept, [small]);
}

#[test]
fn fails_when_all_filtered() {
    let r = filter(
        &[r#"{"messages":[{"role":"user","content":"a"}]}"#],
        Args { min_turns: 10, max_msg_bytes: 0, drop_errors: false },
    );
    assert!(matches!(r, Err(StageError::BadInput(_))));
}

#[test]
fn drop_errors_filters_tool_errors() {
    let out = filter(
        &[
            r#"{"messages":[{"role":"tool","content":"Traceback (most recent call last)"}]}"#,
            r#"{"messages":[{"role":"tool","content":"ok"}]}"#,
        ],
        Args { min_turns: 0, max_msg_bytes: 0, drop_errors: true },
    )
    .unwrap();
    assert_eq!(n_examples(&out), 1);
}

const ALL: Args = Args { min_turns: 0, max_msg_bytes: 0, drop_errors: false };

#[test]
fn a_line_that_is_no_json_is_malformed() {
    assert_eq!(classify("{", &ALL), Verdict::DropMalformed);
    assert_eq!(classify_value(&Err("x".to_string()), &ALL), Verdict::DropMalformed);
    assert_eq!(classify(r#"{"messages":[]}"#, &ALL), Verdict::Keep);
    let strict = Args { min_turns: 1, max_msg_bytes: 0, drop_errors: false };
    assert_eq!(classify(r#"{"messages":[]}"#, &strict), Verdict::DropPredicate);
    assert_eq!(classify_value(&parse(r#"{"messages":[]}"#), &strict), Verdict::DropPredicate);
    let out = filter(&["{", "", r#"{"messages":[]}"#], ALL).unwrap();
    assert_eq!(out.malformed, 1);
    assert_eq!(out.kept, [r#"{"messages":[]}"#]);
}

#[test]
fn a_message_is_measured_in_bytes() {
    let args = Args { min_turns: 0, max_msg_bytes: 3, drop_errors: false };
    assert_eq!(
        classify(r#"{"messages":[{"role":"user","content":"aaa"}]}"#, &args),
        Verdict::Keep
    );
    assert_eq!(
        classify("{\"messages\":[{\"role\":\"user\",\"content\":\"\u{e9}\u{e9}\"}]}", &args),
        Verdict::DropPredicate
    );
}

#[test]
fn filtering_twice_changes_nothing() {
    let args = Args { min_turns: 1, max_msg_bytes: 2, drop_errors: true };
    let all = [
        r#"{"messages":[{"role":"user","content":"ok"}]}"#,
        r#"{"messages":[{"role":"user","content":"too long"}]}"#,
        "not json",
        r#"{"messages":[]}"#,
    ];
    let once = filter(&all, args).unwrap();
    let again: Vec<&str> = once.kept.iter().map(|l| l.as_str()).collect();
    let twice = filter(&again, args).unwrap();
    assert_eq!(once.kept, twice.kept);
    assert_eq!((once.malformed, twice.malformed), (1, 0));
}

#[test]
fn lines_of_a_text_read_back() {
    assert_eq!(lines("a\nb\r\n\nc"), ["a", "b", "", "c"]);
    assert_eq!(lines("a\n"), ["a"]);
    assert!(lines("").is_empty());
    assert_eq!(lines("\r"), ["\r"]);
    for text in ["a\nb\r\n\nc", "", "\n\n", "x\r\r\ny\r", "\r\n"] {
        let std_lines: Vec<&str> = text.lines().collect();
        assert_eq!(lines(text), std_lines);
    }
    let v = owned(&["a", "", "b"]);
    assert_eq!(body(&v), "a\n\nb\n");
    assert_eq!(lines(&body(&v)), v);
    assert_eq!(nonblank(&owned(&["a", " \t", "", "b"])), ["a", "b"]);
    assert_eq!(count("a\n\n b \n  \n"), 2);
    assert_eq!(count(""), 0);
    let examples = owned(&["{}", " x ", "{\"a\":1}"]);
    assert_eq!(nonblank(&lines(&body(&examples))), examples);
    assert_eq!(count(&body(&examples)), 3);
}

fn single(x: f32) -> Real {
    Real { bits: x.to_bits(), shown: format!("{x}") }
}

fn numbered(n: usize) -> Vec<String> {
    (0..n).map(|i| format!(r#"{{"id":{i}}}"#)).collect()
}

fn rounded(n: usize, ratio: f32) -> usize {
    ((n as f32) * ratio).round() as usize
}

fn run(n: usize, ratio: f32, seed: u64) -> Result<Halves, StageError> {
    SplitTrainEval.check(&split_train_eval::Args { eval_ratio: single(ratio), seed })?;
    let examples = SplitTrainEval.examples(&numbered(n))?;
    Ok(SplitTrainEval.split(&examples, rounded(examples.len(), ratio), seed))
}

fn hashes(h: &Halves) -> (ContentHash, ContentHash) {
    (hash_of(body(&h.train).as_bytes()), hash_of(body(&h.eval).as_bytes()))
}

#[test]
fn deterministic_under_same_seed() {
    let s1 = run(100, 0.2, 42).unwrap();
    let s2 = run(100, 0.2, 42).unwrap();
    assert_eq!(hashes(&s1).0, hashes(&s2).0);
    assert_eq!(hashes(&s1).1, hashes(&s2).1);
}

#[test]
fn different_seed_produces_different_split() {
    let s1 = run(100, 0.2, 1).unwrap();
    let s2 = run(100, 0.2, 2).unwrap();
    assert_ne!(hashes(&s1).0, hashes(&s2).0);
}

#[test]
fn rejects_out_of_range_ratio() {
    let r = run(10, 1.5, 0);
    assert!(matches!(r, Err(StageError::BadInput(_))));
    for ratio in [0.0f32, 1.0, -0.5, f32::NAN, f32::INFINITY] {
        assert!(matches!(run(10, ratio, 0), Err(StageError::BadInput(_))), "{ratio}");
    }
    assert!(run(10, 0.999, 0).is_ok());
}

#[test]
fn split_counts_sum_to_input() {
    let h = run(100, 0.2, 0).unwrap();
    let (train, eval) = hashes(&h);
    let split = SplitTrainEval.datasets("/stage", &h, train, eval);
    assert_eq!(split.train.n_examples + split.eval.n_examples, 100);
    assert_eq!(split.eval.n_examples, 20);
    assert_ne!(split.train.path, split.eval.path);
    assert_eq!((split.train.content_hash, split.eval.content_hash), (train, eval));
}

#[test]
fn fails_on_single_example_input() {
    let r = run(1, 0.2, 0);
    assert!(matches!(r, Err(StageError::BadInput(_))));
}

#[test]
fn fails_on_empty_input() {
    let r = run(0, 0.2, 0);
    assert!(matches!(r, Err(StageError::BadInput(_))));
}

#[test]
fn both_halves_are_filled() {
    let two = run(2, 0.001, 7).unwrap();
    assert_eq!((two.train.len(), two.eval.len()), (1, 1));
    let all = SplitTrainEval.split(&numbered(5), 5, 7);
    assert_eq!((all.train.len(), all.eval.len()), (1, 4));
    let none = SplitTrainEval.split(&numbered(5), 0, 7);
    assert_eq!((none.train.len(), none.eval.len()), (4, 1));
}

#[test]
fn a_split_is_a_partition() {
    let h = run(50, 0.3, 9).unwrap();
    let mut all: Vec<String> = h.train.iter().chain(h.eval.iter()).cloned().collect();
    let mut want = numbered(50);
    all.sort();
    want.sort();
    assert_eq!(all, want);
}

#[test]
fn the_order_is_that_of_the_seeded_shuffle() {
    let mut order: Vec<usize> = (0..10).collect();
    order.shuffle(&mut rand::rngs::StdRng::seed_from_u64(42));
    let lines = numbered(10);
    let by_hand = SplitTrainEval.split_by(&lines, &order, 3);
    assert_eq!(SplitTrainEval.split(&lines, 3, 42), by_hand);
    assert_eq!(by_hand.eval[0], lines[order[0]]);
    assert_eq!(by_hand.train[6], lines[order[9]]);
    assert_ne!(by_hand, SplitTrainEval.split_by(&lines, &(0..10).collect(), 3));
}

#[test]
fn blank_lines_are_no_examples() {
    let v = owned(&["a", "", "  ", "b"]);
    assert_eq!(SplitTrainEval.examples(&v).unwrap(), ["a", "b"]);
    assert_eq!(
        SplitTrainEval.examples(&owned(&["a", " "])),
        Err(StageError::BadInput(
            "split_train_eval: need \u{2265}2 examples to produce both train + eval, got 1".to_string()
        ))
    );
}
