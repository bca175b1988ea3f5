//! The stage `split_train_eval`: splits a dataset at random into a training and
//! an evaluation half. The same lines and seed always give the same split.

use vstd::prelude::*;
use vstd::string::*;

use rand::seq::SliceRandom;
use rand::SeedableRng;

use crate::artifact::{ContentHash, DatasetJsonl, DatasetSplit};
use crate::error::{bad_input, StageError, StageErrorView};
use crate::framework::Stage;
use crate::jsonl;
use crate::jsonl::nonblank;
use crate::number::Real;
use crate::text;
use crate::text::{add_text, decimal_text, join};

verus! {

/// The name of the stage.
pub const NAME: &'static str = "split_train_eval";

/// The stage.
pub struct SplitTrainEval;

impl Stage for SplitTrainEval {
    const NAME: &'static str = NAME;

    const SCHEMA: u32 = 1;

    const DETERMINISTIC: bool = true;
}

/// The arguments.
#[derive(Debug, PartialEq, Eq)]
pub struct Args {
    /// The share of the evaluation half, strictly between zero and one.
    pub eval_ratio: Real,
    pub seed: u64,
}

/// The order that `rand` shuffles some indices into from a seed.
pub uninterp spec fn std_rng_shuffle(indices: Seq<usize>, seed: u64) -> Seq<usize>;

/// Calls `rand::rngs::StdRng::seed_from_u64` and `SliceRandom::shuffle` with the
/// generator it made. The order is a function of the two arguments, named by
/// `std_rng_shuffle`; it holds the same indices, as a shuffle only swaps.
#[verifier::external_body]
fn shuffled(indices: Vec<usize>, seed: u64) -> (r: Vec<usize>)
    ensures
        r@ == std_rng_shuffle(indices@, seed),
        r@.to_multiset() == indices@.to_multiset(),
{
    let mut r = indices;
    r.shuffle(&mut rand::rngs::StdRng::seed_from_u64(seed));
    r
}

/// The two halves of a dataset, as lines.
#[derive(Debug, PartialEq, Eq)]
pub struct Halves {
    pub train: Vec<String>,
    pub eval: Vec<String>,
}

/// What is said of a dataset that is too small to split.
pub open spec fn too_small_message(n: nat) -> Seq<char> {
    "split_train_eval: need ≥2 examples to produce both train + eval, got "@ + text::decimal(n)
}

/// How many examples of `n` go to the evaluation half where `rounded` are wanted:
/// at least one, and all but one at most.
pub open spec fn eval_count(rounded: nat, n: nat) -> nat {
    if rounded < 1 {
        1
    } else if rounded >= n {
        (n - 1) as nat
    } else {
        rounded
    }
}

/// The numbers from zero up to `n`.
pub open spec fn counting(n: nat) -> Seq<usize> {
    Seq::new(n, |i: int| i as usize)
}

/// The lines at some places.
pub open spec fn picked(lines: Seq<Seq<char>>, places: Seq<usize>) -> Seq<Seq<char>> {
    Seq::new(places.len(), |i: int| lines[places[i] as int])
}

/// The evaluation half along an order of the places: the first ones.
pub open spec fn eval_half(
    lines: Seq<Seq<char>>,
    order: Seq<usize>,
    rounded: nat,
) -> Seq<Seq<char>> {
    picked(lines, order.take(eval_count(rounded, lines.len()) as int))
}

/// The training half along an order of the places: the others.
pub open spec fn train_half(
    lines: Seq<Seq<char>>,
    order: Seq<usize>,
    rounded: nat,
) -> Seq<Seq<char>> {
    picked(lines, order.skip(eval_count(rounded, lines.len()) as int))
}

/// `h` is the split of some lines along an order.
pub open spec fn is_split_along(
    h: Halves,
    lines: Seq<Seq<char>>,
    order: Seq<usize>,
    rounded: nat,
) -> bool {
    &&& text::texts(h.eval@) == eval_half(lines, order, rounded)
    &&& text::texts(h.train@) == train_half(lines, order, rounded)
}

/// Every place is a place of the list, and no place occurs twice.
pub open spec fn is_order(places: Seq<usize>, n: nat) -> bool {
    places.to_multiset() == counting(n).to_multiset()
}

/// The lines at some places.
fn pick(lines: &Vec<String>, places: &Vec<usize>, from: usize, to: usize) -> (r: Vec<String>)
    requires
        from <= to <= places.len(),
        forall|i: int| 0 <= i < places.len() ==> #[trigger] places@[i] < lines.len(),
    ensures
        text::texts(r@) == picked(text::texts(lines@), places@.subrange(from as int, to as int)),
{
    let mut r: Vec<String> = Vec::new();
    let mut i: usize = from;
    while i < to
        invariant
            from <= i <= to <= places.len(),
            forall|k: int| 0 <= k < places.len() ==> #[trigger] places@[k] < lines.len(),
            text::texts(r@) == picked(
                text::texts(lines@),
                places@.subrange(from as int, i as int),
            ),
        decreases to - i,
    {
        assert(places@[i as int] < lines.len());
        add_text(&mut r, lines[places[i]].as_str());
        assert(picked(text::texts(lines@), places@.subrange(from as int, i + 1)) =~= picked(
            text::texts(lines@),
            places@.subrange(from as int, i as int),
        ).push(lines@[places@[i as int] as int]@));
        i += 1;
    }
    r
}

proof fn lemma_order_stays_in_range(places: Seq<usize>, n: nat)
    requires
        is_order(places, n),
        n <= usize::MAX,
    ensures
        places.len() == n,
        forall|i: int| 0 <= i < places.len() ==> #[trigger] places[i] < n,
{
    broadcast use vstd::seq_lib::group_to_multiset_ensures;

    assert(places.to_multiset().len() == places.len());
    assert(counting(n).to_multiset().len() == n);
    assert forall|i: int| 0 <= i < places.len() implies #[trigger] places[i] < n by {
        assert(places.contains(places[i]));
        assert(places.to_multiset().count(places[i]) > 0);
        assert(counting(n).contains(places[i]));
    }
}

impl SplitTrainEval {
    /// Checks the share of the evaluation half.
    pub fn check(&self, args: &Args) -> (r: Result<(), StageError>)
        ensures
            r is Ok <==> args.eval_ratio.is_proper_fraction(),
            r matches Err(e) ==> e@ == StageErrorView::BadInput(
                "eval_ratio must be in (0, 1); got "@ + args.eval_ratio.shown@,
            ),
    {
        if !args.eval_ratio.proper_fraction() {
            return Err(
                bad_input(
                    "eval_ratio must be in (0, 1); got ".to_string().concat(
                        args.eval_ratio.shown.as_str(),
                    ).as_str(),
                ),
            );
        }
        Ok(())
    }

    /// The examples of a dataset: its lines that are not blank. Fewer than two
    /// make no split.
    pub fn examples(&self, lines: &Vec<String>) -> (r: Result<Vec<String>, StageError>)
        ensures
            match r {
                Ok(v) => {
                    &&& text::texts(v@) == jsonl::filled(text::texts(lines@))
                    &&& v.len() >= 2
                },
                Err(e) => {
                    &&& jsonl::filled(text::texts(lines@)).len() < 2
                    &&& e@ == StageErrorView::BadInput(
                        too_small_message(jsonl::filled(text::texts(lines@)).len()),
                    )
                },
            },
    {
        let v = nonblank(lines);
        assert(text::texts(v@).len() == v@.len());
        if v.len() < 2 {
            return Err(
                bad_input(
                    "split_train_eval: need ≥2 examples to produce both train + eval, got ".to_string().concat(
                    decimal_text(v.len() as u64).as_str()).as_str(),
                ),
            );
        }
        Ok(v)
    }

    /// Splits examples along an order of their places: the first ones are the
    /// evaluation half, `rounded` of them where that leaves both halves filled.
    pub fn split_by(&self, lines: &Vec<String>, order: &Vec<usize>, rounded: usize) -> (h: Halves)
        requires
            lines.len() >= 2,
            is_order(order@, lines@.len()),
        ensures
            is_split_along(h, text::texts(lines@), order@, rounded as nat),
    {
        proof {
            lemma_order_stays_in_range(order@, lines@.len());
        }
        let n: usize = if rounded < 1 {
            1
        } else if rounded >= lines.len() {
            lines.len() - 1
        } else {
            rounded
        };
        let eval = pick(lines, order, 0, n);
        let train = pick(lines, order, n, order.len());
        assert(order@.subrange(0, n as int) =~= order@.take(n as int));
        assert(order@.subrange(n as int, order@.len() as int) =~= order@.skip(n as int));
        Halves { train, eval }
    }

    /// Splits examples in the order that their seed shuffles them into.
    pub fn split(&self, lines: &Vec<String>, rounded: usize, seed: u64) -> (h: Halves)
        requires
            lines.len() >= 2,
        ensures
            ({
                let order = std_rng_shuffle(counting(lines@.len()), seed);
                &&& is_order(order, lines@.len())
                &&& is_split_along(h, text::texts(lines@), order, rounded as nat)
            }),
    {
        let mut indices: Vec<usize> = Vec::new();
        let mut i: usize = 0;
        while i < lines.len()
            invariant
                i <= lines.len(),
                indices@ == counting(i as nat),
            decreases lines.len() - i,
        {
            indices.push(i);
            assert(indices@ =~= counting((i + 1) as nat));
            i += 1;
        }
        let order = shuffled(indices, seed);
        self.split_by(lines, &order, rounded)
    }

    /// The datasets that the two halves make.
    pub fn datasets(
        &self,
        stage_dir: &str,
        halves: &Halves,
        train_hash: ContentHash,
        eval_hash: ContentHash,
    ) -> (s: DatasetSplit)
        requires
            halves.train.len() <= i64::MAX,
            halves.eval.len() <= i64::MAX,
        ensures
            s.train.path@ == text::joined(stage_dir@, "train.jsonl"@),
            s.train.content_hash == train_hash,
            s.train.n_examples == halves.train.len(),
            s.eval.path@ == text::joined(stage_dir@, "eval.jsonl"@),
            s.eval.content_hash == eval_hash,
            s.eval.n_examples == halves.eval.len(),
    {
        DatasetSplit {
            train: DatasetJsonl {
                path: join(stage_dir, "train.jsonl"),
                content_hash: train_hash,
                n_examples: halves.train.len() as i64,
            },
            eval: DatasetJsonl {
                path: join(stage_dir, "eval.jsonl"),
                content_hash: eval_hash,
                n_examples: halves.eval.len() as i64,
            },
        }
    }
}

/// Both halves are filled, and together they have as many examples as there were.
/// The evaluation half has as many as are wanted where that leaves both filled.
pub proof fn lemma_both_halves_are_filled(
    lines: Seq<Seq<char>>,
    order: Seq<usize>,
    rounded: nat,
)
    requires
        2 <= lines.len() <= usize::MAX,
        is_order(order, lines.len()),
    ensures
        eval_half(lines, order, rounded).len() >= 1,
        train_half(lines, order, rounded).len() >= 1,
        eval_half(lines, order, rounded).len() + train_half(lines, order, rounded).len()
            == lines.len(),
        1 <= rounded < lines.len() ==> eval_half(lines, order, rounded).len() == rounded,
{
    lemma_order_stays_in_range(order, lines.len());
}

/// The seed fixes the split: two splits of the same lines along the order of the same
/// seed hold the same examples in the same order, and are written as the same texts.
pub proof fn lemma_the_seed_fixes_the_split(
    a: Halves,
    b: Halves,
    lines: Seq<Seq<char>>,
    rounded: nat,
    seed: u64,
)
    requires
        is_split_along(a, lines, std_rng_shuffle(counting(lines.len()), seed), rounded),
        is_split_along(b, lines, std_rng_shuffle(counting(lines.len()), seed), rounded),
    ensures
        text::texts(a.train@) == text::texts(b.train@),
        text::texts(a.eval@) == text::texts(b.eval@),
        jsonl::text_of(text::texts(a.train@)) == jsonl::text_of(text::texts(b.train@)),
        jsonl::text_of(text::texts(a.eval@)) == jsonl::text_of(text::texts(b.eval@)),
{
}

proof fn lemma_picking_commutes(lines: Seq<Seq<char>>, a: Seq<usize>, b: Seq<usize>)
    requires
        a.to_multiset() == b.to_multiset(),
    ensures
        picked(lines, a).to_multiset() == picked(lines, b).to_multiset(),
    decreases a.len(),
{
    broadcast use vstd::seq_lib::group_to_multiset_ensures;

    assert(a.len() == a.to_multiset().len());
    assert(b.len() == b.to_multiset().len());
    if a.len() == 0 {
        assert(picked(lines, a) =~= picked(lines, b));
    } else {
        let x = a.last();
        assert(a.contains(x));
        assert(a.to_multiset().count(x) > 0);
        assert(b.contains(x));
        let j = choose|j: int| 0 <= j < b.len() && b[j] == x;
        let shorter = b.remove(j);
        assert(a.drop_last().push(x) =~= a);
        assert(shorter.insert(j, x) =~= b);
        assert(a.to_multiset() =~= a.drop_last().to_multiset().insert(x));
        assert(b.to_multiset() =~= shorter.to_multiset().insert(x));
        assert(a.drop_last().to_multiset() =~= a.to_multiset().remove(x));
        assert(shorter.to_multiset() =~= b.to_multiset().remove(x));
        lemma_picking_commutes(lines, a.drop_last(), shorter);
        let line = lines[x as int];
        assert(picked(lines, a) =~= picked(lines, a.drop_last()).push(line));
        assert(picked(lines, b).remove(j) =~= picked(lines, shorter));
        assert(picked(lines, b) =~= picked(lines, shorter).insert(j, line));
        assert(picked(lines, b).to_multiset() =~= picked(lines, shorter).to_multiset().insert(line));
    }
}

/// A split is a partition: along any order of the places, the two halves together
/// hold every example as often as the dataset does.
pub proof fn lemma_a_split_is_a_partition(
    lines: Seq<Seq<char>>,
    order: Seq<usize>,
    rounded: nat,
)
    requires
        2 <= lines.len() <= usize::MAX,
        is_order(order, lines.len()),
    ensures
        eval_half(lines, order, rounded).to_multiset().add(
            train_half(lines, order, rounded).to_multiset(),
        ) == lines.to_multiset(),
{
    broadcast use vstd::seq_lib::group_to_multiset_ensures;

    lemma_order_stays_in_range(order, lines.len());
    let eval = eval_half(lines, order, rounded);
    let train = train_half(lines, order, rounded);
    assert(eval + train =~= picked(lines, order));
    vstd::seq_lib::lemma_multiset_commutative(eval, train);
    lemma_picking_commutes(lines, order, counting(lines.len()));
    assert(picked(lines, counting(lines.len())) =~= lines);
}

/// How many examples are held out: as many as are wanted, but at least one, and at least
/// one is left for training.
pub proof fn lemma_how_many_are_held_out(rounded: nat, n: nat)
    requires
        n >= 2,
    ensures
        1 <= eval_count(rounded, n) < n,
        1 <= rounded < n ==> eval_count(rounded, n) == rounded,
        rounded == 0 ==> eval_count(rounded, n) == 1,
        rounded >= n ==> eval_count(rounded, n) == n - 1,
{
}

/// The halves hold the lines in the order they were shuffled into: the evaluation half
/// the first ones, and the training half those behind them.
pub proof fn lemma_the_halves_follow_the_order(
    lines: Seq<Seq<char>>,
    order: Seq<usize>,
    rounded: nat,
    i: int,
)
    requires
        2 <= lines.len() <= usize::MAX,
        is_order(order, lines.len()),
        0 <= i < lines.len(),
    ensures
        ({
            let eval = eval_half(lines, order, rounded);
            let train = train_half(lines, order, rounded);
            &&& i < eval.len() ==> eval[i] == lines[order[i] as int]
            &&& i >= eval.len() ==> train[i - eval.len()] == lines[order[i] as int]
        }),
{
    lemma_order_stays_in_range(order, lines.len());
    lemma_how_many_are_held_out(rounded, lines.len());
}

/// What is said of a dataset that is too small gives its size.
pub proof fn lemma_the_size_is_given(n: nat)
    ensures
        text::occurs_in(too_small_message(n), text::decimal(n)),
{
    text::lemma_the_ends_occur(
        "split_train_eval: need ≥2 examples to produce both train + eval, got "@,
        text::decimal(n),
    );
}

/// The places before a shuffle are counted up from zero.
pub proof fn lemma_places_are_counted_from_zero(n: nat, i: int)
    requires
        n <= usize::MAX,
    ensures
        counting(n).len() == n,
        0 <= i < n ==> counting(n)[i] == i,
{
}

/// An order holds every place once: as many places as there are lines, each of them a
/// place of a line, and none of them twice.
pub proof fn lemma_an_order_holds_every_place_once(places: Seq<usize>, n: nat)
    requires
        is_order(places, n),
        n <= usize::MAX,
    ensures
        places.len() == n,
        forall|i: int| 0 <= i < places.len() ==> #[trigger] places[i] < n,
        forall|i: int, j: int|
            0 <= i < j < places.len() ==> #[trigger] places[i] != #[trigger] places[j],
{
    lemma_order_stays_in_range(places, n);
    let c = counting(n);
    assert(c.no_duplicates());
    c.lemma_multiset_has_no_duplicates();
    places.lemma_multiset_has_no_duplicates_conv();
}

/// The two files of a split hold the two halves: the evaluation file as many of the first
/// lines of the order as are held out, the training file the others.
pub proof fn lemma_each_half_goes_to_its_own_file(
    h: Halves,
    lines: Seq<Seq<char>>,
    order: Seq<usize>,
    rounded: nat,
    i: int,
)
    requires
        2 <= lines.len() <= usize::MAX,
        is_order(order, lines.len()),
        is_split_along(h, lines, order, rounded),
        0 <= i < lines.len(),
    ensures
        h.eval@.len() + h.train@.len() == lines.len(),
        1 <= rounded < lines.len() ==> h.eval@.len() == rounded,
        i < h.eval@.len() ==> h.eval@[i]@ == lines[order[i] as int],
        i >= h.eval@.len() ==> h.train@[i - h.eval@.len()]@ == lines[order[i] as int],
{
    lemma_both_halves_are_filled(lines, order, rounded);
    lemma_the_halves_follow_the_order(lines, order, rounded, i);
    let e = text::texts(h.eval@);
    let t = text::texts(h.train@);
    assert(e.len() == h.eval@.len() && t.len() == h.train@.len());
    if i < e.len() {
        assert(e[i] == h.eval@[i]@);
    } else {
        assert(t[i - e.len()] == h.train@[i - e.len()]@);
    }
}

} // verus!
