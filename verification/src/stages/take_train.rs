//! The stage `take_train`: the training half of a split.

use vstd::prelude::*;
use vstd::string::*;

use crate::artifact::{DatasetJsonl, DatasetSplit};
use crate::error::{bad_input, StageError, StageErrorView};
use crate::framework::Stage;
use crate::text;
use crate::text::decimal_int_text;

verus! {

/// The name of the stage.
pub const NAME: &'static str = "take_train";

/// The stage.
pub struct TakeTrain;

impl Stage for TakeTrain {
    const NAME: &'static str = NAME;

    const SCHEMA: u32 = 1;

    const DETERMINISTIC: bool = true;
}

/// There are no arguments.
#[derive(Clone, Copy, Debug, PartialEq, Eq)]
pub struct Args {}

/// What is said of a half without examples.
pub open spec fn empty_half(who: Seq<char>, half: Seq<char>, n: int) -> Seq<char> {
    who + ": "@ + half + " half has "@ + text::decimal_int(n) + " examples"@
}

/// Refuses a half without examples.
pub fn check_half(who: &str, half: &str, dataset: &DatasetJsonl) -> (r: Result<(), StageError>)
    ensures
        r is Ok <==> dataset.n_examples > 0,
        r matches Err(e) ==> e@ == StageErrorView::BadInput(
            empty_half(who@, half@, dataset.n_examples as int),
        ),
{
    if dataset.n_examples <= 0 {
        return Err(
            bad_input(
                who.to_string().concat(": ").concat(half).concat(" half has ").concat(
                    decimal_int_text(dataset.n_examples).as_str(),
                ).concat(" examples").as_str(),
            ),
        );
    }
    Ok(())
}

/// What is wrong with a split, the first thing found.
pub open spec fn complaint(input: DatasetSplit) -> Option<Seq<char>> {
    if input.train.n_examples <= 0 {
        Some(empty_half("take_train"@, "train"@, input.train.n_examples as int))
    } else if input.eval.n_examples <= 0 {
        Some(empty_half("take_train"@, "eval"@, input.eval.n_examples as int))
    } else {
        None
    }
}

impl TakeTrain {
    /// The training half, unchanged. Neither half may be empty.
    pub fn run(&self, input: DatasetSplit) -> (r: Result<DatasetJsonl, StageError>)
        ensures
            match r {
                Ok(d) => complaint(input) is None && d == input.train,
                Err(e) => complaint(input) is Some && e@ == StageErrorView::BadInput(
                    complaint(input)->0,
                ),
            },
    {
        match check_half("take_train", "train", &input.train) {
            Ok(_) => {},
            Err(e) => {
                return Err(e);
            },
        }
        match check_half("take_train", "eval", &input.eval) {
            Ok(_) => {},
            Err(e) => {
                return Err(e);
            },
        }
        Ok(input.train)
    }
}

/// A split is taken exactly where neither half is empty; what is said of an empty half
/// names it and gives its count, the training half first.
pub proof fn lemma_neither_half_may_be_empty(input: DatasetSplit)
    ensures
        complaint(input) is None <==> input.train.n_examples > 0 && input.eval.n_examples > 0,
        input.train.n_examples <= 0 ==> (complaint(input) matches Some(m) && text::occurs_in(
            m,
            "train"@ + " half has "@ + text::decimal_int(input.train.n_examples as int),
        )),
        input.train.n_examples > 0 && input.eval.n_examples <= 0 ==> (complaint(
            input,
        ) matches Some(m) && text::occurs_in(
            m,
            "eval"@ + " half has "@ + text::decimal_int(input.eval.n_examples as int),
        )),
{
    lemma_an_empty_half_is_named("take_train"@, "train"@, input.train.n_examples as int);
    lemma_an_empty_half_is_named("take_train"@, "eval"@, input.eval.n_examples as int);
}

/// What is said of an empty half names who refuses it, the half, and its count.
pub proof fn lemma_an_empty_half_is_named(who: Seq<char>, half: Seq<char>, n: int)
    ensures
        text::occurs_in(empty_half(who, half, n), who),
        text::occurs_in(
            empty_half(who, half, n),
            half + " half has "@ + text::decimal_int(n),
        ),
{
    let a = who + ": "@;
    let d = text::decimal_int(n);
    text::lemma_a_stretch_occurs(a, half, " half has "@, d);
    text::lemma_it_occurs_in_more(
        a + half + " half has "@ + d,
        half + " half has "@ + d,
        " examples"@,
    );
    text::lemma_the_ends_occur(who, ": "@);
    text::lemma_it_occurs_in_more(a, who, half);
    text::lemma_it_occurs_in_more(a + half, who, " half has "@);
    text::lemma_it_occurs_in_more(a + half + " half has "@, who, d);
    text::lemma_it_occurs_in_more(a + half + " half has "@ + d, who, " examples"@);
}

} // verus!
