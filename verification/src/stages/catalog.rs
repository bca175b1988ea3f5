//! The catalog of stages by name.

use vstd::prelude::*;

use crate::stages::convert_gguf;
use crate::stages::distill_train;
use crate::stages::dpo_train;
use crate::stages::eval_judge;
use crate::stages::eval_lm_harness;
use crate::stages::eval_loss;
use crate::stages::filter_dataset;
use crate::stages::materialize_conversations;
use crate::stages::materialize_dataset_path;
use crate::stages::materialize_for_eval;
use crate::stages::merge_lora;
use crate::stages::merge_reports;
use crate::stages::register_dataset;
use crate::stages::register_model;
use crate::stages::sft_train;
use crate::stages::split_train_eval;
use crate::stages::take_eval;
use crate::stages::take_train;
use crate::text::same;

verus! {

/// A stage of the catalog.
#[derive(Clone, Copy, Debug, PartialEq, Eq, Structural)]
pub enum StageKind {
    MaterializeConversations,
    MaterializeDatasetPath,
    MaterializeForEval,
    FilterDataset,
    SplitTrainEval,
    RegisterDataset,
    TakeTrain,
    TakeEval,
    SftTrain,
    DpoTrain,
    DistillTrain,
    MergeLora,
    ConvertGguf,
    RegisterModel,
    EvalLoss,
    EvalLmHarness,
    EvalJudge,
    MergeReports,
}

/// The names of the catalog, in its order.
pub open spec fn listed() -> Seq<Seq<char>> {
    seq![
        "materialize_conversations"@,
        "materialize_dataset_path"@,
        "materialize_for_eval"@,
        "filter_dataset"@,
        "split_train_eval"@,
        "register_dataset"@,
        "take_train"@,
        "take_eval"@,
        "sft_train"@,
        "dpo_train"@,
        "distill_train"@,
        "merge_lora"@,
        "convert_gguf"@,
        "register_model"@,
        "eval_loss"@,
        "eval_lm_harness"@,
        "eval_judge"@,
        "merge_reports"@,
    ]
}

/// The name that a stage declares.
pub open spec fn name_of(kind: StageKind) -> Seq<char> {
    match kind {
        StageKind::MaterializeConversations => materialize_conversations::NAME@,
        StageKind::MaterializeDatasetPath => materialize_dataset_path::NAME@,
        StageKind::MaterializeForEval => materialize_for_eval::NAME@,
        StageKind::FilterDataset => filter_dataset::NAME@,
        StageKind::SplitTrainEval => split_train_eval::NAME@,
        StageKind::RegisterDataset => register_dataset::NAME@,
        StageKind::TakeTrain => take_train::NAME@,
        StageKind::TakeEval => take_eval::NAME@,
        StageKind::SftTrain => sft_train::NAME@,
        StageKind::DpoTrain => dpo_train::NAME@,
        StageKind::DistillTrain => distill_train::NAME@,
        StageKind::MergeLora => merge_lora::NAME@,
        StageKind::ConvertGguf => convert_gguf::NAME@,
        StageKind::RegisterModel => register_model::NAME@,
        StageKind::EvalLoss => eval_loss::NAME@,
        StageKind::EvalLmHarness => eval_lm_harness::NAME@,
        StageKind::EvalJudge => eval_judge::NAME@,
        StageKind::MergeReports => merge_reports::NAME@,
    }
}

/// The stage behind a name.
pub open spec fn stage_of(name: Seq<char>) -> Option<StageKind> {
    if name == "materialize_conversations"@ {
        Some(StageKind::MaterializeConversations)
    } else if name == "materialize_dataset_path"@ {
        Some(StageKind::MaterializeDatasetPath)
    } else if name == "materialize_for_eval"@ {
        Some(StageKind::MaterializeForEval)
    } else if name == "filter_dataset"@ {
        Some(StageKind::FilterDataset)
    } else if name == "split_train_eval"@ {
        Some(StageKind::SplitTrainEval)
    } else if name == "register_dataset"@ {
        Some(StageKind::RegisterDataset)
    } else if name == "take_train"@ {
        Some(StageKind::TakeTrain)
    } else if name == "take_eval"@ {
        Some(StageKind::TakeEval)
    } else if name == "sft_train"@ {
        Some(StageKind::SftTrain)
    } else if name == "dpo_train"@ {
        Some(StageKind::DpoTrain)
    } else if name == "distill_train"@ {
        Some(StageKind::DistillTrain)
    } else if name == "merge_lora"@ {
        Some(StageKind::MergeLora)
    } else if name == "convert_gguf"@ {
        Some(StageKind::ConvertGguf)
    } else if name == "register_model"@ {
        Some(StageKind::RegisterModel)
    } else if name == "eval_loss"@ {
        Some(StageKind::EvalLoss)
    } else if name == "eval_lm_harness"@ {
        Some(StageKind::EvalLmHarness)
    } else if name == "eval_judge"@ {
        Some(StageKind::EvalJudge)
    } else if name == "merge_reports"@ {
        Some(StageKind::MergeReports)
    } else {
        None
    }
}

impl StageKind {
    /// The name that the stage declares.
    pub fn name(&self) -> (s: &'static str)
        ensures
            s@ == name_of(*self),
    {
        match self {
            StageKind::MaterializeConversations => materialize_conversations::NAME,
            StageKind::MaterializeDatasetPath => materialize_dataset_path::NAME,
            StageKind::MaterializeForEval => materialize_for_eval::NAME,
            StageKind::FilterDataset => filter_dataset::NAME,
            StageKind::SplitTrainEval => split_train_eval::NAME,
            StageKind::RegisterDataset => register_dataset::NAME,
            StageKind::TakeTrain => take_train::NAME,
            StageKind::TakeEval => take_eval::NAME,
            StageKind::SftTrain => sft_train::NAME,
            StageKind::DpoTrain => dpo_train::NAME,
            StageKind::DistillTrain => distill_train::NAME,
            StageKind::MergeLora => merge_lora::NAME,
            StageKind::ConvertGguf => convert_gguf::NAME,
            StageKind::RegisterModel => register_model::NAME,
            StageKind::EvalLoss => eval_loss::NAME,
            StageKind::EvalLmHarness => eval_lm_harness::NAME,
            StageKind::EvalJudge => eval_judge::NAME,
            StageKind::MergeReports => merge_reports::NAME,
        }
    }
}

/// The stage behind a name. `None` where the catalog has no such name.
pub fn make_stage(name: &str) -> (r: Option<StageKind>)
    ensures
        r == stage_of(name@),
{
    if same(name, "materialize_conversations") {
        Some(StageKind::MaterializeConversations)
    } else if same(name, "materialize_dataset_path") {
        Some(StageKind::MaterializeDatasetPath)
    } else if same(name, "materialize_for_eval") {
        Some(StageKind::MaterializeForEval)
    } else if same(name, "filter_dataset") {
        Some(StageKind::FilterDataset)
    } else if same(name, "split_train_eval") {
        Some(StageKind::SplitTrainEval)
    } else if same(name, "register_dataset") {
        Some(StageKind::RegisterDataset)
    } else if same(name, "take_train") {
        Some(StageKind::TakeTrain)
    } else if same(name, "take_eval") {
        Some(StageKind::TakeEval)
    } else if same(name, "sft_train") {
        Some(StageKind::SftTrain)
    } else if same(name, "dpo_train") {
        Some(StageKind::DpoTrain)
    } else if same(name, "distill_train") {
        Some(StageKind::DistillTrain)
    } else if same(name, "merge_lora") {
        Some(StageKind::MergeLora)
    } else if same(name, "convert_gguf") {
        Some(StageKind::ConvertGguf)
    } else if same(name, "register_model") {
        Some(StageKind::RegisterModel)
    } else if same(name, "eval_loss") {
        Some(StageKind::EvalLoss)
    } else if same(name, "eval_lm_harness") {
        Some(StageKind::EvalLmHarness)
    } else if same(name, "eval_judge") {
        Some(StageKind::EvalJudge)
    } else if same(name, "merge_reports") {
        Some(StageKind::MergeReports)
    } else {
        None
    }
}

/// All names of the catalog.
pub fn names() -> (v: Vec<&'static str>)
    ensures
        v@.len() == listed().len(),
        forall|i: int| 0 <= i < v@.len() ==> (#[trigger] v@[i])@ == listed()[i],
{
    let v: Vec<&'static str> = vec![
        "materialize_conversations",
        "materialize_dataset_path",
        "materialize_for_eval",
        "filter_dataset",
        "split_train_eval",
        "register_dataset",
        "take_train",
        "take_eval",
        "sft_train",
        "dpo_train",
        "distill_train",
        "merge_lora",
        "convert_gguf",
        "register_model",
        "eval_loss",
        "eval_lm_harness",
        "eval_judge",
        "merge_reports",
    ];
    v
}

/// The lengths and the first letters of the names.
proof fn lemma_names_have_letters()
    ensures
        "materialize_conversations"@.len() == 25 && "materialize_conversations"@[0] == 'm',
        "materialize_dataset_path"@.len() == 24 && "materialize_dataset_path"@[0] == 'm',
        "materialize_for_eval"@.len() == 20 && "materialize_for_eval"@[0] == 'm',
        "filter_dataset"@.len() == 14 && "filter_dataset"@[0] == 'f',
        "split_train_eval"@.len() == 16 && "split_train_eval"@[0] == 's',
        "register_dataset"@.len() == 16 && "register_dataset"@[0] == 'r',
        "take_train"@.len() == 10 && "take_train"@[0] == 't',
        "take_eval"@.len() == 9 && "take_eval"@[0] == 't',
        "sft_train"@.len() == 9 && "sft_train"@[0] == 's',
        "dpo_train"@.len() == 9 && "dpo_train"@[0] == 'd',
        "distill_train"@.len() == 13 && "distill_train"@[0] == 'd',
        "merge_lora"@.len() == 10 && "merge_lora"@[0] == 'm',
        "convert_gguf"@.len() == 12 && "convert_gguf"@[0] == 'c',
        "register_model"@.len() == 14 && "register_model"@[0] == 'r',
        "eval_loss"@.len() == 9 && "eval_loss"@[0] == 'e',
        "eval_lm_harness"@.len() == 15 && "eval_lm_harness"@[0] == 'e',
        "eval_judge"@.len() == 10 && "eval_judge"@[0] == 'e',
        "merge_reports"@.len() == 13 && "merge_reports"@[0] == 'm',
{
    reveal_strlit("materialize_conversations");
    reveal_strlit("materialize_dataset_path");
    reveal_strlit("materialize_for_eval");
    reveal_strlit("filter_dataset");
    reveal_strlit("split_train_eval");
    reveal_strlit("register_dataset");
    reveal_strlit("take_train");
    reveal_strlit("take_eval");
    reveal_strlit("sft_train");
    reveal_strlit("dpo_train");
    reveal_strlit("distill_train");
    reveal_strlit("merge_lora");
    reveal_strlit("convert_gguf");
    reveal_strlit("register_model");
    reveal_strlit("eval_loss");
    reveal_strlit("eval_lm_harness");
    reveal_strlit("eval_judge");
    reveal_strlit("merge_reports");
}

/// No two names of the catalog are the same.
pub proof fn lemma_names_are_told_apart()
    ensures
        forall|a: int, b: int|
            0 <= a < listed().len() && 0 <= b < listed().len() && a != b ==> #[trigger] listed()[a]
                != #[trigger] listed()[b],
{
    lemma_names_have_letters();
}

/// No name of the catalog starts with an `h`.
pub(crate) proof fn lemma_names_start_otherwise_than_with_h()
    ensures
        forall|i: int|
            0 <= i < listed().len() ==> (#[trigger] listed()[i]).len() > 0 && listed()[i][0] != 'h',
{
    lemma_names_have_letters();
}

/// Every listed name stands for a stage that declares this very name.
pub proof fn lemma_every_listed_name_has_its_stage(i: int)
    requires
        0 <= i < listed().len(),
    ensures
        stage_of(listed()[i]) is Some,
        name_of(stage_of(listed()[i])->0) == listed()[i],
{
    lemma_names_are_told_apart();
}

/// Every stage is found under the name it declares, and that name is listed.
pub proof fn lemma_every_stage_is_found_by_its_name(kind: StageKind)
    ensures
        stage_of(name_of(kind)) == Some(kind),
        listed().contains(name_of(kind)),
{
    lemma_names_have_letters();
    let n = listed();
    assert forall|i: int| 0 <= i < n.len() && n[i] == name_of(kind) implies n.contains(
        name_of(kind),
    ) by {
    }
    match kind {
        StageKind::MaterializeConversations => assert(n[0] == name_of(kind)),
        StageKind::MaterializeDatasetPath => assert(n[1] == name_of(kind)),
        StageKind::MaterializeForEval => assert(n[2] == name_of(kind)),
        StageKind::FilterDataset => assert(n[3] == name_of(kind)),
        StageKind::SplitTrainEval => assert(n[4] == name_of(kind)),
        StageKind::RegisterDataset => assert(n[5] == name_of(kind)),
        StageKind::TakeTrain => assert(n[6] == name_of(kind)),
        StageKind::TakeEval => assert(n[7] == name_of(kind)),
        StageKind::SftTrain => assert(n[8] == name_of(kind)),
        StageKind::DpoTrain => assert(n[9] == name_of(kind)),
        StageKind::DistillTrain => assert(n[10] == name_of(kind)),
        StageKind::MergeLora => assert(n[11] == name_of(kind)),
        StageKind::ConvertGguf => assert(n[12] == name_of(kind)),
        StageKind::RegisterModel => assert(n[13] == name_of(kind)),
        StageKind::EvalLoss => assert(n[14] == name_of(kind)),
        StageKind::EvalLmHarness => assert(n[15] == name_of(kind)),
        StageKind::EvalJudge => assert(n[16] == name_of(kind)),
        StageKind::MergeReports => assert(n[17] == name_of(kind)),
    }
}

/// A name that is not listed stands for no stage.
pub proof fn lemma_an_unlisted_name_has_no_stage(name: Seq<char>)
    requires
        !listed().contains(name),
    ensures
        stage_of(name) is None,
{
    let n = listed();
    assert(n[0] != name);
    assert(n[1] != name);
    assert(n[2] != name);
    assert(n[3] != name);
    assert(n[4] != name);
    assert(n[5] != name);
    assert(n[6] != name);
    assert(n[7] != name);
    assert(n[8] != name);
    assert(n[9] != name);
    assert(n[10] != name);
    assert(n[11] != name);
    assert(n[12] != name);
    assert(n[13] != name);
    assert(n[14] != name);
    assert(n[15] != name);
    assert(n[16] != name);
    assert(n[17] != name);
}

/// A name stands for the stage of that name and for no other.
pub proof fn lemma_a_name_stands_for_its_own_stage(name: Seq<char>)
    ensures
        stage_of(name) == Some(StageKind::MaterializeConversations) <==> name == "materialize_conversations"@,
        stage_of(name) == Some(StageKind::MaterializeDatasetPath) <==> name == "materialize_dataset_path"@,
        stage_of(name) == Some(StageKind::MaterializeForEval) <==> name == "materialize_for_eval"@,
        stage_of(name) == Some(StageKind::FilterDataset) <==> name == "filter_dataset"@,
        stage_of(name) == Some(StageKind::SplitTrainEval) <==> name == "split_train_eval"@,
        stage_of(name) == Some(StageKind::RegisterDataset) <==> name == "register_dataset"@,
        stage_of(name) == Some(StageKind::TakeTrain) <==> name == "take_train"@,
        stage_of(name) == Some(StageKind::TakeEval) <==> name == "take_eval"@,
        stage_of(name) == Some(StageKind::SftTrain) <==> name == "sft_train"@,
        stage_of(name) == Some(StageKind::DpoTrain) <==> name == "dpo_train"@,
        stage_of(name) == Some(StageKind::DistillTrain) <==> name == "distill_train"@,
        stage_of(name) == Some(StageKind::MergeLora) <==> name == "merge_lora"@,
        stage_of(name) == Some(StageKind::ConvertGguf) <==> name == "convert_gguf"@,
        stage_of(name) == Some(StageKind::RegisterModel) <==> name == "register_model"@,
        stage_of(name) == Some(StageKind::EvalLoss) <==> name == "eval_loss"@,
        stage_of(name) == Some(StageKind::EvalLmHarness) <==> name == "eval_lm_harness"@,
        stage_of(name) == Some(StageKind::EvalJudge) <==> name == "eval_judge"@,
        stage_of(name) == Some(StageKind::MergeReports) <==> name == "merge_reports"@,
{
    lemma_names_have_letters();
}

} // verus!
