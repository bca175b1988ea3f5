//! The standard cookbook: what it offers to declarative recipes.

use vstd::prelude::*;

use crate::backends::hf_trainer::stages::{hf_dpo_train, hf_sft_train};
use crate::stages::catalog;
use crate::stages::catalog::StageKind;

verus! {

/// The standard cookbook.
pub struct StandardCookbook;

/// A stage that the cookbook offers: one of the catalog, or one of the two of the
/// HuggingFace backend.
#[derive(Clone, Copy, Debug, PartialEq, Eq, Structural)]
pub enum OfferedStage {
    Catalogued(StageKind),
    HfSftTrain,
    HfDpoTrain,
}

/// The name that an offered stage declares.
pub open spec fn name_of(stage: OfferedStage) -> Seq<char> {
    match stage {
        OfferedStage::Catalogued(kind) => catalog::name_of(kind),
        OfferedStage::HfSftTrain => hf_sft_train::NAME@,
        OfferedStage::HfDpoTrain => hf_dpo_train::NAME@,
    }
}

impl OfferedStage {
    /// The name that the stage declares.
    pub fn name(&self) -> (s: &'static str)
        ensures
            s@ == name_of(*self),
    {
        match self {
            OfferedStage::Catalogued(kind) => kind.name(),
            OfferedStage::HfSftTrain => hf_sft_train::NAME,
            OfferedStage::HfDpoTrain => hf_dpo_train::NAME,
        }
    }
}

/// The names that declarative recipes can use.
pub open spec fn offered() -> Seq<Seq<char>> {
    seq![
        "materialize_conversations"@,
        "materialize_dataset_path"@,
        "materialize_for_eval"@,
        "filter_dataset"@,
        "split_train_eval"@,
        "register_dataset"@,
        "take_train"@,
        "take_eval"@,
        "sft_train"@,
        "dpo_train"@,
        "distill_train"@,
        "merge_lora"@,
        "convert_gguf"@,
        "register_model"@,
        "eval_loss"@,
        "eval_lm_harness"@,
        "eval_judge"@,
        "merge_reports"@,
        "hf_sft_train"@,
        "hf_dpo_train"@,
    ]
}

/// The stages behind those names.
pub open spec fn offered_stages() -> Seq<OfferedStage> {
    seq![
        OfferedStage::Catalogued(StageKind::MaterializeConversations),
        OfferedStage::Catalogued(StageKind::MaterializeDatasetPath),
        OfferedStage::Catalogued(StageKind::MaterializeForEval),
        OfferedStage::Catalogued(StageKind::FilterDataset),
        OfferedStage::Catalogued(StageKind::SplitTrainEval),
        OfferedStage::Catalogued(StageKind::RegisterDataset),
        OfferedStage::Catalogued(StageKind::TakeTrain),
        OfferedStage::Catalogued(StageKind::TakeEval),
        OfferedStage::Catalogued(StageKind::SftTrain),
        OfferedStage::Catalogued(StageKind::DpoTrain),
        OfferedStage::Catalogued(StageKind::DistillTrain),
        OfferedStage::Catalogued(StageKind::MergeLora),
        OfferedStage::Catalogued(StageKind::ConvertGguf),
        OfferedStage::Catalogued(StageKind::RegisterModel),
        OfferedStage::Catalogued(StageKind::EvalLoss),
        OfferedStage::Catalogued(StageKind::EvalLmHarness),
        OfferedStage::Catalogued(StageKind::EvalJudge),
        OfferedStage::Catalogued(StageKind::MergeReports),
        OfferedStage::HfSftTrain,
        OfferedStage::HfDpoTrain,
    ]
}

impl StandardCookbook {
    /// The cookbook's name.
    pub fn name(&self) -> (s: &'static str)
        ensures
            s@ == "standard"@,
    {
        "standard"
    }

    /// The names of the cookbook's own recipes: there are none, as other cookbooks
    /// compose its stages.
    pub fn recipes(&self) -> (v: Vec<&'static str>)
        ensures
            v@.len() == 0,
    {
        Vec::new()
    }

    /// The stages that declarative recipes can name, each with its name.
    pub fn stages_erased(&self) -> (v: Vec<(&'static str, OfferedStage)>)
        ensures
            v@.len() == offered().len(),
            forall|i: int|
                0 <= i < v@.len() ==> (#[trigger] v@[i]).0@ == offered()[i] && v@[i].1
                    == offered_stages()[i] && v@[i].0@ == name_of(v@[i].1),
            forall|i: int, j: int|
                0 <= i < j < v@.len() ==> (#[trigger] v@[i]).0@ != (#[trigger] v@[j]).0@,
    {
        let v: Vec<(&'static str, OfferedStage)> = vec![
            ("materialize_conversations", OfferedStage::Catalogued(StageKind::MaterializeConversations)),
            ("materialize_dataset_path", OfferedStage::Catalogued(StageKind::MaterializeDatasetPath)),
            ("materialize_for_eval", OfferedStage::Catalogued(StageKind::MaterializeForEval)),
            ("filter_dataset", OfferedStage::Catalogued(StageKind::FilterDataset)),
            ("split_train_eval", OfferedStage::Catalogued(StageKind::SplitTrainEval)),
            ("register_dataset", OfferedStage::Catalogued(StageKind::RegisterDataset)),
            ("take_train", OfferedStage::Catalogued(StageKind::TakeTrain)),
            ("take_eval", OfferedStage::Catalogued(StageKind::TakeEval)),
            ("sft_train", OfferedStage::Catalogued(StageKind::SftTrain)),
            ("dpo_train", OfferedStage::Catalogued(StageKind::DpoTrain)),
            ("distill_train", OfferedStage::Catalogued(StageKind::DistillTrain)),
            ("merge_lora", OfferedStage::Catalogued(StageKind::MergeLora)),
            ("convert_gguf", OfferedStage::Catalogued(StageKind::ConvertGguf)),
            ("register_model", OfferedStage::Catalogued(StageKind::RegisterModel)),
            ("eval_loss", OfferedStage::Catalogued(StageKind::EvalLoss)),
            ("eval_lm_harness", OfferedStage::Catalogued(StageKind::EvalLmHarness)),
            ("eval_judge", OfferedStage::Catalogued(StageKind::EvalJudge)),
            ("merge_reports", OfferedStage::Catalogued(StageKind::MergeReports)),
            ("hf_sft_train", OfferedStage::HfSftTrain),
            ("hf_dpo_train", OfferedStage::HfDpoTrain),
        ];
        proof {
            assert forall|i: int| 0 <= i < v@.len() implies (#[trigger] v@[i]).0@ == offered()[i]
                && v@[i].1 == offered_stages()[i] && v@[i].0@ == name_of(v@[i].1) by {
                lemma_every_offered_name_is_its_stages(i);
            }
            assert forall|i: int, j: int| 0 <= i < j < v@.len() implies (#[trigger] v@[i]).0@ != (
            #[trigger] v@[j]).0@ by {
                lemma_offered_names_differ(i, j);
            }
        }
        v
    }
}

/// Every offered name is that of the stage behind it.
pub proof fn lemma_every_offered_name_is_its_stages(i: int)
    requires
        0 <= i < offered().len(),
    ensures
        offered_stages().len() == offered().len(),
        name_of(offered_stages()[i]) == offered()[i],
{
}

/// The cookbook offers the whole catalog, and the two stages of the HuggingFace
/// backend.
pub proof fn lemma_every_stage_is_offered()
    ensures
        forall|k: int|
            0 <= k < catalog::listed().len() ==> offered().contains(
                #[trigger] catalog::listed()[k],
            ),
        offered().contains("hf_sft_train"@),
        offered().contains("hf_dpo_train"@),
{
    assert forall|k: int| 0 <= k < catalog::listed().len() implies offered().contains(
        #[trigger] catalog::listed()[k],
    ) by {
        assert(offered()[k] == catalog::listed()[k]);
    }
    assert(offered()[18] == "hf_sft_train"@);
    assert(offered()[19] == "hf_dpo_train"@);
}

/// Nothing else is offered.
pub proof fn lemma_offered_stages_are_catalogued(i: int)
    requires
        0 <= i < offered().len(),
    ensures
        catalog::listed().contains(offered()[i]) || offered()[i] == "hf_sft_train"@
            || offered()[i] == "hf_dpo_train"@,
{
    if i < catalog::listed().len() {
        assert(offered()[i] == catalog::listed()[i]);
    }
}

/// No name is offered twice.
pub proof fn lemma_offered_names_differ(a: int, b: int)
    requires
        0 <= a < offered().len(),
        0 <= b < offered().len(),
        a != b,
    ensures
        offered()[a] != offered()[b],
{
    catalog::lemma_names_are_told_apart();
    catalog::lemma_names_start_otherwise_than_with_h();
    reveal_strlit("hf_sft_train");
    reveal_strlit("hf_dpo_train");
    assert("hf_sft_train"@[0] == 'h' && "hf_sft_train"@[3] == 's');
    assert("hf_dpo_train"@[0] == 'h' && "hf_dpo_train"@[3] == 'd');
    let n = catalog::listed().len() as int;
    if a < n {
        assert(offered()[a] == catalog::listed()[a]);
    }
    if b < n {
        assert(offered()[b] == catalog::listed()[b]);
    }
}

/// Each name is offered with the stage of that name: those of the catalog with the stage
/// that the catalog has under it, the other two with their own.
pub proof fn lemma_a_name_is_offered_with_its_own_stage(i: int)
    requires
        0 <= i < offered().len(),
    ensures
        offered_stages()[i] matches OfferedStage::Catalogued(kind) ==> catalog::stage_of(
            offered()[i],
        ) == Some(kind),
        offered_stages()[i] == OfferedStage::HfSftTrain <==> offered()[i] == "hf_sft_train"@,
        offered_stages()[i] == OfferedStage::HfDpoTrain <==> offered()[i] == "hf_dpo_train"@,
        offered().len() == 20,
{
    lemma_every_offered_name_is_its_stages(i);
    match offered_stages()[i] {
        OfferedStage::Catalogued(kind) => catalog::lemma_every_stage_is_found_by_its_name(kind),
        _ => {},
    }
    if i != 18 {
        lemma_offered_names_differ(i, 18);
    }
    if i != 19 {
        lemma_offered_names_differ(i, 19);
    }
}

} // verus!
