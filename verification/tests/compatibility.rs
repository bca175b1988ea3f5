use blut_cookbooks::backends::hf_trainer::stages::hf_dpo_train::HfDpoTrain;
use blut_cookbooks::backends::hf_trainer::stages::hf_sft_train::HfSftTrain;
use blut_cookbooks::backends::{HfTrainerBackend, LamuTrainerBackend};
use blut_cookbooks::cookbook::{OfferedStage, StandardCookbook};
use blut_cookbooks::framework::{Compatible, Stage, TrainingBackend};
use blut_cookbooks::stages::catalog::{make_stage, names, StageKind};
use blut_cookbooks::stages::convert_gguf::ConvertGguf;
use blut_cookbooks::stages::distill_train::DistillTrain;
use blut_cookbooks::stages::dpo_train::DpoTrain;
use blut_cookbooks::stages::filter_dataset::FilterDataset;
use blut_cookbooks::stages::register_model::RegisterModel;
use blut_cookbooks::stages::sft_train::SftTrain;
use blut_cookbooks::stages::split_train_eval::SplitTrainEval;
use blut_cookbooks::stages::take_eval::TakeEval;
use blut_cookbooks::stages::take_train::TakeTrain;

#[test]
fn backend_ids_are_unique() {
    let ids = [HfTrainerBackend::ID, LamuTrainerBackend::ID];
    let unique: std::collections::HashSet<_> = ids.iter().collect();
    assert_eq!(ids.len(), unique.len(), "backend IDs must be unique");
}

#[test]
fn ids_are_stable_strings() {
    assert_eq!(HfTrainerBackend::ID, "hf_trainer");
    assert_eq!(LamuTrainerBackend::ID, "lamu");
}

fn agnostic_witness<S: Stage + Compatible<HfTrainerBackend> + Compatible<LamuTrainerBackend>>() {}

fn lamu_witness<S: Stage + Compatible<LamuTrainerBackend>>() {}

fn hf_witness<S: Stage + Compatible<HfTrainerBackend>>() {}

#[test]
fn agnostic_compose_witnesses() {
    agnostic_witness::<FilterDataset>();
    agnostic_witness::<SplitTrainEval>();
    agnostic_witness::<TakeTrain>();
    agnostic_witness::<TakeEval>();
}

#[test]
fn lamu_witnesses() {
    lamu_witness::<SftTrain>();
    lamu_witness::<DpoTrain>();
    lamu_witness::<DistillTrain>();
    lamu_witness::<ConvertGguf>();
    lamu_witness::<RegisterModel>();
}

#[test]
fn hf_stages_run_on_the_hf_backend() {
    hf_witness::<HfSftTrain>();
    hf_witness::<HfDpoTrain>();
}

#[test]
fn hf_dpo_train_deterministic_false() {
    assert!(!<HfDpoTrain as Stage>::DETERMINISTIC);
}

#[test]
fn hf_sft_train_deterministic_false() {
    assert!(!<HfSftTrain as Stage>::DETERMINISTIC);
}

#[test]
fn every_listed_name_constructs() {
    for n in names() {
        let s = make_stage(n).unwrap_or_else(|| panic!("missing catalog entry: {n}"));
        assert_eq!(s.name(), n, "catalog name vs stage name mismatch for {n}");
    }
}

#[test]
fn unknown_name_returns_none() {
    assert!(make_stage("definitely-not-a-stage").is_none());
    assert!(make_stage("").is_none());
}

#[test]
fn the_catalogue_lists_eighteen_stages() {
    assert_eq!(names().len(), 18);
    assert_eq!(make_stage("split_train_eval"), Some(StageKind::SplitTrainEval));
}

#[test]
fn the_standard_cookbook_offers_its_stages() {
    assert_eq!(StandardCookbook.name(), "standard");
    assert!(StandardCookbook.recipes().is_empty());
    let offered = StandardCookbook.stages_erased();
    let keys: std::collections::HashSet<_> = offered.iter().map(|o| o.0).collect();
    assert_eq!(keys.len(), offered.len());
    assert!(names().iter().all(|n| keys.contains(n)));
    assert!(keys.contains("take_eval"));
    assert!(keys.contains("hf_sft_train") && keys.contains("hf_dpo_train"));
    assert_eq!(keys.len(), names().len() + 2);
    for (key, stage) in offered {
        assert_eq!(key, stage.name());
        assert_eq!(make_stage(key).is_some(), matches!(stage, OfferedStage::Catalogued(_)));
    }
}
