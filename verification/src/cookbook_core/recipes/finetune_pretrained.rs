//! The recipe `finetune_pretrained`: load a dataset, split it, fine-tune on the
//! training half, merge, convert and register the model.

use vstd::prelude::*;
use vstd::string::*;

use crate::cookbook_core::recipes::shared;
use crate::cookbook_core::recipes::shared::{check_choice, DatasetSelect, TrainShape};
use crate::cookbook_core::stages::shared as stage_shared;
use crate::cookbook_core::stages::shared::IngredientCfg;
use crate::cookbook_core::stages::{load_dataset, train_model};
use crate::error::{RecipeError, RecipeErrorView};
use crate::framework::Recipe;
use crate::json;
use crate::json::{
    add_entry, count_value, object, optional_text_value, text_value, Json, JsonView,
};
use crate::number::Real;
use crate::plan::{Node, Plan};
use crate::stages::{convert_gguf, merge_lora, register_model, split_train_eval};
use crate::text;

verus! {

/// The recipe.
pub struct FinetunePretrained;

impl Recipe for FinetunePretrained {
    const NAME: &'static str = "finetune_pretrained";

    const DESCRIPTION: &'static str =
        "Fine-tune a pretrained model with LoRA: load dataset → split → train → merge → convert → register.";
}

/// The arguments: exactly one of `hf_name` and `dataset_path` is given.
#[derive(Debug, PartialEq, Eq)]
pub struct Args {
    pub hf_name: Option<String>,
    pub dataset_path: Option<String>,
    pub split: String,
    /// Which part of the dataset to load.
    pub dataset: DatasetSelect,
    pub model: IngredientCfg,
    pub optimizer: IngredientCfg,
    pub scheduler: IngredientCfg,
    pub loss: IngredientCfg,
    pub step: IngredientCfg,
    pub epochs: u32,
    pub batch_size: u32,
    pub seed: u64,
    /// The share of the examples that is held out.
    pub eval_ratio: Real,
    pub device: String,
    /// The name that the model is registered under.
    pub output_name: String,
    /// The quantization of the model.
    pub quant: String,
    /// Notes kept with the registry entry.
    pub notes: String,
    /// How training is laid out.
    pub shape: TrainShape,
}

/// The split where none is given.
pub fn default_split() -> (s: String)
    ensures
        s@ == "train"@,
{
    "train".to_string()
}

/// The training step where none is given.
pub fn default_step() -> (i: IngredientCfg)
    ensures
        i@ == train_model::standard_step(),
{
    train_model::default_step()
}

/// The batch size where none is given.
pub fn default_batch_size() -> (n: u32)
    ensures
        n == 1,
{
    1
}

/// The seed where none is given.
pub fn default_seed() -> (n: u64)
    ensures
        n == 42,
{
    42
}

/// The share of the examples that is held out where none is given: a tenth.
pub fn default_eval_ratio() -> (r: Real)
    ensures
        r.bits == 0x3DCC_CCCD,
        r.shown@ == "0.1"@,
        r.is_proper_fraction(),
{
    Real { bits: 0x3DCC_CCCD, shown: "0.1".to_string() }
}

/// The device where none is given.
pub fn default_device() -> (s: String)
    ensures
        s@ == "cuda"@,
{
    "cuda".to_string()
}

/// The quantization where none is given.
pub fn default_quant() -> (s: String)
    ensures
        s@ == "Q4_K_M"@,
{
    "Q4_K_M".to_string()
}

/// The arguments before the selection of a dataset, as entries.
pub open spec fn head_entries(args: Args) -> Seq<(Seq<char>, JsonView)> {
    seq![
        ("hf_name"@, json::text_or_null(text::optional(args.hf_name))),
        ("dataset_path"@, json::text_or_null(text::optional(args.dataset_path))),
        ("split"@, JsonView::Text(args.split@)),
    ]
}

/// The arguments between the selection of a dataset and the layout, as entries.
pub open spec fn middle_entries(args: Args) -> Seq<(Seq<char>, JsonView)> {
    seq![
        ("model"@, stage_shared::ingredient_json(args.model@)),
        ("optimizer"@, stage_shared::ingredient_json(args.optimizer@)),
        ("scheduler"@, stage_shared::ingredient_json(args.scheduler@)),
        ("loss"@, stage_shared::ingredient_json(args.loss@)),
        ("step"@, stage_shared::ingredient_json(args.step@)),
        ("epochs"@, shared::number(args.epochs as nat)),
        ("batch_size"@, shared::number(args.batch_size as nat)),
        ("seed"@, shared::number(args.seed as nat)),
        ("eval_ratio"@, JsonView::Single(args.eval_ratio.bits)),
        ("device"@, JsonView::Text(args.device@)),
        ("output_name"@, JsonView::Text(args.output_name@)),
        ("quant"@, JsonView::Text(args.quant@)),
        ("notes"@, JsonView::Text(args.notes@)),
    ]
}

/// The arguments as JSON: they are part of the plan's identity.
pub open spec fn args_json(args: Args) -> JsonView {
    JsonView::Object(
        head_entries(args) + shared::select_entries(args.dataset@) + middle_entries(args)
            + shared::shape_entries(args.shape@),
    )
}

impl Args {
    /// The arguments as JSON.
    pub fn to_json(&self) -> (r: Json)
        ensures
            r@ == args_json(*self),
    {
        let mut e: Vec<(String, Json)> = Vec::new();
        assert(json::entries_view(e@) =~= Seq::<(Seq<char>, JsonView)>::empty());
        add_entry(&mut e, "hf_name", optional_text_value(&self.hf_name));
        add_entry(&mut e, "dataset_path", optional_text_value(&self.dataset_path));
        add_entry(&mut e, "split", text_value(self.split.as_str()));
        assert(json::entries_view(e@) =~= head_entries(*self));
        self.dataset.write(&mut e);
        let ghost before = json::entries_view(e@);
        add_entry(&mut e, "model", self.model.to_json());
        add_entry(&mut e, "optimizer", self.optimizer.to_json());
        add_entry(&mut e, "scheduler", self.scheduler.to_json());
        add_entry(&mut e, "loss", self.loss.to_json());
        add_entry(&mut e, "step", self.step.to_json());
        add_entry(&mut e, "epochs", count_value(self.epochs as u64));
        add_entry(&mut e, "batch_size", count_value(self.batch_size as u64));
        add_entry(&mut e, "seed", count_value(self.seed));
        add_entry(&mut e, "eval_ratio", Json::Single(self.eval_ratio.bits));
        add_entry(&mut e, "device", text_value(self.device.as_str()));
        add_entry(&mut e, "output_name", text_value(self.output_name.as_str()));
        add_entry(&mut e, "quant", text_value(self.quant.as_str()));
        add_entry(&mut e, "notes", text_value(self.notes.as_str()));
        assert(json::entries_view(e@) =~= before + middle_entries(*self));
        self.shape.write(&mut e);
        object(e)
    }
}

/// A run that selects nothing and lays nothing out is written as if the selection
/// and the layout did not exist.
pub proof fn lemma_defaults_leave_the_identity_alone(args: Args)
    requires
        args.dataset@ == shared::whole(),
        args.shape@ == shared::single(),
    ensures
        args_json(args) == JsonView::Object(head_entries(args) + middle_entries(args)),
{
    shared::lemma_defaults_are_written_as_nothing();
    assert(head_entries(args) + Seq::empty() + middle_entries(args) + Seq::empty()
        =~= head_entries(args) + middle_entries(args));
}

/// No other argument has a key of the selection or the layout.
proof fn lemma_other_arguments_have_other_keys(args: Args, key: Seq<char>)
    requires
        key == "subset"@ || key == "max_samples"@ || key == "nproc_per_node"@ || key == "nnodes"@
            || key == "parallel_strategy"@ || key == "text_field"@ || key == "max_seq_len"@,
    ensures
        json::lookup(head_entries(args), key) is None,
        json::lookup(middle_entries(args), key) is None,
{
    shared::lemma_keys_are_told_apart();
    reveal_strlit("hf_name");
    reveal_strlit("dataset_path");
    reveal_strlit("split");
    reveal_strlit("model");
    reveal_strlit("optimizer");
    reveal_strlit("scheduler");
    reveal_strlit("loss");
    reveal_strlit("step");
    reveal_strlit("epochs");
    reveal_strlit("batch_size");
    reveal_strlit("seed");
    reveal_strlit("eval_ratio");
    reveal_strlit("device");
    reveal_strlit("output_name");
    reveal_strlit("quant");
    reveal_strlit("notes");
    assert("hf_name"@.len() == 7 && "hf_name"@[0] == 'h');
    assert("dataset_path"@.len() == 12 && "dataset_path"@[0] == 'd');
    assert("split"@.len() == 5 && "split"@[0] == 's');
    assert("model"@.len() == 5 && "model"@[0] == 'm');
    assert("optimizer"@.len() == 9 && "optimizer"@[0] == 'o');
    assert("scheduler"@.len() == 9 && "scheduler"@[0] == 's');
    assert("loss"@.len() == 4 && "loss"@[0] == 'l');
    assert("step"@.len() == 4 && "step"@[0] == 's');
    assert("epochs"@.len() == 6 && "epochs"@[0] == 'e');
    assert("batch_size"@.len() == 10 && "batch_size"@[0] == 'b');
    assert("seed"@.len() == 4 && "seed"@[0] == 's');
    assert("eval_ratio"@.len() == 10 && "eval_ratio"@[0] == 'e');
    assert("device"@.len() == 6 && "device"@[0] == 'd');
    assert("output_name"@.len() == 11 && "output_name"@[0] == 'o');
    assert("quant"@.len() == 5 && "quant"@[0] == 'q');
    assert("notes"@.len() == 5 && "notes"@[0] == 'n');
    json::lemma_lookup_absent(head_entries(args), key);
    json::lemma_lookup_absent(middle_entries(args), key);
}

/// The selection and the layout are read from the top level of the arguments.
pub proof fn lemma_shared_fields_stand_at_the_top_level(args: Args)
    ensures
        shared::read_select(args_json(args)) == Some(args.dataset@),
        shared::read_shape(args_json(args)) == Some(args.shape@),
{
    let head = head_entries(args);
    let select = shared::select_entries(args.dataset@);
    let middle = middle_entries(args);
    let shape = shared::shape_entries(args.shape@);
    shared::lemma_keys_are_told_apart();
    lemma_other_arguments_have_other_keys(args, "subset"@);
    lemma_other_arguments_have_other_keys(args, "max_samples"@);
    lemma_other_arguments_have_other_keys(args, "nproc_per_node"@);
    lemma_other_arguments_have_other_keys(args, "nnodes"@);
    lemma_other_arguments_have_other_keys(args, "parallel_strategy"@);
    lemma_other_arguments_have_other_keys(args, "text_field"@);
    lemma_other_arguments_have_other_keys(args, "max_seq_len"@);
    json::lemma_lookup_in_two(middle, shape, "subset"@);
    json::lemma_lookup_in_two(middle, shape, "max_samples"@);
    shared::lemma_lookup_in_shape(args.shape@, "subset"@);
    shared::lemma_lookup_in_shape(args.shape@, "max_samples"@);
    shared::lemma_select_reads_back(head, args.dataset@, middle + shape);
    assert(head + select + (middle + shape) =~= head + select + middle + shape);
    lemma_selection_has_no_layout(args, "nproc_per_node"@);
    lemma_selection_has_no_layout(args, "nnodes"@);
    lemma_selection_has_no_layout(args, "parallel_strategy"@);
    lemma_selection_has_no_layout(args, "text_field"@);
    lemma_selection_has_no_layout(args, "max_seq_len"@);
    let none = Seq::<(Seq<char>, JsonView)>::empty();
    shared::lemma_shape_reads_back(head + select + middle, args.shape@, none);
    assert(head + select + middle + shape + none =~= head + select + middle + shape);
}

/// Before the layout nothing has a key of the layout.
proof fn lemma_selection_has_no_layout(args: Args, key: Seq<char>)
    requires
        key == "nproc_per_node"@ || key == "nnodes"@ || key == "parallel_strategy"@ || key
            == "text_field"@ || key == "max_seq_len"@,
    ensures
        json::lookup(
            head_entries(args) + shared::select_entries(args.dataset@) + middle_entries(args),
            key,
        ) is None,
{
    let head = head_entries(args);
    let select = shared::select_entries(args.dataset@);
    shared::lemma_keys_are_told_apart();
    lemma_other_arguments_have_other_keys(args, key);
    shared::lemma_lookup_in_select(args.dataset@, key);
    json::lemma_lookup_in_two(head, select, key);
    json::lemma_lookup_in_two(head + select, middle_entries(args), key);
}

/// What is wrong with the arguments, the first thing found.
pub open spec fn complaint(args: Args) -> Option<RecipeErrorView> {
    match shared::choice_complaint(args.hf_name, args.dataset_path) {
        Some(e) => Some(e),
        None => if args.output_name@.len() == 0 {
            Some(
                RecipeErrorView { field: Some("output_name"@), message: "must not be empty"@ },
            )
        } else if args.epochs == 0 {
            Some(RecipeErrorView { field: Some("epochs"@), message: "must be > 0"@ })
        } else {
            None
        },
    }
}

/// The arguments of the loading stage.
pub open spec fn load_args_of(args: Args) -> load_dataset::Args {
    load_dataset::Args {
        path: args.dataset_path,
        hf_name: args.hf_name,
        split: args.split,
        subset: args.dataset.subset,
        max_samples: args.dataset.max_samples,
    }
}

/// The arguments of the loading stage.
pub fn load_args(args: &Args) -> (r: load_dataset::Args)
    ensures
        r == load_args_of(*args),
{
    load_dataset::Args {
        path: args.dataset_path.clone(),
        hf_name: args.hf_name.clone(),
        split: args.split.clone(),
        subset: args.dataset.subset.clone(),
        max_samples: args.dataset.max_samples,
    }
}

/// `t` trains as the recipe's arguments say.
pub open spec fn is_train_args(t: train_model::Args, args: Args) -> bool {
    &&& t.model@ == args.model@
    &&& t.optimizer@ == args.optimizer@
    &&& t.scheduler@ == args.scheduler@
    &&& t.loss@ == args.loss@
    &&& t.step@ == args.step@
    &&& t.epochs == args.epochs
    &&& t.batch_size == args.batch_size
    &&& t.seed == args.seed
    &&& t.device == args.device
    &&& t.lora_rank is None
    &&& t.text_field == args.shape.text_field
    &&& t.max_seq_len == args.shape.max_seq_len
    &&& t.nproc_per_node == args.shape.nproc_per_node
    &&& t.nnodes == args.shape.nnodes
    &&& t.parallel_strategy == args.shape.parallel_strategy
}

/// The arguments of the training stage.
pub fn train_args(args: &Args) -> (t: train_model::Args)
    ensures
        is_train_args(t, *args),
{
    train_model::Args {
        model: args.model.clone(),
        optimizer: args.optimizer.clone(),
        scheduler: args.scheduler.clone(),
        loss: args.loss.clone(),
        step: args.step.clone(),
        epochs: args.epochs,
        batch_size: args.batch_size,
        seed: args.seed,
        device: args.device.clone(),
        lora_rank: None,
        text_field: args.shape.text_field.clone(),
        max_seq_len: args.shape.max_seq_len,
        nproc_per_node: args.shape.nproc_per_node,
        nnodes: args.shape.nnodes,
        parallel_strategy: args.shape.parallel_strategy,
    }
}

/// `nodes` are the stages of the plan, in their order.
pub open spec fn is_pipeline(nodes: Seq<Node>, args: Args) -> bool {
    &&& nodes.len() == 7
    &&& nodes[0] == Node::LoadDataset(load_args_of(args))
    &&& nodes[1] == Node::SplitTrainEval(
        split_train_eval::Args { eval_ratio: args.eval_ratio, seed: args.seed },
    )
    &&& nodes[2] == Node::TakeTrain
    &&& nodes[3] matches Node::TrainModel(t) && is_train_args(t, args)
    &&& nodes[4] == Node::MergeLora(merge_lora::Args { passthrough_only: false })
    &&& nodes[5] == Node::ConvertGguf(
        convert_gguf::Args { quant: args.quant, name: args.output_name },
    )
    &&& nodes[6] matches Node::RegisterModel(m) && m.name == args.output_name && m.notes
        == args.notes && m.arch@ == "finetuned"@
}

impl FinetunePretrained {
    /// The plan of the arguments: one stage behind the other.
    pub fn compile(&self, args: Args) -> (r: Result<Plan, RecipeError>)
        ensures
            match r {
                Ok(p) => {
                    &&& complaint(args) is None
                    &&& p.wf()
                    &&& p.well_wired()
                    &&& p.name@ == "finetune_pretrained"@
                    &&& p.args@ == args_json(args)
                    &&& is_pipeline(p.nodes@, args)
                    &&& p.edges@ == seq![
                        (0usize, 1usize),
                        (1usize, 2usize),
                        (2usize, 3usize),
                        (3usize, 4usize),
                        (4usize, 5usize),
                        (5usize, 6usize),
                    ]
                },
                Err(e) => complaint(args) == Some(e@),
            },
    {
        match check_choice(&args.hf_name, &args.dataset_path) {
            Ok(_) => {},
            Err(e) => {
                return Err(e);
            },
        }
        if args.output_name.as_str().is_empty() {
            return Err(
                RecipeError {
                    field: Some("output_name"),
                    message: "must not be empty".to_string(),
                },
            );
        }
        if args.epochs == 0 {
            return Err(
                RecipeError { field: Some("epochs"), message: "must be > 0".to_string() },
            );
        }
        let p = Plan::new("finetune_pretrained", args.to_json()).start(
            Node::LoadDataset(load_args(&args)),
        ).followed_by(
            Node::SplitTrainEval(
                split_train_eval::Args { eval_ratio: args.eval_ratio.clone(), seed: args.seed },
            ),
        ).followed_by(Node::TakeTrain).followed_by(
            Node::TrainModel(train_args(&args)),
        ).followed_by(Node::MergeLora(merge_lora::Args::default())).followed_by(
            Node::ConvertGguf(
                convert_gguf::Args {
                    quant: args.quant.clone(),
                    name: args.output_name.clone(),
                },
            ),
        ).followed_by(
            Node::RegisterModel(
                register_model::Args {
                    name: args.output_name.clone(),
                    notes: args.notes.clone(),
                    arch: "finetuned".to_string(),
                },
            ),
        );
        assert(p.edges@ =~= seq![
            (0usize, 1usize),
            (1usize, 2usize),
            (2usize, 3usize),
            (3usize, 4usize),
            (4usize, 5usize),
            (5usize, 6usize),
        ]);
        Ok(p)
    }
}

/// No two keys of the arguments are the same text.
proof fn lemma_argument_keys_differ()
    ensures
        "hf_name"@.len() == 7,
        "dataset_path"@.len() == 12,
        "split"@.len() == 5 && "split"@[0] == 's',
        "model"@.len() == 5 && "model"@[0] == 'm',
        "optimizer"@.len() == 9 && "optimizer"@[0] == 'o',
        "scheduler"@.len() == 9 && "scheduler"@[0] == 's',
        "loss"@.len() == 4 && "loss"@[0] == 'l',
        "step"@.len() == 4 && "step"@[0] == 's' && "step"@[1] == 't',
        "epochs"@.len() == 6 && "epochs"@[0] == 'e',
        "batch_size"@.len() == 10 && "batch_size"@[0] == 'b',
        "seed"@.len() == 4 && "seed"@[0] == 's' && "seed"@[1] == 'e',
        "eval_ratio"@.len() == 10 && "eval_ratio"@[0] == 'e',
        "device"@.len() == 6 && "device"@[0] == 'd',
        "output_name"@.len() == 11 && "output_name"@[0] == 'o',
        "quant"@.len() == 5 && "quant"@[0] == 'q',
        "notes"@.len() == 5 && "notes"@[0] == 'n',
        "subset"@.len() == 6 && "subset"@[0] == 's',
        "max_samples"@.len() == 11 && "max_samples"@[0] == 'm' && "max_samples"@[5] == 'a',
        "nproc_per_node"@.len() == 14,
        "nnodes"@.len() == 6 && "nnodes"@[0] == 'n',
        "parallel_strategy"@.len() == 17,
        "text_field"@.len() == 10 && "text_field"@[0] == 't',
        "max_seq_len"@.len() == 11 && "max_seq_len"@[0] == 'm' && "max_seq_len"@[5] == 'e',
{
    reveal_strlit("hf_name");
    reveal_strlit("dataset_path");
    reveal_strlit("split");
    reveal_strlit("model");
    reveal_strlit("optimizer");
    reveal_strlit("scheduler");
    reveal_strlit("loss");
    reveal_strlit("step");
    reveal_strlit("epochs");
    reveal_strlit("batch_size");
    reveal_strlit("seed");
    reveal_strlit("eval_ratio");
    reveal_strlit("device");
    reveal_strlit("output_name");
    reveal_strlit("quant");
    reveal_strlit("notes");
    reveal_strlit("subset");
    reveal_strlit("max_samples");
    reveal_strlit("nproc_per_node");
    reveal_strlit("nnodes");
    reveal_strlit("parallel_strategy");
    reveal_strlit("text_field");
    reveal_strlit("max_seq_len");
}

/// Each argument is written under its own key.
pub proof fn lemma_every_argument_stands_under_its_key(args: Args)
    ensures
        json::member(args_json(args), "hf_name"@) == Some(match args.hf_name {
            Some(t) => JsonView::Text(t@),
            None => JsonView::Null,
        }),
        json::member(args_json(args), "dataset_path"@) == Some(match args.dataset_path {
            Some(t) => JsonView::Text(t@),
            None => JsonView::Null,
        }),
        json::member(args_json(args), "split"@) == Some(JsonView::Text(args.split@)),
        json::member(args_json(args), "model"@) == Some(stage_shared::ingredient_json(args.model@)),
        json::member(args_json(args), "optimizer"@) == Some(stage_shared::ingredient_json(args.optimizer@)),
        json::member(args_json(args), "scheduler"@) == Some(stage_shared::ingredient_json(args.scheduler@)),
        json::member(args_json(args), "loss"@) == Some(stage_shared::ingredient_json(args.loss@)),
        json::member(args_json(args), "step"@) == Some(stage_shared::ingredient_json(args.step@)),
        json::member(args_json(args), "epochs"@) == Some(JsonView::Number(text::decimal(args.epochs as nat))),
        json::member(args_json(args), "batch_size"@) == Some(JsonView::Number(text::decimal(args.batch_size as nat))),
        json::member(args_json(args), "seed"@) == Some(JsonView::Number(text::decimal(args.seed as nat))),
        json::member(args_json(args), "eval_ratio"@) == Some(JsonView::Single(args.eval_ratio.bits)),
        json::member(args_json(args), "device"@) == Some(JsonView::Text(args.device@)),
        json::member(args_json(args), "output_name"@) == Some(JsonView::Text(args.output_name@)),
        json::member(args_json(args), "quant"@) == Some(JsonView::Text(args.quant@)),
        json::member(args_json(args), "notes"@) == Some(JsonView::Text(args.notes@)),
{
    lemma_argument_keys_differ();
    let h = head_entries(args);
    let m = middle_entries(args);
    assert(h[0].0 == "hf_name"@);
    json::lemma_lookup_at(h, 0);
    lemma_found_first(args, "hf_name"@);
    assert(h[1].0 == "dataset_path"@);
    json::lemma_lookup_at(h, 1);
    lemma_found_first(args, "dataset_path"@);
    assert(h[2].0 == "split"@);
    json::lemma_lookup_at(h, 2);
    lemma_found_first(args, "split"@);
    assert(m[0].0 == "model"@);
    json::lemma_lookup_at(m, 0);
    json::lemma_lookup_absent(h, "model"@);
    shared::lemma_lookup_in_select(args.dataset@, "model"@);
    lemma_found_first(args, "model"@);
    assert(m[1].0 == "optimizer"@);
    json::lemma_lookup_at(m, 1);
    json::lemma_lookup_absent(h, "optimizer"@);
    shared::lemma_lookup_in_select(args.dataset@, "optimizer"@);
    lemma_found_first(args, "optimizer"@);
    assert(m[2].0 == "scheduler"@);
    json::lemma_lookup_at(m, 2);
    json::lemma_lookup_absent(h, "scheduler"@);
    shared::lemma_lookup_in_select(args.dataset@, "scheduler"@);
    lemma_found_first(args, "scheduler"@);
    assert(m[3].0 == "loss"@);
    json::lemma_lookup_at(m, 3);
    json::lemma_lookup_absent(h, "loss"@);
    shared::lemma_lookup_in_select(args.dataset@, "loss"@);
    lemma_found_first(args, "loss"@);
    assert(m[4].0 == "step"@);
    json::lemma_lookup_at(m, 4);
    json::lemma_lookup_absent(h, "step"@);
    shared::lemma_lookup_in_select(args.dataset@, "step"@);
    lemma_found_first(args, "step"@);
    assert(m[5].0 == "epochs"@);
    json::lemma_lookup_at(m, 5);
    json::lemma_lookup_absent(h, "epochs"@);
    shared::lemma_lookup_in_select(args.dataset@, "epochs"@);
    lemma_found_first(args, "epochs"@);
    assert(m[6].0 == "batch_size"@);
    json::lemma_lookup_at(m, 6);
    json::lemma_lookup_absent(h, "batch_size"@);
    shared::lemma_lookup_in_select(args.dataset@, "batch_size"@);
    lemma_found_first(args, "batch_size"@);
    assert(m[7].0 == "seed"@);
    json::lemma_lookup_at(m, 7);
    json::lemma_lookup_absent(h, "seed"@);
    shared::lemma_lookup_in_select(args.dataset@, "seed"@);
    lemma_found_first(args, "seed"@);
    assert(m[8].0 == "eval_ratio"@);
    json::lemma_lookup_at(m, 8);
    json::lemma_lookup_absent(h, "eval_ratio"@);
    shared::lemma_lookup_in_select(args.dataset@, "eval_ratio"@);
    lemma_found_first(args, "eval_ratio"@);
    assert(m[9].0 == "device"@);
    json::lemma_lookup_at(m, 9);
    json::lemma_lookup_absent(h, "device"@);
    shared::lemma_lookup_in_select(args.dataset@, "device"@);
    lemma_found_first(args, "device"@);
    assert(m[10].0 == "output_name"@);
    json::lemma_lookup_at(m, 10);
    json::lemma_lookup_absent(h, "output_name"@);
    shared::lemma_lookup_in_select(args.dataset@, "output_name"@);
    lemma_found_first(args, "output_name"@);
    assert(m[11].0 == "quant"@);
    json::lemma_lookup_at(m, 11);
    json::lemma_lookup_absent(h, "quant"@);
    shared::lemma_lookup_in_select(args.dataset@, "quant"@);
    lemma_found_first(args, "quant"@);
    assert(m[12].0 == "notes"@);
    json::lemma_lookup_at(m, 12);
    json::lemma_lookup_absent(h, "notes"@);
    shared::lemma_lookup_in_select(args.dataset@, "notes"@);
    lemma_found_first(args, "notes"@);
}

/// What the arguments hold under a key is what their first part with the key holds.
proof fn lemma_found_first(args: Args, key: Seq<char>)
    ensures
        ({
            let h = json::lookup(head_entries(args), key);
            let s = json::lookup(shared::select_entries(args.dataset@), key);
            let m = json::lookup(middle_entries(args), key);
            &&& h is Some ==> json::member(args_json(args), key) == h
            &&& h is None && s is None && m is Some ==> json::member(args_json(args), key) == m
        }),
{
    let h = head_entries(args);
    let s = shared::select_entries(args.dataset@);
    let m = middle_entries(args);
    json::lemma_lookup_in_two(h, s, key);
    json::lemma_lookup_in_two(h + s, m, key);
    json::lemma_lookup_in_two(h + s + m, shared::shape_entries(args.shape@), key);
}

/// Runs that differ in an argument are written differently, so that their plans differ.
pub proof fn lemma_other_arguments_are_other_plans(args: Args, other: Args)
    requires
        args_json(args) == args_json(other),
    ensures
        text::optional(args.hf_name) == text::optional(other.hf_name),
        text::optional(args.dataset_path) == text::optional(other.dataset_path),
        args.split@ == other.split@,
        args.dataset@ == other.dataset@,
        args.model@ == other.model@,
        args.optimizer@ == other.optimizer@,
        args.scheduler@ == other.scheduler@,
        args.loss@ == other.loss@,
        args.step@ == other.step@,
        args.epochs == other.epochs,
        args.batch_size == other.batch_size,
        args.seed == other.seed,
        args.eval_ratio.bits == other.eval_ratio.bits,
        args.device@ == other.device@,
        args.output_name@ == other.output_name@,
        args.quant@ == other.quant@,
        args.notes@ == other.notes@,
        args.shape@ == other.shape@,
{
    lemma_every_argument_stands_under_its_key(args);
    lemma_every_argument_stands_under_its_key(other);
    lemma_shared_fields_stand_at_the_top_level(args);
    lemma_shared_fields_stand_at_the_top_level(other);
    stage_shared::lemma_ingredients_read_back(args.model@);
    stage_shared::lemma_ingredients_read_back(other.model@);
    stage_shared::lemma_ingredients_read_back(args.optimizer@);
    stage_shared::lemma_ingredients_read_back(other.optimizer@);
    stage_shared::lemma_ingredients_read_back(args.scheduler@);
    stage_shared::lemma_ingredients_read_back(other.scheduler@);
    stage_shared::lemma_ingredients_read_back(args.loss@);
    stage_shared::lemma_ingredients_read_back(other.loss@);
    stage_shared::lemma_ingredients_read_back(args.step@);
    stage_shared::lemma_ingredients_read_back(other.step@);
    text::lemma_decimals_differ(args.epochs as nat, other.epochs as nat);
    text::lemma_decimals_differ(args.batch_size as nat, other.batch_size as nat);
    text::lemma_decimals_differ(args.seed as nat, other.seed as nat);
}

/// The stages of a plan take the recipe's arguments: what is loaded and how it is split,
/// what is trained and how, each from its own argument.
pub proof fn lemma_the_stages_take_the_arguments(nodes: Seq<Node>, args: Args)
    requires
        is_pipeline(nodes, args),
    ensures
        nodes[0] matches Node::LoadDataset(l) && {
            &&& l.path == args.dataset_path
            &&& l.hf_name == args.hf_name
            &&& l.split == args.split
            &&& l.subset == args.dataset.subset
            &&& l.max_samples == args.dataset.max_samples
        },
        nodes[1] matches Node::SplitTrainEval(s) && s.eval_ratio == args.eval_ratio && s.seed
            == args.seed,
        nodes[3] matches Node::TrainModel(t) && {
            &&& t.model@ == args.model@
            &&& t.optimizer@ == args.optimizer@
            &&& t.scheduler@ == args.scheduler@
            &&& t.loss@ == args.loss@
            &&& t.step@ == args.step@
            &&& t.epochs == args.epochs
            &&& t.batch_size == args.batch_size
            &&& t.seed == args.seed
            &&& t.device@ == args.device@
            &&& t.lora_rank is None
            &&& text::optional(t.text_field) == args.shape@.text_field
            &&& t.max_seq_len == args.shape@.max_seq_len
            &&& t.nproc_per_node == args.shape@.nproc_per_node
            &&& t.nnodes == args.shape@.nnodes
            &&& t.parallel_strategy == args.shape@.parallel_strategy
        },
        nodes[2] is TakeTrain,
        nodes[4] matches Node::MergeLora(m) && !m.passthrough_only,
        nodes[5] matches Node::ConvertGguf(g) && g.quant@ == args.quant@ && g.name@
            == args.output_name@,
        nodes[6] matches Node::RegisterModel(r) && r.name@ == args.output_name@ && r.notes@
            == args.notes@ && r.arch@ == "finetuned"@,
        nodes.len() == 7,
{
}

/// A plan comes out exactly where one dataset is chosen, the model has a name, and there
/// is an epoch to train.
pub proof fn lemma_which_arguments_make_a_plan(args: Args)
    ensures
        complaint(args) is None <==> (args.hf_name is Some) != (args.dataset_path is Some)
            && args.output_name@.len() > 0 && args.epochs > 0,
        (args.hf_name is Some) == (args.dataset_path is Some) ==> complaint(args)->0.field is None,
        (args.hf_name is Some) != (args.dataset_path is Some) && args.output_name@.len() == 0
            ==> complaint(args)->0.field == Some("output_name"@),
        (args.hf_name is Some) != (args.dataset_path is Some) && args.output_name@.len() > 0
            && args.epochs == 0 ==> complaint(args)->0.field == Some("epochs"@),
{
}

} // verus!
