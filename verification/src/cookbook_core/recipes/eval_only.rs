//! The recipe `eval_only`: load a dataset, and evaluate a checkpoint on it.

use vstd::prelude::*;
use vstd::string::*;

use crate::cookbook_core::recipes::shared;
use crate::cookbook_core::recipes::shared::{check_choice, DatasetSelect};
use crate::cookbook_core::stages::evaluate_model::LoadedDatasetArgs;
use crate::cookbook_core::stages::load_dataset;
use crate::cookbook_core::stages::shared as stage_shared;
use crate::cookbook_core::stages::shared::{IngredientCfg, IngredientView};
use crate::error::{RecipeError, RecipeErrorView};
use crate::framework::Recipe;
use crate::json;
use crate::json::{
    add_entry, count_value, object, optional_text_value, text_value, Json, JsonView,
};
use crate::plan::{Node, Plan};
use crate::text;

verus! {

/// The recipe.
pub struct EvalOnly;

impl Recipe for EvalOnly {
    const NAME: &'static str = "eval_only";

    const DESCRIPTION: &'static str =
        "Evaluation-only: load dataset → evaluate checkpoint. No training.";
}

/// The arguments: exactly one of `hf_name` and `dataset_path` is given.
#[derive(Debug, PartialEq, Eq)]
pub struct Args {
    pub hf_name: Option<String>,
    pub dataset_path: Option<String>,
    pub split: String,
    pub checkpoint_path: String,
    pub eval: IngredientCfg,
    pub batch_size: u32,
    pub device: String,
    /// Which part of the dataset to load.
    pub dataset: DatasetSelect,
    pub text_field: Option<String>,
    pub max_seq_len: Option<u32>,
}

/// The split where none is given.
pub fn default_split() -> (s: String)
    ensures
        s@ == "test"@,
{
    "test".to_string()
}

/// The evaluation where none is given.
pub fn default_eval() -> (i: IngredientCfg)
    ensures
        i@ == (IngredientView {
            kind: "eval"@,
            name: "loss_eval"@,
            config: JsonView::Object(Seq::empty()),
        }),
{
    IngredientCfg::plain("eval", "loss_eval")
}

/// The batch size where none is given.
pub fn default_batch_size() -> (n: u32)
    ensures
        n == 64,
{
    64
}

/// The device where none is given.
pub fn default_device() -> (s: String)
    ensures
        s@ == "cuda"@,
{
    "cuda".to_string()
}

/// The arguments besides the selection and the packing, as entries.
pub open spec fn head_entries(args: Args) -> Seq<(Seq<char>, JsonView)> {
    seq![
        ("hf_name"@, json::text_or_null(text::optional(args.hf_name))),
        ("dataset_path"@, json::text_or_null(text::optional(args.dataset_path))),
        ("split"@, JsonView::Text(args.split@)),
        ("checkpoint_path"@, JsonView::Text(args.checkpoint_path@)),
        ("eval"@, stage_shared::ingredient_json(args.eval@)),
        ("batch_size"@, shared::number(args.batch_size as nat)),
        ("device"@, JsonView::Text(args.device@)),
    ]
}

/// The packing as entries, without what is at its default.
pub open spec fn packing_entries(args: Args) -> Seq<(Seq<char>, JsonView)> {
    shared::entry_if(
        args.text_field is Some,
        "text_field"@,
        JsonView::Text(args.text_field->0@),
    ) + shared::entry_if(
        args.max_seq_len is Some,
        "max_seq_len"@,
        shared::number(args.max_seq_len->0 as nat),
    )
}

/// The arguments as JSON: they are part of the plan's identity.
pub open spec fn args_json(args: Args) -> JsonView {
    JsonView::Object(
        head_entries(args) + shared::select_entries(args.dataset@) + packing_entries(args),
    )
}

impl Args {
    /// The arguments as JSON.
    pub fn to_json(&self) -> (r: Json)
        ensures
            r@ == args_json(*self),
    {
        let mut e: Vec<(String, Json)> = Vec::new();
        assert(json::entries_view(e@) =~= Seq::<(Seq<char>, JsonView)>::empty());
        add_entry(&mut e, "hf_name", optional_text_value(&self.hf_name));
        add_entry(&mut e, "dataset_path", optional_text_value(&self.dataset_path));
        add_entry(&mut e, "split", text_value(self.split.as_str()));
        add_entry(&mut e, "checkpoint_path", text_value(self.checkpoint_path.as_str()));
        add_entry(&mut e, "eval", self.eval.to_json());
        add_entry(&mut e, "batch_size", count_value(self.batch_size as u64));
        add_entry(&mut e, "device", text_value(self.device.as_str()));
        assert(json::entries_view(e@) =~= head_entries(*self));
        self.dataset.write(&mut e);
        let ghost before = json::entries_view(e@);
        match &self.text_field {
            Some(t) => add_entry(&mut e, "text_field", text_value(t.as_str())),
            None => {},
        }
        match self.max_seq_len {
            Some(n) => add_entry(&mut e, "max_seq_len", count_value(n as u64)),
            None => {},
        }
        assert(json::entries_view(e@) =~= before + packing_entries(*self));
        object(e)
    }
}

/// A run that selects nothing and packs nothing is written as if the selection and
/// the packing did not exist.
pub proof fn lemma_defaults_leave_the_identity_alone(args: Args)
    requires
        args.dataset@ == shared::whole(),
        args.text_field is None,
        args.max_seq_len is None,
    ensures
        args_json(args) == JsonView::Object(head_entries(args)),
{
    shared::lemma_defaults_are_written_as_nothing();
    assert(head_entries(args) + shared::select_entries(args.dataset@) + packing_entries(args)
        =~= head_entries(args));
}

/// What is wrong with the arguments, the first thing found, where it is known
/// whether the checkpoint exists.
pub open spec fn complaint(args: Args, checkpoint_exists: bool) -> Option<RecipeErrorView> {
    match shared::choice_complaint(args.hf_name, args.dataset_path) {
        Some(e) => Some(e),
        None => if !checkpoint_exists {
            Some(
                RecipeErrorView {
                    field: Some("checkpoint_path"@),
                    message: "not found: "@ + args.checkpoint_path@,
                },
            )
        } else {
            None
        },
    }
}

/// `nodes` are the stages of the plan, in their order.
pub open spec fn is_pipeline(nodes: Seq<Node>, args: Args) -> bool {
    &&& nodes.len() == 2
    &&& nodes[0] == Node::LoadDataset(
        load_dataset::Args {
            path: args.dataset_path,
            hf_name: args.hf_name,
            split: args.split,
            subset: args.dataset.subset,
            max_samples: args.dataset.max_samples,
        },
    )
    &&& nodes[1] == Node::EvaluateLoadedDataset(
        LoadedDatasetArgs {
            checkpoint_path: args.checkpoint_path,
            eval: args.eval,
            batch_size: args.batch_size,
            device: args.device,
            text_field: args.text_field,
            max_seq_len: args.max_seq_len,
        },
    )
}

impl EvalOnly {
    /// The plan of the arguments: load, then evaluate.
    pub fn compile(&self, args: Args, checkpoint_exists: bool) -> (r: Result<Plan, RecipeError>)
        ensures
            match r {
                Ok(p) => {
                    &&& complaint(args, checkpoint_exists) is None
                    &&& p.wf()
                    &&& p.well_wired()
                    &&& p.name@ == "eval_only"@
                    &&& p.args@ == args_json(args)
                    &&& is_pipeline(p.nodes@, args)
                    &&& p.edges@ == seq![(0usize, 1usize)]
                },
                Err(e) => complaint(args, checkpoint_exists) == Some(e@),
            },
    {
        match check_choice(&args.hf_name, &args.dataset_path) {
            Ok(_) => {},
            Err(e) => {
                return Err(e);
            },
        }
        if !checkpoint_exists {
            return Err(
                RecipeError {
                    field: Some("checkpoint_path"),
                    message: "not found: ".to_string().concat(args.checkpoint_path.as_str()),
                },
            );
        }
        let written = args.to_json();
        let p = Plan::new("eval_only", written).start(
            Node::LoadDataset(
                load_dataset::Args {
                    path: args.dataset_path,
                    hf_name: args.hf_name,
                    split: args.split,
                    subset: args.dataset.subset,
                    max_samples: args.dataset.max_samples,
                },
            ),
        ).followed_by(
            Node::EvaluateLoadedDataset(
                LoadedDatasetArgs {
                    checkpoint_path: args.checkpoint_path,
                    eval: args.eval,
                    batch_size: args.batch_size,
                    device: args.device,
                    text_field: args.text_field,
                    max_seq_len: args.max_seq_len,
                },
            ),
        );
        assert(p.edges@ =~= seq![(0usize, 1usize)]);
        Ok(p)
    }
}

/// No two keys of the arguments are the same text.
proof fn lemma_argument_keys_differ()
    ensures
        "hf_name"@.len() == 7,
        "dataset_path"@.len() == 12,
        "split"@.len() == 5,
        "checkpoint_path"@.len() == 15,
        "eval"@.len() == 4,
        "batch_size"@.len() == 10 && "batch_size"@[0] == 'b',
        "device"@.len() == 6 && "device"@[0] == 'd',
        "subset"@.len() == 6 && "subset"@[0] == 's',
        "max_samples"@.len() == 11 && "max_samples"@[5] == 'a',
        "text_field"@.len() == 10 && "text_field"@[0] == 't',
        "max_seq_len"@.len() == 11 && "max_seq_len"@[5] == 'e',
{
    reveal_strlit("hf_name");
    reveal_strlit("dataset_path");
    reveal_strlit("split");
    reveal_strlit("checkpoint_path");
    reveal_strlit("eval");
    reveal_strlit("batch_size");
    reveal_strlit("device");
    reveal_strlit("subset");
    reveal_strlit("max_samples");
    reveal_strlit("text_field");
    reveal_strlit("max_seq_len");
}

/// Each argument is written under its own key, and what is at its default is not written.
pub proof fn lemma_every_argument_stands_under_its_key(args: Args)
    ensures
        json::member(args_json(args), "hf_name"@) == Some(match args.hf_name {
            Some(t) => JsonView::Text(t@),
            None => JsonView::Null,
        }),
        json::member(args_json(args), "dataset_path"@) == Some(match args.dataset_path {
            Some(t) => JsonView::Text(t@),
            None => JsonView::Null,
        }),
        json::member(args_json(args), "split"@) == Some(JsonView::Text(args.split@)),
        json::member(args_json(args), "checkpoint_path"@) == Some(JsonView::Text(args.checkpoint_path@)),
        json::member(args_json(args), "eval"@) == Some(stage_shared::ingredient_json(args.eval@)),
        json::member(args_json(args), "batch_size"@) == Some(JsonView::Number(text::decimal(args.batch_size as nat))),
        json::member(args_json(args), "device"@) == Some(JsonView::Text(args.device@)),
        json::member(args_json(args), "subset"@) == (match args.dataset.subset {
            Some(t) => Some(JsonView::Text(t@)),
            None => None,
        }),
        json::member(args_json(args), "max_samples"@) == (match args.dataset.max_samples {
            Some(n) => Some(JsonView::Number(text::decimal(n as nat))),
            None => None,
        }),
        json::member(args_json(args), "text_field"@) == (match args.text_field {
            Some(t) => Some(JsonView::Text(t@)),
            None => None,
        }),
        json::member(args_json(args), "max_seq_len"@) == (match args.max_seq_len {
            Some(n) => Some(JsonView::Number(text::decimal(n as nat))),
            None => None,
        }),
{
    lemma_argument_keys_differ();
    let h = head_entries(args);
    assert(h[0].0 == "hf_name"@);
    json::lemma_lookup_at(h, 0);
    lemma_found_first(args, "hf_name"@);
    assert(h[1].0 == "dataset_path"@);
    json::lemma_lookup_at(h, 1);
    lemma_found_first(args, "dataset_path"@);
    assert(h[2].0 == "split"@);
    json::lemma_lookup_at(h, 2);
    lemma_found_first(args, "split"@);
    assert(h[3].0 == "checkpoint_path"@);
    json::lemma_lookup_at(h, 3);
    lemma_found_first(args, "checkpoint_path"@);
    assert(h[4].0 == "eval"@);
    json::lemma_lookup_at(h, 4);
    lemma_found_first(args, "eval"@);
    assert(h[5].0 == "batch_size"@);
    json::lemma_lookup_at(h, 5);
    lemma_found_first(args, "batch_size"@);
    assert(h[6].0 == "device"@);
    json::lemma_lookup_at(h, 6);
    lemma_found_first(args, "device"@);
    json::lemma_lookup_absent(h, "subset"@);
    shared::lemma_lookup_in_select(args.dataset@, "subset"@);
    lemma_lookup_in_packing(args, "subset"@);
    lemma_found_first(args, "subset"@);
    json::lemma_lookup_absent(h, "max_samples"@);
    shared::lemma_lookup_in_select(args.dataset@, "max_samples"@);
    lemma_lookup_in_packing(args, "max_samples"@);
    lemma_found_first(args, "max_samples"@);
    json::lemma_lookup_absent(h, "text_field"@);
    shared::lemma_lookup_in_select(args.dataset@, "text_field"@);
    lemma_lookup_in_packing(args, "text_field"@);
    lemma_found_first(args, "text_field"@);
    json::lemma_lookup_absent(h, "max_seq_len"@);
    shared::lemma_lookup_in_select(args.dataset@, "max_seq_len"@);
    lemma_lookup_in_packing(args, "max_seq_len"@);
    lemma_found_first(args, "max_seq_len"@);
}

/// What the written packing holds under a key.
proof fn lemma_lookup_in_packing(args: Args, key: Seq<char>)
    ensures
        json::lookup(packing_entries(args), key) == if key == "text_field"@ && args.text_field is Some {
            Some(JsonView::Text(args.text_field->0@))
        } else if key == "max_seq_len"@ && args.max_seq_len is Some {
            Some(JsonView::Number(text::decimal(args.max_seq_len->0 as nat)))
        } else {
            None
        },
{
    lemma_argument_keys_differ();
    reveal_with_fuel(json::lookup, 3);
    let e = packing_entries(args);
    if args.text_field is Some && args.max_seq_len is Some {
        assert(e.drop_first()[0].0 == "max_seq_len"@);
    }
}

/// What the arguments hold under a key is what their first part with the key holds.
proof fn lemma_found_first(args: Args, key: Seq<char>)
    ensures
        ({
            let h = json::lookup(head_entries(args), key);
            let s = json::lookup(shared::select_entries(args.dataset@), key);
            let p = json::lookup(packing_entries(args), key);
            &&& h is Some ==> json::member(args_json(args), key) == h
            &&& h is None && s is Some ==> json::member(args_json(args), key) == s
            &&& h is None && s is None ==> json::member(args_json(args), key) == p
        }),
{
    let h = head_entries(args);
    let s = shared::select_entries(args.dataset@);
    json::lemma_lookup_in_two(h, s, key);
    json::lemma_lookup_in_two(h + s, packing_entries(args), key);
}

/// Runs that differ in an argument are written differently, so that their plans differ.
pub proof fn lemma_other_arguments_are_other_plans(args: Args, other: Args)
    requires
        args_json(args) == args_json(other),
    ensures
        text::optional(args.hf_name) == text::optional(other.hf_name),
        text::optional(args.dataset_path) == text::optional(other.dataset_path),
        args.split@ == other.split@,
        args.checkpoint_path@ == other.checkpoint_path@,
        args.eval@ == other.eval@,
        args.batch_size == other.batch_size,
        args.device@ == other.device@,
        args.dataset@ == other.dataset@,
        text::optional(args.text_field) == text::optional(other.text_field),
        args.max_seq_len == other.max_seq_len,
{
    lemma_every_argument_stands_under_its_key(args);
    lemma_every_argument_stands_under_its_key(other);
    stage_shared::lemma_ingredients_read_back(args.eval@);
    stage_shared::lemma_ingredients_read_back(other.eval@);
    text::lemma_decimals_differ(args.batch_size as nat, other.batch_size as nat);
    match (args.dataset.max_samples, other.dataset.max_samples) {
        (Some(a), Some(b)) => text::lemma_decimals_differ(a as nat, b as nat),
        _ => {},
    }
    match (args.max_seq_len, other.max_seq_len) {
        (Some(a), Some(b)) => text::lemma_decimals_differ(a as nat, b as nat),
        _ => {},
    }
}

/// The two stages of a plan take the recipe's arguments, each its own.
pub proof fn lemma_the_stages_take_the_arguments(nodes: Seq<Node>, args: Args)
    requires
        is_pipeline(nodes, args),
    ensures
        nodes.len() == 2,
        nodes[0] matches Node::LoadDataset(l) && {
            &&& l.path == args.dataset_path
            &&& l.hf_name == args.hf_name
            &&& l.split == args.split
            &&& l.subset == args.dataset.subset
            &&& l.max_samples == args.dataset.max_samples
        },
        nodes[1] matches Node::EvaluateLoadedDataset(e) && {
            &&& e.checkpoint_path == args.checkpoint_path
            &&& e.eval == args.eval
            &&& e.batch_size == args.batch_size
            &&& e.device == args.device
            &&& e.text_field == args.text_field
            &&& e.max_seq_len == args.max_seq_len
        },
{
}

/// A plan comes out exactly where one dataset is chosen and the checkpoint is there; what
/// is said of one that is missing quotes its path.
pub proof fn lemma_which_arguments_make_a_plan(args: Args, checkpoint_exists: bool)
    ensures
        complaint(args, checkpoint_exists) is None <==> (args.hf_name is Some) != (
        args.dataset_path is Some) && checkpoint_exists,
        (args.hf_name is Some) == (args.dataset_path is Some) ==> complaint(
            args,
            checkpoint_exists,
        )->0.field is None,
        (args.hf_name is Some) != (args.dataset_path is Some) && !checkpoint_exists ==> complaint(
            args,
            checkpoint_exists,
        )->0.field == Some("checkpoint_path"@) && text::occurs_in(
            complaint(args, checkpoint_exists)->0.message,
            args.checkpoint_path@,
        ),
{
    text::lemma_the_ends_occur("not found: "@, args.checkpoint_path@);
}

} // verus!
