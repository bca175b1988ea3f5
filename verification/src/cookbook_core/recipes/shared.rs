//! What the recipes that load a dataset and train share: which part of a dataset to
//! load, and how training is laid out.
//!
//! The fields stand at the top level of a recipe's arguments. Each one is left out
//! of the written arguments where it has its default: written arguments are part of
//! a plan's identity, so a run that sets none of them keeps the identity it had.

use vstd::prelude::*;
use vstd::string::*;

use crate::cookbook_core::stages::train_model;
use crate::cookbook_core::stages::train_model::{get_strategy, ParallelStrategy};
use crate::distributed::{is_one, one};
use crate::error::{RecipeError, RecipeErrorView};
use crate::json;
use crate::json::{
    add_entry, count_value, get_count, get_number, get_text, object, text_value, Json, JsonView,
};
use crate::text;

verus! {

/// What is wrong with the choice between a dataset's name and its path.
pub open spec fn choice_complaint(
    hf_name: Option<String>,
    dataset_path: Option<String>,
) -> Option<RecipeErrorView> {
    if hf_name is Some && dataset_path is Some {
        Some(
            RecipeErrorView {
                field: None,
                message: "pass exactly one of hf_name / dataset_path, not both"@,
            },
        )
    } else if hf_name is None && dataset_path is None {
        Some(
            RecipeErrorView {
                field: None,
                message: "one of hf_name / dataset_path is required"@,
            },
        )
    } else {
        None
    }
}

/// Refuses both a name and a path, and neither.
pub fn check_choice(hf_name: &Option<String>, dataset_path: &Option<String>) -> (r: Result<
    (),
    RecipeError,
>)
    ensures
        match r {
            Ok(_) => choice_complaint(*hf_name, *dataset_path) is None,
            Err(e) => choice_complaint(*hf_name, *dataset_path) == Some(e@),
        },
{
    match (hf_name, dataset_path) {
        (Some(_), Some(_)) => Err(
            RecipeError {
                field: None,
                message: "pass exactly one of hf_name / dataset_path, not both".to_string(),
            },
        ),
        (None, None) => Err(
            RecipeError {
                field: None,
                message: "one of hf_name / dataset_path is required".to_string(),
            },
        ),
        _ => Ok(()),
    }
}

/// Which part of a dataset to load.
#[derive(Debug, PartialEq, Eq)]
pub struct DatasetSelect {
    /// The configuration of a dataset that publishes several.
    pub subset: Option<String>,
    /// The maximum number of examples to load. `None`: all of them.
    pub max_samples: Option<usize>,
}

/// How training is laid out over processes, and how text becomes tokens.
#[derive(Debug, PartialEq, Eq)]
pub struct TrainShape {
    /// Processes on a node.
    pub nproc_per_node: u32,
    /// Nodes. More than one need a rendezvous in every node's environment.
    pub nnodes: u32,
    pub parallel_strategy: ParallelStrategy,
    /// The column that holds the text; the trainer's own default where unset.
    pub text_field: Option<String>,
    /// Tokens in a packed block; the trainer's own default where unset.
    pub max_seq_len: Option<u32>,
}

/// A selection as values.
#[verifier::ext_equal]
pub struct SelectView {
    pub subset: Option<Seq<char>>,
    pub max_samples: Option<usize>,
}

/// A layout as values.
#[verifier::ext_equal]
pub struct ShapeView {
    pub nproc_per_node: u32,
    pub nnodes: u32,
    pub parallel_strategy: ParallelStrategy,
    pub text_field: Option<Seq<char>>,
    pub max_seq_len: Option<u32>,
}

impl View for DatasetSelect {
    type V = SelectView;

    open spec fn view(&self) -> SelectView {
        SelectView { subset: text::optional(self.subset), max_samples: self.max_samples }
    }
}

impl View for TrainShape {
    type V = ShapeView;

    open spec fn view(&self) -> ShapeView {
        ShapeView {
            nproc_per_node: self.nproc_per_node,
            nnodes: self.nnodes,
            parallel_strategy: self.parallel_strategy,
            text_field: text::optional(self.text_field),
            max_seq_len: self.max_seq_len,
        }
    }
}

/// The whole dataset.
pub open spec fn whole() -> SelectView {
    SelectView { subset: None, max_samples: None }
}

/// One process on one node.
pub open spec fn single() -> ShapeView {
    ShapeView {
        nproc_per_node: 1,
        nnodes: 1,
        parallel_strategy: ParallelStrategy::Ddp,
        text_field: None,
        max_seq_len: None,
    }
}

impl Default for DatasetSelect {
    fn default() -> (s: Self)
        ensures
            s@ == whole(),
    {
        DatasetSelect { subset: None, max_samples: None }
    }
}

impl Default for TrainShape {
    fn default() -> (s: Self)
        ensures
            s@ == single(),
    {
        TrainShape {
            nproc_per_node: one(),
            nnodes: one(),
            parallel_strategy: ParallelStrategy::default(),
            text_field: None,
            max_seq_len: None,
        }
    }
}

/// One entry, or none.
pub open spec fn entry_if(there: bool, key: Seq<char>, value: JsonView) -> Seq<
    (Seq<char>, JsonView),
> {
    if there {
        seq![(key, value)]
    } else {
        Seq::empty()
    }
}

/// A number as JSON.
pub open spec fn number(n: nat) -> JsonView {
    JsonView::Number(text::decimal(n))
}

/// The entries of a selection, without those at their default.
pub open spec fn select_entries(s: SelectView) -> Seq<(Seq<char>, JsonView)> {
    entry_if(s.subset is Some, "subset"@, JsonView::Text(s.subset->0)) + entry_if(
        s.max_samples is Some,
        "max_samples"@,
        number(s.max_samples->0 as nat),
    )
}

/// The entries of a layout, without those at their default.
pub open spec fn shape_entries(s: ShapeView) -> Seq<(Seq<char>, JsonView)> {
    entry_if(s.nproc_per_node != 1, "nproc_per_node"@, number(s.nproc_per_node as nat)) + entry_if(
        s.nnodes != 1,
        "nnodes"@,
        number(s.nnodes as nat),
    ) + entry_if(
        s.parallel_strategy != ParallelStrategy::Ddp,
        "parallel_strategy"@,
        JsonView::Text(train_model::strategy_name(s.parallel_strategy)),
    ) + entry_if(
        s.text_field is Some,
        "text_field"@,
        JsonView::Text(s.text_field->0),
    ) + entry_if(s.max_seq_len is Some, "max_seq_len"@, number(s.max_seq_len->0 as nat))
}

/// The selection that a record holds, an object among its entries.
pub open spec fn read_select(v: JsonView) -> Option<SelectView> {
    match (
        json::is_record(v, 2),
        json::text_at(v, "subset"@, 0),
        json::number_at(v, "max_samples"@, 1, usize::MAX as nat),
    ) {
        (true, Some(subset), Some(max_samples)) => Some(
            SelectView {
                subset,
                max_samples: match max_samples {
                    Some(n) => Some(n as usize),
                    None => None,
                },
            },
        ),
        _ => None,
    }
}

/// The layout that a record holds, an object among its entries.
pub open spec fn read_shape(v: JsonView) -> Option<ShapeView> {
    match (
        json::is_record(v, 5),
        json::count_at(v, "nproc_per_node"@, 0, 1, u32::MAX as nat),
        json::count_at(v, "nnodes"@, 1, 1, u32::MAX as nat),
        train_model::strategy_of(v, 2),
        json::text_at(v, "text_field"@, 3),
        json::number_at(v, "max_seq_len"@, 4, u32::MAX as nat),
    ) {
        (
            true,
            Some(nproc),
            Some(nnodes),
            Some(parallel_strategy),
            Some(text_field),
            Some(max_seq_len),
        ) => Some(
            ShapeView {
                nproc_per_node: nproc as u32,
                nnodes: nnodes as u32,
                parallel_strategy,
                text_field,
                max_seq_len: match max_seq_len {
                    Some(n) => Some(n as u32),
                    None => None,
                },
            },
        ),
        _ => None,
    }
}

impl DatasetSelect {
    /// Appends the entries of the selection, without those at their default.
    pub fn write(&self, e: &mut Vec<(String, Json)>)
        ensures
            json::entries_view(final(e)@) == json::entries_view(old(e)@) + select_entries(self@),
    {
        let ghost start = json::entries_view(e@);
        assert(start + Seq::<(Seq<char>, JsonView)>::empty() =~= start);
        match &self.subset {
            Some(s) => add_entry(e, "subset", text_value(s.as_str())),
            None => {},
        }
        match self.max_samples {
            Some(n) => add_entry(e, "max_samples", count_value(n as u64)),
            None => {},
        }
        assert(json::entries_view(e@) =~= start + select_entries(self@));
    }

    /// The selection as JSON.
    pub fn to_json(&self) -> (r: Json)
        ensures
            r@ == JsonView::Object(select_entries(self@)),
    {
        let mut e: Vec<(String, Json)> = Vec::new();
        self.write(&mut e);
        assert(json::entries_view(e@) =~= select_entries(self@));
        object(e)
    }

    /// The selection that a record holds, an object among its entries. `None` where a
    /// field is not of its type.
    pub fn from_json(v: &Json) -> (r: Option<DatasetSelect>)
        ensures
            match r {
                Some(s) => read_select(v@) == Some(s@),
                None => read_select(v@) is None,
            },
    {
        if !v.is_record(2) {
            return None;
        }
        match (get_text(v, "subset", 0), get_number(v, "max_samples", 1, usize::MAX as u64)) {
            (Some(subset), Some(max_samples)) => {
                let max_samples: Option<usize> = match max_samples {
                    Some(n) => Some(n as usize),
                    None => None,
                };
                Some(DatasetSelect { subset, max_samples })
            },
            _ => None,
        }
    }
}

impl TrainShape {
    /// Appends the entries of the layout, without those at their default.
    pub fn write(&self, e: &mut Vec<(String, Json)>)
        ensures
            json::entries_view(final(e)@) == json::entries_view(old(e)@) + shape_entries(self@),
    {
        let ghost start = json::entries_view(e@);
        if !is_one(&self.nproc_per_node) {
            add_entry(e, "nproc_per_node", count_value(self.nproc_per_node as u64));
        }
        if !is_one(&self.nnodes) {
            add_entry(e, "nnodes", count_value(self.nnodes as u64));
        }
        if !self.parallel_strategy.is_ddp() {
            add_entry(e, "parallel_strategy", text_value(self.parallel_strategy.name()));
        }
        match &self.text_field {
            Some(t) => add_entry(e, "text_field", text_value(t.as_str())),
            None => {},
        }
        match self.max_seq_len {
            Some(n) => add_entry(e, "max_seq_len", count_value(n as u64)),
            None => {},
        }
        assert(json::entries_view(e@) =~= start + shape_entries(self@));
    }

    /// The layout as JSON.
    pub fn to_json(&self) -> (r: Json)
        ensures
            r@ == JsonView::Object(shape_entries(self@)),
    {
        let mut e: Vec<(String, Json)> = Vec::new();
        self.write(&mut e);
        assert(json::entries_view(e@) =~= shape_entries(self@));
        object(e)
    }

    /// The layout that a record holds, an object among its entries. `None` where a
    /// field is not of its type.
    pub fn from_json(v: &Json) -> (r: Option<TrainShape>)
        ensures
            match r {
                Some(s) => read_shape(v@) == Some(s@),
                None => read_shape(v@) is None,
            },
    {
        if !v.is_record(5) {
            return None;
        }
        match (
            get_count(v, "nproc_per_node", 0, 1, u32::MAX as u64),
            get_count(v, "nnodes", 1, 1, u32::MAX as u64),
            get_strategy(v, 2),
            get_text(v, "text_field", 3),
            get_number(v, "max_seq_len", 4, u32::MAX as u64),
        ) {
            (
                Some(nproc),
                Some(nnodes),
                Some(parallel_strategy),
                Some(text_field),
                Some(max_seq_len),
            ) => {
                let max_seq_len: Option<u32> = match max_seq_len {
                    Some(n) => Some(n as u32),
                    None => None,
                };
                Some(
                    TrainShape {
                        nproc_per_node: nproc as u32,
                        nnodes: nnodes as u32,
                        parallel_strategy,
                        text_field,
                        max_seq_len,
                    },
                )
            },
            _ => None,
        }
    }
}

/// Defaults are written as nothing.
pub proof fn lemma_defaults_are_written_as_nothing()
    ensures
        select_entries(whole()) == Seq::<(Seq<char>, JsonView)>::empty(),
        shape_entries(single()) == Seq::<(Seq<char>, JsonView)>::empty(),
{
    assert(select_entries(whole()) =~= Seq::<(Seq<char>, JsonView)>::empty());
    assert(shape_entries(single()) =~= Seq::<(Seq<char>, JsonView)>::empty());
}

/// A record without fields, an object or an array, holds the defaults.
pub proof fn lemma_an_empty_record_holds_the_defaults()
    ensures
        read_select(JsonView::Object(Seq::empty())) == Some(whole()),
        read_select(JsonView::Array(Seq::empty())) == Some(whole()),
        read_shape(JsonView::Object(Seq::empty())) == Some(single()),
        read_shape(JsonView::Array(Seq::empty())) == Some(single()),
{
}

/// The keys of the two structs are told apart by their length and their first
/// letter, but for `max_samples` and `max_seq_len`.
pub proof fn lemma_keys_are_told_apart()
    ensures
        "subset"@.len() == 6 && "subset"@[0] == 's',
        "max_samples"@.len() == 11 && "max_samples"@[0] == 'm' && "max_samples"@[5] == 'a',
        "nproc_per_node"@.len() == 14,
        "nnodes"@.len() == 6 && "nnodes"@[0] == 'n',
        "parallel_strategy"@.len() == 17,
        "text_field"@.len() == 10 && "text_field"@[0] == 't',
        "max_seq_len"@.len() == 11 && "max_seq_len"@[0] == 'm' && "max_seq_len"@[5] == 'e',
{
    reveal_strlit("subset");
    reveal_strlit("max_samples");
    reveal_strlit("nproc_per_node");
    reveal_strlit("nnodes");
    reveal_strlit("parallel_strategy");
    reveal_strlit("text_field");
    reveal_strlit("max_seq_len");
}

/// What a list of entries holds under a key, where the entries are at most one.
proof fn lemma_lookup_entry_if(there: bool, key: Seq<char>, value: JsonView, wanted: Seq<char>)
    ensures
        json::lookup(entry_if(there, key, value), wanted) == if there && key == wanted {
            Some(value)
        } else {
            None
        },
{
    let e = entry_if(there, key, value);
    if there {
        assert(e.drop_first() =~= Seq::<(Seq<char>, JsonView)>::empty());
        assert(json::lookup(e.drop_first(), wanted) is None);
    }
}

/// What the written selection holds under a key.
pub proof fn lemma_lookup_in_select(s: SelectView, key: Seq<char>)
    ensures
        json::lookup(select_entries(s), key) == if key == "subset"@ && s.subset is Some {
            Some(JsonView::Text(s.subset->0))
        } else if key == "max_samples"@ && s.max_samples is Some {
            Some(number(s.max_samples->0 as nat))
        } else {
            None
        },
{
    lemma_keys_are_told_apart();
    let a = entry_if(s.subset is Some, "subset"@, JsonView::Text(s.subset->0));
    let b = entry_if(s.max_samples is Some, "max_samples"@, number(s.max_samples->0 as nat));
    json::lemma_lookup_in_two(a, b, key);
    lemma_lookup_entry_if(s.subset is Some, "subset"@, JsonView::Text(s.subset->0), key);
    lemma_lookup_entry_if(
        s.max_samples is Some,
        "max_samples"@,
        number(s.max_samples->0 as nat),
        key,
    );
}

/// What the written layout holds under a key.
pub proof fn lemma_lookup_in_shape(s: ShapeView, key: Seq<char>)
    ensures
        json::lookup(shape_entries(s), key) == if key == "nproc_per_node"@ && s.nproc_per_node != 1 {
            Some(number(s.nproc_per_node as nat))
        } else if key == "nnodes"@ && s.nnodes != 1 {
            Some(number(s.nnodes as nat))
        } else if key == "parallel_strategy"@ && s.parallel_strategy != ParallelStrategy::Ddp {
            Some(JsonView::Text(train_model::strategy_name(s.parallel_strategy)))
        } else if key == "text_field"@ && s.text_field is Some {
            Some(JsonView::Text(s.text_field->0))
        } else if key == "max_seq_len"@ && s.max_seq_len is Some {
            Some(number(s.max_seq_len->0 as nat))
        } else {
            None
        },
{
    lemma_keys_are_told_apart();
    let strategy = JsonView::Text(train_model::strategy_name(s.parallel_strategy));
    let a = entry_if(s.nproc_per_node != 1, "nproc_per_node"@, number(s.nproc_per_node as nat));
    let b = entry_if(s.nnodes != 1, "nnodes"@, number(s.nnodes as nat));
    let c = entry_if(
        s.parallel_strategy != ParallelStrategy::Ddp,
        "parallel_strategy"@,
        strategy,
    );
    let d = entry_if(s.text_field is Some, "text_field"@, JsonView::Text(s.text_field->0));
    let e = entry_if(s.max_seq_len is Some, "max_seq_len"@, number(s.max_seq_len->0 as nat));
    json::lemma_lookup_in_two(a, b, key);
    json::lemma_lookup_in_two(a + b, c, key);
    json::lemma_lookup_in_two(a + b + c, d, key);
    json::lemma_lookup_in_two(a + b + c + d, e, key);
    lemma_lookup_entry_if(
        s.nproc_per_node != 1,
        "nproc_per_node"@,
        number(s.nproc_per_node as nat),
        key,
    );
    lemma_lookup_entry_if(s.nnodes != 1, "nnodes"@, number(s.nnodes as nat), key);
    lemma_lookup_entry_if(
        s.parallel_strategy != ParallelStrategy::Ddp,
        "parallel_strategy"@,
        strategy,
        key,
    );
    lemma_lookup_entry_if(
        s.text_field is Some,
        "text_field"@,
        JsonView::Text(s.text_field->0),
        key,
    );
    lemma_lookup_entry_if(
        s.max_seq_len is Some,
        "max_seq_len"@,
        number(s.max_seq_len->0 as nat),
        key,
    );
}

/// A selection is read back from any object that holds its entries, among others
/// with other keys.
pub proof fn lemma_select_reads_back(
    before: Seq<(Seq<char>, JsonView)>,
    s: SelectView,
    after: Seq<(Seq<char>, JsonView)>,
)
    requires
        json::lookup(before, "subset"@) is None,
        json::lookup(before, "max_samples"@) is None,
        json::lookup(after, "subset"@) is None,
        json::lookup(after, "max_samples"@) is None,
    ensures
        read_select(JsonView::Object(before + select_entries(s) + after)) == Some(s),
{
    let own = select_entries(s);
    lemma_keys_are_told_apart();
    json::lemma_lookup_in_two(before + own, after, "subset"@);
    json::lemma_lookup_in_two(before, own, "subset"@);
    json::lemma_lookup_in_two(before + own, after, "max_samples"@);
    json::lemma_lookup_in_two(before, own, "max_samples"@);
    lemma_lookup_in_select(s, "subset"@);
    lemma_lookup_in_select(s, "max_samples"@);
    if let Some(n) = s.max_samples {
        text::lemma_decimal_reads_back(n as nat);
    }
}

/// A layout is read back from any object that holds its entries, among others with
/// other keys.
pub proof fn lemma_shape_reads_back(
    before: Seq<(Seq<char>, JsonView)>,
    s: ShapeView,
    after: Seq<(Seq<char>, JsonView)>,
)
    requires
        json::lookup(before, "nproc_per_node"@) is None,
        json::lookup(before, "nnodes"@) is None,
        json::lookup(before, "parallel_strategy"@) is None,
        json::lookup(before, "text_field"@) is None,
        json::lookup(before, "max_seq_len"@) is None,
        json::lookup(after, "nproc_per_node"@) is None,
        json::lookup(after, "nnodes"@) is None,
        json::lookup(after, "parallel_strategy"@) is None,
        json::lookup(after, "text_field"@) is None,
        json::lookup(after, "max_seq_len"@) is None,
    ensures
        read_shape(JsonView::Object(before + shape_entries(s) + after)) == Some(s),
{
    let own = shape_entries(s);
    lemma_keys_are_told_apart();
    json::lemma_lookup_in_two(before + own, after, "nproc_per_node"@);
    json::lemma_lookup_in_two(before, own, "nproc_per_node"@);
    json::lemma_lookup_in_two(before + own, after, "nnodes"@);
    json::lemma_lookup_in_two(before, own, "nnodes"@);
    json::lemma_lookup_in_two(before + own, after, "parallel_strategy"@);
    json::lemma_lookup_in_two(before, own, "parallel_strategy"@);
    json::lemma_lookup_in_two(before + own, after, "text_field"@);
    json::lemma_lookup_in_two(before, own, "text_field"@);
    json::lemma_lookup_in_two(before + own, after, "max_seq_len"@);
    json::lemma_lookup_in_two(before, own, "max_seq_len"@);
    lemma_lookup_in_shape(s, "nproc_per_node"@);
    lemma_lookup_in_shape(s, "nnodes"@);
    lemma_lookup_in_shape(s, "parallel_strategy"@);
    lemma_lookup_in_shape(s, "text_field"@);
    lemma_lookup_in_shape(s, "max_seq_len"@);
    text::lemma_decimal_reads_back(s.nproc_per_node as nat);
    text::lemma_decimal_reads_back(s.nnodes as nat);
    if let Some(n) = s.max_seq_len {
        text::lemma_decimal_reads_back(n as nat);
    }
    train_model::lemma_strategy_names_differ(s.parallel_strategy);
}

/// The defaults are the whole dataset, and one process on one node that replicates the
/// model, with the trainer's own column and block length.
pub proof fn lemma_what_the_defaults_are()
    ensures
        whole().subset is None,
        whole().max_samples is None,
        single().nproc_per_node == 1,
        single().nnodes == 1,
        single().parallel_strategy == ParallelStrategy::Ddp,
        single().text_field is None,
        single().max_seq_len is None,
{
}

/// A choice is accepted exactly where a name or a path is given and not both.
pub proof fn lemma_exactly_one_dataset_is_chosen(
    hf_name: Option<String>,
    dataset_path: Option<String>,
)
    ensures
        choice_complaint(hf_name, dataset_path) is None <==> (hf_name is Some) != (dataset_path
            is Some),
        hf_name is Some && dataset_path is Some ==> choice_complaint(
            hf_name,
            dataset_path,
        )->0.message == "pass exactly one of hf_name / dataset_path, not both"@,
        hf_name is None && dataset_path is None ==> choice_complaint(
            hf_name,
            dataset_path,
        )->0.message == "one of hf_name / dataset_path is required"@,
        choice_complaint(hf_name, dataset_path) matches Some(e) ==> e.field is None,
{
}

/// An array holds the fields in their order: the subset, then the cap; and for a layout
/// the processes, the nodes, the strategy, the column and the block length. An array with
/// an item more holds nothing.
pub proof fn lemma_records_are_read_in_their_order(
    subset: Seq<char>,
    max_samples: usize,
    nproc: u32,
    nnodes: u32,
    strategy: ParallelStrategy,
    text_field: Seq<char>,
    max_seq_len: u32,
    more: JsonView,
)
    ensures
        ({
            let select = seq![JsonView::Text(subset), number(max_samples as nat)];
            let shape = seq![
                number(nproc as nat),
                number(nnodes as nat),
                JsonView::Text(train_model::strategy_name(strategy)),
                JsonView::Text(text_field),
                number(max_seq_len as nat),
            ];
            &&& read_select(JsonView::Array(select)) == Some(
                SelectView { subset: Some(subset), max_samples: Some(max_samples) },
            )
            &&& read_select(JsonView::Array(select.push(more))) is None
            &&& read_shape(JsonView::Array(shape)) == Some(
                ShapeView {
                    nproc_per_node: nproc,
                    nnodes,
                    parallel_strategy: strategy,
                    text_field: Some(text_field),
                    max_seq_len: Some(max_seq_len),
                },
            )
            &&& read_shape(JsonView::Array(shape.push(more))) is None
        }),
{
    text::lemma_decimal_reads_back(max_samples as nat);
    text::lemma_decimal_reads_back(nproc as nat);
    text::lemma_decimal_reads_back(nnodes as nat);
    text::lemma_decimal_reads_back(max_seq_len as nat);
    train_model::lemma_strategy_names_differ(strategy);
}

} // verus!
