//! Plans: stages with their arguments, and the edges along which artifacts pass.

use vstd::prelude::*;

use crate::cookbook_core::stages::evaluate_model::{HeldOutArgs, LoadedDatasetArgs};
use crate::cookbook_core::stages::{load_dataset, train_model};
use crate::json::Json;
use crate::recipes::study_fixture;
use crate::stages::{convert_gguf, merge_lora, register_model, split_train_eval};

verus! {

/// A stage of a plan, with its arguments.
#[derive(Debug)]
pub enum Node {
    LoadDataset(load_dataset::Args),
    SplitTrainEval(split_train_eval::Args),
    TakeTrain,
    TakeEval,
    TrainModel(train_model::Args),
    TrainModelOnSplit(train_model::Args),
    MergeLora(merge_lora::Args),
    ConvertGguf(convert_gguf::Args),
    RegisterModel(register_model::Args),
    EvaluateLoadedDataset(LoadedDatasetArgs),
    EvaluateHeldOut(HeldOutArgs),
    StudyFixture(study_fixture::Args),
}

/// What passes along an edge.
pub enum Kind {
    Nothing,
    Dataset,
    Split,
    Checkpoint,
    CheckpointAndDataset,
    Gguf,
    Report,
    Fixture,
}

/// What a stage takes.
pub open spec fn input_of(n: Node) -> Kind {
    match n {
        Node::LoadDataset(_) => Kind::Nothing,
        Node::SplitTrainEval(_) => Kind::Dataset,
        Node::TakeTrain => Kind::Split,
        Node::TakeEval => Kind::Split,
        Node::TrainModel(_) => Kind::Dataset,
        Node::TrainModelOnSplit(_) => Kind::Split,
        Node::MergeLora(_) => Kind::Checkpoint,
        Node::ConvertGguf(_) => Kind::Checkpoint,
        Node::RegisterModel(_) => Kind::Gguf,
        Node::EvaluateLoadedDataset(_) => Kind::Dataset,
        Node::EvaluateHeldOut(_) => Kind::CheckpointAndDataset,
        Node::StudyFixture(_) => Kind::Nothing,
    }
}

/// What a stage gives.
pub open spec fn output_of(n: Node) -> Kind {
    match n {
        Node::LoadDataset(_) => Kind::Dataset,
        Node::SplitTrainEval(_) => Kind::Split,
        Node::TakeTrain => Kind::Dataset,
        Node::TakeEval => Kind::Dataset,
        Node::TrainModel(_) => Kind::Checkpoint,
        Node::TrainModelOnSplit(_) => Kind::Checkpoint,
        Node::MergeLora(_) => Kind::Checkpoint,
        Node::ConvertGguf(_) => Kind::Gguf,
        Node::RegisterModel(_) => Kind::Gguf,
        Node::EvaluateLoadedDataset(_) => Kind::Report,
        Node::EvaluateHeldOut(_) => Kind::Report,
        Node::StudyFixture(_) => Kind::Fixture,
    }
}

/// What is given can be taken, alone or as one of a pair.
pub open spec fn feeds(given: Kind, taken: Kind) -> bool {
    ||| given == taken
    ||| taken == Kind::CheckpointAndDataset && (given == Kind::Checkpoint || given == Kind::Dataset)
}

/// A plan under construction or finished: its name, the arguments it was made from,
/// its stages, its edges, and the stages that nothing follows yet.
#[derive(Debug)]
pub struct Plan {
    pub name: &'static str,
    pub args: Json,
    pub nodes: Vec<Node>,
    pub edges: Vec<(usize, usize)>,
    pub tails: Vec<usize>,
}

impl Plan {
    /// Every edge leads from a stage to a later one, so that there is no cycle; the
    /// stages that nothing follows are stages of the plan.
    pub open spec fn wf(self) -> bool {
        &&& forall|i: int|
            0 <= i < self.edges@.len() ==> (#[trigger] self.edges@[i]).0 < self.edges@[i].1
                < self.nodes@.len()
        &&& forall|i: int| 0 <= i < self.tails@.len() ==> #[trigger] self.tails@[i] < self.nodes@.len()
    }

    /// The first stage takes nothing, and every edge carries what the stage at its
    /// end takes.
    pub open spec fn well_wired(self) -> bool {
        &&& self.nodes@.len() > 0 ==> input_of(self.nodes@[0]) == Kind::Nothing
        &&& forall|i: int|
            0 <= i < self.edges@.len() ==> feeds(
                output_of(self.nodes@[(#[trigger] self.edges@[i]).0 as int]),
                input_of(self.nodes@[self.edges@[i].1 as int]),
            )
    }

    /// A plan without stages.
    pub fn new(name: &'static str, args: Json) -> (p: Self)
        ensures
            p.wf(),
            p.name@ == name@,
            p.args == args,
            p.nodes@ == Seq::<Node>::empty(),
            p.edges@ == Seq::<(usize, usize)>::empty(),
            p.tails@ == Seq::<usize>::empty(),
    {
        Plan { name, args, nodes: Vec::new(), edges: Vec::new(), tails: Vec::new() }
    }

    /// Adds the first stage.
    pub fn start(self, node: Node) -> (p: Self)
        requires
            self.wf(),
            self.nodes@.len() == 0,
        ensures
            p.wf(),
            p.name@ == self.name@,
            p.args == self.args,
            p.nodes@ == seq![node],
            p.edges@ == self.edges@,
            p.tails@ == seq![0usize],
    {
        let mut p = self;
        p.nodes.push(node);
        p.tails = vec![0];
        assert(p.nodes@ =~= seq![node]);
        p
    }

    /// Adds a stage behind the last one.
    pub fn followed_by(self, node: Node) -> (p: Self)
        requires
            self.wf(),
            self.tails@.len() == 1,
        ensures
            p.wf(),
            p.name@ == self.name@,
            p.args == self.args,
            p.nodes@ == self.nodes@.push(node),
            p.edges@ == self.edges@.push((self.tails@[0], self.nodes@.len() as usize)),
            p.tails@ == seq![self.nodes@.len() as usize],
    {
        let mut p = self;
        let tail: usize = p.tails[0];
        let here: usize = p.nodes.len();
        p.nodes.push(node);
        p.edges.push((tail, here));
        p.tails = vec![here];
        p
    }

    /// Adds two stages behind the last one.
    pub fn fork(self, left: Node, right: Node) -> (p: Self)
        requires
            self.wf(),
            self.tails@.len() == 1,
            self.nodes@.len() < usize::MAX,
        ensures
            p.wf(),
            p.name@ == self.name@,
            p.args == self.args,
            p.nodes@ == self.nodes@.push(left).push(right),
            p.edges@ == self.edges@.push((self.tails@[0], self.nodes@.len() as usize)).push(
                (self.tails@[0], (self.nodes@.len() + 1) as usize),
            ),
            p.tails@ == seq![self.nodes@.len() as usize, (self.nodes@.len() + 1) as usize],
    {
        let mut p = self;
        let tail: usize = p.tails[0];
        let here: usize = p.nodes.len();
        p.nodes.push(left);
        p.nodes.push(right);
        p.edges.push((tail, here));
        p.edges.push((tail, here + 1));
        p.tails = vec![here, here + 1];
        p
    }

    /// Adds a stage behind the last two.
    pub fn merge(self, node: Node) -> (p: Self)
        requires
            self.wf(),
            self.tails@.len() == 2,
        ensures
            p.wf(),
            p.name@ == self.name@,
            p.args == self.args,
            p.nodes@ == self.nodes@.push(node),
            p.edges@ == self.edges@.push((self.tails@[0], self.nodes@.len() as usize)).push(
                (self.tails@[1], self.nodes@.len() as usize),
            ),
            p.tails@ == seq![self.nodes@.len() as usize],
    {
        let mut p = self;
        let left: usize = p.tails[0];
        let right: usize = p.tails[1];
        let here: usize = p.nodes.len();
        p.nodes.push(node);
        p.edges.push((left, here));
        p.edges.push((right, here));
        p.tails = vec![here];
        p
    }

    /// How many stages the plan has.
    pub fn n_nodes(&self) -> (n: usize)
        ensures
            n == self.nodes@.len(),
    {
        self.nodes.len()
    }

    /// How many edges the plan has.
    pub fn n_edges(&self) -> (n: usize)
        ensures
            n == self.edges@.len(),
    {
        self.edges.len()
    }
}

/// `path` leads from stage to stage along edges.
pub open spec fn is_path(edges: Seq<(usize, usize)>, path: Seq<usize>) -> bool {
    forall|i: int|
        0 <= i < path.len() - 1 ==> edges.contains((#[trigger] path[i], path[i + 1]))
}

/// A plan has no cycle: along its edges one only comes to later stages, all of them stages
/// of the plan.
pub proof fn lemma_a_plan_has_no_cycle(p: Plan, path: Seq<usize>)
    requires
        p.wf(),
        is_path(p.edges@, path),
        path.len() >= 2,
    ensures
        path[0] < path.last(),
        path.last() < p.nodes@.len(),
    decreases path.len(),
{
    let n = path.len() as int;
    assert(p.edges@.contains((path[n - 2], path[n - 1])));
    let k = choose|k: int|
        0 <= k < p.edges@.len() && p.edges@[k] == (path[n - 2], path[n - 1]);
    assert(p.edges@[k].0 < p.edges@[k].1 < p.nodes@.len());
    if n > 2 {
        let front = path.drop_last();
        assert forall|i: int| 0 <= i < front.len() - 1 implies p.edges@.contains(
            (#[trigger] front[i], front[i + 1]),
        ) by {
            assert(front[i] == path[i] && front[i + 1] == path[i + 1]);
        }
        lemma_a_plan_has_no_cycle(p, front);
    }
}

/// What can follow what: a dataset is split, trained on or evaluated on; a split is taken
/// apart or trained on; a checkpoint is merged, converted or, with a dataset, evaluated;
/// a converted model is registered.
pub proof fn lemma_what_can_follow_what(
    load: load_dataset::Args,
    split: split_train_eval::Args,
    train: train_model::Args,
    merge: merge_lora::Args,
    convert: convert_gguf::Args,
    register: register_model::Args,
    loaded: LoadedDatasetArgs,
    held_out: HeldOutArgs,
)
    ensures
        ({
            let dataset = output_of(Node::LoadDataset(load));
            let halves = output_of(Node::SplitTrainEval(split));
            let checkpoint = output_of(Node::TrainModel(train));
            let gguf = output_of(Node::ConvertGguf(convert));
            let report = output_of(Node::EvaluateHeldOut(held_out));
            &&& output_of(Node::TakeTrain) == dataset && output_of(Node::TakeEval) == dataset
            &&& output_of(Node::TrainModelOnSplit(train)) == checkpoint
            &&& output_of(Node::MergeLora(merge)) == checkpoint
            &&& output_of(Node::RegisterModel(register)) == gguf
            &&& output_of(Node::EvaluateLoadedDataset(loaded)) == report
            &&& feeds(dataset, input_of(Node::SplitTrainEval(split)))
            &&& feeds(dataset, input_of(Node::TrainModel(train)))
            &&& feeds(dataset, input_of(Node::EvaluateLoadedDataset(loaded)))
            &&& feeds(dataset, input_of(Node::EvaluateHeldOut(held_out)))
            &&& feeds(halves, input_of(Node::TakeTrain)) && feeds(halves, input_of(Node::TakeEval))
            &&& feeds(halves, input_of(Node::TrainModelOnSplit(train)))
            &&& feeds(checkpoint, input_of(Node::MergeLora(merge)))
            &&& feeds(checkpoint, input_of(Node::ConvertGguf(convert)))
            &&& feeds(checkpoint, input_of(Node::EvaluateHeldOut(held_out)))
            &&& feeds(gguf, input_of(Node::RegisterModel(register)))
        }),
{
}

/// What cannot follow what: nothing follows a report or comes before a dataset is loaded,
/// a split is not trained on whole, and a checkpoint is not registered unconverted.
pub proof fn lemma_what_cannot_follow_what(n: Node)
    ensures
        !feeds(Kind::Report, input_of(n)),
        !feeds(Kind::Fixture, input_of(n)),
        n is LoadDataset || n is StudyFixture <==> input_of(n) == Kind::Nothing,
        output_of(n) != Kind::Nothing,
        feeds(Kind::Split, input_of(n)) ==> n is TakeTrain || n is TakeEval || n
            is TrainModelOnSplit,
        feeds(Kind::Checkpoint, input_of(n)) ==> n is MergeLora || n is ConvertGguf || n
            is EvaluateHeldOut,
        feeds(Kind::Gguf, input_of(n)) ==> n is RegisterModel,
        feeds(Kind::Dataset, input_of(n)) ==> n is SplitTrainEval || n is TrainModel || n
            is EvaluateLoadedDataset || n is EvaluateHeldOut,
        n is SplitTrainEval <==> output_of(n) == Kind::Split,
        n is EvaluateLoadedDataset || n is EvaluateHeldOut <==> output_of(n) == Kind::Report,
{
}

/// In a wired plan the first stage needs nothing, and along every edge passes what the
/// stage at its end takes, alone or as one of a pair.
pub proof fn lemma_every_edge_carries_what_is_taken(p: Plan, i: int)
    requires
        p.wf(),
        p.well_wired(),
    ensures
        p.nodes@.len() > 0 ==> p.nodes@[0] is LoadDataset || p.nodes@[0] is StudyFixture,
        0 <= i < p.edges@.len() ==> {
            let given = output_of(p.nodes@[p.edges@[i].0 as int]);
            let taken = input_of(p.nodes@[p.edges@[i].1 as int]);
            &&& p.edges@[i].0 < p.edges@[i].1 < p.nodes@.len()
            &&& given == taken || (taken == Kind::CheckpointAndDataset && (given == Kind::Checkpoint
                || given == Kind::Dataset))
        },
        0 <= i < p.tails@.len() ==> p.tails@[i] < p.nodes@.len(),
{
}

/// A plan whose edges all lead on to later stages, and carry what is taken, is one.
pub proof fn lemma_what_makes_a_plan(p: Plan)
    requires
        p.nodes@.len() > 0 ==> p.nodes@[0] is LoadDataset,
        forall|i: int|
            0 <= i < p.edges@.len() ==> (#[trigger] p.edges@[i]).0 < p.edges@[i].1 < p.nodes@.len()
                && output_of(p.nodes@[p.edges@[i].0 as int]) == input_of(
                p.nodes@[p.edges@[i].1 as int],
            ),
        p.tails@.len() == 0,
    ensures
        p.wf(),
        p.well_wired(),
{
}

} // verus!
