//! The stage `train_model`: trains with the generic trainer.

use vstd::prelude::*;
use vstd::string::*;

use crate::artifact::{ContentHash, DatasetJsonl, HfCheckpoint};
use crate::cookbook_core::stages::shared;
use crate::cookbook_core::stages::shared::{
    get_ingredient, get_ingredient_or, IngredientCfg, IngredientView,
};
use crate::distributed;
use crate::distributed::RendezvousEnv;
use crate::error::{bad_input, StageError, StageErrorView};
use crate::framework::Stage;
use crate::json;
use crate::json::{
    add_entry, count_value, get_count, get_optional_u32, get_text_or, object,
    optional_count_value, text_value, Json, JsonView,
};
use crate::process::{CommandExit, ModuleCommand};
use crate::text;
use crate::text::{join, same};
use crate::trainer;
use crate::trainer::{memory_gib, permits, trained, trainer_command};

verus! {

/// The stage.
pub struct TrainModel;

impl Stage for TrainModel {
    const NAME: &'static str = "train_model";

    const SCHEMA: u32 = 1;

    const DETERMINISTIC: bool = false;
}

/// The arguments.
#[derive(Debug, PartialEq, Eq)]
pub struct Args {
    pub model: IngredientCfg,
    pub optimizer: IngredientCfg,
    pub scheduler: IngredientCfg,
    pub loss: IngredientCfg,
    pub step: IngredientCfg,
    pub epochs: u32,
    /// The batch size of one process.
    pub batch_size: u32,
    pub seed: u64,
    pub device: String,
    /// The rank of a low-rank adapter.
    pub lora_rank: Option<u32>,
    pub nproc_per_node: u32,
    pub nnodes: u32,
    pub parallel_strategy: ParallelStrategy,
}

/// How a run is spread over devices: `Ddp` replicates the model, `Fsdp` shards it.
#[derive(Clone, Copy, Debug, PartialEq, Eq, Structural)]
pub enum ParallelStrategy {
    Ddp,
    Fsdp,
}

impl Default for ParallelStrategy {
    fn default() -> (s: Self)
        ensures
            s == ParallelStrategy::Ddp,
    {
        ParallelStrategy::Ddp
    }
}

/// The name of a strategy.
pub open spec fn strategy_name(s: ParallelStrategy) -> Seq<char> {
    match s {
        ParallelStrategy::Ddp => "ddp"@,
        ParallelStrategy::Fsdp => "fsdp"@,
    }
}

impl ParallelStrategy {
    /// The name of the strategy.
    pub fn name(&self) -> (s: &'static str)
        ensures
            s@ == strategy_name(*self),
    {
        match self {
            ParallelStrategy::Ddp => "ddp",
            ParallelStrategy::Fsdp => "fsdp",
        }
    }

    /// The strategy of a name. Any other name stands for none.
    pub fn from_name(name: &str) -> (r: Option<Self>)
        ensures
            match r {
                Some(s) => name@ == strategy_name(s),
                None => name@ != strategy_name(ParallelStrategy::Ddp) && name@ != strategy_name(
                    ParallelStrategy::Fsdp,
                ),
            },
    {
        if same(name, "ddp") {
            Some(ParallelStrategy::Ddp)
        } else if same(name, "fsdp") {
            Some(ParallelStrategy::Fsdp)
        } else {
            None
        }
    }

    /// Reads a strategy. `None` where the value is not one.
    pub fn from_json(v: &Json) -> (r: Option<Self>)
        ensures
            r == written_strategy(v@),
    {
        let r = match v {
            Json::Text(t) => ParallelStrategy::from_name(t.as_str()),
            Json::Object(entries) => if entries.len() == 1 {
                assert(v@->Object_0[0] == (entries@[0].0@, entries@[0].1@));
                match &entries[0].1 {
                    Json::Null => ParallelStrategy::from_name(entries[0].0.as_str()),
                    _ => None,
                }
            } else {
                None
            },
            _ => None,
        };
        proof {
            if let Some(s) = r {
                lemma_strategy_names_differ(s);
            }
        }
        r
    }
}

/// The two strategies have two names.
pub proof fn lemma_strategy_names_differ(s: ParallelStrategy)
    ensures
        strategy_name(s) == strategy_name(ParallelStrategy::Ddp) <==> s == ParallelStrategy::Ddp,
{
    reveal_strlit("ddp");
    reveal_strlit("fsdp");
    assert("ddp"@.len() != "fsdp"@.len());
}

/// The processes on a node where none are given.
pub fn default_nproc() -> (n: u32)
    ensures
        n == 1,
{
    1
}

/// The nodes where none are given.
pub fn default_nnodes() -> (n: u32)
    ensures
        n == 1,
{
    1
}

/// The training step where none is given.
pub open spec fn standard_step() -> IngredientView {
    IngredientView { kind: "step"@, name: "standard"@, config: JsonView::Object(Seq::empty()) }
}

/// The training step where none is given.
pub fn default_step() -> (i: IngredientCfg)
    ensures
        i@ == standard_step(),
{
    IngredientCfg::plain("step", "standard")
}

/// The batch size where none is given.
pub fn default_batch_size() -> (n: u32)
    ensures
        n == 32,
{
    32
}

/// The seed where none is given.
pub fn default_seed() -> (n: u64)
    ensures
        n == 42,
{
    42
}

/// The device where none is given.
pub fn default_device() -> (s: String)
    ensures
        s@ == "cuda"@,
{
    "cuda".to_string()
}

/// The strategy of a name, where it is the name of one.
pub open spec fn named_strategy(name: Seq<char>) -> Option<ParallelStrategy> {
    if name == strategy_name(ParallelStrategy::Ddp) {
        Some(ParallelStrategy::Ddp)
    } else if name == strategy_name(ParallelStrategy::Fsdp) {
        Some(ParallelStrategy::Fsdp)
    } else {
        None
    }
}

/// The strategy that a value stands for: its name, or an object with `null` under its
/// name and nothing else.
pub open spec fn written_strategy(v: JsonView) -> Option<ParallelStrategy> {
    match v {
        JsonView::Text(t) => named_strategy(t),
        JsonView::Object(entries) => if entries.len() == 1 && entries[0].1 is Null {
            named_strategy(entries[0].0)
        } else {
            None
        },
        _ => None,
    }
}

/// The strategy in the field `parallel_strategy`, the default one where it is missing.
pub open spec fn strategy_of(v: JsonView, place: nat) -> Option<ParallelStrategy> {
    match json::field(v, "parallel_strategy"@, place) {
        None => Some(ParallelStrategy::Ddp),
        Some(x) => written_strategy(x),
    }
}

/// `v` holds arguments: what is required is there, and everything is of its type.
pub open spec fn holds_args(v: JsonView) -> bool {
    &&& json::is_record(v, 13)
    &&& shared::ingredient_at(v, "model"@, 0) is Some
    &&& shared::ingredient_at(v, "optimizer"@, 1) is Some
    &&& shared::ingredient_at(v, "scheduler"@, 2) is Some
    &&& shared::ingredient_at(v, "loss"@, 3) is Some
    &&& shared::ingredient_or(v, "step"@, 4, standard_step()) is Some
    &&& json::field(v, "epochs"@, 5) is Some
    &&& json::count_at(v, "epochs"@, 5, 0, u32::MAX as nat) is Some
    &&& json::count_at(v, "batch_size"@, 6, 32, u32::MAX as nat) is Some
    &&& json::count_at(v, "seed"@, 7, 42, u64::MAX as nat) is Some
    &&& json::text_or(v, "device"@, 8, "cuda"@) is Some
    &&& json::number_at(v, "lora_rank"@, 9, u32::MAX as nat) is Some
    &&& json::count_at(v, "nproc_per_node"@, 10, 1, u32::MAX as nat) is Some
    &&& json::count_at(v, "nnodes"@, 11, 1, u32::MAX as nat) is Some
    &&& strategy_of(v, 12) is Some
}

/// `a` are the arguments that `v` holds.
pub open spec fn is_args_of(a: Args, v: JsonView) -> bool {
    &&& shared::ingredient_at(v, "model"@, 0) == Some(a.model@)
    &&& shared::ingredient_at(v, "optimizer"@, 1) == Some(a.optimizer@)
    &&& shared::ingredient_at(v, "scheduler"@, 2) == Some(a.scheduler@)
    &&& shared::ingredient_at(v, "loss"@, 3) == Some(a.loss@)
    &&& shared::ingredient_or(v, "step"@, 4, standard_step()) == Some(a.step@)
    &&& json::count_at(v, "epochs"@, 5, 0, u32::MAX as nat) == Some(a.epochs as nat)
    &&& json::count_at(v, "batch_size"@, 6, 32, u32::MAX as nat) == Some(a.batch_size as nat)
    &&& json::count_at(v, "seed"@, 7, 42, u64::MAX as nat) == Some(a.seed as nat)
    &&& json::text_or(v, "device"@, 8, "cuda"@) == Some(a.device@)
    &&& json::number_at(v, "lora_rank"@, 9, u32::MAX as nat) == Some(json::widened(a.lora_rank))
    &&& json::count_at(v, "nproc_per_node"@, 10, 1, u32::MAX as nat) == Some(
        a.nproc_per_node as nat,
    )
    &&& json::count_at(v, "nnodes"@, 11, 1, u32::MAX as nat) == Some(a.nnodes as nat)
    &&& strategy_of(v, 12) == Some(a.parallel_strategy)
}

/// The strategy in the field `parallel_strategy`.
fn get_strategy(v: &Json, place: usize) -> (r: Option<ParallelStrategy>)
    ensures
        r == strategy_of(v@, place as nat),
{
    match v.field("parallel_strategy", place) {
        None => Some(ParallelStrategy::Ddp),
        Some(x) => ParallelStrategy::from_json(x),
    }
}

impl Args {
    /// Reads a record of arguments: the ingredients and the epochs are required, anything
    /// else has a default. `None` where something is missing or not of its type.
    pub fn from_json(v: &Json) -> (r: Option<Args>)
        ensures
            match r {
                Some(a) => holds_args(v@) && is_args_of(a, v@),
                None => !holds_args(v@),
            },
    {
        if !v.is_record(13) {
            return None;
        }
        let (model, optimizer, scheduler, loss, step) = match (
            get_ingredient(v, "model", 0),
            get_ingredient(v, "optimizer", 1),
            get_ingredient(v, "scheduler", 2),
            get_ingredient(v, "loss", 3),
            get_ingredient_or(v, "step", 4, default_step()),
        ) {
            (Some(a), Some(b), Some(c), Some(d), Some(e)) => (a, b, c, d, e),
            _ => {
                return None;
            },
        };
        if v.field("epochs", 5).is_none() {
            return None;
        }
        let max: u64 = u32::MAX as u64;
        let (epochs, batch_size, seed, nproc_per_node, nnodes) = match (
            get_count(v, "epochs", 5, 0, max),
            get_count(v, "batch_size", 6, 32, max),
            get_count(v, "seed", 7, 42, u64::MAX),
            get_count(v, "nproc_per_node", 10, 1, max),
            get_count(v, "nnodes", 11, 1, max),
        ) {
            (Some(a), Some(b), Some(c), Some(d), Some(e)) => (
                a as u32,
                b as u32,
                c,
                d as u32,
                e as u32,
            ),
            _ => {
                return None;
            },
        };
        match (
            get_text_or(v, "device", 8, "cuda"),
            get_optional_u32(v, "lora_rank", 9),
            get_strategy(v, 12),
        ) {
            (Some(device), Some(lora_rank), Some(parallel_strategy)) => Some(
                Args {
                    model,
                    optimizer,
                    scheduler,
                    loss,
                    step,
                    epochs,
                    batch_size,
                    seed,
                    device,
                    lora_rank,
                    nproc_per_node,
                    nnodes,
                    parallel_strategy,
                },
            ),
            _ => None,
        }
    }
}

/// What is wrong with an input and arguments, the first thing found, where it is
/// known whether the dataset exists.
pub open spec fn complaint(input: DatasetJsonl, args: Args, exists: bool) -> Option<Seq<char>> {
    if args.epochs == 0 {
        Some("epochs must be > 0"@)
    } else if args.batch_size == 0 {
        Some("batch_size must be > 0"@)
    } else if !exists {
        Some("dataset not found: "@ + input.path@)
    } else {
        None
    }
}

/// The trainer's configuration.
pub open spec fn config_of(input: DatasetJsonl, args: Args, stage_dir: Seq<char>) -> JsonView {
    JsonView::Object(
        seq![
            ("dataset_path"@, JsonView::Text(input.path@)),
            ("output_dir"@, JsonView::Text(text::joined(stage_dir, "checkpoint"@))),
            ("model"@, shared::ingredient_json(args.model@)),
            ("optimizer"@, shared::ingredient_json(args.optimizer@)),
            ("scheduler"@, shared::ingredient_json(args.scheduler@)),
            ("loss"@, shared::ingredient_json(args.loss@)),
            ("step"@, shared::ingredient_json(args.step@)),
            ("epochs"@, JsonView::Number(text::decimal(args.epochs as nat))),
            ("batch_size"@, JsonView::Number(text::decimal(args.batch_size as nat))),
            ("seed"@, JsonView::Number(text::decimal(args.seed as nat))),
            ("device"@, JsonView::Text(args.device@)),
            ("lora_rank"@, json::count_or_null(args.lora_rank)),
            ("parallel_strategy"@, JsonView::Text(strategy_name(args.parallel_strategy))),
        ],
    )
}

impl TrainModel {
    /// Checks the input and the arguments.
    pub fn check(&self, input: &DatasetJsonl, args: &Args, exists: bool) -> (r: Result<
        (),
        StageError,
    >)
        ensures
            match r {
                Ok(_) => complaint(*input, *args, exists) is None,
                Err(e) => complaint(*input, *args, exists) is Some && e@
                    == StageErrorView::BadInput(complaint(*input, *args, exists)->0),
            },
    {
        if args.epochs == 0 {
            return Err(bad_input("epochs must be > 0"));
        }
        if args.batch_size == 0 {
            return Err(bad_input("batch_size must be > 0"));
        }
        if !exists {
            return Err(
                bad_input("dataset not found: ".to_string().concat(input.path.as_str()).as_str()),
            );
        }
        Ok(())
    }

    /// The trainer's configuration.
    pub fn config(&self, input: &DatasetJsonl, args: &Args, stage_dir: &str) -> (c: Json)
        ensures
            c@ == config_of(*input, *args, stage_dir@),
    {
        let mut e: Vec<(String, Json)> = Vec::new();
        assert(json::entries_view(e@) =~= Seq::<(Seq<char>, JsonView)>::empty());
        add_entry(&mut e, "dataset_path", text_value(input.path.as_str()));
        add_entry(&mut e, "output_dir", text_value(join(stage_dir, "checkpoint").as_str()));
        add_entry(&mut e, "model", args.model.to_json());
        add_entry(&mut e, "optimizer", args.optimizer.to_json());
        add_entry(&mut e, "scheduler", args.scheduler.to_json());
        add_entry(&mut e, "loss", args.loss.to_json());
        add_entry(&mut e, "step", args.step.to_json());
        add_entry(&mut e, "epochs", count_value(args.epochs as u64));
        add_entry(&mut e, "batch_size", count_value(args.batch_size as u64));
        add_entry(&mut e, "seed", count_value(args.seed));
        add_entry(&mut e, "device", text_value(args.device.as_str()));
        add_entry(&mut e, "lora_rank", optional_count_value(args.lora_rank));
        add_entry(&mut e, "parallel_strategy", text_value(args.parallel_strategy.name()));
        assert(json::entries_view(e@) =~= config_of(*input, *args, stage_dir@)->Object_0);
        object(e)
    }

    /// Where the configuration is written.
    pub fn config_path(&self, stage_dir: &str) -> (p: String)
        ensures
            p@ == text::joined(stage_dir@, "train_config.json"@),
    {
        join(stage_dir, "train_config.json")
    }

    /// The command that trains.
    pub fn command(&self, args: &Args, stage_dir: &str, env: &RendezvousEnv) -> (r: Result<
        ModuleCommand,
        StageError,
    >)
        ensures
            match r {
                Ok(c) => distributed::prefix_of(
                    args.nproc_per_node as nat,
                    args.nnodes as nat,
                    *env,
                ) is Ok && c@ == trainer::command_of(
                    distributed::prefix_of(
                        args.nproc_per_node as nat,
                        args.nnodes as nat,
                        *env,
                    )->Ok_0,
                    text::joined(stage_dir@, "train_config.json"@),
                ),
                Err(e) => distributed::prefix_of(
                    args.nproc_per_node as nat,
                    args.nnodes as nat,
                    *env,
                ) is Err && e@ == StageErrorView::Backend(
                    distributed::prefix_of(
                        args.nproc_per_node as nat,
                        args.nnodes as nat,
                        *env,
                    )->Err_0,
                ),
            },
    {
        trainer_command(
            self.config_path(stage_dir).as_str(),
            args.nproc_per_node,
            args.nnodes,
            env,
        )
    }

    /// How many devices a run holds on a node.
    pub fn gpu_permits(&self, args: &Args) -> (n: u32)
        ensures
            n == distributed::at_least_one(args.nproc_per_node as nat),
    {
        permits(args.nproc_per_node)
    }

    /// How much memory a run reserves on a node, in GiB.
    pub fn memory_gib_for(&self, args: &Args) -> (n: u32)
        requires
            args.nproc_per_node <= u32::MAX / 4,
        ensures
            n == 4 * distributed::at_least_one(args.nproc_per_node as nat),
    {
        memory_gib(args.nproc_per_node)
    }

    /// What the end of a run means: it left a checkpoint, or the backend failed.
    pub fn trained(&self, run: Result<CommandExit, String>, stage_dir: &str, produced: bool) -> (r:
        Result<(), StageError>)
        ensures
            ({
                let output_dir = text::joined(stage_dir@, "checkpoint"@);
                match r {
                    Ok(_) => trainer::failure(run, output_dir, produced) is None,
                    Err(e) => trainer::failure(run, output_dir, produced) == Some(e@),
                }
            }),
    {
        trained(run, join(stage_dir, "checkpoint").as_str(), produced)
    }

    /// The checkpoint that a run left.
    pub fn checkpoint(&self, args: &Args, stage_dir: &str, content_hash: ContentHash) -> (c:
        HfCheckpoint)
        ensures
            c.path@ == text::joined(stage_dir@, "checkpoint"@),
            c.base_model == args.model.name,
            c.method_tag@ == "full"@,
            c.content_hash == content_hash,
            c.final_loss == 0,
    {
        HfCheckpoint {
            path: join(stage_dir, "checkpoint"),
            base_model: args.model.name.clone(),
            method_tag: "full".to_string(),
            content_hash,
            final_loss: 0,
        }
    }
}

/// No two keys of the configuration are the same text.
proof fn lemma_configuration_keys_differ()
    ensures
        "dataset_path"@.len() == 12,
        "output_dir"@.len() == 10 && "output_dir"@[0] == 'o',
        "model"@.len() == 5,
        "optimizer"@.len() == 9 && "optimizer"@[0] == 'o',
        "scheduler"@.len() == 9 && "scheduler"@[0] == 's',
        "loss"@.len() == 4 && "loss"@[0] == 'l',
        "step"@.len() == 4 && "step"@[0] == 's' && "step"@[1] == 't',
        "epochs"@.len() == 6 && "epochs"@[0] == 'e',
        "batch_size"@.len() == 10 && "batch_size"@[0] == 'b',
        "seed"@.len() == 4 && "seed"@[0] == 's' && "seed"@[1] == 'e',
        "device"@.len() == 6 && "device"@[0] == 'd',
        "lora_rank"@.len() == 9 && "lora_rank"@[0] == 'l',
        "parallel_strategy"@.len() == 17,
{
    reveal_strlit("dataset_path");
    reveal_strlit("output_dir");
    reveal_strlit("model");
    reveal_strlit("optimizer");
    reveal_strlit("scheduler");
    reveal_strlit("loss");
    reveal_strlit("step");
    reveal_strlit("epochs");
    reveal_strlit("batch_size");
    reveal_strlit("seed");
    reveal_strlit("device");
    reveal_strlit("lora_rank");
    reveal_strlit("parallel_strategy");
}

/// Each argument of a run stands in the trainer's configuration under its own key, and
/// nothing else does.
pub proof fn lemma_every_argument_stands_under_its_key(
    input: DatasetJsonl,
    args: Args,
    stage_dir: Seq<char>,
)
    ensures
        json::member(config_of(input, args, stage_dir), "dataset_path"@) == Some(JsonView::Text(input.path@)),
        json::member(config_of(input, args, stage_dir), "output_dir"@) == Some(JsonView::Text(text::joined(stage_dir, "checkpoint"@))),
        json::member(config_of(input, args, stage_dir), "model"@) == Some(shared::ingredient_json(args.model@)),
        json::member(config_of(input, args, stage_dir), "optimizer"@) == Some(shared::ingredient_json(args.optimizer@)),
        json::member(config_of(input, args, stage_dir), "scheduler"@) == Some(shared::ingredient_json(args.scheduler@)),
        json::member(config_of(input, args, stage_dir), "loss"@) == Some(shared::ingredient_json(args.loss@)),
        json::member(config_of(input, args, stage_dir), "step"@) == Some(shared::ingredient_json(args.step@)),
        json::member(config_of(input, args, stage_dir), "epochs"@) == Some(JsonView::Number(text::decimal(args.epochs as nat))),
        json::member(config_of(input, args, stage_dir), "batch_size"@) == Some(JsonView::Number(text::decimal(args.batch_size as nat))),
        json::member(config_of(input, args, stage_dir), "seed"@) == Some(JsonView::Number(text::decimal(args.seed as nat))),
        json::member(config_of(input, args, stage_dir), "device"@) == Some(JsonView::Text(args.device@)),
        json::member(config_of(input, args, stage_dir), "lora_rank"@) == Some(match args.lora_rank {
            Some(n) => JsonView::Number(text::decimal(n as nat)),
            None => JsonView::Null,
        }),
        json::member(config_of(input, args, stage_dir), "parallel_strategy"@) == Some(JsonView::Text(
            match args.parallel_strategy {
                ParallelStrategy::Ddp => "ddp"@,
                ParallelStrategy::Fsdp => "fsdp"@,
            },
        )),
        config_of(input, args, stage_dir)->Object_0.len() == 13,
{
    lemma_configuration_keys_differ();
    let e = config_of(input, args, stage_dir)->Object_0;
    assert(e[0].0 == "dataset_path"@);
    json::lemma_lookup_at(e, 0);
    assert(e[1].0 == "output_dir"@);
    json::lemma_lookup_at(e, 1);
    assert(e[2].0 == "model"@);
    json::lemma_lookup_at(e, 2);
    assert(e[3].0 == "optimizer"@);
    json::lemma_lookup_at(e, 3);
    assert(e[4].0 == "scheduler"@);
    json::lemma_lookup_at(e, 4);
    assert(e[5].0 == "loss"@);
    json::lemma_lookup_at(e, 5);
    assert(e[6].0 == "step"@);
    json::lemma_lookup_at(e, 6);
    assert(e[7].0 == "epochs"@);
    json::lemma_lookup_at(e, 7);
    assert(e[8].0 == "batch_size"@);
    json::lemma_lookup_at(e, 8);
    assert(e[9].0 == "seed"@);
    json::lemma_lookup_at(e, 9);
    assert(e[10].0 == "device"@);
    json::lemma_lookup_at(e, 10);
    assert(e[11].0 == "lora_rank"@);
    json::lemma_lookup_at(e, 11);
    assert(e[12].0 == "parallel_strategy"@);
    json::lemma_lookup_at(e, 12);
}

/// Runs that differ in an argument have different configurations: whatever the trainer is
/// told can be told from what it was asked.
pub proof fn lemma_other_runs_have_other_configurations(
    input: DatasetJsonl,
    args: Args,
    stage_dir: Seq<char>,
    other_input: DatasetJsonl,
    other: Args,
    other_dir: Seq<char>,
)
    requires
        config_of(input, args, stage_dir) == config_of(other_input, other, other_dir),
    ensures
        input.path@ == other_input.path@,
        text::joined(stage_dir, "checkpoint"@) == text::joined(other_dir, "checkpoint"@),
        args.model@ == other.model@,
        args.optimizer@ == other.optimizer@,
        args.scheduler@ == other.scheduler@,
        args.loss@ == other.loss@,
        args.step@ == other.step@,
        args.epochs == other.epochs,
        args.batch_size == other.batch_size,
        args.seed == other.seed,
        args.device@ == other.device@,
        args.lora_rank == other.lora_rank,
        args.parallel_strategy == other.parallel_strategy,
{
    lemma_every_argument_stands_under_its_key(input, args, stage_dir);
    lemma_every_argument_stands_under_its_key(other_input, other, other_dir);
    shared::lemma_ingredients_read_back(args.model@);
    shared::lemma_ingredients_read_back(other.model@);
    shared::lemma_ingredients_read_back(args.optimizer@);
    shared::lemma_ingredients_read_back(other.optimizer@);
    shared::lemma_ingredients_read_back(args.scheduler@);
    shared::lemma_ingredients_read_back(other.scheduler@);
    shared::lemma_ingredients_read_back(args.loss@);
    shared::lemma_ingredients_read_back(other.loss@);
    shared::lemma_ingredients_read_back(args.step@);
    shared::lemma_ingredients_read_back(other.step@);
    text::lemma_decimals_differ(args.epochs as nat, other.epochs as nat);
    text::lemma_decimals_differ(args.batch_size as nat, other.batch_size as nat);
    text::lemma_decimals_differ(args.seed as nat, other.seed as nat);
    json::lemma_optional_values_read_back(args.lora_rank, other.lora_rank, None, None);
    lemma_strategy_names_differ(args.parallel_strategy);
    lemma_strategy_names_differ(other.parallel_strategy);
}

/// A run is accepted exactly where it trains for some epochs on some batch
/// and its dataset is there.
pub proof fn lemma_what_is_accepted(input: DatasetJsonl, args: Args, exists: bool)
    ensures
        complaint(input, args, exists) is None <==> args.epochs > 0 && args.batch_size > 0
            && exists,
        args.epochs == 0 ==> complaint(input, args, exists) == Some("epochs must be > 0"@),
        args.epochs > 0 && args.batch_size == 0 ==> complaint(input, args, exists) == Some(
            "batch_size must be > 0"@,
        ),
        args.epochs > 0 && args.batch_size > 0 && !exists ==> (
        complaint(input, args, exists) matches Some(m) && text::occurs_in(m, input.path@)),
{
    let none = Seq::<char>::empty();
    text::lemma_a_part_occurs("dataset not found: "@, input.path@, none);
    assert("dataset not found: "@ + input.path@ + none =~= "dataset not found: "@ + input.path@);
}

/// A strategy is written by the name that torch knows it by, and read back from it, from
/// the text alone or from an object with `null` under it. Any other name is no strategy.
pub proof fn lemma_strategies_read_back(s: ParallelStrategy, name: Seq<char>)
    ensures
        strategy_name(ParallelStrategy::Ddp) == "ddp"@,
        strategy_name(ParallelStrategy::Fsdp) == "fsdp"@,
        written_strategy(JsonView::Text(strategy_name(s))) == Some(s),
        written_strategy(JsonView::Object(seq![(strategy_name(s), JsonView::Null)])) == Some(s),
        name != "ddp"@ && name != "fsdp"@ ==> {
            &&& written_strategy(JsonView::Text(name)) is None
            &&& written_strategy(JsonView::Object(seq![(name, JsonView::Null)])) is None
        },
        written_strategy(JsonView::Null) is None,
        forall|entries: Seq<(Seq<char>, JsonView)>|
            entries.len() != 1 || !(entries[0].1 is Null) ==> #[trigger] written_strategy(
                JsonView::Object(entries),
            ) is None,
        strategy_of(JsonView::Object(Seq::empty()), 0) == Some(ParallelStrategy::Ddp),
        strategy_of(
            JsonView::Object(seq![("parallel_strategy"@, JsonView::Text(strategy_name(s)))]),
            0,
        ) == Some(s),
{
    lemma_strategy_names_differ(s);
    reveal_with_fuel(json::lookup, 2);
}

/// Arguments are read from an object by their names, the required ones from values that
/// are there and the others with their defaults.
pub proof fn lemma_arguments_are_read_by_their_names(v: JsonView, a: Args)
    requires
        v is Object,
        holds_args(v),
        is_args_of(a, v),
    ensures
        json::member(v, "model"@) matches Some(x) && shared::ingredient_of(x) == Some(a.model@),
        json::member(v, "optimizer"@) matches Some(x) && shared::ingredient_of(x) == Some(
            a.optimizer@,
        ),
        json::member(v, "scheduler"@) matches Some(x) && shared::ingredient_of(x) == Some(
            a.scheduler@,
        ),
        json::member(v, "loss"@) matches Some(x) && shared::ingredient_of(x) == Some(a.loss@),
        json::member(v, "step"@) matches Some(x) ==> shared::ingredient_of(x) == Some(a.step@),
        json::member(v, "step"@) is None ==> a.step@.kind == "step"@ && a.step@.name == "standard"@,
        json::member(v, "epochs"@) matches Some(x) && json::natural_of(x, u32::MAX as nat) == Some(
            a.epochs as nat,
        ),
        json::member(v, "batch_size"@) matches Some(x) ==> json::natural_of(x, u32::MAX as nat)
            == Some(a.batch_size as nat),
        json::member(v, "batch_size"@) is None ==> a.batch_size == 32,
        json::member(v, "seed"@) matches Some(x) ==> json::natural_of(x, u64::MAX as nat) == Some(
            a.seed as nat,
        ),
        json::member(v, "seed"@) is None ==> a.seed == 42,
        json::member(v, "device"@) matches Some(x) ==> x == JsonView::Text(a.device@),
        json::member(v, "device"@) is None ==> a.device@ == "cuda"@,
        a.lora_rank matches Some(n) ==> (json::member(v, "lora_rank"@) matches Some(x)
            && json::natural_of(x, u32::MAX as nat) == Some(n as nat)),
        a.lora_rank is None ==> json::member(v, "lora_rank"@) is None || json::member(
            v,
            "lora_rank"@,
        ) == Some(JsonView::Null),
        json::member(v, "nproc_per_node"@) matches Some(x) ==> json::natural_of(x, u32::MAX as nat)
            == Some(a.nproc_per_node as nat),
        json::member(v, "nproc_per_node"@) is None ==> a.nproc_per_node == 1,
        json::member(v, "nnodes"@) matches Some(x) ==> json::natural_of(x, u32::MAX as nat)
            == Some(a.nnodes as nat),
        json::member(v, "nnodes"@) is None ==> a.nnodes == 1,
        json::member(v, "parallel_strategy"@) matches Some(x) ==> written_strategy(x) == Some(
            a.parallel_strategy,
        ),
        json::member(v, "parallel_strategy"@) is None ==> a.parallel_strategy
            == ParallelStrategy::Ddp,
{
}

/// Arguments are read from an array by their places, in the order of their declaration.
pub proof fn lemma_arguments_are_read_in_their_order(items: Seq<JsonView>, a: Args)
    requires
        items.len() == 13,
        holds_args(JsonView::Array(items)),
        is_args_of(a, JsonView::Array(items)),
    ensures
        shared::ingredient_of(items[0]) == Some(a.model@),
        shared::ingredient_of(items[1]) == Some(a.optimizer@),
        shared::ingredient_of(items[2]) == Some(a.scheduler@),
        shared::ingredient_of(items[3]) == Some(a.loss@),
        shared::ingredient_of(items[4]) == Some(a.step@),
        json::natural_of(items[5], u32::MAX as nat) == Some(a.epochs as nat),
        json::natural_of(items[6], u32::MAX as nat) == Some(a.batch_size as nat),
        json::natural_of(items[10], u32::MAX as nat) == Some(a.nproc_per_node as nat),
        json::natural_of(items[11], u32::MAX as nat) == Some(a.nnodes as nat),
        json::natural_of(items[7], u64::MAX as nat) == Some(a.seed as nat),
        items[8] == JsonView::Text(a.device@),
        a.lora_rank matches Some(n) ==> json::natural_of(items[9], u32::MAX as nat) == Some(
            n as nat,
        ),
        a.lora_rank is None ==> items[9] is Null,
        written_strategy(items[12]) == Some(a.parallel_strategy),
{
}

/// What is no record of arguments: a value that is neither an object nor an array, an array
/// with an item too many, and an object without one of the required arguments or with one
/// of another type.
pub proof fn lemma_what_holds_no_arguments(v: JsonView)
    ensures
        !(v is Object) && !(v is Array) ==> !holds_args(v),
        v matches JsonView::Array(items) ==> (items.len() > 13 || items.len() < 6 ==> !holds_args(
            v,
        )),
        v is Object && (json::member(v, "model"@) is None || json::member(v, "optimizer"@) is None
            || json::member(v, "scheduler"@) is None || json::member(v, "loss"@) is None
            || json::member(v, "epochs"@) is None) ==> !holds_args(v),
        v is Object && (json::member(v, "epochs"@) matches Some(x) && !(x is Number))
            ==> !holds_args(v),
        v is Object && (json::member(v, "batch_size"@) matches Some(x) && !(x is Number))
            ==> !holds_args(v),
        v is Object && (json::member(v, "device"@) matches Some(x) && !(x is Text)) ==> !holds_args(
            v,
        ),
{
}

/// The standard step is the ingredient of that name, with an empty configuration.
pub proof fn lemma_what_the_standard_step_is()
    ensures
        standard_step().kind == "step"@,
        standard_step().name == "standard"@,
        standard_step().config == JsonView::Object(Seq::empty()),
{
}

/// An object holds arguments exactly where the required ones are there and everything that
/// is there is of its type, whatever else the object holds.
pub proof fn lemma_which_objects_hold_arguments(v: JsonView)
    requires
        v is Object,
    ensures
        holds_args(v) <==> {
            &&& (json::member(v, "model"@) matches Some(x) && shared::ingredient_of(x) is Some)
            &&& (json::member(v, "optimizer"@) matches Some(x) && shared::ingredient_of(x) is Some)
            &&& (json::member(v, "scheduler"@) matches Some(x) && shared::ingredient_of(x) is Some)
            &&& (json::member(v, "loss"@) matches Some(x) && shared::ingredient_of(x) is Some)
            &&& (json::member(v, "step"@) matches Some(x) ==> shared::ingredient_of(x) is Some)
            &&& (json::member(v, "epochs"@) matches Some(x) && json::natural_of(x, u32::MAX as nat) is Some)
            &&& (json::member(v, "batch_size"@) matches Some(x) ==> json::natural_of(x, u32::MAX as nat) is Some)
            &&& (json::member(v, "seed"@) matches Some(x) ==> json::natural_of(x, u64::MAX as nat) is Some)
            &&& (json::member(v, "nproc_per_node"@) matches Some(x) ==> json::natural_of(x, u32::MAX as nat) is Some)
            &&& (json::member(v, "nnodes"@) matches Some(x) ==> json::natural_of(x, u32::MAX as nat) is Some)
            &&& (json::member(v, "device"@) matches Some(x) ==> x is Text)
            &&& (json::member(v, "lora_rank"@) matches Some(x) ==> x is Null || json::natural_of(x, u32::MAX as nat) is Some)
            &&& (json::member(v, "parallel_strategy"@) matches Some(x) ==> written_strategy(x) is Some)
        },
{
}

/// An array holds arguments exactly where it reaches to the last required one, holds no item
/// too many, and has in every place something of the type that belongs there.
pub proof fn lemma_which_arrays_hold_arguments(items: Seq<JsonView>)
    ensures
        holds_args(JsonView::Array(items)) <==> {
            &&& 6 <= items.len() <= 13
            &&& shared::ingredient_of(items[0]) is Some
            &&& shared::ingredient_of(items[1]) is Some
            &&& shared::ingredient_of(items[2]) is Some
            &&& shared::ingredient_of(items[3]) is Some
            &&& shared::ingredient_of(items[4]) is Some
            &&& json::natural_of(items[5], u32::MAX as nat) is Some
            &&& items.len() > 6 ==> json::natural_of(items[6], u32::MAX as nat) is Some
            &&& items.len() > 7 ==> json::natural_of(items[7], u64::MAX as nat) is Some
            &&& items.len() > 10 ==> json::natural_of(items[10], u32::MAX as nat) is Some
            &&& items.len() > 11 ==> json::natural_of(items[11], u32::MAX as nat) is Some
            &&& items.len() > 8 ==> items[8] is Text
            &&& items.len() > 9 ==> items[9] is Null || json::natural_of(
                items[9],
                u32::MAX as nat,
            ) is Some
            &&& items.len() > 12 ==> written_strategy(items[12]) is Some
        },
{
}

} // verus!
