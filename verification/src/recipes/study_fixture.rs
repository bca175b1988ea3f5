//! A tiny, deterministic recipe for the CPU: one stage that reports fixed metrics,
//! with a memory reservation that its arguments declare.

use vstd::prelude::*;

use crate::artifact;
use crate::artifact::{digest, ContentHash};
use crate::error::{bad_input, RecipeError, RecipeErrorView, StageError, StageErrorView};
use crate::framework::{Compatible, Recipe, Stage, TrainingBackend};
use crate::json;
use crate::json::{add_entry, count_value, object, Json, JsonView};
use crate::plan::{Node, Plan};
use crate::text;

verus! {

/// The backend of the recipe.
pub struct StudyFixtureBackend;

impl TrainingBackend for StudyFixtureBackend {
    const ID: &'static str = "blut-study-fixture";

    const DESCRIPTION: &'static str = "CPU-only ADR 0109 acceptance backend";
}

/// The arguments.
#[derive(Clone, Copy, Debug, PartialEq, Eq)]
pub struct Args {
    /// Which of the two metric vectors is reported.
    pub shape: u32,
    /// The memory that is reserved, in GiB.
    pub ram_gib: u32,
}

impl Default for Args {
    fn default() -> (a: Self)
        ensures
            a.shape == 0,
            a.ram_gib == 1,
    {
        Args { shape: 0, ram_gib: 1 }
    }
}

/// The result: the arguments it came from.
#[derive(Clone, Copy, Debug, PartialEq, Eq)]
pub struct StudyFixtureResult {
    pub shape: u32,
    pub ram_gib: u32,
}

/// The bytes of a number, the lowest first.
pub open spec fn little_endian(n: u32) -> Seq<u8> {
    seq![
        (n % 256) as u8,
        (n / 256 % 256) as u8,
        (n / 65536 % 256) as u8,
        (n / 16777216) as u8,
    ]
}

/// Appends the bytes of a number, the lowest first.
fn add_little_endian(bytes: &mut Vec<u8>, n: u32)
    ensures
        final(bytes)@ == old(bytes)@ + little_endian(n),
{
    bytes.push((n % 256) as u8);
    bytes.push((n / 256 % 256) as u8);
    bytes.push((n / 65536 % 256) as u8);
    bytes.push((n / 16777216) as u8);
    assert(bytes@ =~= old(bytes)@ + little_endian(n));
}

impl StudyFixtureResult {
    /// The bytes that stand for the result: its two numbers.
    pub fn bytes(&self) -> (v: Vec<u8>)
        ensures
            v@ == little_endian(self.shape) + little_endian(self.ram_gib),
    {
        let mut v: Vec<u8> = Vec::new();
        add_little_endian(&mut v, self.shape);
        add_little_endian(&mut v, self.ram_gib);
        assert(v@ =~= little_endian(self.shape) + little_endian(self.ram_gib));
        v
    }

    /// The content hash of the result.
    pub fn content_hash(&self) -> (h: ContentHash)
        ensures
            h.0@ == artifact::content_digest(little_endian(self.shape) + little_endian(self.ram_gib)),
    {
        digest(self.bytes().as_slice())
    }
}

proof fn lemma_little_endian_tells_numbers_apart(a: u32, b: u32)
    requires
        little_endian(a) == little_endian(b),
    ensures
        a == b,
{
    assert(little_endian(a)[0] == little_endian(b)[0]);
    assert(little_endian(a)[1] == little_endian(b)[1]);
    assert(little_endian(a)[2] == little_endian(b)[2]);
    assert(little_endian(a)[3] == little_endian(b)[3]);
}

/// Results with other numbers are hashed from other bytes.
pub proof fn lemma_other_results_are_other_bytes(a: StudyFixtureResult, b: StudyFixtureResult)
    requires
        little_endian(a.shape) + little_endian(a.ram_gib) == little_endian(b.shape) + little_endian(
            b.ram_gib,
        ),
    ensures
        a == b,
{
    let x = little_endian(a.shape) + little_endian(a.ram_gib);
    let y = little_endian(b.shape) + little_endian(b.ram_gib);
    assert(x.take(4) =~= little_endian(a.shape));
    assert(y.take(4) =~= little_endian(b.shape));
    assert(x.skip(4) =~= little_endian(a.ram_gib));
    assert(y.skip(4) =~= little_endian(b.ram_gib));
    lemma_little_endian_tells_numbers_apart(a.shape, b.shape);
    lemma_little_endian_tells_numbers_apart(a.ram_gib, b.ram_gib);
}

/// The stage.
pub struct StudyFixtureStage;

impl Stage for StudyFixtureStage {
    const NAME: &'static str = "blut_study_fixture";

    const SCHEMA: u32 = 1;

    const DETERMINISTIC: bool = true;
}

impl Compatible<StudyFixtureBackend> for StudyFixtureStage {

}

/// The metrics that a shape reports.
pub open spec fn metrics_of(shape: u32) -> Option<JsonView> {
    if shape == 0 {
        Some(metrics_view("0.92"@, "15.0"@, "1.0"@))
    } else if shape == 1 {
        Some(metrics_view("0.84"@, "9.0"@, "1.5"@))
    } else {
        None
    }
}

/// A step event with these metrics.
pub open spec fn metrics_view(
    quality: Seq<char>,
    latency_ms: Seq<char>,
    cpu_seconds: Seq<char>,
) -> JsonView {
    JsonView::Object(
        seq![
            ("epoch"@, JsonView::Number(text::decimal(1))),
            ("quality"@, JsonView::Number(quality)),
            ("latency_ms"@, JsonView::Number(latency_ms)),
            ("cpu_seconds"@, JsonView::Number(cpu_seconds)),
        ],
    )
}

fn metrics(quality: &str, latency_ms: &str, cpu_seconds: &str) -> (m: Json)
    ensures
        m@ == metrics_view(quality@, latency_ms@, cpu_seconds@),
{
    let mut e: Vec<(String, Json)> = Vec::new();
    assert(json::entries_view(e@) =~= Seq::<(Seq<char>, JsonView)>::empty());
    add_entry(&mut e, "epoch", count_value(1));
    add_entry(&mut e, "quality", Json::Number(quality.to_string()));
    add_entry(&mut e, "latency_ms", Json::Number(latency_ms.to_string()));
    add_entry(&mut e, "cpu_seconds", Json::Number(cpu_seconds.to_string()));
    assert(json::entries_view(e@) =~= metrics_view(quality@, latency_ms@, cpu_seconds@)->Object_0);
    object(e)
}

impl StudyFixtureStage {
    /// The memory that the arguments declare, in GiB.
    pub fn memory_gib_for(&self, args: &Args) -> (n: u32)
        ensures
            n == args.ram_gib,
    {
        args.ram_gib
    }

    /// The step event to report, and the result. A shape besides the two is a failed
    /// precondition.
    pub fn run(&self, args: &Args) -> (r: Result<(Json, StudyFixtureResult), StageError>)
        ensures
            match r {
                Ok((update, result)) => {
                    &&& metrics_of(args.shape) == Some(update@)
                    &&& result.shape == args.shape
                    &&& result.ram_gib == args.ram_gib
                },
                Err(e) => metrics_of(args.shape) is None && e@ == StageErrorView::BadInput(
                    "shape must be 0 or 1"@,
                ),
            },
    {
        let update = if args.shape == 0 {
            metrics("0.92", "15.0", "1.0")
        } else if args.shape == 1 {
            metrics("0.84", "9.0", "1.5")
        } else {
            return Err(bad_input("shape must be 0 or 1"));
        };
        Ok((update, StudyFixtureResult { shape: args.shape, ram_gib: args.ram_gib }))
    }
}

/// The recipe.
pub struct StudyFixtureRecipe;

impl Recipe for StudyFixtureRecipe {
    const NAME: &'static str = "blut_study_fixture";

    const DESCRIPTION: &'static str =
        "Deterministic CPU-only multi-objective study acceptance fixture.";
}

/// What is wrong with the arguments, the first thing found.
pub open spec fn complaint(args: Args) -> Option<RecipeErrorView> {
    if args.shape > 1 {
        Some(RecipeErrorView { field: Some("shape"@), message: "shape must be 0 or 1"@ })
    } else if args.ram_gib == 0 {
        Some(
            RecipeErrorView {
                field: Some("ram_gib"@),
                message: "ram_gib must be greater than zero"@,
            },
        )
    } else {
        None
    }
}

/// The arguments as JSON.
pub open spec fn args_json(args: Args) -> JsonView {
    JsonView::Object(
        seq![
            ("shape"@, JsonView::Number(text::decimal(args.shape as nat))),
            ("ram_gib"@, JsonView::Number(text::decimal(args.ram_gib as nat))),
        ],
    )
}

impl Args {
    /// The arguments as JSON.
    pub fn to_json(&self) -> (r: Json)
        ensures
            r@ == args_json(*self),
    {
        let mut e: Vec<(String, Json)> = Vec::new();
        assert(json::entries_view(e@) =~= Seq::<(Seq<char>, JsonView)>::empty());
        add_entry(&mut e, "shape", count_value(self.shape as u64));
        add_entry(&mut e, "ram_gib", count_value(self.ram_gib as u64));
        assert(json::entries_view(e@) =~= args_json(*self)->Object_0);
        object(e)
    }
}

impl StudyFixtureRecipe {
    /// The plan of the arguments: the one stage.
    pub fn compile(&self, args: Args) -> (r: Result<Plan, RecipeError>)
        ensures
            match r {
                Ok(p) => {
                    &&& complaint(args) is None
                    &&& p.wf()
                    &&& p.well_wired()
                    &&& p.name@ == "blut_study_fixture"@
                    &&& p.args@ == args_json(args)
                    &&& p.nodes@ == seq![Node::StudyFixture(args)]
                    &&& p.edges@ == Seq::<(usize, usize)>::empty()
                },
                Err(e) => complaint(args) == Some(e@),
            },
    {
        if args.shape > 1 {
            return Err(
                RecipeError { field: Some("shape"), message: "shape must be 0 or 1".to_string() },
            );
        }
        if args.ram_gib == 0 {
            return Err(
                RecipeError {
                    field: Some("ram_gib"),
                    message: "ram_gib must be greater than zero".to_string(),
                },
            );
        }
        Ok(Plan::new("blut_study_fixture", args.to_json()).start(Node::StudyFixture(args)))
    }
}

/// Every plan that compiles runs: its stage knows the shape.
pub proof fn lemma_a_compiled_shape_is_known(args: Args)
    requires
        complaint(args) is None,
    ensures
        metrics_of(args.shape) is Some,
{
}

/// The bytes of a number stand for it: each one counts 256 times the one before it.
pub proof fn lemma_the_bytes_stand_for_the_number(n: u32)
    ensures
        little_endian(n).len() == 4,
        little_endian(n)[0] + 256 * little_endian(n)[1] + 65536 * little_endian(n)[2] + 16777216
            * little_endian(n)[3] == n,
{
}

/// No two keys of the fixture are the same text.
proof fn lemma_keys_are_told_apart()
    ensures
        "epoch"@.len() == 5 && "epoch"@[0] == 'e',
        "quality"@.len() == 7 && "quality"@[0] == 'q',
        "latency_ms"@.len() == 10,
        "cpu_seconds"@.len() == 11,
        "shape"@.len() == 5 && "shape"@[0] == 's',
        "ram_gib"@.len() == 7 && "ram_gib"@[0] == 'r',
{
    reveal_strlit("epoch");
    reveal_strlit("quality");
    reveal_strlit("latency_ms");
    reveal_strlit("cpu_seconds");
    reveal_strlit("shape");
    reveal_strlit("ram_gib");
}

/// The two shapes report two points of a trade-off: the first one the better quality, the
/// second one the lower latency. Any other shape reports nothing.
pub proof fn lemma_what_the_shapes_report(shape: u32)
    ensures
        metrics_of(shape) is Some <==> shape == 0 || shape == 1,
        metrics_of(shape) matches Some(m) ==> {
            &&& json::member(m, "epoch"@) == Some(JsonView::Number(text::decimal(1)))
            &&& json::member(m, "quality"@) == Some(
                JsonView::Number(
                    if shape == 0 {
                        "0.92"@
                    } else {
                        "0.84"@
                    },
                ),
            )
            &&& json::member(m, "latency_ms"@) == Some(
                JsonView::Number(
                    if shape == 0 {
                        "15.0"@
                    } else {
                        "9.0"@
                    },
                ),
            )
            &&& json::member(m, "cpu_seconds"@) == Some(
                JsonView::Number(
                    if shape == 0 {
                        "1.0"@
                    } else {
                        "1.5"@
                    },
                ),
            )
        },
{
    lemma_keys_are_told_apart();
    if shape <= 1 {
        let e = (metrics_of(shape)->0)->Object_0;
        assert(e[0].0 == "epoch"@);
        json::lemma_lookup_at(e, 0);
        assert(e[1].0 == "quality"@);
        json::lemma_lookup_at(e, 1);
        assert(e[2].0 == "latency_ms"@);
        json::lemma_lookup_at(e, 2);
        assert(e[3].0 == "cpu_seconds"@);
        json::lemma_lookup_at(e, 3);
    }
}

/// Both arguments are written, each under its own key, so that other arguments are other
/// plans.
pub proof fn lemma_every_argument_stands_under_its_key(args: Args, other: Args)
    ensures
        json::member(args_json(args), "shape"@) == Some(
            JsonView::Number(text::decimal(args.shape as nat)),
        ),
        json::member(args_json(args), "ram_gib"@) == Some(
            JsonView::Number(text::decimal(args.ram_gib as nat)),
        ),
        args_json(args) == args_json(other) ==> args == other,
{
    lemma_keys_are_told_apart();
    let e = args_json(args)->Object_0;
    assert(e[0].0 == "shape"@);
    json::lemma_lookup_at(e, 0);
    assert(e[1].0 == "ram_gib"@);
    json::lemma_lookup_at(e, 1);
    let o = args_json(other)->Object_0;
    assert(o[0].0 == "shape"@);
    json::lemma_lookup_at(o, 0);
    assert(o[1].0 == "ram_gib"@);
    json::lemma_lookup_at(o, 1);
    text::lemma_decimals_differ(args.shape as nat, other.shape as nat);
    text::lemma_decimals_differ(args.ram_gib as nat, other.ram_gib as nat);
}

/// A plan comes out exactly where the shape is one of the two and some memory is reserved;
/// a bad shape is found first.
pub proof fn lemma_which_arguments_make_a_plan(args: Args)
    ensures
        complaint(args) is None <==> args.shape <= 1 && args.ram_gib > 0,
        args.shape > 1 ==> complaint(args)->0.field == Some("shape"@),
        args.shape <= 1 && args.ram_gib == 0 ==> complaint(args)->0.field == Some("ram_gib"@),
{
}

} // verus!
