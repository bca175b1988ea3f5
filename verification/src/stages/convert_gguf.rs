//! The stage `convert_gguf`: a checkpoint becomes a GGUF model, quantized or not.

use vstd::prelude::*;
use vstd::string::*;

use crate::artifact::{ContentHash, GgufModel, HfCheckpoint};
use crate::error::{bad_input, StageError, StageErrorView};
use crate::framework::Stage;
use crate::stages::util;
use crate::stages::util::{refuse_parent_dir, separates};
use crate::text;
use crate::text::{join, parent, same};

verus! {

/// The name of the stage.
pub const NAME: &'static str = "convert_gguf";

/// The stage.
pub struct ConvertGguf;

impl Stage for ConvertGguf {
    const NAME: &'static str = NAME;

    const SCHEMA: u32 = 1;

    const DETERMINISTIC: bool = true;
}

/// The arguments.
#[derive(Debug, PartialEq, Eq)]
pub struct Args {
    /// `Q4_K_M`, `Q5_K_M`, `Q8_0`, or `f16`, which is not quantized.
    pub quant: String,
    /// The stem of the output file.
    pub name: String,
}

/// What is wrong with an input and arguments, the first thing found.
pub open spec fn complaint(input: HfCheckpoint, args: Args) -> Option<Seq<char>> {
    if args.name@.len() == 0 || util::has_separator(args.name@) {
        Some("name '"@ + args.name@ + "' must be non-empty and free of path separators"@)
    } else if args.quant@.len() == 0 {
        Some("quant must be non-empty"@)
    } else if input.path@.len() == 0 {
        Some("HfCheckpoint.path must be non-empty"@)
    } else if text::has_parent_component(input.path@) {
        Some(util::parent_message("HfCheckpoint.path"@, input.path@))
    } else {
        None
    }
}

/// The directory that a checkpoint stands in.
pub open spec fn directory_of(checkpoint: Seq<char>) -> Seq<char> {
    match text::parent_of(checkpoint) {
        Some(p) => p,
        None => checkpoint,
    }
}

/// Where the model is written: `<stem>.<quant>.gguf`, next to the checkpoint.
pub open spec fn output_of(checkpoint: Seq<char>, args: Args) -> Seq<char> {
    text::joined(directory_of(checkpoint), args.name@ + "."@ + args.quant@ + ".gguf"@)
}

impl ConvertGguf {
    /// Checks the input and the arguments.
    pub fn check(&self, input: &HfCheckpoint, args: &Args) -> (r: Result<(), StageError>)
        ensures
            match r {
                Ok(_) => complaint(*input, *args) is None,
                Err(e) => complaint(*input, *args) is Some && e@ == StageErrorView::BadInput(
                    complaint(*input, *args)->0,
                ),
            },
    {
        let name = args.name.as_str();
        if name.is_empty() || separates(name) {
            return Err(
                bad_input(
                    "name '".to_string().concat(name).concat(
                        "' must be non-empty and free of path separators",
                    ).as_str(),
                ),
            );
        }
        if args.quant.as_str().is_empty() {
            return Err(bad_input("quant must be non-empty"));
        }
        if input.path.as_str().is_empty() {
            return Err(bad_input("HfCheckpoint.path must be non-empty"));
        }
        refuse_parent_dir("HfCheckpoint.path", input.path.as_str())
    }

    /// Where the model is written.
    pub fn output_path(&self, input: &HfCheckpoint, args: &Args) -> (p: String)
        ensures
            p@ == output_of(input.path@, *args),
    {
        let file = args.name.clone().concat(".").concat(args.quant.as_str()).concat(".gguf");
        match parent(input.path.as_str()) {
            Some(dir) => join(dir.as_str(), file.as_str()),
            None => join(input.path.as_str(), file.as_str()),
        }
    }

    /// Whether the converted model is quantized: it is, but for `f16`.
    pub fn quantizes(&self, args: &Args) -> (r: bool)
        ensures
            r == (args.quant@ != "f16"@),
    {
        !same(args.quant.as_str(), "f16")
    }

    /// The model that a conversion wrote. Nobody has registered it yet.
    pub fn model(&self, input: &HfCheckpoint, args: &Args, content_hash: ContentHash) -> (m:
        GgufModel)
        ensures
            m.path@ == output_of(input.path@, *args),
            m.quant == args.quant,
            m.content_hash == content_hash,
            m.registered_as is None,
    {
        GgufModel {
            path: self.output_path(input, args),
            quant: args.quant.clone(),
            content_hash,
            registered_as: None,
        }
    }
}

/// A conversion is accepted exactly where the file has a name without slashes, a
/// quantization is given, and the checkpoint's path is there and does not go up.
pub proof fn lemma_what_is_accepted(input: HfCheckpoint, args: Args)
    ensures
        complaint(input, args) is None <==> {
            &&& args.name@.len() > 0
            &&& !args.name@.contains('/')
            &&& !args.name@.contains('\\')
            &&& args.quant@.len() > 0
            &&& input.path@.len() > 0
            &&& !text::has_parent_component(input.path@)
        },
        args.name@.len() == 0 || args.name@.contains('/') || args.name@.contains('\\') ==> (
        complaint(input, args) matches Some(m) && text::occurs_in(m, args.name@)),
{
    text::lemma_a_part_occurs(
        "name '"@,
        args.name@,
        "' must be non-empty and free of path separators"@,
    );
}

/// The model is written next to its checkpoint, under its name, its quantization and the
/// ending of its format.
pub proof fn lemma_the_model_stands_next_to_its_checkpoint(
    dir: Seq<char>,
    checkpoint: Seq<char>,
    args: Args,
)
    requires
        checkpoint.len() > 0,
        !checkpoint.contains('/'),
        checkpoint != seq!['.'],
        dir.len() > 0,
        !text::has_idle_end(dir),
        dir.last() != '/',
    ensures
        output_of(text::joined(dir, checkpoint), args) == text::joined(
            dir,
            args.name@ + "."@ + args.quant@ + ".gguf"@,
        ),
        output_of(checkpoint, args) == args.name@ + "."@ + args.quant@ + ".gguf"@,
{
    text::lemma_the_parent_is_the_directory(dir, checkpoint);
    let file = args.name@ + "."@ + args.quant@ + ".gguf"@;
    assert(Seq::<char>::empty() + file =~= file);
}

/// Two models of one checkpoint are written to one file only where, at the same
/// quantization, they have the same name, and, under the same name, the same
/// quantization.
pub proof fn lemma_other_models_are_other_files(checkpoint: Seq<char>, args: Args, other: Args)
    requires
        output_of(checkpoint, args) == output_of(checkpoint, other),
    ensures
        args.quant@ == other.quant@ ==> args.name@ == other.name@,
        args.name@ == other.name@ ==> args.quant@ == other.quant@,
{
    let a = args.name@ + "."@ + args.quant@ + ".gguf"@;
    let b = other.name@ + "."@ + other.quant@ + ".gguf"@;
    text::lemma_children_stay_apart(directory_of(checkpoint), a, b);
    assert(a == b);
    assert(a.len() == b.len());
    if args.quant@ == other.quant@ {
        assert(a.take(args.name@.len() as int) =~= args.name@);
        assert(b.take(args.name@.len() as int) =~= other.name@);
    }
    if args.name@ == other.name@ {
        let k = args.name@.len() + "."@.len();
        let n = k + args.quant@.len();
        assert(a.subrange(k as int, n as int) =~= args.quant@);
        assert(b.subrange(k as int, n as int) =~= other.quant@);
    }
}

} // verus!
