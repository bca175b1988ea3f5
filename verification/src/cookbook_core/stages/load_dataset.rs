//! The stage `load_dataset`: a dataset out of a local file, or downloaded by its
//! name.

use vstd::prelude::*;
use vstd::string::*;

use crate::artifact::{ContentHash, DatasetJsonl};
use crate::error::{bad_input, StageError, StageErrorView};
use crate::framework::Stage;
use crate::jsonl;
use crate::jsonl::{body as body_of, capped, count, lines};
use crate::process;
use crate::process::{module_outcome, CommandExit, ModuleCommand, ModuleCommandView};
use crate::stages::util;
use crate::stages::util::{refuse_missing, refuse_parent_dir};
use crate::text;
use crate::text::{add_text, decimal_text, join};

verus! {

/// The stage.
pub struct LoadDataset;

impl Stage for LoadDataset {
    const NAME: &'static str = "load_dataset";

    const SCHEMA: u32 = 1;

    const DETERMINISTIC: bool = true;
}

/// The arguments: exactly one of `path` and `hf_name` is given.
#[derive(Debug, PartialEq, Eq)]
pub struct Args {
    pub path: Option<String>,
    pub hf_name: Option<String>,
    pub split: String,
    /// The configuration of a dataset that publishes several.
    pub subset: Option<String>,
    /// The maximum number of examples to load, from a local file as from a download.
    /// `None`: all of them.
    pub max_samples: Option<usize>,
}

/// The split where none is given.
pub fn default_split() -> (s: String)
    ensures
        s@ == "train"@,
{
    "train".to_string()
}

/// Where a dataset comes from.
#[derive(Debug, PartialEq, Eq)]
pub enum Load {
    /// This file, and the maximum number of its examples.
    Local { path: String, max_samples: Option<usize> },
    /// A download by this command to this file.
    Hub { command: ModuleCommand, output: String },
}

/// What is wrong with the arguments.
pub open spec fn complaint(args: Args) -> Option<Seq<char>> {
    if args.path is Some && args.hf_name is Some {
        Some("load_dataset: pass exactly one of path / hf_name, not both"@)
    } else if args.path is None && args.hf_name is None {
        Some("load_dataset: one of path / hf_name is required"@)
    } else if args.path is Some && text::has_parent_component(args.path->0@) {
        Some(util::parent_message("path"@, args.path->0@))
    } else {
        None
    }
}

/// The command that downloads a dataset.
pub open spec fn hub_command_of(
    name: Seq<char>,
    split: Seq<char>,
    output: Seq<char>,
    subset: Option<Seq<char>>,
    max_samples: Option<usize>,
) -> ModuleCommandView {
    let always = seq![
        "-m"@,
        "blut_core.load_dataset"@,
        "--name"@,
        name,
        "--split"@,
        split,
        "--output"@,
        output,
    ];
    let with_subset = match subset {
        Some(s) => always.push("--subset"@).push(s),
        None => always,
    };
    ModuleCommandView {
        program: "python3"@,
        args: match max_samples {
            Some(n) => with_subset.push("--max-samples"@).push(text::decimal(n as nat)),
            None => with_subset,
        },
    }
}

/// The command that downloads a dataset.
pub fn hub_command(
    name: &str,
    split: &str,
    output: &str,
    subset: &Option<String>,
    max_samples: Option<usize>,
) -> (c: ModuleCommand)
    ensures
        c@ == hub_command_of(name@, split@, output@, text::optional(*subset), max_samples),
{
    let mut args: Vec<String> = Vec::new();
    assert(text::texts(args@) =~= Seq::<Seq<char>>::empty());
    add_text(&mut args, "-m");
    add_text(&mut args, "blut_core.load_dataset");
    add_text(&mut args, "--name");
    add_text(&mut args, name);
    add_text(&mut args, "--split");
    add_text(&mut args, split);
    add_text(&mut args, "--output");
    add_text(&mut args, output);
    match subset {
        Some(s) => {
            add_text(&mut args, "--subset");
            add_text(&mut args, s.as_str());
        },
        None => {},
    }
    match max_samples {
        Some(n) => {
            add_text(&mut args, "--max-samples");
            add_text(&mut args, decimal_text(n as u64).as_str());
        },
        None => {},
    }
    ModuleCommand { program: "python3".to_string(), args }
}

/// Which file holds the examples that a local file is loaded as.
#[derive(Debug, PartialEq, Eq)]
pub struct Taken {
    pub path: String,
    /// What to write there. `None`: the file stands as it is.
    pub body: Option<String>,
}

/// `t` holds the first `max` examples of the file `path` with this text: in the file
/// itself where they are all of its examples, else in a file of their own.
pub open spec fn is_taken(
    t: Taken,
    path: Seq<char>,
    body: Seq<char>,
    max: Option<usize>,
    output: Seq<char>,
) -> bool {
    let all = jsonl::filled(jsonl::lines_of(body));
    let kept = jsonl::at_most(all, max);
    if kept.len() < all.len() {
        t.path@ == output && text::optional(t.body) == Some(jsonl::text_of(kept))
    } else {
        t.path@ == path && t.body is None
    }
}

/// Takes the first `max` examples of a file; those of a longer file go to `output`.
pub fn take_rows(path: &str, body: &str, max: Option<usize>, output: &str) -> (t: Taken)
    ensures
        is_taken(t, path@, body@, max, output@),
{
    let rows = lines(body);
    let all = capped(&rows, None);
    let kept = capped(&rows, max);
    assert(text::texts(all@).len() == all.len() && text::texts(kept@).len() == kept.len());
    if kept.len() < all.len() {
        Taken { path: output.to_string(), body: Some(body_of(&kept)) }
    } else {
        Taken { path: path.to_string(), body: None }
    }
}

impl LoadDataset {
    /// Where the dataset comes from.
    pub fn source(&self, args: &Args, stage_dir: &str) -> (r: Result<Load, StageError>)
        ensures
            match r {
                Ok(Load::Local { path, max_samples }) => {
                    &&& complaint(*args) is None
                    &&& args.path == Some(path)
                    &&& max_samples == args.max_samples
                },
                Ok(Load::Hub { command, output }) => {
                    &&& complaint(*args) is None
                    &&& args.hf_name is Some
                    &&& output@ == text::joined(stage_dir@, "dataset.jsonl"@)
                    &&& command@ == hub_command_of(
                        args.hf_name->0@,
                        args.split@,
                        output@,
                        text::optional(args.subset),
                        args.max_samples,
                    )
                },
                Err(e) => complaint(*args) is Some && e@ == StageErrorView::BadInput(
                    complaint(*args)->0,
                ),
            },
    {
        match &args.path {
            Some(p) => match &args.hf_name {
                Some(_) => Err(
                    bad_input("load_dataset: pass exactly one of path / hf_name, not both"),
                ),
                None => match refuse_parent_dir("path", p.as_str()) {
                    Ok(_) => Ok(
                        Load::Local { path: p.clone(), max_samples: args.max_samples },
                    ),
                    Err(e) => Err(e),
                },
            },
            None => match &args.hf_name {
                Some(name) => {
                    let output = join(stage_dir, "dataset.jsonl");
                    let command = hub_command(
                        name.as_str(),
                        args.split.as_str(),
                        output.as_str(),
                        &args.subset,
                        args.max_samples,
                    );
                    Ok(Load::Hub { command, output })
                },
                None => Err(bad_input("load_dataset: one of path / hf_name is required")),
            },
        }
    }

    /// Refuses a file that is not there.
    pub fn check_found(&self, path: &str, exists: bool) -> (r: Result<(), StageError>)
        ensures
            r is Ok <==> exists,
            r matches Err(e) ==> e@ == StageErrorView::BadInput(
                "dataset path"@ + " not found: "@ + path@,
            ),
    {
        refuse_missing("dataset path", path, exists)
    }

    /// What the end of a download means: it succeeded and left a file, or the
    /// backend failed.
    pub fn downloaded(&self, run: Result<CommandExit, String>, produced: bool) -> (r: Result<
        (),
        StageError,
    >)
        ensures
            match r {
                Ok(_) => process::module_failure("blut_core.load_dataset"@, run) is None
                    && produced,
                Err(e) => match process::module_failure("blut_core.load_dataset"@, run) {
                    Some(f) => e@ == f,
                    None => !produced && e@ == StageErrorView::Backend(
                        "blut_core.load_dataset did not produce output"@,
                    ),
                },
            },
    {
        match module_outcome("blut_core.load_dataset", run) {
            Ok(_) => {},
            Err(e) => {
                return Err(e);
            },
        }
        if !produced {
            return Err(
                StageError::Backend("blut_core.load_dataset did not produce output".to_string()),
            );
        }
        Ok(())
    }

    /// Which file holds the examples that are loaded of a local file with this text.
    pub fn taken(
        &self,
        path: &str,
        body: &str,
        max_samples: Option<usize>,
        stage_dir: &str,
    ) -> (t: Taken)
        ensures
            is_taken(
                t,
                path@,
                body@,
                max_samples,
                text::joined(stage_dir@, "dataset.jsonl"@),
            ),
    {
        take_rows(path, body, max_samples, join(stage_dir, "dataset.jsonl").as_str())
    }

    /// The dataset at `path` that holds the first `max_samples` examples of this text.
    pub fn dataset(
        &self,
        path: String,
        body: &str,
        max_samples: Option<usize>,
        content_hash: ContentHash,
    ) -> (d: DatasetJsonl)
        requires
            body@.len() <= i64::MAX,
        ensures
            d.path == path,
            d.content_hash == content_hash,
            d.n_examples == match max_samples {
                Some(n) => vstd::math::min(
                    jsonl::filled(jsonl::lines_of(body@)).len() as int,
                    n as int,
                ),
                None => jsonl::filled(jsonl::lines_of(body@)).len() as int,
            },
    {
        let all: i64 = count(body);
        let n_examples: i64 = match max_samples {
            Some(n) => if (n as u64) < all as u64 {
                n as i64
            } else {
                all
            },
            None => all,
        };
        DatasetJsonl { path, content_hash, n_examples }
    }
}

/// A capped file is counted as holding what the dataset says it holds.
pub proof fn lemma_a_capped_file_holds_what_is_counted(
    t: Taken,
    path: Seq<char>,
    body: Seq<char>,
    max: Option<usize>,
    output: Seq<char>,
)
    requires
        is_taken(t, path, body, max, output),
    ensures
        jsonl::filled(
            jsonl::lines_of(
                match t.body {
                    Some(b) => b@,
                    None => body,
                },
            ),
        ).len() == match max {
            Some(n) => vstd::math::min(
                jsonl::filled(jsonl::lines_of(body)).len() as int,
                n as int,
            ),
            None => jsonl::filled(jsonl::lines_of(body)).len() as int,
        },
{
    jsonl::lemma_kept_examples_are_counted(body, max);
}

/// Among arguments that come in pairs, a flag and its value, `flag` is given once, with
/// `value`.
pub open spec fn pairs(args: Seq<Seq<char>>, flag: Seq<char>, value: Seq<char>) -> bool {
    exists|i: int|
        0 <= i && 2 * i + 1 < args.len() && #[trigger] args[2 * i] == flag && args[2 * i + 1]
            == value && forall|j: int|
            0 <= j && 2 * j < args.len() && #[trigger] args[2 * j] == flag ==> j == i
}

/// No two flags of the download are the same text.
proof fn lemma_flags_are_told_apart()
    ensures
        "-m"@.len() == 2,
        "--name"@.len() == 6,
        "--split"@.len() == 7,
        "--output"@.len() == 8 && "--output"@[2] == 'o',
        "--subset"@.len() == 8 && "--subset"@[2] == 's',
        "--max-samples"@.len() == 13,
{
    reveal_strlit("-m");
    reveal_strlit("--name");
    reveal_strlit("--split");
    reveal_strlit("--output");
    reveal_strlit("--subset");
    reveal_strlit("--max-samples");
}

/// A download gives the name, the split and the file behind their flags, and the subset
/// and the cap where there are some and only there.
pub proof fn lemma_a_download_gives_what_is_asked(
    name: Seq<char>,
    split: Seq<char>,
    output: Seq<char>,
    subset: Option<Seq<char>>,
    max_samples: Option<usize>,
)
    ensures
        ({
            let c = hub_command_of(name, split, output, subset, max_samples);
            &&& c.program == "python3"@
            &&& pairs(c.args, "-m"@, "blut_core.load_dataset"@)
            &&& pairs(c.args, "--name"@, name)
            &&& pairs(c.args, "--split"@, split)
            &&& pairs(c.args, "--output"@, output)
            &&& subset matches Some(s) ==> pairs(c.args, "--subset"@, s)
            &&& max_samples matches Some(n) ==> pairs(
                c.args,
                "--max-samples"@,
                text::decimal(n as nat),
            )
            &&& subset is None ==> forall|j: int|
                0 <= j && 2 * j < c.args.len() ==> #[trigger] c.args[2 * j] != "--subset"@
            &&& max_samples is None ==> forall|j: int|
                0 <= j && 2 * j < c.args.len() ==> #[trigger] c.args[2 * j] != "--max-samples"@
        }),
{
    lemma_flags_are_told_apart();
    let a = hub_command_of(name, split, output, subset, max_samples).args;
    assert(a[2 * 0int] == "-m"@ && a[2 * 0int + 1] == "blut_core.load_dataset"@);
    assert(a[2 * 1int] == "--name"@ && a[2 * 1int + 1] == name);
    assert(a[2 * 2int] == "--split"@ && a[2 * 2int + 1] == split);
    assert(a[2 * 3int] == "--output"@ && a[2 * 3int + 1] == output);
    match (subset, max_samples) {
        (Some(s), Some(n)) => {
            assert(a.len() == 12);
            assert(a[2 * 4int] == "--subset"@ && a[2 * 4int + 1] == s);
            assert(a[2 * 5int] == "--max-samples"@ && a[2 * 5int + 1] == text::decimal(n as nat));
        },
        (Some(s), None) => {
            assert(a.len() == 10);
            assert(a[2 * 4int] == "--subset"@ && a[2 * 4int + 1] == s);
        },
        (None, Some(n)) => {
            assert(a.len() == 10);
            assert(a[2 * 4int] == "--max-samples"@ && a[2 * 4int + 1] == text::decimal(n as nat));
        },
        (None, None) => {
            assert(a.len() == 8);
        },
    }
    assert forall|j: int| 0 <= j && 2 * j < a.len() implies #[trigger] a[2 * j] == (if j == 0 {
        "-m"@
    } else if j == 1 {
        "--name"@
    } else if j == 2 {
        "--split"@
    } else if j == 3 {
        "--output"@
    } else if j == 4 && subset is Some {
        "--subset"@
    } else {
        "--max-samples"@
    }) by {
        assert(j == 0 || j == 1 || j == 2 || j == 3 || j == 4 || j == 5);
    }
}

/// Downloads of something else are other commands.
pub proof fn lemma_other_downloads_are_other_commands(
    name: Seq<char>,
    split: Seq<char>,
    output: Seq<char>,
    subset: Option<Seq<char>>,
    max_samples: Option<usize>,
    name2: Seq<char>,
    split2: Seq<char>,
    output2: Seq<char>,
    subset2: Option<Seq<char>>,
    max_samples2: Option<usize>,
)
    requires
        hub_command_of(name, split, output, subset, max_samples) == hub_command_of(
            name2,
            split2,
            output2,
            subset2,
            max_samples2,
        ),
    ensures
        name == name2,
        split == split2,
        output == output2,
        subset == subset2,
        max_samples == max_samples2,
{
    lemma_a_download_gives_what_is_asked(name, split, output, subset, max_samples);
    lemma_a_download_gives_what_is_asked(name2, split2, output2, subset2, max_samples2);
    match (max_samples, max_samples2) {
        (Some(a), Some(b)) => text::lemma_decimals_differ(a as nat, b as nat),
        _ => {},
    }
}

/// A source is accepted exactly where one of the two places is given and not the other,
/// and a path does not go up.
pub proof fn lemma_which_sources_are_accepted(args: Args)
    ensures
        complaint(args) is None <==> {
            &&& (args.path is Some) != (args.hf_name is Some)
            &&& args.path matches Some(p) ==> !text::has_parent_component(p@)
        },
        args.path is Some && args.hf_name is Some ==> complaint(args) == Some(
            "load_dataset: pass exactly one of path / hf_name, not both"@,
        ),
        args.path is None && args.hf_name is None ==> complaint(args) == Some(
            "load_dataset: one of path / hf_name is required"@,
        ),
        args.path is Some && args.hf_name is None && complaint(args) is Some ==> text::occurs_in(
            complaint(args)->0,
            args.path->0@,
        ),
{
    if let Some(p) = args.path {
        util::lemma_a_refused_path_is_quoted("path"@, p@);
    }
}

/// A file with no more examples than the cap stands as it is; of a longer one the first
/// examples, as many as the cap says, are written to a file of their own.
pub proof fn lemma_a_cap_writes_the_first_examples(
    t: Taken,
    path: Seq<char>,
    body: Seq<char>,
    max: Option<usize>,
    output: Seq<char>,
)
    requires
        is_taken(t, path, body, max, output),
    ensures
        ({
            let all = jsonl::filled(jsonl::lines_of(body));
            &&& t.body is None <==> max is None || all.len() <= max->0
            &&& t.body is None ==> t.path@ == path
            &&& t.body matches Some(b) ==> t.path@ == output && b@ == jsonl::text_of(
                all.take(max->0 as int),
            )
        }),
{
    let all = jsonl::filled(jsonl::lines_of(body));
    jsonl::lemma_a_cap_leaves_the_first_lines(all, max);
}

} // verus!
