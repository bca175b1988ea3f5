//! What several stages share.

use vstd::prelude::*;
use vstd::string::*;

use crate::error::{bad_input, StageError, StageErrorView};
use crate::text;
use crate::text::{has_char, has_parent_dir, join, same, trim};

verus! {

/// What is said of a path with a `..` component.
pub open spec fn parent_message(label: Seq<char>, path: Seq<char>) -> Seq<char> {
    label + " '"@ + path + "' contains '..' — refusing"@
}

/// Refuses a path with a `..` component.
pub fn refuse_parent_dir(label: &str, path: &str) -> (r: Result<(), StageError>)
    ensures
        r is Ok <==> !text::has_parent_component(path@),
        r matches Err(e) ==> e@ == StageErrorView::BadInput(parent_message(label@, path@)),
{
    if has_parent_dir(path) {
        return Err(
            bad_input(
                label.to_string().concat(" '").concat(path).concat(
                    "' contains '..' — refusing",
                ).as_str(),
            ),
        );
    }
    Ok(())
}

/// Refuses a path where nothing is.
pub fn refuse_missing(label: &str, path: &str, exists: bool) -> (r: Result<(), StageError>)
    ensures
        r is Ok <==> exists,
        r matches Err(e) ==> e@ == StageErrorView::BadInput(label@ + " not found: "@ + path@),
{
    if !exists {
        return Err(
            bad_input(label.to_string().concat(" not found: ").concat(path).as_str()),
        );
    }
    Ok(())
}

/// A text with a path separator in it.
pub open spec fn has_separator(s: Seq<char>) -> bool {
    s.contains('/') || s.contains('\\')
}

/// Whether a text has a path separator in it.
pub fn separates(s: &str) -> (r: bool)
    ensures
        r == has_separator(s@),
{
    has_char(s, '/') || has_char(s, '\\')
}

/// What is wrong with a name for a registry.
pub open spec fn name_complaint(name: Seq<char>) -> Option<Seq<char>> {
    if name.len() == 0 {
        Some("name must be non-empty"@)
    } else if has_separator(name) {
        Some("name '"@ + name + "' must not contain path separators"@)
    } else {
        None
    }
}

/// Refuses a name that is no safe registry identifier.
pub fn check_name(name: &str) -> (r: Result<(), StageError>)
    ensures
        match r {
            Ok(_) => name_complaint(name@) is None,
            Err(e) => name_complaint(name@) is Some && e@ == StageErrorView::BadInput(
                name_complaint(name@)->0,
            ),
        },
{
    if name.is_empty() {
        return Err(bad_input("name must be non-empty"));
    }
    if separates(name) {
        return Err(
            bad_input(
                "name '".to_string().concat(name).concat(
                    "' must not contain path separators",
                ).as_str(),
            ),
        );
    }
    Ok(())
}

/// A trainer of this cookbook: its Python module, and the variable that overrides
/// where it is.
#[derive(Clone, Copy, Debug, PartialEq, Eq)]
pub struct Trainer {
    pub module: &'static str,
    pub override_name: &'static str,
}

/// The trainer behind a script name.
pub open spec fn trainer_of(filename: Seq<char>) -> Option<(Seq<char>, Seq<char>)> {
    if filename == "trainer.py"@ {
        Some(("blut_standard.trainer"@, "BLUT_STANDARD_TRAINER_PY"@))
    } else if filename == "trainer_dpo.py"@ {
        Some(("blut_standard.trainer_dpo"@, "BLUT_STANDARD_TRAINER_DPO_PY"@))
    } else if filename == "trainer_distill.py"@ {
        Some(("blut_standard.trainer_distill"@, "BLUT_STANDARD_TRAINER_DISTILL_PY"@))
    } else {
        None
    }
}

/// The trainer behind a script name.
pub fn trainer(filename: &str) -> (r: Result<Trainer, StageError>)
    ensures
        match r {
            Ok(t) => trainer_of(filename@) == Some((t.module@, t.override_name@)),
            Err(e) => trainer_of(filename@) is None && e@ == StageErrorView::BadInput(
                "unsupported standard trainer script: "@ + filename@,
            ),
        },
{
    if same(filename, "trainer.py") {
        Ok(Trainer { module: "blut_standard.trainer", override_name: "BLUT_STANDARD_TRAINER_PY" })
    } else if same(filename, "trainer_dpo.py") {
        Ok(
            Trainer {
                module: "blut_standard.trainer_dpo",
                override_name: "BLUT_STANDARD_TRAINER_DPO_PY",
            },
        )
    } else if same(filename, "trainer_distill.py") {
        Ok(
            Trainer {
                module: "blut_standard.trainer_distill",
                override_name: "BLUT_STANDARD_TRAINER_DISTILL_PY",
            },
        )
    } else {
        Err(
            bad_input(
                "unsupported standard trainer script: ".to_string().concat(filename).as_str(),
            ),
        )
    }
}

/// What has been looked at so far in the search for a trainer script. `None` is
/// what has not been looked at.
pub struct TrainerSearch {
    /// The override, where one is set, and whether it names a file.
    pub configured: Option<(String, bool)>,
    /// Whether the script is in the source tree.
    pub in_tree: Option<bool>,
    /// What the interpreter printed for the installed module, and whether that
    /// names a file; nothing where it could not be asked.
    pub installed: Option<Option<(String, bool)>>,
    /// What the engine's own search came to.
    pub engine: Option<Result<String, String>>,
}

/// How the search goes on.
#[derive(Debug, PartialEq, Eq)]
pub enum TrainerNext {
    /// The script.
    Found(String),
    /// See whether this file exists.
    LookInTree(String),
    /// Have the interpreter run this.
    AskPython(String),
    /// Ask the engine.
    AskEngine,
}

/// How the search goes on, as values.
#[verifier::ext_equal]
pub enum TrainerNextView {
    Found(Seq<char>),
    LookInTree(Seq<char>),
    AskPython(Seq<char>),
    AskEngine,
}

impl View for TrainerNext {
    type V = TrainerNextView;

    open spec fn view(&self) -> TrainerNextView {
        match *self {
            TrainerNext::Found(p) => TrainerNextView::Found(p@),
            TrainerNext::LookInTree(p) => TrainerNextView::LookInTree(p@),
            TrainerNext::AskPython(s) => TrainerNextView::AskPython(s@),
            TrainerNext::AskEngine => TrainerNextView::AskEngine,
        }
    }
}

/// The script in the source tree.
pub open spec fn in_tree_script(root: Seq<char>, filename: Seq<char>) -> Seq<char> {
    text::joined(text::joined(text::joined(root, "python"@), "blut_standard"@), filename)
}

/// What the interpreter is asked to find an installed module.
pub open spec fn find_module(module: Seq<char>) -> Seq<char> {
    "import importlib.util; s=importlib.util.find_spec(\""@ + module
        + "\"); print(s.origin if s and s.origin else '')"@
}

/// How the search for a trainer script goes on: an override decides, right or
/// wrong; then comes the source tree, the installed module, and the engine's own
/// search at last.
pub open spec fn search_of(
    root: Seq<char>,
    python: Seq<char>,
    filename: Seq<char>,
    s: TrainerSearch,
) -> Result<TrainerNextView, StageErrorView> {
    match trainer_of(filename) {
        None => Err(
            StageErrorView::BadInput("unsupported standard trainer script: "@ + filename),
        ),
        Some((module, override_name)) => match s.configured {
            Some((path, is_file)) => if is_file {
                Ok(TrainerNextView::Found(path@))
            } else {
                Err(
                    StageErrorView::BadInput(
                        "$"@ + override_name + " does not name a file: "@ + path@,
                    ),
                )
            },
            None => match s.in_tree {
                None => Ok(TrainerNextView::LookInTree(in_tree_script(root, filename))),
                Some(true) => Ok(TrainerNextView::Found(in_tree_script(root, filename))),
                Some(false) => match s.installed {
                    None => Ok(TrainerNextView::AskPython(find_module(module))),
                    Some(Some((printed, true))) => Ok(
                        TrainerNextView::Found(text::trimmed(printed@)),
                    ),
                    Some(_) => match s.engine {
                        None => Ok(TrainerNextView::AskEngine),
                        Some(Ok(path)) => Ok(TrainerNextView::Found(path@)),
                        Some(Err(e)) => Err(
                            StageErrorView::Backend(
                                module + " not installed for "@ + python
                                    + "; install blut-cookbook-standard into that interpreter or set $"@
                                    + override_name + ": "@ + e@,
                            ),
                        ),
                    },
                },
            },
        },
    }
}

/// Says how the search for a trainer script of this cookbook goes on.
pub fn resolve_trainer_script(root: &str, python: &str, filename: &str, s: &TrainerSearch) -> (r:
    Result<TrainerNext, StageError>)
    ensures
        match r {
            Ok(n) => search_of(root@, python@, filename@, *s) == Ok::<
                TrainerNextView,
                StageErrorView,
            >(n@),
            Err(e) => search_of(root@, python@, filename@, *s) == Err::<
                TrainerNextView,
                StageErrorView,
            >(e@),
        },
{
    let t = match trainer(filename) {
        Ok(t) => t,
        Err(e) => {
            return Err(e);
        },
    };
    match &s.configured {
        Some((path, is_file)) => {
            if *is_file {
                return Ok(TrainerNext::Found(path.clone()));
            }
            return Err(
                bad_input(
                    "$".to_string().concat(t.override_name).concat(
                        " does not name a file: ",
                    ).concat(path.as_str()).as_str(),
                ),
            );
        },
        None => {},
    }
    let script = join(join(join(root, "python").as_str(), "blut_standard").as_str(), filename);
    match s.in_tree {
        None => {
            return Ok(TrainerNext::LookInTree(script));
        },
        Some(there) => {
            if there {
                return Ok(TrainerNext::Found(script));
            }
        },
    }
    match &s.installed {
        None => {
            return Ok(
                TrainerNext::AskPython(
                    "import importlib.util; s=importlib.util.find_spec(\"".to_string().concat(
                        t.module,
                    ).concat("\"); print(s.origin if s and s.origin else '')"),
                ),
            );
        },
        Some(Some((printed, is_file))) => {
            if *is_file {
                return Ok(TrainerNext::Found(trim(printed.as_str())));
            }
        },
        Some(None) => {},
    }
    match &s.engine {
        None => Ok(TrainerNext::AskEngine),
        Some(Ok(path)) => Ok(TrainerNext::Found(path.clone())),
        Some(Err(e)) => Err(
            StageError::Backend(
                t.module.to_string().concat(" not installed for ").concat(python).concat(
                    "; install blut-cookbook-standard into that interpreter or set $",
                ).concat(t.override_name).concat(": ").concat(e.as_str()),
            ),
        ),
    }
}

/// The trainers are told apart: three script names stand for three modules with an
/// override each.
pub proof fn lemma_trainers_are_told_apart(a: Seq<char>, b: Seq<char>)
    requires
        trainer_of(a) is Some,
        trainer_of(b) is Some,
        a != b,
    ensures
        (trainer_of(a)->0).0 != (trainer_of(b)->0).0,
        (trainer_of(a)->0).1 != (trainer_of(b)->0).1,
{
    reveal_strlit("blut_standard.trainer");
    reveal_strlit("blut_standard.trainer_dpo");
    reveal_strlit("blut_standard.trainer_distill");
    reveal_strlit("BLUT_STANDARD_TRAINER_PY");
    reveal_strlit("BLUT_STANDARD_TRAINER_DPO_PY");
    reveal_strlit("BLUT_STANDARD_TRAINER_DISTILL_PY");
    assert("blut_standard.trainer"@.len() != "blut_standard.trainer_dpo"@.len());
    assert("blut_standard.trainer"@.len() != "blut_standard.trainer_distill"@.len());
    assert("blut_standard.trainer_dpo"@.len() != "blut_standard.trainer_distill"@.len());
    assert("BLUT_STANDARD_TRAINER_PY"@.len() != "BLUT_STANDARD_TRAINER_DPO_PY"@.len());
    assert("BLUT_STANDARD_TRAINER_PY"@.len() != "BLUT_STANDARD_TRAINER_DISTILL_PY"@.len());
    assert("BLUT_STANDARD_TRAINER_DPO_PY"@.len() != "BLUT_STANDARD_TRAINER_DISTILL_PY"@.len());
}

/// A name is accepted exactly where it is not empty and has no slash of either kind in it;
/// one that is not is quoted.
pub proof fn lemma_which_names_are_accepted(name: Seq<char>)
    ensures
        name_complaint(name) is None <==> name.len() > 0 && forall|i: int|
            0 <= i < name.len() ==> #[trigger] name[i] != '/' && name[i] != '\\',
        name.len() == 0 ==> name_complaint(name) == Some("name must be non-empty"@),
        name.len() > 0 && name_complaint(name) is Some ==> text::occurs_in(
            name_complaint(name)->0,
            name,
        ),
{
    text::lemma_a_part_occurs("name '"@, name, "' must not contain path separators"@);
    if name.contains('/') {
        let i = choose|i: int| 0 <= i < name.len() && name[i] == '/';
        assert(name[i] == '/');
    }
    if name.contains('\\') {
        let i = choose|i: int| 0 <= i < name.len() && name[i] == '\\';
        assert(name[i] == '\\');
    }
    if !has_separator(name) {
        assert forall|i: int| 0 <= i < name.len() implies #[trigger] name[i] != '/' && name[i]
            != '\\' by {
            assert(name.contains(name[i]));
        }
    }
}

/// A name joined onto a directory stays directly below it: it adds one component.
pub proof fn lemma_an_accepted_name_stays_below_its_directory(dir: Seq<char>, name: Seq<char>)
    requires
        name_complaint(name) is None,
        name != seq!['.'],
        dir.len() > 0,
        !text::has_idle_end(dir),
        dir.last() != '/',
    ensures
        text::parent_of(text::joined(dir, name)) == Some(dir),
{
    text::lemma_the_parent_is_the_directory(dir, name);
}

/// What is said of a path that goes up names the argument and the path.
pub proof fn lemma_a_refused_path_is_quoted(label: Seq<char>, path: Seq<char>)
    ensures
        text::occurs_in(parent_message(label, path), label),
        text::occurs_in(parent_message(label, path), path),
{
    let rest = "' contains '..' — refusing"@;
    text::lemma_a_part_occurs(label + " '"@, path, rest);
    text::lemma_the_ends_occur(label, " '"@);
    text::lemma_it_occurs_in_more(label + " '"@, label, path);
    text::lemma_it_occurs_in_more(label + " '"@ + path, label, rest);
}

/// The script of a trainer is found in the module of its own name: the module is the
/// script's name without its ending, in the package of the cookbook.
pub proof fn lemma_a_script_is_found_in_its_module(filename: Seq<char>)
    ensures
        trainer_of(filename) is Some <==> filename == "trainer.py"@ || filename
            == "trainer_dpo.py"@ || filename == "trainer_distill.py"@,
        trainer_of(filename) matches Some(t) ==> t.0 + ".py"@ == "blut_standard."@ + filename,
        filename == "trainer.py"@ ==> (trainer_of(filename)->0).1 == "BLUT_STANDARD_TRAINER_PY"@,
        filename == "trainer_dpo.py"@ ==> (trainer_of(filename)->0).1
            == "BLUT_STANDARD_TRAINER_DPO_PY"@,
        filename == "trainer_distill.py"@ ==> (trainer_of(filename)->0).1
            == "BLUT_STANDARD_TRAINER_DISTILL_PY"@,
{
    reveal_strlit("trainer.py");
    reveal_strlit("trainer_dpo.py");
    reveal_strlit("trainer_distill.py");
    reveal_strlit("blut_standard.");
    reveal_strlit(".py");
    reveal_strlit("blut_standard.trainer");
    reveal_strlit("blut_standard.trainer_dpo");
    reveal_strlit("blut_standard.trainer_distill");
    assert("trainer.py"@.len() == 10 && "trainer_dpo.py"@.len() == 14
        && "trainer_distill.py"@.len() == 18);
    assert("blut_standard.trainer"@ + ".py"@ =~= "blut_standard."@ + "trainer.py"@);
    assert("blut_standard.trainer_dpo"@ + ".py"@ =~= "blut_standard."@ + "trainer_dpo.py"@);
    assert("blut_standard.trainer_distill"@ + ".py"@ =~= "blut_standard."@ + "trainer_distill.py"@);
}

/// The search asks one thing after the other and stops at the first script it finds: an
/// override decides alone, right or wrong; the source tree comes before the installed
/// module, and the engine is asked last.
pub proof fn lemma_the_search_stops_at_the_first_script(
    root: Seq<char>,
    python: Seq<char>,
    filename: Seq<char>,
    s: TrainerSearch,
)
    requires
        trainer_of(filename) is Some,
    ensures
        ({
            let next = search_of(root, python, filename, s);
            let script = text::joined(
                text::joined(text::joined(root, "python"@), "blut_standard"@),
                filename,
            );
            &&& s.configured matches Some(c) ==> {
                &&& c.1 ==> next == Ok::<TrainerNextView, StageErrorView>(
                    TrainerNextView::Found(c.0@),
                )
                &&& !c.1 ==> (next matches Err(StageErrorView::BadInput(m)) && text::occurs_in(
                    m,
                    c.0@,
                ) && text::occurs_in(m, (trainer_of(filename)->0).1))
            }
            &&& s.configured is None && s.in_tree is None ==> next == Ok::<
                TrainerNextView,
                StageErrorView,
            >(TrainerNextView::LookInTree(script))
            &&& s.configured is None && s.in_tree == Some(true) ==> next == Ok::<
                TrainerNextView,
                StageErrorView,
            >(TrainerNextView::Found(script))
            &&& s.configured is None && s.in_tree == Some(false) ==> {
                &&& s.installed is None ==> (next matches Ok(TrainerNextView::AskPython(code))
                    && text::occurs_in(code, (trainer_of(filename)->0).0))
                &&& (s.installed matches Some(Some(p)) && p.1) ==> next == Ok::<
                    TrainerNextView,
                    StageErrorView,
                >(TrainerNextView::Found(text::trimmed((s.installed->0->0).0@)))
                &&& s.installed is Some && !(s.installed matches Some(Some(p)) && p.1) ==> {
                    &&& s.engine is None ==> next == Ok::<TrainerNextView, StageErrorView>(
                        TrainerNextView::AskEngine,
                    )
                    &&& s.engine matches Some(Ok(path)) ==> next == Ok::<
                        TrainerNextView,
                        StageErrorView,
                    >(TrainerNextView::Found(path@))
                    &&& s.engine matches Some(Err(e)) ==> (next matches Err(
                        StageErrorView::Backend(m),
                    ) && text::occurs_in(m, (trainer_of(filename)->0).0) && text::occurs_in(m, e@))
                }
            }
        }),
{
    let (module, name) = trainer_of(filename)->0;
    if let Some(c) = s.configured {
        let a = "$"@ + name;
        let b = " does not name a file: "@;
        text::lemma_the_ends_occur("$"@, name);
        text::lemma_it_occurs_in_more(a, name, b);
        text::lemma_it_occurs_in_more(a + b, name, c.0@);
        text::lemma_the_ends_occur(a + b, c.0@);
    }
    text::lemma_a_part_occurs(
        "import importlib.util; s=importlib.util.find_spec(\""@,
        module,
        "\"); print(s.origin if s and s.origin else '')"@,
    );
    if let Some(Err(e)) = s.engine {
        let a = " not installed for "@;
        let b = "; install blut-cookbook-standard into that interpreter or set $"@;
        let c = ": "@;
        text::lemma_the_ends_occur(module, a);
        text::lemma_it_occurs_in_more(module + a, module, python);
        text::lemma_it_occurs_in_more(module + a + python, module, b);
        text::lemma_it_occurs_in_more(module + a + python + b, module, name);
        text::lemma_it_occurs_in_more(module + a + python + b + name, module, c);
        text::lemma_it_occurs_in_more(module + a + python + b + name + c, module, e@);
        text::lemma_the_ends_occur(module + a + python + b + name + c, e@);
    }
}

} // verus!
