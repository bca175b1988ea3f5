//! Failures of stages, recipes and trainer runs, with the text each one shows.

use vstd::prelude::*;
use vstd::string::*;

verus! {

/// Why a stage failed.
#[derive(Debug, PartialEq, Eq)]
pub enum StageError {
    /// The input did not satisfy a precondition of the stage.
    BadInput(String),
    /// A backend (a subprocess, a registry) failed.
    Backend(String),
    /// A file could not be read or written.
    Io { path: String, source: String },
}

/// What a [`StageError`] says.
#[verifier::ext_equal]
pub enum StageErrorView {
    BadInput(Seq<char>),
    Backend(Seq<char>),
    Io { path: Seq<char>, source: Seq<char> },
}

impl View for StageError {
    type V = StageErrorView;

    open spec fn view(&self) -> StageErrorView {
        match self {
            StageError::BadInput(m) => StageErrorView::BadInput(m@),
            StageError::Backend(m) => StageErrorView::Backend(m@),
            StageError::Io { path, source } => StageErrorView::Io { path: path@, source: source@ },
        }
    }
}

impl StageError {
    /// The text shown for the failure.
    pub fn to_text(&self) -> (s: String)
        ensures
            s@ == match self@ {
                StageErrorView::BadInput(m) => "input did not satisfy precondition: "@ + m,
                StageErrorView::Backend(m) => "backend: "@ + m,
                StageErrorView::Io { path, source } => "io at "@ + path + ": "@ + source,
            },
    {
        match self {
            StageError::BadInput(m) => "input did not satisfy precondition: ".to_string().concat(
                m.as_str(),
            ),
            StageError::Backend(m) => "backend: ".to_string().concat(m.as_str()),
            StageError::Io { path, source } => "io at ".to_string().concat(path.as_str()).concat(
                ": ",
            ).concat(source.as_str()),
        }
    }
}

/// Why the arguments of a recipe make no plan: the argument at fault and what
/// is wrong with it.
#[derive(Debug, PartialEq, Eq)]
pub struct RecipeError {
    pub field: Option<&'static str>,
    pub message: String,
}

/// What a [`RecipeError`] says.
#[verifier::ext_equal]
pub struct RecipeErrorView {
    pub field: Option<Seq<char>>,
    pub message: Seq<char>,
}

impl View for RecipeError {
    type V = RecipeErrorView;

    open spec fn view(&self) -> RecipeErrorView {
        RecipeErrorView {
            field: match self.field {
                Some(f) => Some(f@),
                None => None,
            },
            message: self.message@,
        }
    }
}

/// Why a trainer run failed.
#[derive(Debug, PartialEq, Eq)]
pub enum TrainError {
    /// The description of the run is out of range.
    InvalidSpec(String),
    /// The trainer process failed.
    Trainer(String),
    /// Anything around the trainer.
    Other(String),
}

/// What a [`TrainError`] says.
#[verifier::ext_equal]
pub enum TrainErrorView {
    InvalidSpec(Seq<char>),
    Trainer(Seq<char>),
    Other(Seq<char>),
}

impl View for TrainError {
    type V = TrainErrorView;

    open spec fn view(&self) -> TrainErrorView {
        match self {
            TrainError::InvalidSpec(m) => TrainErrorView::InvalidSpec(m@),
            TrainError::Trainer(m) => TrainErrorView::Trainer(m@),
            TrainError::Other(m) => TrainErrorView::Other(m@),
        }
    }
}

/// A failed precondition with the given message.
pub fn bad_input(message: &str) -> (e: StageError)
    ensures
        e@ == StageErrorView::BadInput(message@),
{
    StageError::BadInput(message.to_string())
}

/// A failure is seen as what it is, with its own text.
pub proof fn lemma_failures_are_seen_as_they_are(s: StageError, r: RecipeError, t: TrainError)
    ensures
        s matches StageError::BadInput(m) ==> s@ == StageErrorView::BadInput(m@),
        s matches StageError::Backend(m) ==> s@ == StageErrorView::Backend(m@),
        s matches StageError::Io { path, source } ==> s@ == (StageErrorView::Io {
            path: path@,
            source: source@,
        }),
        r@.message == r.message@,
        r.field matches Some(f) ==> r@.field == Some(f@),
        r.field is None ==> r@.field is None,
        t matches TrainError::InvalidSpec(m) ==> t@ == TrainErrorView::InvalidSpec(m@),
        t matches TrainError::Trainer(m) ==> t@ == TrainErrorView::Trainer(m@),
        t matches TrainError::Other(m) ==> t@ == TrainErrorView::Other(m@),
{
}

} // verus!
