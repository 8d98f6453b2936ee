//! The failure taxonomy of the pipeline: what went wrong, and at which stage.
use vstd::prelude::*;

verus! {

/// The stages of the pipeline, in the order they run.
#[derive(Clone, Copy, PartialEq, Eq, Structural, Debug)]
pub enum Stage {
    Extraction,
    Flip,
    WorldResolution,
    BindingGeneration,
    DocGeneration,
}

/// What kind of failure ended a run.
#[derive(Clone, Copy, PartialEq, Eq, Structural, Debug)]
pub enum FailureKind {
    /// The component path is missing or unreadable.
    InputNotFound,
    /// A dispatched external tool exited non-zero or could not launch.
    ExternalToolFailure,
    /// The structured metadata output is not valid, parseable data.
    ParseError,
    /// The structured metadata holds no world entry.
    NoWorldFound,
    /// A language outside the supported set was requested.
    UnsupportedLanguage,
    /// A workspace file could not be read or rewritten.
    IOError,
}

/// A failed run: the stage that failed and the kind of failure.
#[derive(Clone, Copy, PartialEq, Eq, Structural, Debug)]
pub struct Failure {
    pub stage: Stage,
    pub kind: FailureKind,
}

impl FailureKind {
    /// A short description of the failure kind, for the error stream.
    pub fn describe(&self) -> (r: &'static str)
        ensures
            self is InputNotFound ==> r@ == "component path missing or unreadable"@,
            self is ExternalToolFailure ==> r@ == "external tool failed or could not launch"@,
            self is ParseError ==> r@ == "structured metadata is not valid data"@,
            self is NoWorldFound ==> r@ == "structured metadata holds no world"@,
            self is UnsupportedLanguage ==> r@
                == "Following languages are currently supported: rust, python"@,
            self is IOError ==> r@ == "workspace file could not be read or written"@,
    {
        match self {
            FailureKind::InputNotFound => "component path missing or unreadable",
            FailureKind::ExternalToolFailure => "external tool failed or could not launch",
            FailureKind::ParseError => "structured metadata is not valid data",
            FailureKind::NoWorldFound => "structured metadata holds no world",
            FailureKind::UnsupportedLanguage => "Following languages are currently supported: rust, python",
            FailureKind::IOError => "workspace file could not be read or written",
        }
    }
}

impl Stage {
    /// The stage's name, for the error stream.
    pub fn describe(&self) -> (r: &'static str)
        ensures
            self is Extraction ==> r@ == "extraction"@,
            self is Flip ==> r@ == "flip"@,
            self is WorldResolution ==> r@ == "world resolution"@,
            self is BindingGeneration ==> r@ == "binding generation"@,
            self is DocGeneration ==> r@ == "doc generation"@,
    {
        match self {
            Stage::Extraction => "extraction",
            Stage::Flip => "flip",
            Stage::WorldResolution => "world resolution",
            Stage::BindingGeneration => "binding generation",
            Stage::DocGeneration => "doc generation",
        }
    }
}

} // verus!
