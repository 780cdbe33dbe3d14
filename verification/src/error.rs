//! The diagnostics that end a pipeline.

use vstd::prelude::*;

verus! {

/// Why a pipeline stopped. Every kind is terminal: nothing is retried.
#[derive(Clone, Copy, Debug, PartialEq, Eq, Structural)]
pub enum ErrorKind {
    /// No manifest in the starting directory or any directory above it.
    ProjectNotFound,
    /// The manifest is not a TOML document of the expected shape.
    ManifestParseError,
    /// The manifest declares an empty list of library kinds.
    MissingLibraryKind,
    /// The compiler could not be queried, or its answer could not be read.
    ToolchainUnavailable,
    /// The compiler is older than the oldest supported release.
    ToolchainTooOld,
    /// The library kind is not the one the target requires.
    InvalidLibraryKind,
    /// Installing the target through the toolchain manager failed.
    TargetInstallFailed,
    /// The compiler invocation failed.
    CompilationFailed,
    /// The size optimizer failed.
    OptimizationFailed,
    /// The optimized artifact exceeds the size limit.
    ArtifactTooLarge,
    /// The package manager could not create the new project.
    ProjectInitFailed,
    /// A generated file could not be written.
    FileWriteFailed,
}

/// A diagnostic: its kind and the message shown to the user.
#[derive(Debug, PartialEq, Eq)]
pub struct BuildError {
    pub kind: ErrorKind,
    pub message: String,
}

/// The mathematical content of a [`BuildError`].
pub struct Failure {
    pub kind: ErrorKind,
    pub message: Seq<char>,
}

impl View for BuildError {
    type V = Failure;

    open spec fn view(&self) -> Failure {
        Failure { kind: self.kind, message: self.message@ }
    }
}

/// The outcome of a step as contracts see it: `Ok`, or the failure's content.
pub open spec fn outcome_view(r: Result<(), BuildError>) -> Result<(), Failure> {
    match r {
        Ok(_) => Ok(()),
        Err(e) => Err(e@),
    }
}

impl BuildError {
    /// A diagnostic of the given kind with the given message.
    pub fn new(kind: ErrorKind, message: String) -> (e: BuildError)
        ensures
            e@ == (Failure { kind, message: message@ }),
    {
        BuildError { kind, message }
    }

    /// A copy of this diagnostic.
    pub fn duplicate(&self) -> (e: BuildError)
        ensures
            e@ == self@,
    {
        BuildError { kind: self.kind, message: self.message.clone() }
    }

    /// The kind of this diagnostic.
    pub fn kind(&self) -> (k: ErrorKind)
        ensures
            k == self@.kind,
    {
        self.kind
    }

    /// The message of this diagnostic, as it is printed.
    pub fn to_string(&self) -> (s: String)
        ensures
            s@ == self@.message,
    {
        self.message.clone()
    }
}

} // verus!
