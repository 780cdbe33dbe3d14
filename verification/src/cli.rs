//! The command line as data: which command, with which arguments, and the
//! steps that each command is made of.

use crate::context::BuildArgs;
use crate::pipeline::{Pipeline, PipelineView};
use crate::scaffold::{new_order, new_pipeline, NewArgs, NewStep};
use crate::steps::{build_order, build_pipeline, BuildStep};
use vstd::prelude::*;

verus! {

/// The commands that the tool can execute.
#[derive(Debug, PartialEq, Eq)]
pub enum SubCommand {
    /// Build the wasm package.
    Build(BuildArgs),
    /// Create a new project.
    New(NewArgs),
}

/// The parsed command line.
#[derive(Debug, PartialEq, Eq)]
pub struct Args {
    /// The subcommand to run.
    pub subcommand: SubCommand,
}

/// Runs subcommand
pub trait RunArgs {
    /// The steps that the command is made of.
    type Step: Copy;

    /// The steps of the command, in the order in which they run.
    spec fn steps(&self) -> Seq<Self::Step>;

    /// Begins a run of the command: a pipeline of its steps, none of them run
    /// yet. The caller runs the step that is due and records how it ended,
    /// until the pipeline has a result.
    fn run(&self) -> (pipeline: Pipeline<Self::Step>)
        ensures
            pipeline@ == PipelineView::start(self.steps()),
    ;
}

impl RunArgs for BuildArgs {
    type Step = BuildStep;

    open spec fn steps(&self) -> Seq<BuildStep> {
        build_order()
    }

    fn run(&self) -> (pipeline: Pipeline<BuildStep>) {
        build_pipeline()
    }
}

impl RunArgs for NewArgs {
    type Step = NewStep;

    open spec fn steps(&self) -> Seq<NewStep> {
        new_order()
    }

    fn run(&self) -> (pipeline: Pipeline<NewStep>) {
        new_pipeline()
    }
}

} // verus!
