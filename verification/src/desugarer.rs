//! Rewriting passes over a pipeline.

use crate::air::Stage;
use vstd::prelude::*;

verus! {

/// Why a pass refused a pipeline. The join pass accepts every pipeline and never
/// returns one.
#[derive(Debug, PartialEq)]
pub enum Error {
    /// The pipeline holds a stage that the pass cannot rewrite.
    UnsupportedStage(String),
}

/// A rewriting pass over a whole pipeline.
pub trait Pass {
    fn apply(&self, pipeline: Stage) -> Result<Stage, Error>;
}

/// A rewrite of stages, called by a pass on each stage of a pipeline.
pub trait Visitor {
    fn visit_stage(&mut self, node: Stage) -> Stage;
}

} // verus!
