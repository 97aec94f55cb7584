//! The settings of one benchmark run.
use vstd::prelude::*;
use crate::engine::WorkloadParameters;

verus! {

/// What a run is asked to do: the workload size, and a flag that the command
/// line accepts; every backend takes part in every run whatever it says.
#[derive(Clone, Copy, Debug, PartialEq, Eq, Structural)]
pub struct Options {
    pub size: u32,
    pub compile_slang: bool,
}

impl Options {
    /// The workload parameters these settings give.
    pub fn workload(&self) -> (r: WorkloadParameters)
        ensures
            r.size == self.size,
    {
        WorkloadParameters { size: self.size }
    }
}

} // verus!
