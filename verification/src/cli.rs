//! Command surface of the harness: which experiment to run and under which
//! parameters, plus the boundary constraints that must hold before the core
//! is allowed to run.

use vstd::prelude::*;

verus! {

/// Which string representation an experiment exercises.
#[derive(Clone, Copy, Debug, PartialEq, Eq, Structural)]
pub enum StrType {
    /// An exclusively owned string: every clone copies all bytes.
    OwnedString,
    /// A shared reference-counted immutable string: a clone bumps a count.
    ArcStr,
}

/// A parsed command: either a single experiment run or a full sweep written
/// to a tabular report file.
#[derive(Debug)]
pub enum Cli {
    /// Run the experiment on a single configuration.
    Single {
        /// How many concurrent workload instances should be spawned.
        task_ct: usize,
        /// How many times each workload clones its string.
        clone_ct: usize,
        /// How long the generated source string should be.
        string_len: usize,
        /// Which representation the experiment exercises.
        str_type: StrType,
    },
    /// Run the fixed grid of configurations and report one averaged row each.
    CsvReport {
        /// How many concurrent workload instances per configuration.
        task_ct: usize,
        /// How many trials to average over per configuration; at least one.
        num_trials: usize,
        /// How many times each workload clones its string; at least one.
        clone_ct: usize,
        /// The path of the report file the rows are written to.
        csv_path: String,
    },
}

impl Cli {
    /// The boundary constraints a command must satisfy before the core runs:
    /// a sweep averages over at least one trial and clones at least once.
    pub open spec fn wf(&self) -> bool {
        match self {
            Cli::Single { .. } => true,
            Cli::CsvReport { num_trials, clone_ct, .. } => *num_trials >= 1 && *clone_ct >= 1,
        }
    }

    /// Decides whether the command satisfies the boundary constraints.
    pub fn validate(&self) -> (r: bool)
        ensures
            r == self.wf(),
    {
        match self {
            Cli::Single { .. } => true,
            Cli::CsvReport { num_trials, clone_ct, .. } => *num_trials >= 1 && *clone_ct >= 1,
        }
    }
}

} // verus!
