//! The sweep controller: walks the fixed grid of string lengths and
//! representations, hands out one configuration per cell, and folds the
//! measured trial totals into averaged report rows in a fixed deterministic
//! order.

use vstd::prelude::*;
use crate::cli::StrType;

verus! {

/// The immutable input to one experiment run.
#[derive(Clone, Copy, Debug, PartialEq, Eq, Structural)]
pub struct Configuration {
    /// How many concurrent workload instances are spawned.
    pub task_ct: usize,
    /// How many times each workload clones its string.
    pub clone_ct: usize,
    /// How long the generated source string is.
    pub string_len: usize,
    /// Which representation the run exercises.
    pub str_type: StrType,
}

/// The aggregated, trial-averaged result for one grid cell. The mean is kept
/// in whole nanoseconds; turning it into a decimal seconds column is left to
/// the unverified reporting edge.
#[derive(Clone, Copy, Debug, PartialEq, Eq, Structural)]
pub struct ReportRow {
    /// How many concurrent workload instances each trial spawned.
    pub task_ct: usize,
    /// How many trials the mean averages over.
    pub num_trials: usize,
    /// How many times each workload cloned its string.
    pub clone_ct: usize,
    /// The string length of this grid cell.
    pub str_len: usize,
    /// The representation of this grid cell.
    pub str_type: StrType,
    /// Total measured time divided by the number of trials, in nanoseconds.
    pub mean_time_nanos: u64,
}

/// How many cells the fixed grid has: five string lengths times two
/// representations.
pub open spec fn grid_len() -> int {
    10
}

/// The string length of grid cell `cell`: lengths ascend through the grid,
/// with both representations visited at each length.
pub open spec fn cell_string_len(cell: int) -> usize {
    if cell / 2 == 0 {
        8
    } else if cell / 2 == 1 {
        16
    } else if cell / 2 == 2 {
        32
    } else if cell / 2 == 3 {
        64
    } else {
        128
    }
}

/// The representation of grid cell `cell`: the owned representation comes
/// before the shared one within each string length.
pub open spec fn cell_str_type(cell: int) -> StrType {
    if cell % 2 == 0 {
        StrType::OwnedString
    } else {
        StrType::ArcStr
    }
}

/// The trial-averaged time for a cell: the summed trial durations divided by
/// the number of trials.
pub open spec fn mean_nanos(total_nanos: u64, num_trials: usize) -> u64
    recommends
        num_trials >= 1,
{
    (total_nanos as nat / num_trials as nat) as u64
}

/// The report row a sweep emits for grid cell `cell`, given the summed
/// duration of its trials.
pub open spec fn cell_row(
    task_ct: usize,
    num_trials: usize,
    clone_ct: usize,
    cell: int,
    total_nanos: u64,
) -> ReportRow {
    ReportRow {
        task_ct: task_ct,
        num_trials: num_trials,
        clone_ct: clone_ct,
        str_len: cell_string_len(cell),
        str_type: cell_str_type(cell),
        mean_time_nanos: mean_nanos(total_nanos, num_trials),
    }
}

/// The full sequence of rows a completed sweep emits, given the summed trial
/// durations of all ten cells in grid order.
pub open spec fn sweep_rows(
    task_ct: usize,
    num_trials: usize,
    clone_ct: usize,
    totals: Seq<u64>,
) -> Seq<ReportRow>
    recommends
        totals.len() == grid_len(),
{
    Seq::new(grid_len() as nat, |cell: int| cell_row(task_ct, num_trials, clone_ct, cell, totals[cell]))
}

/// Law: a completed sweep emits exactly one row per grid cell — ten rows —
/// in the fixed deterministic order: string lengths ascend through the grid
/// and the owned representation precedes the shared one at each length. Every
/// row carries the sweep's own task, trial and clone counts, and its mean
/// time is positive whenever each cell's trials took at least one nanosecond
/// per trial in total.
pub proof fn lemma_sweep_shape(
    task_ct: usize,
    num_trials: usize,
    clone_ct: usize,
    totals: Seq<u64>,
)
    requires
        num_trials >= 1,
        totals.len() == grid_len(),
        forall|cell: int| 0 <= cell < grid_len() ==> #[trigger] totals[cell] >= num_trials,
    ensures
        sweep_rows(task_ct, num_trials, clone_ct, totals).len() == 10,
        forall|cell: int|
            0 <= cell < grid_len() ==> {
                let row = #[trigger] sweep_rows(task_ct, num_trials, clone_ct, totals)[cell];
                row.task_ct == task_ct && row.num_trials == num_trials && row.clone_ct == clone_ct
                    && row.str_len == cell_string_len(cell) && row.str_type == cell_str_type(cell)
                    && row.mean_time_nanos > 0
            },
        forall|cell: int|
            0 <= cell < grid_len() - 1 ==> #[trigger] cell_string_len(cell) <= cell_string_len(
                cell + 1,
            ),
        forall|cell: int|
            0 <= cell < grid_len() ==> (#[trigger] cell_str_type(cell) == StrType::OwnedString
                <==> cell % 2 == 0),
{
    assert forall|cell: int| 0 <= cell < grid_len() implies {
        let row = #[trigger] sweep_rows(task_ct, num_trials, clone_ct, totals)[cell];
        row.task_ct == task_ct && row.num_trials == num_trials && row.clone_ct == clone_ct
            && row.str_len == cell_string_len(cell) && row.str_type == cell_str_type(cell)
            && row.mean_time_nanos > 0
    } by {
        assert(totals[cell] >= num_trials);
        assert(totals[cell] as nat / num_trials as nat >= 1) by (nonlinear_arith)
            requires
                totals[cell] >= num_trials,
                num_trials >= 1,
        ;
    }
}

/// Law: two sweeps that differ only in their trial count produce the same
/// number of rows, and each pair of rows at the same position agrees on
/// every configuration column — task count, clone count, string length and
/// representation; only the trial count itself and the averaged time may
/// differ.
pub proof fn lemma_sweep_shape_trial_independent(
    task_ct: usize,
    clone_ct: usize,
    trials_a: usize,
    trials_b: usize,
    totals_a: Seq<u64>,
    totals_b: Seq<u64>,
)
    requires
        trials_a >= 1,
        trials_b >= 1,
        totals_a.len() == grid_len(),
        totals_b.len() == grid_len(),
    ensures
        sweep_rows(task_ct, trials_a, clone_ct, totals_a).len() == sweep_rows(
            task_ct,
            trials_b,
            clone_ct,
            totals_b,
        ).len(),
        forall|cell: int|
            0 <= cell < grid_len() ==> {
                let row_a = #[trigger] sweep_rows(task_ct, trials_a, clone_ct, totals_a)[cell];
                let row_b = #[trigger] sweep_rows(task_ct, trials_b, clone_ct, totals_b)[cell];
                row_a.task_ct == row_b.task_ct && row_a.clone_ct == row_b.clone_ct
                    && row_a.str_len == row_b.str_len && row_a.str_type == row_b.str_type
            },
{
}

/// Looks up the string length of a grid cell.
fn cell_len_at(cell: usize) -> (r: usize)
    requires
        cell < grid_len(),
    ensures
        r == cell_string_len(cell as int),
{
    let idx = cell / 2;
    if idx == 0 {
        8
    } else if idx == 1 {
        16
    } else if idx == 2 {
        32
    } else if idx == 3 {
        64
    } else {
        128
    }
}

/// Looks up the representation of a grid cell.
fn cell_type_at(cell: usize) -> (r: StrType)
    requires
        cell < grid_len(),
    ensures
        r == cell_str_type(cell as int),
{
    if cell % 2 == 0 {
        StrType::OwnedString
    } else {
        StrType::ArcStr
    }
}

/// Drives the fixed grid one cell at a time: hand out the next cell's
/// configuration, run the trials elsewhere, then fold their summed duration
/// into that cell's report row. Cells advance in the fixed deterministic
/// grid order and each is visited exactly once.
pub struct Sweep {
    /// How many concurrent workload instances each trial spawns.
    pub task_ct: usize,
    /// How many trials are averaged per cell; at least one.
    pub num_trials: usize,
    /// How many times each workload clones its string.
    pub clone_ct: usize,
    /// The next grid cell to run; the sweep is complete once it reaches the
    /// grid length.
    pub next_cell: usize,
}

impl Sweep {
    /// A sweep averages over at least one trial and never runs past the end
    /// of the grid.
    pub open spec fn wf(&self) -> bool {
        self.num_trials >= 1 && self.next_cell <= grid_len()
    }

    /// All ten cells have been run and their rows emitted.
    pub open spec fn complete(&self) -> bool {
        self.next_cell == grid_len()
    }

    /// Starts a sweep at the first grid cell.
    pub fn new(task_ct: usize, num_trials: usize, clone_ct: usize) -> (s: Sweep)
        requires
            num_trials >= 1,
        ensures
            s.wf(),
            s.task_ct == task_ct,
            s.num_trials == num_trials,
            s.clone_ct == clone_ct,
            s.next_cell == 0,
    {
        Sweep { task_ct, num_trials, clone_ct, next_cell: 0 }
    }

    /// Whether every cell has been run.
    pub fn is_complete(&self) -> (r: bool)
        ensures
            r == self.complete(),
    {
        self.next_cell == 10
    }

    /// The configuration of the next cell to run, or nothing once the sweep
    /// is complete.
    pub fn next_config(&self) -> (c: Option<Configuration>)
        requires
            self.wf(),
        ensures
            self.complete() ==> c is None,
            !self.complete() ==> c == Some(
                (Configuration {
                    task_ct: self.task_ct,
                    clone_ct: self.clone_ct,
                    string_len: cell_string_len(self.next_cell as int),
                    str_type: cell_str_type(self.next_cell as int),
                }),
            ),
    {
        if self.next_cell >= 10 {
            None
        } else {
            Some(
                Configuration {
                    task_ct: self.task_ct,
                    clone_ct: self.clone_ct,
                    string_len: cell_len_at(self.next_cell),
                    str_type: cell_type_at(self.next_cell),
                },
            )
        }
    }

    /// Folds the summed duration of the current cell's trials into that
    /// cell's report row — the mean over the trial count — and advances to
    /// the next cell. No other part of the sweep changes, so rows come out
    /// in the fixed grid order, one per cell.
    pub fn record_cell(&mut self, total_nanos: u64) -> (row: ReportRow)
        requires
            old(self).wf(),
            !old(self).complete(),
        ensures
            final(self).wf(),
            final(self).task_ct == old(self).task_ct,
            final(self).num_trials == old(self).num_trials,
            final(self).clone_ct == old(self).clone_ct,
            final(self).next_cell == old(self).next_cell + 1,
            row == cell_row(
                old(self).task_ct,
                old(self).num_trials,
                old(self).clone_ct,
                old(self).next_cell as int,
                total_nanos,
            ),
    {
        let mean: u64 = total_nanos / (self.num_trials as u64);
        let row = ReportRow {
            task_ct: self.task_ct,
            num_trials: self.num_trials,
            clone_ct: self.clone_ct,
            str_len: cell_len_at(self.next_cell),
            str_type: cell_type_at(self.next_cell),
            mean_time_nanos: mean,
        };
        self.next_cell = self.next_cell + 1;
        row
    }
}

} // verus!
