//! The build pipeline: which stages a command runs, in which order, and when
//! a run stops.
use vstd::prelude::*;

verus! {

/// The command-line entry: global options and the command to run.
pub struct Cli {
    /// Folder that holds the cloned source repositories.
    pub repo_path: String,
    /// File of the SQLite database.
    pub db_path: String,
    pub verbose: bool,
    pub command: Commands,
}

/// The commands of the command line.
#[derive(Clone, Copy, Debug, PartialEq, Eq, Structural)]
pub enum Commands {
    /// Builds the database; cloning first and cleaning last unless skipped.
    Build { no_clone: bool, no_clean: bool },
    /// Map-matches the stored trajectories again.
    Match,
    /// Removes the repositories folder.
    Clean,
    /// Clones the source repositories.
    Clone,
}

/// A stage of the pipeline.
#[derive(Clone, Copy, Debug, PartialEq, Eq, Structural)]
pub enum Stage {
    Clone,
    BuildVehicles,
    BuildSignals,
    BuildTrajectories,
    BuildNodes,
    Clean,
}

/// The position of a stage in the pipeline's fixed order.
pub open spec fn rank(s: Stage) -> int {
    match s {
        Stage::Clone => 0,
        Stage::BuildVehicles => 1,
        Stage::BuildSignals => 2,
        Stage::BuildTrajectories => 3,
        Stage::BuildNodes => 4,
        Stage::Clean => 5,
    }
}

/// The stages that a command runs, in order.
pub open spec fn stages_of(c: Commands) -> Seq<Stage> {
    match c {
        Commands::Build { no_clone, no_clean } => (if no_clone {
            Seq::empty()
        } else {
            seq![Stage::Clone]
        }) + seq![Stage::BuildVehicles, Stage::BuildSignals, Stage::BuildTrajectories, Stage::BuildNodes]
            + (if no_clean {
            Seq::empty()
        } else {
            seq![Stage::Clean]
        }),
        Commands::Match => seq![Stage::BuildNodes],
        Commands::Clean => seq![Stage::Clean],
        Commands::Clone => seq![Stage::Clone],
    }
}

/// The stages that `command` runs, in order.
pub fn stage_plan(command: Commands) -> (r: Vec<Stage>)
    ensures
        r@ == stages_of(command),
{
    let mut plan: Vec<Stage> = Vec::new();
    match command {
        Commands::Build { no_clone, no_clean } => {
            if !no_clone {
                plan.push(Stage::Clone);
            }
            plan.push(Stage::BuildVehicles);
            plan.push(Stage::BuildSignals);
            plan.push(Stage::BuildTrajectories);
            plan.push(Stage::BuildNodes);
            if !no_clean {
                plan.push(Stage::Clean);
            }
        },
        Commands::Match => plan.push(Stage::BuildNodes),
        Commands::Clean => plan.push(Stage::Clean),
        Commands::Clone => plan.push(Stage::Clone),
    }
    assert(plan@ =~= stages_of(command));
    plan
}

/// Every command runs its stages strictly in the pipeline's order, each at
/// most once, and a build runs every stage that builds a table.
pub proof fn lemma_stages_in_order(c: Commands)
    ensures
        forall|i: int, j: int|
            0 <= i < j < stages_of(c).len() ==> rank(#[trigger] stages_of(c)[i]) < rank(
                #[trigger] stages_of(c)[j],
            ),
        c is Build ==> stages_of(c).contains(Stage::BuildVehicles) && stages_of(c).contains(
            Stage::BuildSignals,
        ) && stages_of(c).contains(Stage::BuildTrajectories) && stages_of(c).contains(
            Stage::BuildNodes,
        ),
{
    let s = stages_of(c);
    if let Commands::Build { no_clone, no_clean } = c {
        let k: int = if no_clone { 0 } else { 1 };
        assert(s[k] == Stage::BuildVehicles);
        assert(s[k + 1] == Stage::BuildSignals);
        assert(s[k + 2] == Stage::BuildTrajectories);
        assert(s[k + 3] == Stage::BuildNodes);
        assert forall|i: int| 0 <= i < s.len() implies rank(#[trigger] s[i]) == i + 1 - k by {}
    }
}

/// How a stage ended.
#[derive(Clone, Copy, Debug, PartialEq, Eq, Structural)]
pub enum StageOutcome {
    /// The stage finished; item-level failures, if any, were recorded.
    Completed,
    /// A fatal failure (schema creation, store connection, missing source).
    Fatal,
}

/// The index of the stage to run after the stage at `index` of a plan of
/// `len` stages ended with `outcome`; `None` once the run is over: after the
/// last stage, or at once after a fatal failure.
pub fn next_stage(len: usize, index: usize, outcome: StageOutcome) -> (r: Option<usize>)
    requires
        index < len,
    ensures
        outcome == StageOutcome::Fatal ==> r is None,
        outcome == StageOutcome::Completed && index + 1 < len ==> r == Some((index + 1) as usize),
        outcome == StageOutcome::Completed && index + 1 == len ==> r is None,
{
    match outcome {
        StageOutcome::Fatal => None,
        StageOutcome::Completed => if index + 1 < len {
            Some(index + 1)
        } else {
            None
        },
    }
}

} // verus!
