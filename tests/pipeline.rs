use eved::pipeline::{next_stage, stage_plan, Commands, Stage, StageOutcome};

#[test]
fn full_build_plan() {
    assert_eq!(
        stage_plan(Commands::Build { no_clone: false, no_clean: false }),
        vec![
            Stage::Clone,
            Stage::BuildVehicles,
            Stage::BuildSignals,
            Stage::BuildTrajectories,
            Stage::BuildNodes,
            Stage::Clean,
        ]
    );
}

#[test]
fn skipped_clone_and_clean() {
    assert_eq!(
        stage_plan(Commands::Build { no_clone: true, no_clean: true }),
        vec![Stage::BuildVehicles, Stage::BuildSignals, Stage::BuildTrajectories, Stage::BuildNodes]
    );
    assert_eq!(stage_plan(Commands::Build { no_clone: true, no_clean: false }).len(), 5);
    assert_eq!(stage_plan(Commands::Match), vec![Stage::BuildNodes]);
    assert_eq!(stage_plan(Commands::Clean), vec![Stage::Clean]);
    assert_eq!(stage_plan(Commands::Clone), vec![Stage::Clone]);
}

#[test]
fn fatal_stage_ends_the_run() {
    assert_eq!(next_stage(6, 0, StageOutcome::Completed), Some(1));
    assert_eq!(next_stage(6, 2, StageOutcome::Fatal), None);
    assert_eq!(next_stage(6, 5, StageOutcome::Completed), None);
}
