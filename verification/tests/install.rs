use exile_rs::pob::error::PobError;
use exile_rs::pob::google_drive::GoogleDriveFileInfo;
use exile_rs::pob::install::{InstallCommand, InstallRun, InstallStage};
use exile_rs::pob::manager::PobManager;
use exile_rs::pob::progress::{InstallPhase, InstallStatus};
use exile_rs::pob::steps::{FsOp, Step};

fn new_run() -> InstallRun {
    let file = GoogleDriveFileInfo {
        id: "file-1".to_string(),
        name: "POE1&2 통합 한글 POB (2024.05.20).zip".to_string(),
        is_folder: false,
    };
    PobManager::new("/data".to_string()).install(file, "/tmp", "task")
}

/// Brings a run to `stage` along the way on which nothing fails.
fn run_at(stage: InstallStage) -> InstallRun {
    let mut run = new_run();
    while run.stage != stage {
        assert!(!run.stage.terminal());
        run.advance(Ok(()));
    }
    run
}

fn removals(plan: &[Step]) -> Vec<String> {
    plan.iter()
        .map(|step| match step {
            Step::Fs { op: FsOp::RemoveFile { path }, best_effort: true } => format!("rm {}", path),
            Step::Fs { op: FsOp::RemoveDirAll { path }, best_effort: true } => {
                format!("rmdir {}", path)
            }
            other => panic!("unexpected step {:?}", other),
        })
        .collect()
}

#[test]
fn successful_run_passes_every_stage_in_order() {
    let mut run = new_run();
    match run.advance(Ok(())) {
        InstallCommand::Download { file_id, part, archive } => {
            assert_eq!(file_id, "file-1");
            assert_eq!(part, "/tmp/task.part");
            assert_eq!(archive, "/tmp/task.zip");
        }
        other => panic!("unexpected {:?}", other),
    }
    assert_eq!(run.stage, InstallStage::Downloading);
    match run.advance(Ok(())) {
        InstallCommand::Extract { archive, dest } => {
            assert_eq!(archive, "/tmp/task.zip");
            assert_eq!(dest, "/data/PoeCharm.new");
        }
        other => panic!("unexpected {:?}", other),
    }
    assert_eq!(run.stage, InstallStage::Extracting);
    assert_eq!(run.ctx.temp_zip_path, Some("/tmp/task.zip".to_string()));
    assert!(matches!(run.advance(Ok(())), InstallCommand::Backup));
    assert_eq!(run.stage, InstallStage::BackingUp);
    assert!(!run.ctx.backed_up);
    assert!(matches!(run.advance(Ok(())), InstallCommand::Swap));
    assert_eq!(run.stage, InstallStage::Swapping);
    assert!(run.ctx.backed_up);
    assert!(!run.ctx.swapped);
    assert!(matches!(run.advance(Ok(())), InstallCommand::Restore));
    assert_eq!(run.stage, InstallStage::Restoring);
    assert!(run.ctx.swapped);
    match run.advance(Ok(())) {
        InstallCommand::SaveVersion { file_info } => assert_eq!(file_info.id, "file-1"),
        other => panic!("unexpected {:?}", other),
    }
    assert_eq!(run.stage, InstallStage::Finalizing);
    assert!(matches!(run.advance(Ok(())), InstallCommand::Cleanup));
    assert_eq!(run.stage, InstallStage::Finalizing);
    match run.advance(Ok(())) {
        InstallCommand::Finish { discard, report, result } => {
            assert!(discard.is_empty());
            assert!(matches!(
                report,
                Some((InstallPhase::Finalizing, InstallStatus::Completed))
            ));
            assert!(result.is_ok());
        }
        other => panic!("unexpected {:?}", other),
    }
    assert_eq!(run.stage, InstallStage::Completed);
    assert!(run.stage.terminal());
    // A run that is over repeats its result and reports nothing more.
    match run.advance(Err(PobError::Cancelled)) {
        InstallCommand::Finish { report, result, .. } => {
            assert!(report.is_none());
            assert!(result.is_ok());
        }
        other => panic!("unexpected {:?}", other),
    }
    assert_eq!(run.stage, InstallStage::Completed);
}

#[test]
fn failed_download_discards_the_partial_file() {
    let mut run = run_at(InstallStage::Downloading);
    match run.advance(Err(PobError::DownloadFailed("reset".to_string()))) {
        InstallCommand::Finish { discard, report, result } => {
            assert_eq!(removals(&discard), vec!["rm /tmp/task.part"]);
            assert!(report.is_none());
            assert!(matches!(result, Err(PobError::DownloadFailed(_))));
        }
        other => panic!("unexpected {:?}", other),
    }
    assert_eq!(run.stage, InstallStage::Failed);
    assert!(!run.ctx.backed_up);
    assert!(!run.ctx.swapped);
}

#[test]
fn cancelled_download_ends_the_run_as_cancelled() {
    let mut run = run_at(InstallStage::Downloading);
    assert!(run.stage.cancellable());
    match run.advance(Err(PobError::Cancelled)) {
        InstallCommand::Finish { discard, result, .. } => {
            assert_eq!(removals(&discard), vec!["rm /tmp/task.part"]);
            assert!(matches!(result, Err(PobError::Cancelled)));
        }
        other => panic!("unexpected {:?}", other),
    }
    assert_eq!(run.stage, InstallStage::Cancelled);
    match run.advance(Ok(())) {
        InstallCommand::Finish { discard, result, .. } => {
            assert!(discard.is_empty());
            assert!(matches!(result, Err(PobError::Cancelled)));
        }
        other => panic!("unexpected {:?}", other),
    }
}

#[test]
fn failed_extraction_discards_archive_and_staging_directory() {
    for (error, stage) in [
        (PobError::Cancelled, InstallStage::Cancelled),
        (PobError::Zip("bad crc".to_string()), InstallStage::Failed),
        (
            PobError::ExtractFailed("no folders".to_string()),
            InstallStage::Failed,
        ),
    ] {
        let mut run = run_at(InstallStage::Extracting);
        assert!(run.stage.cancellable());
        match run.advance(Err(error)) {
            InstallCommand::Finish { discard, .. } => assert_eq!(
                removals(&discard),
                vec!["rm /tmp/task.zip", "rmdir /data/PoeCharm.new"]
            ),
            other => panic!("unexpected {:?}", other),
        }
        assert_eq!(run.stage, stage);
    }
}

#[test]
fn failed_backup_needs_no_rollback() {
    let mut run = run_at(InstallStage::BackingUp);
    assert!(!run.stage.cancellable());
    match run.advance(Err(PobError::Io("disk full".to_string()))) {
        InstallCommand::Finish { discard, result, .. } => {
            assert_eq!(
                removals(&discard),
                vec!["rm /tmp/task.zip", "rmdir /data/PoeCharm.new"]
            );
            assert!(matches!(result, Err(PobError::Io(_))));
        }
        other => panic!("unexpected {:?}", other),
    }
    assert_eq!(run.stage, InstallStage::Failed);
    assert!(!run.ctx.backed_up);
}

#[test]
fn failure_from_the_swap_on_rolls_back() {
    for stage in [
        InstallStage::Swapping,
        InstallStage::Restoring,
        InstallStage::Finalizing,
    ] {
        let mut run = run_at(stage);
        assert!(!run.stage.cancellable());
        assert!(matches!(
            run.advance(Err(PobError::Io("denied".to_string()))),
            InstallCommand::Rollback
        ));
        assert_eq!(run.stage, InstallStage::RollingBack);
        assert!(run.ctx.backed_up);
        assert_eq!(run.ctx.swapped, stage != InstallStage::Swapping);
        // However the rollback went, the first error is what is reported.
        match run.advance(Err(PobError::Io("rollback failed too".to_string()))) {
            InstallCommand::Finish { discard, report, result } => {
                assert!(discard.is_empty());
                assert!(report.is_none());
                match result {
                    Err(PobError::Io(text)) => assert_eq!(text, "denied"),
                    other => panic!("unexpected {:?}", other),
                }
            }
            other => panic!("unexpected {:?}", other),
        }
        assert_eq!(run.stage, InstallStage::RolledBack);
        assert!(run.stage.terminal());
    }
}

#[test]
fn cancellation_after_the_swap_began_is_a_failure_like_any_other() {
    let mut run = run_at(InstallStage::Swapping);
    assert!(matches!(
        run.advance(Err(PobError::Cancelled)),
        InstallCommand::Rollback
    ));
    assert_eq!(run.stage, InstallStage::RollingBack);
    run.advance(Ok(()));
    assert_eq!(run.stage, InstallStage::RolledBack);
}

#[test]
fn version_that_cannot_be_saved_rolls_back() {
    let mut run = run_at(InstallStage::Finalizing);
    assert!(matches!(
        run.advance(Err(PobError::VersionParseError("x.zip".to_string()))),
        InstallCommand::Rollback
    ));
    assert_eq!(run.stage, InstallStage::RollingBack);
}

#[test]
fn failed_cleanup_does_not_fail_the_run() {
    let mut run = run_at(InstallStage::Finalizing);
    assert!(matches!(run.advance(Ok(())), InstallCommand::Cleanup));
    match run.advance(Err(PobError::Io("busy".to_string()))) {
        InstallCommand::Finish { result, .. } => assert!(result.is_ok()),
        other => panic!("unexpected {:?}", other),
    }
    assert_eq!(run.stage, InstallStage::Completed);
}

#[test]
fn a_run_completes_only_if_nothing_fails() {
    // Eight words bring a new run to its end; the first only sets it going, the last
    // tells of the cleanup.
    for failing in 1..=6 {
        let mut run = new_run();
        for word in 0..12 {
            let outcome = if word == failing {
                Err(PobError::Io("failed".to_string()))
            } else {
                Ok(())
            };
            run.advance(outcome);
        }
        assert!(run.stage.terminal());
        assert_ne!(run.stage, InstallStage::Completed, "failure at {}", failing);
        let expected = if failing <= 3 {
            InstallStage::Failed
        } else {
            InstallStage::RolledBack
        };
        assert_eq!(run.stage, expected, "failure at {}", failing);
    }
    let mut run = new_run();
    for word in 0..8 {
        assert!(!run.stage.terminal());
        let outcome = if word == 0 || word == 7 {
            Err(PobError::Io("does not count".to_string()))
        } else {
            Ok(())
        };
        run.advance(outcome);
    }
    assert_eq!(run.stage, InstallStage::Completed);
}

#[test]
fn a_run_behind_the_swap_is_never_cancelled() {
    for stage in [
        InstallStage::Swapping,
        InstallStage::Restoring,
        InstallStage::Finalizing,
    ] {
        let mut run = run_at(stage);
        for _ in 0..5 {
            run.advance(Err(PobError::Cancelled));
            assert_ne!(run.stage, InstallStage::Cancelled);
            assert_ne!(run.stage, InstallStage::Failed);
        }
        assert_eq!(run.stage, InstallStage::RolledBack);
    }
}
