//! One installation run, from the download to the cleanup, with the way
//! back when it fails.
//!
//! The run is a state machine. It tells its caller what to do next with an
//! [`InstallCommand`]; the caller does it and tells the run how it went.
//! The stages follow one another:
//!
//! `Init → Downloading → Extracting → BackingUp → Swapping → Restoring →
//! Finalizing → Completed`
//!
//! A cancellation ends the run in `Cancelled`; it can come from the
//! download and the extraction only. Any other failure before the swap ends
//! it in `Failed`: the live installation has not been touched, so the
//! downloaded archive and the staging directory are deleted and that is
//! all. A failure of the swap or after it fails the run for good too, but
//! first the rollback puts the old installation back: the run goes on to
//! `RollingBack` and ends in `RolledBack`.

use vstd::prelude::*;

use crate::pob::error::PobError;
use crate::pob::google_drive::GoogleDriveFileInfo;
use crate::pob::manager::InstallContext;
use crate::pob::progress::{InstallPhase, InstallStatus};
use crate::pob::steps::{best_effort, plan_view, push_step, FsOpView, Step, StepView};

verus! {

/// Where an installation run stands.
#[derive(Debug, Clone, Copy, PartialEq, Eq, Structural)]
pub enum InstallStage {
    Init,
    Downloading,
    Extracting,
    BackingUp,
    Swapping,
    Restoring,
    Finalizing,
    Completed,
    Cancelled,
    Failed,
    RollingBack,
    RolledBack,
}

impl InstallStage {
    /// Whether the run is over.
    pub open spec fn is_terminal(self) -> bool {
        self is Completed || self is Cancelled || self is Failed || self is RolledBack
    }

    /// Whether a cancellation is heeded in this stage.
    pub open spec fn is_cancellable(self) -> bool {
        self is Downloading || self is Extracting
    }

    /// Whether the live installation may have been touched: a failure in
    /// such a stage calls for the rollback.
    pub open spec fn needs_rollback(self) -> bool {
        self is Swapping || self is Restoring || self is Finalizing
    }

    /// Whether the backup lies behind a run in this stage.
    pub open spec fn after_backup(self) -> bool {
        self.needs_rollback() || self is Completed || self is RollingBack || self is RolledBack
    }

    /// Whether the download lies behind a run in this stage, and has
    /// succeeded.
    pub open spec fn after_download(self) -> bool {
        self is Extracting || self is BackingUp || self.after_backup()
    }

    /// Whether a cancellation is heeded in this stage.
    pub fn cancellable(&self) -> (b: bool)
        ensures
            b == self.is_cancellable(),
    {
        match self {
            InstallStage::Downloading | InstallStage::Extracting => true,
            _ => false,
        }
    }

    /// Whether the run is over.
    pub fn terminal(&self) -> (b: bool)
        ensures
            b == self.is_terminal(),
    {
        match self {
            InstallStage::Completed
            | InstallStage::Cancelled
            | InstallStage::Failed
            | InstallStage::RolledBack => true,
            _ => false,
        }
    }
}

/// What the caller of a run is to do next.
#[derive(Debug)]
pub enum InstallCommand {
    /// Download the file into `part`; when it is complete, rename `part`
    /// to `archive`.
    Download { file_id: String, part: String, archive: String },
    /// Unpack `archive` into the staging directory `dest`.
    Extract { archive: String, dest: String },
    /// Back up the user's files.
    Backup,
    /// Swap the staged installation into place.
    Swap,
    /// Copy the user's files back.
    Restore,
    /// Read the version from the name of the file and write the record of
    /// the installed version.
    SaveVersion { file_info: GoogleDriveFileInfo },
    /// Clear away what the run has left behind. How that goes does not
    /// matter to the run.
    Cleanup,
    /// Put the old installation back. How that goes does not matter to the
    /// run.
    Rollback,
    /// The run is over. Perform `discard`, send `report` if there is one,
    /// and hand `result` to whoever asked for the installation.
    Finish { discard: Vec<Step>, report: Option<(InstallPhase, InstallStatus)>, result: Result<(), PobError> },
}

/// One installation run.
#[derive(Debug)]
pub struct InstallRun {
    pub stage: InstallStage,
    pub ctx: InstallContext,
    /// The remote file that is installed.
    pub file_info: GoogleDriveFileInfo,
    /// Where the download is written while it is under way.
    pub part_path: String,
    /// The name that the complete download gets.
    pub archive_path: String,
    /// Whether the record of the installed version has been written.
    pub version_saved: bool,
    /// What failed the run.
    pub error: Option<PobError>,
}

/// The stage that follows `stage` when what was commanded went as `outcome`
/// says.
pub open spec fn next_stage(stage: InstallStage, version_saved: bool, outcome: Result<(), PobError>) -> InstallStage {
    match stage {
        InstallStage::Init => InstallStage::Downloading,
        InstallStage::Downloading => match outcome {
            Ok(_) => InstallStage::Extracting,
            Err(PobError::Cancelled) => InstallStage::Cancelled,
            Err(_) => InstallStage::Failed,
        },
        InstallStage::Extracting => match outcome {
            Ok(_) => InstallStage::BackingUp,
            Err(PobError::Cancelled) => InstallStage::Cancelled,
            Err(_) => InstallStage::Failed,
        },
        InstallStage::BackingUp => match outcome {
            Ok(_) => InstallStage::Swapping,
            Err(_) => InstallStage::Failed,
        },
        InstallStage::Swapping => match outcome {
            Ok(_) => InstallStage::Restoring,
            Err(_) => InstallStage::RollingBack,
        },
        InstallStage::Restoring => match outcome {
            Ok(_) => InstallStage::Finalizing,
            Err(_) => InstallStage::RollingBack,
        },
        InstallStage::Finalizing => if version_saved {
            InstallStage::Completed
        } else {
            match outcome {
                Ok(_) => InstallStage::Finalizing,
                Err(_) => InstallStage::RollingBack,
            }
        },
        InstallStage::RollingBack => InstallStage::RolledBack,
        other => other,
    }
}

/// The artifacts of a run that has not touched the live installation, to
/// be deleted as well as can be: the archive and the staging directory.
pub open spec fn discard_plan(archive: Seq<char>, staging: Seq<char>) -> Seq<StepView> {
    seq![
        best_effort(FsOpView::RemoveFile { path: archive }),
        best_effort(FsOpView::RemoveDirAll { path: staging }),
    ]
}

impl InstallRun {
    /// The staging directory as a sequence of characters.
    pub open spec fn staging(self) -> Seq<char> {
        self.ctx.extract_dir->0@
    }

    /// The flags of the context say no more than has been done: the backup
    /// is marked complete exactly from the swap on, the swap only after it
    /// has succeeded; and a run has failed exactly where it keeps an error.
    pub open spec fn wf(self) -> bool {
        &&& self.ctx.extract_dir is Some
        &&& self.ctx.backed_up <==> self.stage.after_backup()
        &&& self.ctx.swapped ==> self.ctx.backed_up && !(self.stage is Swapping)
        &&& self.stage is Restoring || self.stage is Finalizing || self.stage is Completed
            ==> self.ctx.swapped
        &&& self.error is Some <==> self.stage is Cancelled || self.stage is Failed
            || self.stage is RollingBack || self.stage is RolledBack
        &&& self.stage is Cancelled ==> self.error == Some(PobError::Cancelled)
        &&& self.version_saved ==> self.stage is Finalizing || self.stage is Completed
        &&& self.stage.after_download() ==> (self.ctx.temp_zip_path matches Some(p) && p@
            == self.archive_path@)
        &&& self.ctx.temp_zip_path is Some ==> self.stage.after_download() || self.stage is Failed
            || self.stage is Cancelled
    }

    /// Whether `command` is what follows in state `self` when what was
    /// commanded before went as `outcome` says.
    pub open spec fn commands(self, outcome: Result<(), PobError>, command: InstallCommand) -> bool {
        match self.stage {
            InstallStage::Init => command matches InstallCommand::Download { file_id, part, archive }
                && file_id@ == self.file_info.id@ && part@ == self.part_path@ && archive@
                == self.archive_path@,
            InstallStage::Downloading => match outcome {
                Ok(_) => command matches InstallCommand::Extract { archive, dest } && archive@
                    == self.archive_path@ && dest@ == self.staging(),
                Err(e) => command matches InstallCommand::Finish { discard, report, result }
                    && plan_view(discard@) == seq![
                    best_effort(FsOpView::RemoveFile { path: self.part_path@ }),
                ] && report is None && result == Err::<(), PobError>(e),
            },
            InstallStage::Extracting => match outcome {
                Ok(_) => command is Backup,
                Err(e) => command matches InstallCommand::Finish { discard, report, result }
                    && plan_view(discard@) == discard_plan(self.archive_path@, self.staging())
                    && report is None && result == Err::<(), PobError>(e),
            },
            InstallStage::BackingUp => match outcome {
                Ok(_) => command is Swap,
                Err(e) => command matches InstallCommand::Finish { discard, report, result }
                    && plan_view(discard@) == discard_plan(self.archive_path@, self.staging())
                    && report is None && result == Err::<(), PobError>(e),
            },
            InstallStage::Swapping => match outcome {
                Ok(_) => command is Restore,
                Err(_) => command is Rollback,
            },
            InstallStage::Restoring => match outcome {
                Ok(_) => command matches InstallCommand::SaveVersion { file_info } && file_info
                    == self.file_info,
                Err(_) => command is Rollback,
            },
            InstallStage::Finalizing => if self.version_saved {
                command matches InstallCommand::Finish { discard, report, result } && discard@.len()
                    == 0 && report == Some((InstallPhase::Finalizing, InstallStatus::Completed))
                    && result is Ok
            } else {
                match outcome {
                    Ok(_) => command is Cleanup,
                    Err(_) => command is Rollback,
                }
            },
            InstallStage::Completed => command matches InstallCommand::Finish {
                discard,
                report,
                result,
            } && discard@.len() == 0 && report is None && result is Ok,
            InstallStage::Cancelled
            | InstallStage::Failed
            | InstallStage::RollingBack
            | InstallStage::RolledBack => command matches InstallCommand::Finish {
                discard,
                report,
                result,
            } && discard@.len() == 0 && report is None && self.error is Some && result
                == Err::<(), PobError>(self.error->0),
        }
    }

    /// The error that the run keeps after `outcome`: the first failure.
    pub open spec fn error_after(self, outcome: Result<(), PobError>) -> Option<PobError> {
        if self.error is Some || self.stage is Init || self.stage is Completed || (
        self.stage is Finalizing && self.version_saved) {
            self.error
        } else {
            match outcome {
                Ok(_) => None,
                Err(e) => Some(e),
            }
        }
    }

    /// A run that has not begun.
    pub fn new(
        file_info: GoogleDriveFileInfo,
        install_path: String,
        extract_dir: String,
        part_path: String,
        archive_path: String,
    ) -> (run: Self)
        ensures
            run.wf(),
            run.stage is Init,
            run.file_info == file_info,
            run.part_path == part_path,
            run.archive_path == archive_path,
            run.ctx.install_path == install_path,
            run.ctx.extract_dir == Some(extract_dir),
            run.ctx.temp_zip_path is None,
            !run.ctx.backed_up,
            !run.ctx.swapped,
            !run.version_saved,
            run.error is None,
    {
        InstallRun {
            stage: InstallStage::Init,
            ctx: InstallContext {
                temp_zip_path: None,
                extract_dir: Some(extract_dir),
                install_path,
                backed_up: false,
                swapped: false,
            },
            file_info,
            part_path,
            archive_path,
            version_saved: false,
            error: None,
        }
    }

    /// What is deleted when a run fails before the swap.
    fn discard_artifacts(&self) -> (plan: Vec<Step>)
        requires
            self.ctx.extract_dir is Some,
        ensures
            plan_view(plan@) == discard_plan(self.archive_path@, self.staging()),
    {
        let mut plan: Vec<Step> = Vec::new();
        push_step(&mut plan, Step::remove_file(self.archive_path.as_str(), true));
        match &self.ctx.extract_dir {
            Some(dir) => {
                push_step(&mut plan, Step::remove_dir_all(dir.as_str(), true));
            },
            None => {},
        }
        plan
    }

    /// The end of a run that has failed with `e` before the swap.
    fn fail(&mut self, e: PobError, discard: Vec<Step>, cancellable: bool) -> (command:
        InstallCommand)
        ensures
            final(self).stage == if cancellable && e is Cancelled {
                InstallStage::Cancelled
            } else {
                InstallStage::Failed
            },
            final(self).error == Some(e),
            final(self).ctx == old(self).ctx,
            final(self).file_info == old(self).file_info,
            final(self).part_path == old(self).part_path,
            final(self).archive_path == old(self).archive_path,
            final(self).version_saved == old(self).version_saved,
            command == (InstallCommand::Finish { discard, report: None, result: Err(e) }),
    {
        let cancelled = match &e {
            PobError::Cancelled => cancellable,
            _ => false,
        };
        self.stage = if cancelled {
            InstallStage::Cancelled
        } else {
            InstallStage::Failed
        };
        self.error = Some(e.clone());
        InstallCommand::Finish { discard, report: None, result: Err(e) }
    }

    /// Takes note of how the last command went and says what comes next.
    /// The first call, on a run in `Init`, brings the first command; what
    /// it is told does not count. On a run that is over, every call
    /// repeats the result.
    pub fn advance(&mut self, outcome: Result<(), PobError>) -> (command: InstallCommand)
        requires
            old(self).wf(),
        ensures
            final(self).wf(),
            final(self).stage == next_stage(old(self).stage, old(self).version_saved, outcome),
            old(self).commands(outcome, command),
            final(self).error == old(self).error_after(outcome),
            final(self).file_info == old(self).file_info,
            final(self).part_path == old(self).part_path,
            final(self).archive_path == old(self).archive_path,
            final(self).ctx.install_path == old(self).ctx.install_path,
            final(self).ctx.extract_dir == old(self).ctx.extract_dir,
            final(self).ctx.backed_up == (old(self).ctx.backed_up || (old(self).stage is BackingUp
                && outcome is Ok)),
            final(self).ctx.swapped == (old(self).ctx.swapped || (old(self).stage is Swapping
                && outcome is Ok)),
            final(self).version_saved == (old(self).version_saved || (old(self).stage
                is Finalizing && outcome is Ok)),
            old(self).stage is Downloading && outcome is Ok ==> (final(self).ctx.temp_zip_path
                matches Some(p) && p@ == old(self).archive_path@),
            !(old(self).stage is Downloading && outcome is Ok) ==> final(self).ctx.temp_zip_path
                == old(self).ctx.temp_zip_path,
    {
        match self.stage {
            InstallStage::Init => {
                self.stage = InstallStage::Downloading;
                InstallCommand::Download {
                    file_id: self.file_info.id.clone(),
                    part: self.part_path.clone(),
                    archive: self.archive_path.clone(),
                }
            },
            InstallStage::Downloading => match outcome {
                Ok(_) => {
                    self.stage = InstallStage::Extracting;
                    self.ctx.temp_zip_path = Some(self.archive_path.clone());
                    let dest = match &self.ctx.extract_dir {
                        Some(dir) => dir.clone(),
                        None => String::new(),
                    };
                    InstallCommand::Extract { archive: self.archive_path.clone(), dest }
                },
                Err(e) => {
                    let mut discard: Vec<Step> = Vec::new();
                    assert(plan_view(discard@) =~= Seq::empty());
                    push_step(&mut discard, Step::remove_file(self.part_path.as_str(), true));
                    self.fail(e, discard, true)
                },
            },
            InstallStage::Extracting => match outcome {
                Ok(_) => {
                    self.stage = InstallStage::BackingUp;
                    InstallCommand::Backup
                },
                Err(e) => {
                    let discard = self.discard_artifacts();
                    self.fail(e, discard, true)
                },
            },
            InstallStage::BackingUp => match outcome {
                Ok(_) => {
                    self.stage = InstallStage::Swapping;
                    self.ctx.backed_up = true;
                    InstallCommand::Swap
                },
                Err(e) => {
                    let discard = self.discard_artifacts();
                    self.fail(e, discard, false)
                },
            },
            InstallStage::Swapping => match outcome {
                Ok(_) => {
                    self.stage = InstallStage::Restoring;
                    self.ctx.swapped = true;
                    InstallCommand::Restore
                },
                Err(e) => {
                    self.stage = InstallStage::RollingBack;
                    self.error = Some(e);
                    InstallCommand::Rollback
                },
            },
            InstallStage::Restoring => match outcome {
                Ok(_) => {
                    self.stage = InstallStage::Finalizing;
                    InstallCommand::SaveVersion { file_info: self.file_info.clone() }
                },
                Err(e) => {
                    self.stage = InstallStage::RollingBack;
                    self.error = Some(e);
                    InstallCommand::Rollback
                },
            },
            InstallStage::Finalizing => {
                if self.version_saved {
                    self.stage = InstallStage::Completed;
                    InstallCommand::Finish {
                        discard: Vec::new(),
                        report: Some((InstallPhase::Finalizing, InstallStatus::Completed)),
                        result: Ok(()),
                    }
                } else {
                    match outcome {
                        Ok(_) => {
                            self.version_saved = true;
                            InstallCommand::Cleanup
                        },
                        Err(e) => {
                            self.stage = InstallStage::RollingBack;
                            self.error = Some(e);
                            InstallCommand::Rollback
                        },
                    }
                }
            },
            InstallStage::Completed => InstallCommand::Finish {
                discard: Vec::new(),
                report: None,
                result: Ok(()),
            },
            InstallStage::RollingBack => {
                self.stage = InstallStage::RolledBack;
                self.finished_with_error()
            },
            InstallStage::Cancelled | InstallStage::Failed | InstallStage::RolledBack => {
                self.finished_with_error()
            },
        }
    }

    /// The answer of a run that has failed.
    fn finished_with_error(&self) -> (command: InstallCommand)
        requires
            self.error is Some,
        ensures
            command matches InstallCommand::Finish { discard, report, result } && discard@.len()
                == 0 && report is None && result == Err::<(), PobError>(self.error->0),
    {
        match &self.error {
            Some(e) => InstallCommand::Finish {
                discard: Vec::new(),
                report: None,
                result: Err(e.clone()),
            },
            None => InstallCommand::Finish { discard: Vec::new(), report: None, result: Ok(()) },
        }
    }
}

/// Only the download and the extraction can be cancelled. A run ends in
/// `Cancelled` only out of one of these two stages, and only when that
/// stage ended as cancelled; once the swap has begun, a cancellation that
/// is reported all the same is a failure like any other and leads to the
/// rollback.
pub proof fn lemma_cancellation_has_no_effect_after_swap(
    stage: InstallStage,
    version_saved: bool,
    outcome: Result<(), PobError>,
)
    ensures
        next_stage(stage, version_saved, outcome) is Cancelled && !(stage is Cancelled) ==> (
        stage.is_cancellable() && outcome == Err::<(), PobError>(PobError::Cancelled)),
        stage.needs_rollback() && outcome is Err && !(stage is Finalizing && version_saved)
            ==> next_stage(stage, version_saved, outcome) is RollingBack,
{
}

/// The rollback is called for by a failure of the swap or after it, and by
/// nothing else.
pub proof fn lemma_rollback_only_after_swap_began(
    stage: InstallStage,
    version_saved: bool,
    outcome: Result<(), PobError>,
)
    ensures
        next_stage(stage, version_saved, outcome) is RollingBack ==> stage.needs_rollback()
            && outcome is Err,
        next_stage(stage, version_saved, outcome) is RolledBack ==> stage is RollingBack || stage
            is RolledBack,
{
}

/// The stage of a run that stood in `stage` and was then told `outcomes`,
/// one after the other, and whether it has written the record of the
/// version.
pub open spec fn stage_after(
    stage: InstallStage,
    version_saved: bool,
    outcomes: Seq<Result<(), PobError>>,
) -> (InstallStage, bool)
    decreases outcomes.len(),
{
    if outcomes.len() == 0 {
        (stage, version_saved)
    } else {
        stage_after(
            next_stage(stage, version_saved, outcomes[0]),
            version_saved || (stage is Finalizing && outcomes[0] is Ok),
            outcomes.drop_first(),
        )
    }
}

/// The swap is the point of no return. A run that has begun it stays
/// behind it whatever it is told: it is never cancelled any more, it never
/// fails without the rollback, and it ends completed or rolled back.
pub proof fn lemma_no_return_once_the_swap_began(
    stage: InstallStage,
    version_saved: bool,
    outcomes: Seq<Result<(), PobError>>,
)
    requires
        stage.after_backup(),
    ensures
        stage_after(stage, version_saved, outcomes).0.after_backup(),
        stage is RollingBack || stage is RolledBack ==> {
            ||| stage_after(stage, version_saved, outcomes).0 is RollingBack
            ||| stage_after(stage, version_saved, outcomes).0 is RolledBack
        },
    decreases outcomes.len(),
{
    if outcomes.len() > 0 {
        lemma_no_return_once_the_swap_began(
            next_stage(stage, version_saved, outcomes[0]),
            version_saved || (stage is Finalizing && outcomes[0] is Ok),
            outcomes.drop_first(),
        );
    }
}

/// A run that has failed or was cancelled before the swap stays as it
/// ended, whatever it is told.
pub proof fn lemma_a_run_that_ended_stays_ended(
    stage: InstallStage,
    version_saved: bool,
    outcomes: Seq<Result<(), PobError>>,
)
    requires
        stage.is_terminal(),
    ensures
        stage_after(stage, version_saved, outcomes).0 == stage,
    decreases outcomes.len(),
{
    if outcomes.len() > 0 {
        lemma_a_run_that_ended_stays_ended(
            stage,
            version_saved || (stage is Finalizing && outcomes[0] is Ok),
            outcomes.drop_first(),
        );
    }
}

/// A run completes only if nothing fails. Of what a new run is told, the
/// first word only sets it going, and how the cleanup went does not
/// matter; if the run is completed in the end, it was told of six
/// successes in between: download, extraction, backup, swap, restore and
/// the record of the version.
pub proof fn lemma_a_run_completes_only_if_nothing_fails(outcomes: Seq<Result<(), PobError>>)
    requires
        stage_after(InstallStage::Init, false, outcomes).0 is Completed,
    ensures
        outcomes.len() >= 8,
        forall|i: int| 1 <= i <= 6 ==> (#[trigger] outcomes[i]) is Ok,
{
    reveal_with_fuel(stage_after, 2);
    lemma_stops_short_of_completed(outcomes, 1);
}

/// The stage that the first `n` successes lead a new run to.
pub open spec fn stage_on_the_way(n: int) -> InstallStage {
    if n <= 0 {
        InstallStage::Init
    } else if n == 1 {
        InstallStage::Downloading
    } else if n == 2 {
        InstallStage::Extracting
    } else if n == 3 {
        InstallStage::BackingUp
    } else if n == 4 {
        InstallStage::Swapping
    } else if n == 5 {
        InstallStage::Restoring
    } else {
        InstallStage::Finalizing
    }
}

/// A run that is completed in the end was not told of a failure on its
/// way: from each outcome on the way on, only successes lead on, and the
/// way is eight outcomes long.
proof fn lemma_stops_short_of_completed(outcomes: Seq<Result<(), PobError>>, n: int)
    requires
        1 <= n <= 7,
        outcomes.len() >= n,
        stage_after(
            stage_on_the_way(n),
            n == 7,
            outcomes.subrange(n, outcomes.len() as int),
        ).0 is Completed,
        stage_after(InstallStage::Init, false, outcomes).0 is Completed,
    ensures
        outcomes.len() >= 8,
        forall|i: int| n <= i <= 6 ==> (#[trigger] outcomes[i]) is Ok,
    decreases 8 - n,
{
    let rest = outcomes.subrange(n, outcomes.len() as int);
    let stage = stage_on_the_way(n);
    if rest.len() == 0 {
        assert(stage_after(stage, n == 7, rest).0 == stage);
    } else {
        assert(rest[0] == outcomes[n]);
        assert(rest.drop_first() =~= outcomes.subrange(n + 1, outcomes.len() as int));
        let next = next_stage(stage, n == 7, rest[0]);
        if n < 7 && rest[0] is Err {
            // The failure ends the run, or calls for the rollback.
            if next.is_terminal() {
                lemma_a_run_that_ended_stays_ended(next, false, rest.drop_first());
            } else {
                lemma_no_return_once_the_swap_began(next, false, rest.drop_first());
            }
        } else if n < 7 {
            lemma_stops_short_of_completed(outcomes, n + 1);
        }
    }
}

} // verus!
