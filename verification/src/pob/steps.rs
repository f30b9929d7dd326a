//! What a stage asks of its caller: reports to send and filesystem
//! operations to perform, in order.
//!
//! A stage that changes the disk is planned from what was found there. The
//! plan is a list of [`Step`]s. The caller performs them one by one. A step
//! that fails ends the plan with an I/O error, unless it is marked
//! `best_effort`: then the failure is logged and the plan goes on.

use vstd::prelude::*;
use vstd::string::StringExecFns;

use crate::pob::progress::{InstallPhase, InstallStatus};

verus! {

/// One operation on the filesystem.
#[derive(Debug)]
pub enum FsOp {
    /// Delete a file.
    RemoveFile { path: String },
    /// Delete a directory with all that is in it.
    RemoveDirAll { path: String },
    /// Create a directory and the directories above it that are missing.
    CreateDirAll { path: String },
    /// Copy a directory with all that is in it.
    CopyDir { from: String, to: String },
    /// Copy one file, after creating the directories above `to` that are
    /// missing.
    CopyFile { from: String, to: String },
    /// Move `from` to `to` within one volume.
    Rename { from: String, to: String },
}

/// An [`FsOp`] with its paths as sequences of characters.
pub enum FsOpView {
    RemoveFile { path: Seq<char> },
    RemoveDirAll { path: Seq<char> },
    CreateDirAll { path: Seq<char> },
    CopyDir { from: Seq<char>, to: Seq<char> },
    CopyFile { from: Seq<char>, to: Seq<char> },
    Rename { from: Seq<char>, to: Seq<char> },
}

impl View for FsOp {
    type V = FsOpView;

    open spec fn view(&self) -> FsOpView {
        match *self {
            FsOp::RemoveFile { path } => FsOpView::RemoveFile { path: path@ },
            FsOp::RemoveDirAll { path } => FsOpView::RemoveDirAll { path: path@ },
            FsOp::CreateDirAll { path } => FsOpView::CreateDirAll { path: path@ },
            FsOp::CopyDir { from, to } => FsOpView::CopyDir { from: from@, to: to@ },
            FsOp::CopyFile { from, to } => FsOpView::CopyFile { from: from@, to: to@ },
            FsOp::Rename { from, to } => FsOpView::Rename { from: from@, to: to@ },
        }
    }
}

/// One step of a plan.
#[derive(Debug)]
pub enum Step {
    /// Send this report.
    Report { phase: InstallPhase, status: InstallStatus },
    /// Perform this operation. Where `best_effort` is set, its failure does
    /// not end the plan.
    Fs { op: FsOp, best_effort: bool },
}

/// A [`Step`] with its paths as sequences of characters.
pub enum StepView {
    Report { phase: InstallPhase, status: InstallStatus },
    Fs { op: FsOpView, best_effort: bool },
}

impl View for Step {
    type V = StepView;

    open spec fn view(&self) -> StepView {
        match *self {
            Step::Report { phase, status } => StepView::Report { phase, status },
            Step::Fs { op, best_effort } => StepView::Fs { op: op@, best_effort },
        }
    }
}

/// The steps of a plan, each by its view.
pub open spec fn plan_view(steps: Seq<Step>) -> Seq<StepView> {
    Seq::new(steps.len(), |i: int| steps[i]@)
}

/// The report that a stage began, without a total.
pub open spec fn started_step(phase: InstallPhase) -> StepView {
    StepView::Report { phase, status: InstallStatus::Started { total_size: None } }
}

/// The report that a stage is complete.
pub open spec fn completed_step(phase: InstallPhase) -> StepView {
    StepView::Report { phase, status: InstallStatus::Completed }
}

/// An operation that must succeed.
pub open spec fn required(op: FsOpView) -> StepView {
    StepView::Fs { op, best_effort: false }
}

/// An operation whose failure is only logged.
pub open spec fn best_effort(op: FsOpView) -> StepView {
    StepView::Fs { op, best_effort: true }
}

impl Step {
    /// The report that a stage began, without a total.
    pub fn started(phase: InstallPhase) -> (s: Step)
        ensures
            s@ == started_step(phase),
    {
        Step::Report { phase, status: InstallStatus::Started { total_size: None } }
    }

    /// The report that a stage is complete.
    pub fn completed(phase: InstallPhase) -> (s: Step)
        ensures
            s@ == completed_step(phase),
    {
        Step::Report { phase, status: InstallStatus::Completed }
    }

    /// The removal of a file.
    pub fn remove_file(path: &str, best_effort: bool) -> (s: Step)
        ensures
            s@ == (StepView::Fs { op: FsOpView::RemoveFile { path: path@ }, best_effort }),
    {
        Step::Fs { op: FsOp::RemoveFile { path: String::from_str(path) }, best_effort }
    }

    /// The removal of a directory with all that is in it.
    pub fn remove_dir_all(path: &str, best_effort: bool) -> (s: Step)
        ensures
            s@ == (StepView::Fs { op: FsOpView::RemoveDirAll { path: path@ }, best_effort }),
    {
        Step::Fs { op: FsOp::RemoveDirAll { path: String::from_str(path) }, best_effort }
    }

    /// The creation of a directory, which must succeed.
    pub fn create_dir_all(path: &str) -> (s: Step)
        ensures
            s@ == required(FsOpView::CreateDirAll { path: path@ }),
    {
        Step::Fs { op: FsOp::CreateDirAll { path: String::from_str(path) }, best_effort: false }
    }

    /// The copy of a directory, which must succeed.
    pub fn copy_dir(from: &str, to: &str) -> (s: Step)
        ensures
            s@ == required(FsOpView::CopyDir { from: from@, to: to@ }),
    {
        Step::Fs {
            op: FsOp::CopyDir { from: String::from_str(from), to: String::from_str(to) },
            best_effort: false,
        }
    }

    /// The copy of a file, which must succeed.
    pub fn copy_file(from: &str, to: &str) -> (s: Step)
        ensures
            s@ == required(FsOpView::CopyFile { from: from@, to: to@ }),
    {
        Step::Fs {
            op: FsOp::CopyFile { from: String::from_str(from), to: String::from_str(to) },
            best_effort: false,
        }
    }

    /// The move of `from` to `to`.
    pub fn rename(from: &str, to: &str, best_effort: bool) -> (s: Step)
        ensures
            s@ == (StepView::Fs { op: FsOpView::Rename { from: from@, to: to@ }, best_effort }),
    {
        Step::Fs {
            op: FsOp::Rename { from: String::from_str(from), to: String::from_str(to) },
            best_effort,
        }
    }
}

/// Appends `step` to `plan`.
pub fn push_step(plan: &mut Vec<Step>, step: Step)
    ensures
        plan_view(final(plan)@) == plan_view(old(plan)@).push(step@),
{
    plan.push(step);
}

/// The disk, as far as plans tell its states apart: which paths exist, and
/// for each a number that stands for everything at and below it.
pub type Disk = Map<Seq<char>, int>;

/// The disk after `op`, or `None` where `op` fails: removing or moving what
/// is not there, copying from what is not there, and moving onto what is
/// there already.
pub open spec fn disk_after(disk: Disk, op: FsOpView) -> Option<Disk> {
    match op {
        FsOpView::RemoveFile { path } | FsOpView::RemoveDirAll { path } => if disk.dom().contains(
            path,
        ) {
            Some(disk.remove(path))
        } else {
            None
        },
        FsOpView::CreateDirAll { path } => if disk.dom().contains(path) {
            Some(disk)
        } else {
            Some(disk.insert(path, 0))
        },
        FsOpView::CopyDir { from, to } | FsOpView::CopyFile { from, to } => if disk.dom().contains(
            from,
        ) {
            Some(disk.insert(to, disk[from]))
        } else {
            None
        },
        FsOpView::Rename { from, to } => if disk.dom().contains(from) && !disk.dom().contains(to) {
            Some(disk.remove(from).insert(to, disk[from]))
        } else {
            None
        },
    }
}

/// The disk after the steps of `plan`, and whether the plan ran to its end.
/// A failing step that is not `best_effort` ends the plan where it stands.
pub open spec fn disk_after_plan(disk: Disk, plan: Seq<StepView>) -> (Disk, bool)
    decreases plan.len(),
{
    if plan.len() == 0 {
        (disk, true)
    } else {
        match plan[0] {
            StepView::Report { .. } => disk_after_plan(disk, plan.drop_first()),
            StepView::Fs { op, best_effort } => match disk_after(disk, op) {
                Some(next) => disk_after_plan(next, plan.drop_first()),
                None => if best_effort {
                    disk_after_plan(disk, plan.drop_first())
                } else {
                    (disk, false)
                },
            },
        }
    }
}

} // verus!
