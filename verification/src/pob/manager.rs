//! The installation on disk: where its parts live, who may change it, and
//! the plans of the stages that change it.
//!
//! The live installation is the directory `PoeCharm` below the data
//! directory. A new installation is staged beside it in `PoeCharm.new`; the
//! one it replaces waits in `PoeCharm.old` until the update has succeeded.
//! The user's own files are kept in `backup`, which is staged in
//! `backup.new` and set aside in `backup.old` in the same way.

use vstd::prelude::*;
use vstd::string::StringExecFns;

use crate::errors::{ErrorKind, ErrorKindView};
use crate::pob::error::PobError;
use crate::pob::google_drive::GoogleDriveFileInfo;
use crate::pob::install::InstallRun;
use crate::pob::parallel_download::{SingleStream, StreamStart};
use crate::pob::progress::{started_status, InstallPhase};
use crate::pob::steps::{
    best_effort, completed_step, disk_after_plan, plan_view, push_step, required,
    started_step, Disk, FsOpView, Step, StepView,
};
use crate::text::{concat, join_path, joined};

verus! {

/// What stands at a path that is to be copied.
#[derive(Debug, Clone, Copy, PartialEq, Eq, Structural)]
pub enum TargetKind {
    Missing,
    Directory,
    File,
}

/// What was found on disk before a backup.
#[derive(Debug)]
pub struct BackupProbe {
    /// Whether `backup.new` exists.
    pub staging_exists: bool,
    /// What stands in the installation at each of the paths to keep, in the
    /// order of [`PobManager::backup_targets`].
    pub targets: Vec<TargetKind>,
    /// Whether `backup` exists.
    pub backup_exists: bool,
    /// Whether `backup.old` exists.
    pub old_exists: bool,
}

/// The paths inside the installation that belong to the user: builds,
/// settings and fonts.
pub open spec fn backup_target_list() -> Seq<Seq<char>> {
    seq![
        "POE1 POB/Builds"@,
        "POE2 POB/Builds"@,
        "POE1 POB/Settings.xml"@,
        "POE2 POB/Settings.xml"@,
        "Data/Fonts"@,
    ]
}

/// The `i`-th of `kinds`; `Missing` where there is none.
pub open spec fn kind_at(kinds: Seq<TargetKind>, i: int) -> TargetKind {
    if 0 <= i < kinds.len() {
        kinds[i]
    } else {
        TargetKind::Missing
    }
}

/// The copy of one path from below `from_dir` to below `to_dir`: none where
/// nothing stands there.
pub open spec fn copy_step(
    from_dir: Seq<char>,
    to_dir: Seq<char>,
    rel: Seq<char>,
    kind: TargetKind,
) -> Seq<StepView> {
    match kind {
        TargetKind::Missing => Seq::empty(),
        TargetKind::Directory => seq![
            required(FsOpView::CopyDir { from: joined(from_dir, rel), to: joined(to_dir, rel) }),
        ],
        TargetKind::File => seq![
            required(FsOpView::CopyFile { from: joined(from_dir, rel), to: joined(to_dir, rel) }),
        ],
    }
}

/// The copies of the first `n` paths to keep.
pub open spec fn copy_steps(
    from_dir: Seq<char>,
    to_dir: Seq<char>,
    kinds: Seq<TargetKind>,
    n: nat,
) -> Seq<StepView>
    decreases n,
{
    if n == 0 {
        Seq::empty()
    } else {
        copy_steps(from_dir, to_dir, kinds, (n - 1) as nat) + copy_step(
            from_dir,
            to_dir,
            backup_target_list()[n - 1],
            kind_at(kinds, n - 1),
        )
    }
}

/// `steps` where `cond` holds, else nothing.
pub open spec fn only_if(cond: bool, steps: Seq<StepView>) -> Seq<StepView> {
    if cond {
        steps
    } else {
        Seq::empty()
    }
}

/// Leave to change the installation: handed out to one holder at a time.
#[derive(Debug)]
pub struct OperationGuard {
    _held: (),
}

/// The remote folder that the bundle is published in.
pub const BUNDLE_FOLDER_ID: &'static str = "1_5YhTy59gkyJpWqPuKA_z1cnobQcS8gi";

/// The installation below one data directory.
#[derive(Debug)]
pub struct PobManager {
    pub data_dir: String,
    /// The latest remote file, as it was last looked up.
    pub cached_result: Option<GoogleDriveFileInfo>,
    /// Whether an install or uninstall is under way.
    pub operation_locked: bool,
}

impl PobManager {
    /// The live installation.
    pub open spec fn spec_install_path(self) -> Seq<char> {
        joined(self.data_dir@, "PoeCharm"@)
    }

    /// Where a new installation is staged.
    pub open spec fn spec_staging_path(self) -> Seq<char> {
        self.spec_install_path() + ".new"@
    }

    /// Where the installation that is being replaced waits.
    pub open spec fn spec_old_path(self) -> Seq<char> {
        self.spec_install_path() + ".old"@
    }

    /// The backup of the user's files.
    pub open spec fn spec_backup_dir(self) -> Seq<char> {
        joined(self.data_dir@, "backup"@)
    }

    /// Where a new backup is staged.
    pub open spec fn spec_backup_staging(self) -> Seq<char> {
        self.spec_backup_dir() + ".new"@
    }

    /// Where the backup that is being replaced waits.
    pub open spec fn spec_backup_old(self) -> Seq<char> {
        self.spec_backup_dir() + ".old"@
    }

    /// The manager of the installation below `data_dir`: nothing is
    /// remembered yet, and no install or uninstall is under way.
    pub fn new(data_dir: String) -> (m: Self)
        ensures
            m.data_dir == data_dir,
            m.cached_result is None,
            !m.operation_locked,
    {
        PobManager { data_dir, cached_result: None, operation_locked: false }
    }

    /// Whether leave to change the installation is to be had: no one holds
    /// it.
    pub open spec fn grants_leave(self) -> bool {
        !self.operation_locked
    }

    /// The manager once leave has been asked for: leave is held, by whoever
    /// held it before or else by the one who asked.
    pub open spec fn after_request(self) -> PobManager {
        PobManager {
            data_dir: self.data_dir,
            cached_result: self.cached_result,
            operation_locked: true,
        }
    }

    /// Asks for leave to change the installation, without waiting. It is
    /// given unless someone holds it; then nothing changes.
    pub fn try_write_lock(&mut self) -> (guard: Option<OperationGuard>)
        ensures
            guard is Some <==> old(self).grants_leave(),
            *final(self) == old(self).after_request(),
    {
        if self.operation_locked {
            None
        } else {
            self.operation_locked = true;
            Some(OperationGuard { _held: () })
        }
    }

    /// Asks for leave to install or uninstall. While another install or
    /// uninstall runs the answer is a conflict, at once, and the one that
    /// runs is not touched.
    pub fn begin_operation(&mut self) -> (r: Result<OperationGuard, ErrorKind>)
        ensures
            r is Ok <==> old(self).grants_leave(),
            *final(self) == old(self).after_request(),
            r matches Err(kind) ==> kind@ == ErrorKindView::Conflict(
                "이미 다른 설치 작업이 진행 중입니다."@,
            ),
    {
        match self.try_write_lock() {
            Some(guard) => Ok(guard),
            None => Err(ErrorKind::operation_in_progress()),
        }
    }

    /// Gives the leave back, on every way out of an install or uninstall.
    pub fn end_operation(&mut self, guard: OperationGuard)
        ensures
            final(self).grants_leave(),
            final(self).data_dir == old(self).data_dir,
            final(self).cached_result == old(self).cached_result,
    {
        let _ = guard;
        self.operation_locked = false;
    }

    /// Where the program is started from, if it is installed. `exe_exists`
    /// says whether the program file is there; without it there is nothing
    /// to start.
    pub fn execute_pob(&self, exe_exists: bool) -> (r: Result<String, ErrorKind>)
        ensures
            match r {
                Ok(path) => exe_exists && path@ == joined(
                    self.spec_install_path(),
                    "PoeCharm3.exe"@,
                ),
                Err(kind) => !exe_exists && kind@ == ErrorKindView::Domain(
                    "POB 실행 파일을 찾을 수 없습니다: "@ + joined(
                        self.spec_install_path(),
                        "PoeCharm3.exe"@,
                    ),
                ),
            },
    {
        let path = self.exe_path();
        if exe_exists {
            Ok(path)
        } else {
            Err(ErrorKind::Domain(concat("POB 실행 파일을 찾을 수 없습니다: ", path.as_str())))
        }
    }

    /// The live installation.
    pub fn install_path(&self) -> (p: String)
        ensures
            p@ == self.spec_install_path(),
    {
        join_path(self.data_dir.as_str(), "PoeCharm")
    }

    /// Where a new installation is staged.
    pub fn staging_path(&self) -> (p: String)
        ensures
            p@ == self.spec_staging_path(),
    {
        let live = self.install_path();
        concat(live.as_str(), ".new")
    }

    /// Where the installation that is being replaced waits.
    pub fn old_path(&self) -> (p: String)
        ensures
            p@ == self.spec_old_path(),
    {
        let live = self.install_path();
        concat(live.as_str(), ".old")
    }

    /// The record of the installed version.
    pub fn version_file_path(&self) -> (p: String)
        ensures
            p@ == joined(self.spec_install_path(), "pob_version.json"@),
    {
        let live = self.install_path();
        join_path(live.as_str(), "pob_version.json")
    }

    /// The backup of the user's files.
    pub fn backup_dir(&self) -> (p: String)
        ensures
            p@ == self.spec_backup_dir(),
    {
        join_path(self.data_dir.as_str(), "backup")
    }

    /// The program of the installation.
    pub fn exe_path(&self) -> (p: String)
        ensures
            p@ == joined(self.spec_install_path(), "PoeCharm3.exe"@),
    {
        let live = self.install_path();
        join_path(live.as_str(), "PoeCharm3.exe")
    }

    /// The record of the installed version.
    pub fn pob_version_file_path(&self) -> (p: String)
        ensures
            p@ == joined(self.spec_install_path(), "pob_version.json"@),
    {
        self.version_file_path()
    }

    /// The latest remote file as it is remembered, unless a fresh look is
    /// asked for.
    pub fn cached_latest_file(&self, force_refresh: bool) -> (r: Option<GoogleDriveFileInfo>)
        ensures
            r == if force_refresh {
                None
            } else {
                self.cached_result
            },
    {
        if force_refresh {
            None
        } else {
            self.cached_result.clone()
        }
    }

    /// Takes what a fresh look at the remote folder found. A file is
    /// remembered and handed back; that there is none is an error that
    /// names the folder, and what was remembered stays.
    pub fn fetch_latest_file(&mut self, latest: Option<GoogleDriveFileInfo>) -> (r: Result<
        GoogleDriveFileInfo,
        PobError,
    >)
        ensures
            final(self).data_dir == old(self).data_dir,
            final(self).operation_locked == old(self).operation_locked,
            match latest {
                Some(file) => r == Ok::<GoogleDriveFileInfo, PobError>(file) && final(self).cached_result == Some(file),
                None => final(self).cached_result == old(self).cached_result && (r matches Err(
                    PobError::NotFoundFromDrive(id),
                ) && id@ == BUNDLE_FOLDER_ID@),
            },
    {
        match latest {
            Some(file) => {
                self.cached_result = Some(file.clone());
                Ok(file)
            },
            None => Err(
                PobError::NotFoundFromDrive(String::from_str(BUNDLE_FOLDER_ID)),
            ),
        }
    }

    /// The single-stream download of the archive, begun at `now`. The size
    /// is what the host announced; unknown is 0.
    pub fn download_with_progress(&self, content_length: Option<u64>, now: u64) -> (r: (
        SingleStream,
        StreamStart,
    ))
        ensures
            r.0.total_size == content_length.unwrap_or(0),
            r.0.downloaded == 0,
            r.0.throttle.last_emit == Some(now),
            r.1.preallocate == if r.0.total_size > 0 {
                Some(r.0.total_size)
            } else {
                None
            },
            r.1.report == started_status(r.0.total_size),
    {
        let total_size = match content_length {
            Some(n) => n,
            None => 0,
        };
        SingleStream::begin(total_size, now)
    }

    /// How the staging directory `dest` is made ready for an extraction:
    /// what is there is deleted, and the directory is created afresh.
    pub fn extract_with_progress(&self, dest: &str, dest_exists: bool) -> (plan: Vec<Step>)
        ensures
            plan_view(plan@) == only_if(
                dest_exists,
                seq![required(FsOpView::RemoveDirAll { path: dest@ })],
            ) + seq![required(FsOpView::CreateDirAll { path: dest@ })],
    {
        let mut plan: Vec<Step> = Vec::new();
        if dest_exists {
            push_step(&mut plan, Step::remove_dir_all(dest, false));
        }
        push_step(&mut plan, Step::create_dir_all(dest));
        plan
    }

    /// The paths inside the installation that belong to the user.
    pub fn backup_targets(&self) -> (targets: Vec<String>)
        ensures
            targets@.len() == backup_target_list().len(),
            forall|i: int|
                0 <= i < targets@.len() ==> (#[trigger] targets@[i])@ == backup_target_list()[i],
    {
        let mut targets: Vec<String> = Vec::new();
        targets.push(String::from_str("POE1 POB/Builds"));
        targets.push(String::from_str("POE2 POB/Builds"));
        targets.push(String::from_str("POE1 POB/Settings.xml"));
        targets.push(String::from_str("POE2 POB/Settings.xml"));
        targets.push(String::from_str("Data/Fonts"));
        targets
    }

    /// Appends to `plan` the copies of the paths to keep from below
    /// `from_dir` to below `to_dir`.
    fn push_copies(
        &self,
        plan: &mut Vec<Step>,
        from_dir: &str,
        to_dir: &str,
        kinds: &Vec<TargetKind>,
    )
        ensures
            plan_view(final(plan)@) == plan_view(old(plan)@) + copy_steps(
                from_dir@,
                to_dir@,
                kinds@,
                backup_target_list().len(),
            ),
    {
        let targets = self.backup_targets();
        let mut i: usize = 0;
        while i < targets.len()
            invariant
                i <= targets@.len(),
                targets@.len() == backup_target_list().len(),
                forall|k: int|
                    0 <= k < targets@.len() ==> (#[trigger] targets@[k])@ == backup_target_list()[k],
                plan_view(plan@) == plan_view(old(plan)@) + copy_steps(
                    from_dir@,
                    to_dir@,
                    kinds@,
                    i as nat,
                ),
            decreases targets@.len() - i,
        {
            let kind = if i < kinds.len() {
                kinds[i]
            } else {
                TargetKind::Missing
            };
            let rel = targets[i].as_str();
            match kind {
                TargetKind::Missing => {},
                TargetKind::Directory => {
                    let from = join_path(from_dir, rel);
                    let to = join_path(to_dir, rel);
                    push_step(plan, Step::copy_dir(from.as_str(), to.as_str()));
                },
                TargetKind::File => {
                    let from = join_path(from_dir, rel);
                    let to = join_path(to_dir, rel);
                    push_step(plan, Step::copy_file(from.as_str(), to.as_str()));
                },
            }
            i = i + 1;
        }
    }

    /// The backup as [`PobManager::backup`] plans it.
    pub open spec fn backup_plan(self, probe: BackupProbe) -> Seq<StepView> {
        seq![started_step(InstallPhase::BackingUp)] + only_if(
            probe.staging_exists,
            seq![required(FsOpView::RemoveDirAll { path: self.spec_backup_staging() })],
        ) + seq![required(FsOpView::CreateDirAll { path: self.spec_backup_staging() })]
            + copy_steps(
            self.spec_install_path(),
            self.spec_backup_staging(),
            probe.targets@,
            backup_target_list().len(),
        ) + seq![completed_step(InstallPhase::BackingUp)] + only_if(
            probe.backup_exists,
            seq![
                required(
                    FsOpView::Rename { from: self.spec_backup_dir(), to: self.spec_backup_old() },
                ),
            ],
        ) + seq![
            required(
                FsOpView::Rename { from: self.spec_backup_staging(), to: self.spec_backup_dir() },
            ),
        ] + only_if(
            probe.backup_exists || probe.old_exists,
            seq![best_effort(FsOpView::RemoveDirAll { path: self.spec_backup_old() })],
        )
    }

    /// Plans the backup of the user's files, from what `probe` found.
    ///
    /// A fresh copy is staged in `backup.new`, any stale one deleted first.
    /// Each path to keep that exists in the installation is copied there;
    /// one that does not exist is passed over. Then the backup is put in
    /// place: the backup of before is set aside as `backup.old`, the staged
    /// one becomes `backup`, and `backup.old` is deleted, which may fail.
    pub fn backup(&self, probe: &BackupProbe) -> (plan: Vec<Step>)
        ensures
            plan_view(plan@) == self.backup_plan(*probe),
    {
        let live = self.install_path();
        let backup = self.backup_dir();
        let staging = concat(backup.as_str(), ".new");
        let old = concat(backup.as_str(), ".old");
        let mut plan: Vec<Step> = Vec::new();
        push_step(&mut plan, Step::started(InstallPhase::BackingUp));
        if probe.staging_exists {
            push_step(&mut plan, Step::remove_dir_all(staging.as_str(), false));
        }
        push_step(&mut plan, Step::create_dir_all(staging.as_str()));
        self.push_copies(&mut plan, live.as_str(), staging.as_str(), &probe.targets);
        push_step(&mut plan, Step::completed(InstallPhase::BackingUp));
        if probe.backup_exists {
            push_step(&mut plan, Step::rename(backup.as_str(), old.as_str(), false));
        }
        push_step(&mut plan, Step::rename(staging.as_str(), backup.as_str(), false));
        if probe.backup_exists || probe.old_exists {
            push_step(&mut plan, Step::remove_dir_all(old.as_str(), true));
        }
        plan
    }

    /// The restore as [`PobManager::restore`] plans it.
    pub open spec fn restore_plan(self, backup_exists: bool, kinds: Seq<TargetKind>) -> Seq<
        StepView,
    > {
        seq![started_step(InstallPhase::Restoring)] + only_if(
            backup_exists,
            copy_steps(
                self.spec_backup_dir(),
                self.spec_install_path(),
                kinds,
                backup_target_list().len(),
            ),
        ) + seq![completed_step(InstallPhase::Restoring)]
    }

    /// Plans the copy of the user's files from the backup into the new
    /// installation. `kinds` says what stands in the backup at each of the
    /// paths to keep. Without a backup there is nothing to restore, which
    /// is no error; a path that the backup lacks is passed over.
    pub fn restore(&self, backup_exists: bool, kinds: &Vec<TargetKind>) -> (plan: Vec<Step>)
        ensures
            plan_view(plan@) == self.restore_plan(backup_exists, kinds@),
    {
        let live = self.install_path();
        let backup = self.backup_dir();
        let mut plan: Vec<Step> = Vec::new();
        push_step(&mut plan, Step::started(InstallPhase::Restoring));
        if backup_exists {
            self.push_copies(&mut plan, backup.as_str(), live.as_str(), kinds);
        }
        push_step(&mut plan, Step::completed(InstallPhase::Restoring));
        plan
    }

    /// The swap as [`PobManager::rename`] plans it.
    pub open spec fn swap_plan(self, install_exists: bool, old_exists: bool) -> Seq<StepView> {
        seq![started_step(InstallPhase::Moving)] + only_if(
            install_exists && old_exists,
            seq![required(FsOpView::RemoveDirAll { path: self.spec_old_path() })],
        ) + only_if(
            install_exists,
            seq![
                required(
                    FsOpView::Rename { from: self.spec_install_path(), to: self.spec_old_path() },
                ),
            ],
        ) + seq![
            required(
                FsOpView::Rename { from: self.spec_staging_path(), to: self.spec_install_path() },
            ),
            completed_step(InstallPhase::Moving),
        ]
    }

    /// Plans the swap of the staged installation into place. Where a live
    /// installation exists it is moved aside to `PoeCharm.old`, after an
    /// orphaned `PoeCharm.old` of an earlier failure has been deleted. Then
    /// the staged one is moved to the live path. Nothing is copied, and
    /// `PoeCharm.old` stays until the update has succeeded.
    pub fn rename(&self, install_exists: bool, old_exists: bool) -> (plan: Vec<Step>)
        ensures
            plan_view(plan@) == self.swap_plan(install_exists, old_exists),
    {
        let live = self.install_path();
        let staging = self.staging_path();
        let old = self.old_path();
        let mut plan: Vec<Step> = Vec::new();
        push_step(&mut plan, Step::started(InstallPhase::Moving));
        if install_exists {
            if old_exists {
                push_step(&mut plan, Step::remove_dir_all(old.as_str(), false));
            }
            push_step(&mut plan, Step::rename(live.as_str(), old.as_str(), false));
        }
        push_step(&mut plan, Step::rename(staging.as_str(), live.as_str(), false));
        push_step(&mut plan, Step::completed(InstallPhase::Moving));
        plan
    }

    /// Sets up the installation of the remote file `file_info`.
    ///
    /// The archive is downloaded into the directory `temp_dir`, under a
    /// name made from `task_id`, which no other run shares: with `.part`
    /// behind it while the download is under way, with `.zip` once it is
    /// complete. It is unpacked into `PoeCharm.new` beside the live
    /// installation. The run that is handed back has not begun: its first
    /// command comes from [`InstallRun::advance`].
    pub fn install(&self, file_info: GoogleDriveFileInfo, temp_dir: &str, task_id: &str) -> (run:
        InstallRun)
        ensures
            run.wf(),
            run.stage is Init,
            run.file_info == file_info,
            run.part_path@ == joined(temp_dir@, task_id@ + ".part"@),
            run.archive_path@ == joined(temp_dir@, task_id@ + ".zip"@),
            run.ctx.install_path@ == self.spec_install_path(),
            run.ctx.extract_dir matches Some(dir) && dir@ == self.spec_staging_path(),
            run.ctx.temp_zip_path is None,
            !run.ctx.backed_up,
            !run.ctx.swapped,
            !run.version_saved,
            run.error is None,
    {
        let part_name = concat(task_id, ".part");
        let archive_name = concat(task_id, ".zip");
        InstallRun::new(
            file_info,
            self.install_path(),
            self.staging_path(),
            join_path(temp_dir, part_name.as_str()),
            join_path(temp_dir, archive_name.as_str()),
        )
    }

    /// The uninstall as [`PobManager::uninstall`] plans it.
    pub open spec fn uninstall_plan(self, install_exists: bool) -> Seq<StepView> {
        only_if(
            install_exists,
            seq![
                started_step(InstallPhase::Uninstalling),
                required(FsOpView::RemoveDirAll { path: self.spec_install_path() }),
                completed_step(InstallPhase::Uninstalling),
            ],
        )
    }

    /// Plans the removal of the installation. Where there is none, nothing
    /// is done and nothing reported.
    pub fn uninstall(&self, install_exists: bool) -> (plan: Vec<Step>)
        ensures
            plan_view(plan@) == self.uninstall_plan(install_exists),
    {
        let mut plan: Vec<Step> = Vec::new();
        if install_exists {
            let live = self.install_path();
            push_step(&mut plan, Step::started(InstallPhase::Uninstalling));
            push_step(&mut plan, Step::remove_dir_all(live.as_str(), false));
            push_step(&mut plan, Step::completed(InstallPhase::Uninstalling));
        }
        plan
    }
}

/// At most one install or uninstall runs at a time. Whatever state the
/// manager is in, once leave has been asked for, a second request is
/// refused; and a request that is refused leaves the manager exactly as it
/// was, so the operation that runs is not affected.
pub proof fn lemma_second_operation_is_refused(manager: PobManager)
    ensures
        !manager.after_request().grants_leave(),
        !manager.grants_leave() ==> manager.after_request() == manager,
{
}

/// What an installation run has done so far, for the rollback to go by.
#[derive(Debug)]
pub struct InstallContext {
    /// The downloaded archive: set once the download is complete and has
    /// its final name.
    pub temp_zip_path: Option<String>,
    /// Where the archive is unpacked.
    pub extract_dir: Option<String>,
    /// The live installation.
    pub install_path: String,
    /// Set once the backup is complete.
    pub backed_up: bool,
    /// Set once the swap is complete.
    pub swapped: bool,
}

/// The rollback as [`PobManager::rollback`] plans it for the live path
/// `install`.
pub open spec fn rollback_plan(
    install: Seq<char>,
    extract_dir: Option<Seq<char>>,
    old_exists: bool,
    install_exists: bool,
    extract_exists: bool,
) -> Seq<StepView> {
    only_if(
        old_exists && install_exists,
        seq![best_effort(FsOpView::RemoveDirAll { path: install })],
    ) + only_if(
        old_exists,
        seq![best_effort(FsOpView::Rename { from: install + ".old"@, to: install })],
    ) + only_if(
        extract_dir is Some && extract_exists,
        seq![best_effort(FsOpView::RemoveDirAll { path: extract_dir->0 })],
    )
}

/// The cleanup as [`PobManager::cleanup_success`] plans it.
pub open spec fn cleanup_plan(
    install: Seq<char>,
    extract_dir: Option<Seq<char>>,
    temp_zip_path: Seq<char>,
    zip_exists: bool,
    old_exists: bool,
    extract_exists: bool,
) -> Seq<StepView> {
    only_if(zip_exists, seq![best_effort(FsOpView::RemoveFile { path: temp_zip_path })]) + only_if(
        old_exists,
        seq![best_effort(FsOpView::RemoveDirAll { path: install + ".old"@ })],
    ) + only_if(
        extract_dir is Some && extract_exists,
        seq![best_effort(FsOpView::RemoveDirAll { path: extract_dir->0 })],
    )
}

impl InstallContext {
    /// The staging directory as a sequence of characters.
    pub open spec fn extract_dir_view(self) -> Option<Seq<char>> {
        match self.extract_dir {
            Some(d) => Some(d@),
            None => None,
        }
    }
}

impl PobManager {
    /// Plans the rollback after a failure at or after the swap, from what
    /// was found on disk: whether `<install>.old`, the live path and the
    /// staging directory exist.
    ///
    /// Where `<install>.old` exists, what is left at the live path is
    /// deleted and `<install>.old` is moved back into place. Where it does
    /// not, the live path is left alone. The staging directory is deleted
    /// if it is still there. No step ends the rollback by failing: a
    /// failure to move `<install>.old` back is for the user to mend.
    pub fn rollback(
        &self,
        ctx: &InstallContext,
        old_exists: bool,
        install_exists: bool,
        extract_exists: bool,
    ) -> (plan: Vec<Step>)
        ensures
            plan_view(plan@) == rollback_plan(
                ctx.install_path@,
                ctx.extract_dir_view(),
                old_exists,
                install_exists,
                extract_exists,
            ),
    {
        let mut plan: Vec<Step> = Vec::new();
        if old_exists {
            let old = concat(ctx.install_path.as_str(), ".old");
            if install_exists {
                push_step(&mut plan, Step::remove_dir_all(ctx.install_path.as_str(), true));
            }
            push_step(&mut plan, Step::rename(old.as_str(), ctx.install_path.as_str(), true));
        }
        match &ctx.extract_dir {
            Some(dir) => {
                if extract_exists {
                    push_step(&mut plan, Step::remove_dir_all(dir.as_str(), true));
                }
            },
            None => {},
        }
        plan
    }

    /// Plans what is cleared away after a successful installation: the
    /// downloaded archive, `<install>.old` and the staging directory, each
    /// where it exists. A failure to delete is only logged.
    pub fn cleanup_success(
        &self,
        ctx: &InstallContext,
        temp_zip_path: &str,
        zip_exists: bool,
        old_exists: bool,
        extract_exists: bool,
    ) -> (plan: Vec<Step>)
        ensures
            plan_view(plan@) == cleanup_plan(
                ctx.install_path@,
                ctx.extract_dir_view(),
                temp_zip_path@,
                zip_exists,
                old_exists,
                extract_exists,
            ),
    {
        let mut plan: Vec<Step> = Vec::new();
        if zip_exists {
            push_step(&mut plan, Step::remove_file(temp_zip_path, true));
        }
        if old_exists {
            let old = concat(ctx.install_path.as_str(), ".old");
            push_step(&mut plan, Step::remove_dir_all(old.as_str(), true));
        }
        match &ctx.extract_dir {
            Some(dir) => {
                if extract_exists {
                    push_step(&mut plan, Step::remove_dir_all(dir.as_str(), true));
                }
            },
            None => {},
        }
        plan
    }
}

/// A path, the same path with `.old` behind it and the same with `.new`
/// behind it are three different paths.
pub proof fn lemma_sibling_paths_differ(path: Seq<char>)
    ensures
        path != path + ".old"@,
        path != path + ".new"@,
        path + ".old"@ != path + ".new"@,
{
    reveal_strlit(".old");
    reveal_strlit(".new");
    assert((path + ".old"@)[path.len() as int + 1] == 'o');
}

/// The swap puts the staged installation in place and keeps the one it
/// replaces. On any disk that holds a staged installation, with or without
/// a live one and with or without an orphaned `.old`, the plan of
/// [`PobManager::rename`] runs to its end. After it the live path holds
/// what was staged, the staging path is gone, and if there was a live
/// installation, `.old` holds it. Nothing else on the disk has changed.
pub proof fn lemma_swap_keeps_replaced_installation(manager: PobManager, disk: Disk)
    requires
        disk.dom().contains(manager.spec_staging_path()),
    ensures
        ({
            let live = manager.spec_install_path();
            let old = manager.spec_old_path();
            let staging = manager.spec_staging_path();
            let plan = manager.swap_plan(disk.dom().contains(live), disk.dom().contains(old));
            let (after, complete) = disk_after_plan(disk, plan);
            &&& complete
            &&& after.dom().contains(live) && after[live] == disk[staging]
            &&& !after.dom().contains(staging)
            &&& disk.dom().contains(live) ==> after.dom().contains(old) && after[old] == disk[live]
            &&& !disk.dom().contains(live) ==> (after.dom().contains(old) <==> disk.dom().contains(
                old,
            )) && (after.dom().contains(old) ==> after[old] == disk[old])
            &&& forall|p: Seq<char>|
                p != live && p != old && p != staging ==> (after.dom().contains(p)
                    <==> disk.dom().contains(p)) && (after.dom().contains(p) ==> #[trigger] after[p]
                    == disk[p])
        }),
{
    lemma_sibling_paths_differ(manager.spec_install_path());
    reveal_with_fuel(disk_after_plan, 6);
}

/// The rollback undoes the swap. Take any disk on which the live path
/// holds something, be it the new installation or what is left of it,
/// while `.old` holds the installation of before. The plan of
/// [`PobManager::rollback`] for what is found there runs to its end. After
/// it the live path holds exactly what `.old` held, and `.old` and the
/// staging directory are gone. Nothing else on the disk has changed.
pub proof fn lemma_rollback_restores_replaced_installation(disk: Disk, install: Seq<char>)
    requires
        disk.dom().contains(install),
        disk.dom().contains(install + ".old"@),
    ensures
        ({
            let old = install + ".old"@;
            let staging = install + ".new"@;
            let plan = rollback_plan(
                install,
                Some(staging),
                true,
                true,
                disk.dom().contains(staging),
            );
            let (after, complete) = disk_after_plan(disk, plan);
            &&& complete
            &&& after.dom().contains(install) && after[install] == disk[old]
            &&& !after.dom().contains(old)
            &&& !after.dom().contains(staging)
            &&& forall|p: Seq<char>|
                p != install && p != old && p != staging ==> (after.dom().contains(p)
                    <==> disk.dom().contains(p)) && (after.dom().contains(p) ==> #[trigger] after[p]
                    == disk[p])
        }),
{
    lemma_sibling_paths_differ(install);
    reveal_with_fuel(disk_after_plan, 4);
}

/// Without `.old` there is nothing to go back to, and the rollback leaves
/// the live path alone: its plan deletes the staging directory, if that is
/// there, and does nothing else.
pub proof fn lemma_rollback_without_old_keeps_live(
    install: Seq<char>,
    extract_dir: Option<Seq<char>>,
    install_exists: bool,
    extract_exists: bool,
)
    ensures
        rollback_plan(install, extract_dir, false, install_exists, extract_exists) == only_if(
            extract_dir is Some && extract_exists,
            seq![best_effort(FsOpView::RemoveDirAll { path: extract_dir->0 })],
        ),
{
}

/// A path to keep that does not exist is passed over: where none of them
/// exists, nothing is copied.
pub proof fn lemma_missing_targets_are_skipped(
    from_dir: Seq<char>,
    to_dir: Seq<char>,
    kinds: Seq<TargetKind>,
    n: nat,
)
    requires
        forall|i: int| 0 <= i < kinds.len() ==> kinds[i] is Missing,
    ensures
        copy_steps(from_dir, to_dir, kinds, n) == Seq::<StepView>::empty(),
    decreases n,
{
    if n > 0 {
        lemma_missing_targets_are_skipped(from_dir, to_dir, kinds, (n - 1) as nat);
    }
}

/// To restore a backup that was never made is to do nothing, and no error:
/// the plan reports the stage as begun and as complete, touches nothing on
/// the disk and runs to its end.
pub proof fn lemma_restore_without_backup_is_a_no_op(
    manager: PobManager,
    kinds: Seq<TargetKind>,
    disk: Disk,
)
    ensures
        manager.restore_plan(false, kinds) == seq![
            started_step(InstallPhase::Restoring),
            completed_step(InstallPhase::Restoring),
        ],
        disk_after_plan(disk, manager.restore_plan(false, kinds)) == (disk, true),
{
    reveal_with_fuel(disk_after_plan, 3);
}

} // verus!
