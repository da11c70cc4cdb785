//! The migration of one directory as a state machine: the decisions of a
//! migration (and of resuming one from the journal) in order, with the
//! file system work left to the caller.
//!
//! The caller creates a `MigrationRun`, then repeatedly performs the
//! returned `RunStep` (its cleanup actions, whose failures are ignored, its
//! progress notices, then its action) and hands the outcome of the action
//! back as a `RunEvent`, until the action is `Finish`.
use vstd::prelude::*;
use vstd::string::*;
use crate::engine::manifest::{
    Manifest, manifest_mismatch, same_manifest, diff_paths, find_manifest_diff_files, has_same_file,
    lemma_diff_paths_meaning,
};
use crate::engine::paths::{
    drive_letter, drive_letter_spec, drive_text_ok, join_path, join_spec, make_old_path,
    ntfs_root, ntfs_root_spec, old_path_spec, space_root, space_root_spec, uuid_bytes, uuid_text,
    uuid_v4_like,
};
use crate::journal::{MigrationStage, PendingJob};
use crate::scanner::{lemma_safe_margin_covers, pow2, safe_margin, safe_margin_spec};
use crate::text::{concat2, concat3, eq_ignore_ascii_case, eq_ignore_ascii_case_spec};

verus! {

/// Where a migration run stands: which outcome it waits for.
#[derive(PartialEq, Eq, Structural, Clone, Copy, Debug)]
pub enum RunPhase {
    Start,
    AwaitJob,
    AwaitSourceProbe,
    AwaitNtfs,
    AwaitSpace,
    AwaitScan,
    AwaitTargets,
    AwaitSourceManifest,
    AwaitLocation,
    AwaitManifestSaved,
    AwaitInitiatedWritten,
    AwaitCopy,
    AwaitTargetManifest,
    AwaitFresh,
    AwaitFreshSaved,
    AwaitRecopy,
    AwaitRecheck,
    AwaitSyncedSaved,
    AwaitCopiedWritten,
    AwaitTmpRenamed,
    AwaitFinalizedWritten,
    AwaitSourceRenamed,
    AwaitLocks,
    AwaitSourceRenamedWritten,
    AwaitJunction,
    AwaitRestore,
    AwaitLinkedWritten,
    ResumeSource,
    ResumeTmp,
    ResumeManifestExists,
    ResumeLoaded,
    ResumeSourceManifest,
    ResumeTmpManifest,
    ResumeFinalizedWritten,
    ResumeFinal,
    ResumeSourceProbe,
    Finished,
}

/// What a look at the source path found.
#[derive(Debug)]
pub struct SourceProbe {
    pub exists: bool,
    pub is_dir: bool,
    pub is_junction: bool,
    /// The source path has a last component (it is not a drive root).
    pub has_file_name: bool,
    /// The renamed-source path already exists.
    pub old_exists: bool,
}

/// The pre-migration statistics: how many files the source holds and how
/// many bytes in all.
#[derive(Debug)]
pub struct ScanTotals {
    pub total_files: usize,
    pub total_size: u64,
}

/// What a look at the target paths found.
#[derive(Debug)]
pub struct TargetProbe {
    pub final_exists: bool,
    pub tmp_exists: bool,
}

/// The outcome of the last action.
#[derive(Debug)]
pub enum RunEvent {
    Job(Result<Option<PendingJob>, String>),
    Source(SourceProbe),
    Ntfs(Result<bool, String>),
    Space(Result<u64, String>),
    Scan(Result<ScanTotals, String>),
    Targets(TargetProbe),
    Manifest(Result<Manifest, String>),
    Location(Result<String, String>),
    Done(Result<(), String>),
    Locks(String),
    Exists(bool),
}

/// A file system action whose failure is ignored.
#[derive(Debug)]
pub enum Cleanup {
    RemoveTree(String),
    RemoveFile(String),
    ClearJob,
    WriteJob(PendingJob),
    Rename { from: String, to: String },
}

/// The progress reports of a migration (stage and percentage as the user
/// sees them).
#[derive(Debug)]
pub enum Notice {
    /// Resuming, 90%: the copy of an earlier attempt is reused.
    Resuming,
    /// PreScanning, 1%.
    PreScanning,
    /// PreScanned, 5%.
    PreScanned { total_files: usize, total_size: u64 },
    /// PreScanning, 7%: building the source manifest.
    GeneratingManifest,
    /// Copying, 10%.
    CopyStarted { total_files: usize, total_size: u64 },
    /// Verifying, 90%.
    Verifying { total_files: usize, total_size: u64 },
    /// Verifying, 91%: the copy differs from the source.
    SourceChanged { reason: String },
    /// Verifying, 92%: copying the differing files again.
    Recopying { count: usize, attempt: u32 },
    /// Verifying, 93%.
    Resynced,
    /// Verifying, 95%.
    Verified { total_files: usize, total_size: u64 },
    /// Renaming, 96%: the temporary directory becomes the final one.
    ActivatingTarget { total_files: usize, total_size: u64 },
    /// Renaming, 97%: the source is renamed aside.
    RenamingSource { total_files: usize, total_size: u64 },
    /// Linking, 98%.
    Linking { total_files: usize, total_size: u64 },
    /// PendingConfirmation, 100%.
    AwaitingConfirmation {
        total_files: usize,
        total_size: u64,
        source_path: String,
        renamed_source_path: String,
        final_target_path: String,
    },
    /// Verifying, 92% (resuming).
    ResumeVerifying,
    /// Renaming, 96% (resuming).
    ResumeActivating,
    /// Renaming, 97% (resuming).
    ResumeRenamingSource,
    /// Linking, 98% (resuming).
    ResumeLinking,
}

/// Why a migration stopped.
#[derive(Debug)]
pub enum RunError {
    /// An error of the file system, passed on as it came.
    Io(String),
    SourceMissing(String),
    NotADirectory(String),
    AlreadyJunction(String),
    SameDrive,
    DriveRoot(String),
    NotNtfs(String),
    NtfsQueryFailed(String),
    OldPathExists(String),
    SpaceQueryFailed(String),
    EmptySource,
    InsufficientSpace { free: u64, required: u64 },
    FinalExists(String),
    CopyFailed(String),
    StillChanging(String),
    TargetRenameFailed { error: String, tmp: String },
    SourceRenameFailed { error: String, locks: String },
    JunctionFailed { error: String, source: String, final_target: String },
    ResumeSourceMissing,
    ResumeTmpMissing,
    ManifestLoadFailed(String),
    ResumeIncomplete(String),
    ResumeTargetRenameFailed { error: String, tmp: String, final_target: String },
    ResumeFinalMissing(String),
    ResumeAlreadyJunction,
    ResumeOldPathExists(String),
    ResumeSourceRenameFailed { error: String, locks: String },
    ResumeJunctionFailed { error: String, source: String, final_target: String },
}

/// The next thing to do.
#[derive(Debug)]
pub enum RunAction {
    ReadJob,
    ProbeSource { source: String, old: String },
    CheckNtfs { root: String },
    FreeSpace { root: String },
    PreScan { source: String },
    ProbeTargets { final_path: String, tmp_path: String },
    GenerateManifest { root: String },
    LocateManifest { file_name: String },
    SaveManifest { manifest: Manifest, path: String },
    LoadManifest { path: String },
    WriteJob { job: PendingJob },
    CopyTree { from: String, to: String, total_size: u64, total_files: usize },
    CopyFiles { from_root: String, to_root: String, relative_paths: Vec<String> },
    Rename { from: String, to: String },
    CreateJunction { link: String, target: String },
    DetectLocks { dir: String },
    PathExists { path: String },
    Finish(Result<(), RunError>),
}

/// One step: cleanups, then notices, then the action.
pub struct RunStep {
    pub cleanup: Vec<Cleanup>,
    pub notices: Vec<Notice>,
    pub action: RunAction,
}

/// The state of one migration.
pub struct MigrationRun {
    pub phase: RunPhase,
    pub resuming: bool,
    pub source: String,
    pub target_drive: String,
    pub target_letter: String,
    pub same_drive: bool,
    pub ntfs_root: String,
    pub space_root: String,
    pub old_path: String,
    pub final_path: String,
    pub tmp_path: String,
    pub job_id: String,
    pub manifest_file_name: String,
    pub manifest_path: String,
    pub old_exists: bool,
    pub free_space: u64,
    pub safe_margin: u64,
    pub total_files: usize,
    pub total_size: u64,
    pub source_manifest: Manifest,
    pub target_manifest: Manifest,
    pub fresh_manifest: Manifest,
    pub job: PendingJob,
    pub retry: u32,
    pub failure: String,
}

// ---------------------------------------------------------------- spec

/// The step is exactly these cleanups, notices and action.
pub open spec fn step_is(r: RunStep, c: Seq<Cleanup>, n: Seq<Notice>, a: RunAction) -> bool {
    r.cleanup@ == c && r.notices@ == n && r.action == a
}

/// The run stops with `e`.
pub open spec fn fails(s: MigrationRun, t: MigrationRun, r: RunStep, c: Seq<Cleanup>, n: Seq<Notice>, e: RunError) -> bool {
    t == (MigrationRun { phase: RunPhase::Finished, ..s }) && step_is(r, c, n, RunAction::Finish(Err(e)))
}

/// Moves to phase `p`, nothing else changing, doing `a`.
pub open spec fn moves(s: MigrationRun, t: MigrationRun, r: RunStep, p: RunPhase, c: Seq<Cleanup>, n: Seq<Notice>, a: RunAction) -> bool {
    t == (MigrationRun { phase: p, ..s }) && step_is(r, c, n, a)
}

/// The job record at a stage, for this run.
pub open spec fn job_at(s: MigrationRun, stage: MigrationStage) -> PendingJob {
    PendingJob { stage, ..s.job }
}

/// The totals carried by most notices.
pub open spec fn totals_note(s: MigrationRun, k: int) -> Notice {
    if k == 0 {
        Notice::Verifying { total_files: s.total_files, total_size: s.total_size }
    } else if k == 1 {
        Notice::Verified { total_files: s.total_files, total_size: s.total_size }
    } else if k == 2 {
        Notice::ActivatingTarget { total_files: s.total_files, total_size: s.total_size }
    } else if k == 3 {
        Notice::RenamingSource { total_files: s.total_files, total_size: s.total_size }
    } else {
        Notice::Linking { total_files: s.total_files, total_size: s.total_size }
    }
}

/// Cleanup after a failed copy or verification: the temporary directory,
/// the journal and the saved manifest go.
pub open spec fn discard_copy(s: MigrationRun) -> Seq<Cleanup> {
    seq![
        Cleanup::RemoveTree(s.tmp_path),
        Cleanup::ClearJob,
        Cleanup::RemoveFile(s.manifest_path),
    ]
}

/// The stage of a journal record from which a migration resumes.
pub open spec fn resumable(j: PendingJob) -> bool {
    j.stage == MigrationStage::Copied || j.stage == MigrationStage::Finalized
}

/// Step from `Start`.
pub open spec fn next_start(s: MigrationRun, t: MigrationRun, r: RunStep) -> bool {
    moves(s, t, r, RunPhase::AwaitJob, seq![], seq![], RunAction::ReadJob)
}

/// Step from `AwaitJob`: a journal record of this source at `Copied` or
/// `Finalized` resumes it; anything else starts a new migration.
pub open spec fn next_job(s: MigrationRun, ev: RunEvent, t: MigrationRun, r: RunStep) -> bool {
    match ev {
        RunEvent::Job(Ok(Some(j))) if j.source_path@ == s.source@ && resumable(j) => {
            &&& t == (MigrationRun {
                phase: RunPhase::ResumeSource,
                resuming: true,
                final_path: j.final_target_path,
                tmp_path: j.target_path,
                job: j,
                ..s
            })
            &&& step_is(
                r,
                seq![],
                seq![Notice::Resuming],
                RunAction::PathExists { path: s.source },
            )
        },
        RunEvent::Job(_) => moves(
            s,
            t,
            r,
            RunPhase::AwaitSourceProbe,
            seq![],
            seq![],
            RunAction::ProbeSource { source: s.source, old: s.old_path },
        ),
        _ => false,
    }
}

/// Step from `AwaitSourceProbe`: the input checks, in order.
pub open spec fn next_source_probe(s: MigrationRun, ev: RunEvent, t: MigrationRun, r: RunStep) -> bool {
    match ev {
        RunEvent::Source(p) => if !p.exists {
            fails(s, t, r, seq![], seq![], RunError::SourceMissing(s.source))
        } else if !p.is_dir {
            fails(s, t, r, seq![], seq![], RunError::NotADirectory(s.source))
        } else if p.is_junction {
            fails(s, t, r, seq![], seq![], RunError::AlreadyJunction(s.source))
        } else if s.same_drive {
            fails(s, t, r, seq![], seq![], RunError::SameDrive)
        } else if !p.has_file_name {
            fails(s, t, r, seq![], seq![], RunError::DriveRoot(s.source))
        } else {
            &&& t == (MigrationRun { phase: RunPhase::AwaitNtfs, old_exists: p.old_exists, ..s })
            &&& step_is(r, seq![], seq![], RunAction::CheckNtfs { root: s.ntfs_root })
        },
        _ => false,
    }
}

/// Step from `AwaitNtfs`.
pub open spec fn next_ntfs(s: MigrationRun, ev: RunEvent, t: MigrationRun, r: RunStep) -> bool {
    match ev {
        RunEvent::Ntfs(Ok(true)) => if s.old_exists {
            fails(s, t, r, seq![], seq![], RunError::OldPathExists(s.old_path))
        } else {
            moves(s, t, r, RunPhase::AwaitSpace, seq![], seq![], RunAction::FreeSpace { root: s.space_root })
        },
        RunEvent::Ntfs(Ok(false)) => fails(s, t, r, seq![], seq![], RunError::NotNtfs(s.target_letter)),
        RunEvent::Ntfs(Err(e)) => fails(s, t, r, seq![], seq![], RunError::NtfsQueryFailed(e)),
        _ => false,
    }
}

/// Step from `AwaitSpace`.
pub open spec fn next_space(s: MigrationRun, ev: RunEvent, t: MigrationRun, r: RunStep) -> bool {
    match ev {
        RunEvent::Space(Ok(free)) => {
            &&& t == (MigrationRun { phase: RunPhase::AwaitScan, free_space: free, ..s })
            &&& step_is(r, seq![], seq![Notice::PreScanning], RunAction::PreScan { source: s.source })
        },
        RunEvent::Space(Err(e)) => fails(s, t, r, seq![], seq![], RunError::SpaceQueryFailed(e)),
        _ => false,
    }
}

/// Step from `AwaitScan`: an empty source stops the run; the target must
/// have the safety margin free.
pub open spec fn next_scan(s: MigrationRun, ev: RunEvent, t: MigrationRun, r: RunStep) -> bool {
    match ev {
        RunEvent::Scan(Err(e)) => fails(s, t, r, seq![], seq![], RunError::Io(e)),
        RunEvent::Scan(Ok(totals)) => safe_margin_spec(totals.total_size as nat) <= u64::MAX && {
            let margin = safe_margin_spec(totals.total_size as nat) as u64;
            let s2 = MigrationRun {
                total_files: totals.total_files,
                total_size: totals.total_size,
                safe_margin: margin,
                ..s
            };
            let note = Notice::PreScanned { total_files: totals.total_files, total_size: totals.total_size };
            if totals.total_files == 0 {
                fails(s2, t, r, seq![], seq![], RunError::EmptySource)
            } else if s.free_space < margin {
                fails(s2, t, r, seq![], seq![note], RunError::InsufficientSpace { free: s.free_space, required: margin })
            } else {
                moves(s2, t, r, RunPhase::AwaitTargets, seq![], seq![note], RunAction::ProbeTargets { final_path: s.final_path, tmp_path: s.tmp_path })
            }
        },
        _ => false,
    }
}

/// Step from `AwaitTargets`: the final directory must not exist; a stale
/// temporary directory is removed.
pub open spec fn next_targets(s: MigrationRun, ev: RunEvent, t: MigrationRun, r: RunStep) -> bool {
    match ev {
        RunEvent::Targets(p) => if p.final_exists {
            fails(s, t, r, seq![], seq![], RunError::FinalExists(s.final_path))
        } else {
            moves(
                s,
                t,
                r,
                RunPhase::AwaitSourceManifest,
                if p.tmp_exists { seq![Cleanup::RemoveTree(s.tmp_path)] } else { seq![] },
                seq![Notice::GeneratingManifest],
                RunAction::GenerateManifest { root: s.source },
            )
        },
        _ => false,
    }
}

/// Step from `AwaitSourceManifest`.
pub open spec fn next_source_manifest(s: MigrationRun, ev: RunEvent, t: MigrationRun, r: RunStep) -> bool {
    match ev {
        RunEvent::Manifest(Err(e)) => fails(s, t, r, seq![], seq![], RunError::Io(e)),
        RunEvent::Manifest(Ok(m)) => moves(
            MigrationRun { source_manifest: m, ..s },
            t,
            r,
            RunPhase::AwaitLocation,
            seq![],
            seq![],
            RunAction::LocateManifest { file_name: s.manifest_file_name },
        ),
        _ => false,
    }
}

/// Step from `AwaitLocation`: the manifest is saved next to the journal.
pub open spec fn next_location(s: MigrationRun, ev: RunEvent, t: MigrationRun, r: RunStep) -> bool {
    match ev {
        RunEvent::Location(Err(e)) => fails(s, t, r, seq![], seq![], RunError::Io(e)),
        RunEvent::Location(Ok(dir)) => {
            &&& t.manifest_path@ == join_spec(dir@, s.manifest_file_name@)
            &&& t == (MigrationRun { phase: RunPhase::AwaitManifestSaved, manifest_path: t.manifest_path, ..s })
            &&& r.cleanup@.len() == 0
            &&& r.notices@.len() == 0
            &&& r.action matches RunAction::SaveManifest { manifest, path }
            &&& same_manifest(manifest, s.source_manifest)
            &&& path == t.manifest_path
        },
        _ => false,
    }
}

/// The journal record written when the copy starts.
pub open spec fn initiated_job(s: MigrationRun) -> PendingJob {
    PendingJob {
        job_id: s.job_id,
        source_path: s.source,
        target_path: s.tmp_path,
        final_target_path: s.final_path,
        stage: MigrationStage::Initiated,
        manifest_path: Some(s.manifest_path),
        renamed_source_path: None,
    }
}

/// Step from `AwaitManifestSaved`: the journal is written (`Initiated`)
/// only after the manifest is saved.
pub open spec fn next_manifest_saved(s: MigrationRun, ev: RunEvent, t: MigrationRun, r: RunStep) -> bool {
    match ev {
        RunEvent::Done(Err(e)) => fails(s, t, r, seq![], seq![], RunError::Io(e)),
        RunEvent::Done(Ok(())) => moves(
            MigrationRun { job: initiated_job(s), ..s },
            t,
            r,
            RunPhase::AwaitInitiatedWritten,
            seq![],
            seq![],
            RunAction::WriteJob { job: initiated_job(s) },
        ),
        _ => false,
    }
}

/// Step from `AwaitInitiatedWritten`: the copy goes to the temporary
/// directory.
pub open spec fn next_initiated_written(s: MigrationRun, ev: RunEvent, t: MigrationRun, r: RunStep) -> bool {
    match ev {
        RunEvent::Done(Err(e)) => fails(s, t, r, seq![], seq![], RunError::Io(e)),
        RunEvent::Done(Ok(())) => moves(
            s,
            t,
            r,
            RunPhase::AwaitCopy,
            seq![],
            seq![Notice::CopyStarted { total_files: s.total_files, total_size: s.total_size }],
            RunAction::CopyTree { from: s.source, to: s.tmp_path, total_size: s.total_size, total_files: s.total_files },
        ),
        _ => false,
    }
}

/// Step from `AwaitCopy`: a failed copy discards the copy and the journal.
pub open spec fn next_copy(s: MigrationRun, ev: RunEvent, t: MigrationRun, r: RunStep) -> bool {
    match ev {
        RunEvent::Done(Err(e)) => fails(s, t, r, discard_copy(s), seq![], RunError::CopyFailed(e)),
        RunEvent::Done(Ok(())) => moves(
            s,
            t,
            r,
            RunPhase::AwaitTargetManifest,
            seq![],
            seq![totals_note(s, 0)],
            RunAction::GenerateManifest { root: s.tmp_path },
        ),
        _ => false,
    }
}

/// Passing verification: the journal moves to `Copied`.
pub open spec fn to_copied(s: MigrationRun, t: MigrationRun, r: RunStep, n: Seq<Notice>) -> bool {
    moves(
        MigrationRun { job: job_at(s, MigrationStage::Copied), ..s },
        t,
        r,
        RunPhase::AwaitCopiedWritten,
        seq![],
        n,
        RunAction::WriteJob { job: job_at(s, MigrationStage::Copied) },
    )
}

/// Step from `AwaitTargetManifest`: the copy is compared with the source
/// manifest; on a difference the source is listed again.
pub open spec fn next_target_manifest(s: MigrationRun, ev: RunEvent, t: MigrationRun, r: RunStep) -> bool {
    match ev {
        RunEvent::Manifest(Err(e)) => fails(s, t, r, seq![], seq![], RunError::Io(e)),
        RunEvent::Manifest(Ok(m)) => {
            let s2 = MigrationRun { target_manifest: m, ..s };
            match manifest_mismatch(s.source_manifest, m) {
                None => to_copied(s2, t, r, seq![totals_note(s, 1)]),
                Some(reason) => {
                    &&& t == (MigrationRun { phase: RunPhase::AwaitFresh, retry: 0, ..s2 })
                    &&& r.cleanup@.len() == 0
                    &&& r.notices@.len() == 1
                    &&& r.notices@[0] matches Notice::SourceChanged { reason: x }
                    &&& x@ == reason
                    &&& r.action == RunAction::GenerateManifest { root: s.source }
                },
            }
        },
        _ => false,
    }
}

/// Step from `AwaitFresh`: the files that differ from the first copy are
/// copied again; when none differs the fresh manifest replaces the saved
/// one.
pub open spec fn next_fresh(s: MigrationRun, ev: RunEvent, t: MigrationRun, r: RunStep) -> bool {
    match ev {
        RunEvent::Manifest(Err(e)) => fails(s, t, r, seq![], seq![], RunError::Io(e)),
        RunEvent::Manifest(Ok(f)) => {
            let d = diff_paths(f.files@, s.target_manifest.files@);
            &&& t == (MigrationRun {
                phase: if d.len() == 0 { RunPhase::AwaitFreshSaved } else { RunPhase::AwaitRecopy },
                fresh_manifest: f,
                ..s
            })
            &&& r.cleanup@.len() == 0
            &&& if d.len() == 0 {
                &&& r.notices@.len() == 0
                &&& r.action matches RunAction::SaveManifest { manifest, path }
                &&& same_manifest(manifest, f)
                &&& path == s.manifest_path
            } else {
                &&& r.notices@ == seq![Notice::Recopying { count: d.len() as usize, attempt: (s.retry + 1) as u32 }]
                &&& r.action matches RunAction::CopyFiles { from_root, to_root, relative_paths }
                &&& from_root == s.source
                &&& to_root == s.tmp_path
                &&& relative_paths@.len() == d.len()
                &&& forall|i: int| 0 <= i < d.len() ==> (#[trigger] relative_paths@[i])@ == d[i]
            }
        },
        _ => false,
    }
}

/// Step from `AwaitFreshSaved` (nothing differed).
pub open spec fn next_fresh_saved(s: MigrationRun, ev: RunEvent, t: MigrationRun, r: RunStep) -> bool {
    match ev {
        RunEvent::Done(Err(e)) => fails(s, t, r, seq![], seq![], RunError::Io(e)),
        RunEvent::Done(Ok(())) => to_copied(s, t, r, seq![totals_note(s, 1)]),
        _ => false,
    }
}

/// Step from `AwaitRecopy`: the copy is listed again.
pub open spec fn next_recopy(s: MigrationRun, ev: RunEvent, t: MigrationRun, r: RunStep) -> bool {
    match ev {
        RunEvent::Done(Err(e)) => fails(s, t, r, seq![], seq![], RunError::Io(e)),
        RunEvent::Done(Ok(())) => moves(
            s,
            t,
            r,
            RunPhase::AwaitRecheck,
            seq![],
            seq![],
            RunAction::GenerateManifest { root: s.tmp_path },
        ),
        _ => false,
    }
}

/// Step from `AwaitRecheck`: agreement saves the fresh manifest; the second
/// failed attempt discards the copy.
pub open spec fn next_recheck(s: MigrationRun, ev: RunEvent, t: MigrationRun, r: RunStep) -> bool {
    match ev {
        RunEvent::Manifest(Err(e)) => fails(s, t, r, seq![], seq![], RunError::Io(e)),
        RunEvent::Manifest(Ok(m)) => match manifest_mismatch(s.fresh_manifest, m) {
            None => {
                &&& t == (MigrationRun { phase: RunPhase::AwaitSyncedSaved, ..s })
                &&& r.cleanup@.len() == 0
                &&& r.notices@.len() == 0
                &&& r.action matches RunAction::SaveManifest { manifest, path }
                &&& same_manifest(manifest, s.fresh_manifest)
                &&& path == s.manifest_path
            },
            Some(reason) => if s.retry + 1 >= 2 {
                &&& t == (MigrationRun { phase: RunPhase::Finished, retry: (s.retry + 1) as u32, ..s })
                &&& r.cleanup@ == discard_copy(s)
                &&& r.notices@.len() == 0
                &&& r.action matches RunAction::Finish(Err(RunError::StillChanging(x)))
                &&& x@ == reason
            } else {
                moves(
                    MigrationRun { retry: (s.retry + 1) as u32, ..s },
                    t,
                    r,
                    RunPhase::AwaitFresh,
                    seq![],
                    seq![],
                    RunAction::GenerateManifest { root: s.source },
                )
            },
        },
        _ => false,
    }
}

/// Step from `AwaitSyncedSaved`.
pub open spec fn next_synced_saved(s: MigrationRun, ev: RunEvent, t: MigrationRun, r: RunStep) -> bool {
    match ev {
        RunEvent::Done(Err(e)) => fails(s, t, r, seq![], seq![], RunError::Io(e)),
        RunEvent::Done(Ok(())) => to_copied(s, t, r, seq![Notice::Resynced, totals_note(s, 1)]),
        _ => false,
    }
}

/// Step from `AwaitCopiedWritten`: the temporary directory becomes final.
pub open spec fn next_copied_written(s: MigrationRun, ev: RunEvent, t: MigrationRun, r: RunStep) -> bool {
    match ev {
        RunEvent::Done(Err(e)) => fails(s, t, r, seq![], seq![], RunError::Io(e)),
        RunEvent::Done(Ok(())) => moves(
            s,
            t,
            r,
            RunPhase::AwaitTmpRenamed,
            seq![],
            seq![totals_note(s, 2)],
            RunAction::Rename { from: s.tmp_path, to: s.final_path },
        ),
        _ => false,
    }
}

/// Step from `AwaitTmpRenamed`: the journal moves to `Finalized`.
pub open spec fn next_tmp_renamed(s: MigrationRun, ev: RunEvent, t: MigrationRun, r: RunStep) -> bool {
    match ev {
        RunEvent::Done(Err(e)) => if s.resuming {
            fails(s, t, r, seq![], seq![], RunError::ResumeTargetRenameFailed { error: e, tmp: s.tmp_path, final_target: s.final_path })
        } else {
            fails(s, t, r, seq![], seq![], RunError::TargetRenameFailed { error: e, tmp: s.tmp_path })
        },
        RunEvent::Done(Ok(())) => moves(
            MigrationRun { job: job_at(s, MigrationStage::Finalized), ..s },
            t,
            r,
            if s.resuming { RunPhase::ResumeFinalizedWritten } else { RunPhase::AwaitFinalizedWritten },
            seq![],
            seq![],
            RunAction::WriteJob { job: job_at(s, MigrationStage::Finalized) },
        ),
        _ => false,
    }
}

/// Step from `AwaitFinalizedWritten`: the source is renamed aside.
pub open spec fn next_finalized_written(s: MigrationRun, ev: RunEvent, t: MigrationRun, r: RunStep) -> bool {
    match ev {
        RunEvent::Done(Err(e)) => fails(s, t, r, seq![], seq![], RunError::Io(e)),
        RunEvent::Done(Ok(())) => moves(
            s,
            t,
            r,
            RunPhase::AwaitSourceRenamed,
            seq![],
            seq![totals_note(s, 3)],
            RunAction::Rename { from: s.source, to: s.old_path },
        ),
        _ => false,
    }
}

/// The record after the source was renamed aside.
pub open spec fn renamed_job(s: MigrationRun) -> PendingJob {
    PendingJob { stage: MigrationStage::SourceRenamed, renamed_source_path: Some(s.old_path), ..s.job }
}

/// Step from `AwaitSourceRenamed`: on failure (a fresh migration) the final
/// directory goes back to the temporary name and the journal back to
/// `Copied`, then the lock holders are looked up.
pub open spec fn next_source_renamed(s: MigrationRun, ev: RunEvent, t: MigrationRun, r: RunStep) -> bool {
    match ev {
        RunEvent::Done(Err(e)) => {
            let back = PendingJob { stage: MigrationStage::Copied, target_path: s.tmp_path, ..s.job };
            moves(
                MigrationRun { failure: e, job: if s.resuming { s.job } else { back }, ..s },
                t,
                r,
                RunPhase::AwaitLocks,
                if s.resuming {
                    seq![]
                } else {
                    seq![Cleanup::Rename { from: s.final_path, to: s.tmp_path }, Cleanup::WriteJob(back)]
                },
                seq![],
                RunAction::DetectLocks { dir: s.source },
            )
        },
        RunEvent::Done(Ok(())) => moves(
            MigrationRun { job: renamed_job(s), ..s },
            t,
            r,
            RunPhase::AwaitSourceRenamedWritten,
            seq![],
            seq![],
            RunAction::WriteJob { job: renamed_job(s) },
        ),
        _ => false,
    }
}

/// Step from `AwaitLocks`.
pub open spec fn next_locks(s: MigrationRun, ev: RunEvent, t: MigrationRun, r: RunStep) -> bool {
    match ev {
        RunEvent::Locks(l) => if s.resuming {
            fails(s, t, r, seq![], seq![], RunError::ResumeSourceRenameFailed { error: s.failure, locks: l })
        } else {
            fails(s, t, r, seq![], seq![], RunError::SourceRenameFailed { error: s.failure, locks: l })
        },
        _ => false,
    }
}

/// Step from `AwaitSourceRenamedWritten`: the junction is made.
pub open spec fn next_renamed_written(s: MigrationRun, ev: RunEvent, t: MigrationRun, r: RunStep) -> bool {
    match ev {
        RunEvent::Done(Err(e)) => fails(s, t, r, seq![], seq![], RunError::Io(e)),
        RunEvent::Done(Ok(())) => moves(
            s,
            t,
            r,
            RunPhase::AwaitJunction,
            seq![],
            seq![if s.resuming { Notice::ResumeLinking } else { totals_note(s, 4) }],
            RunAction::CreateJunction { link: s.source, target: s.final_path },
        ),
        _ => false,
    }
}

/// The record after the junction was made.
pub open spec fn linked_job(s: MigrationRun) -> PendingJob {
    PendingJob { stage: MigrationStage::Linked, ..s.job }
}

/// Step from `AwaitJunction`: on failure the renamed source is renamed back.
pub open spec fn next_junction(s: MigrationRun, ev: RunEvent, t: MigrationRun, r: RunStep) -> bool {
    match ev {
        RunEvent::Done(Err(e)) => moves(
            MigrationRun { failure: e, ..s },
            t,
            r,
            RunPhase::AwaitRestore,
            seq![],
            seq![],
            RunAction::Rename { from: s.old_path, to: s.source },
        ),
        RunEvent::Done(Ok(())) => moves(
            MigrationRun { job: linked_job(s), ..s },
            t,
            r,
            RunPhase::AwaitLinkedWritten,
            seq![],
            seq![],
            RunAction::WriteJob { job: linked_job(s) },
        ),
        _ => false,
    }
}

/// The junction error of this run.
pub open spec fn junction_error(s: MigrationRun) -> RunError {
    if s.resuming {
        RunError::ResumeJunctionFailed { error: s.failure, source: s.source, final_target: s.final_path }
    } else {
        RunError::JunctionFailed { error: s.failure, source: s.source, final_target: s.final_path }
    }
}

/// Step from `AwaitRestore`: when the source is back, the journal goes back
/// to `Finalized`.
pub open spec fn next_restore(s: MigrationRun, ev: RunEvent, t: MigrationRun, r: RunStep) -> bool {
    match ev {
        RunEvent::Done(Ok(())) => {
            let back = PendingJob { stage: MigrationStage::Finalized, renamed_source_path: None, ..s.job };
            fails(MigrationRun { job: back, ..s }, t, r, seq![Cleanup::WriteJob(back)], seq![], junction_error(s))
        },
        RunEvent::Done(Err(_)) => fails(s, t, r, seq![], seq![], junction_error(s)),
        _ => false,
    }
}

/// Step from `AwaitLinkedWritten`: done, waiting for the user.
pub open spec fn next_linked_written(s: MigrationRun, ev: RunEvent, t: MigrationRun, r: RunStep) -> bool {
    match ev {
        RunEvent::Done(Err(e)) => fails(s, t, r, seq![], seq![], RunError::Io(e)),
        RunEvent::Done(Ok(())) => {
            &&& t == (MigrationRun { phase: RunPhase::Finished, ..s })
            &&& step_is(
                r,
                seq![],
                seq![Notice::AwaitingConfirmation {
                    total_files: s.total_files,
                    total_size: s.total_size,
                    source_path: s.source,
                    renamed_source_path: s.old_path,
                    final_target_path: s.final_path,
                }],
                RunAction::Finish(Ok(())),
            )
        },
        _ => false,
    }
}

/// Resume: step from `ResumeSource`.
pub open spec fn next_resume_source(s: MigrationRun, ev: RunEvent, t: MigrationRun, r: RunStep) -> bool {
    match ev {
        RunEvent::Exists(false) => fails(s, t, r, seq![Cleanup::ClearJob], seq![], RunError::ResumeSourceMissing),
        RunEvent::Exists(true) => if s.job.stage == MigrationStage::Copied {
            moves(s, t, r, RunPhase::ResumeTmp, seq![], seq![], RunAction::PathExists { path: s.tmp_path })
        } else {
            moves(s, t, r, RunPhase::ResumeFinal, seq![], seq![], RunAction::PathExists { path: s.final_path })
        },
        _ => false,
    }
}

/// Resume: step from `ResumeTmp`: the saved manifest is used when present.
pub open spec fn next_resume_tmp(s: MigrationRun, ev: RunEvent, t: MigrationRun, r: RunStep) -> bool {
    match ev {
        RunEvent::Exists(false) => fails(s, t, r, seq![Cleanup::ClearJob], seq![], RunError::ResumeTmpMissing),
        RunEvent::Exists(true) => match s.job.manifest_path {
            Some(mp) => moves(s, t, r, RunPhase::ResumeManifestExists, seq![], seq![Notice::ResumeVerifying], RunAction::PathExists { path: mp }),
            None => moves(s, t, r, RunPhase::ResumeSourceManifest, seq![], seq![Notice::ResumeVerifying], RunAction::GenerateManifest { root: s.source }),
        },
        _ => false,
    }
}

/// Resume: step from `ResumeManifestExists`.
pub open spec fn next_resume_manifest_exists(s: MigrationRun, ev: RunEvent, t: MigrationRun, r: RunStep) -> bool {
    match ev {
        RunEvent::Exists(true) => moves(s, t, r, RunPhase::ResumeLoaded, seq![], seq![], RunAction::LoadManifest { path: s.job.manifest_path->0 }),
        RunEvent::Exists(false) => moves(s, t, r, RunPhase::ResumeSourceManifest, seq![], seq![], RunAction::GenerateManifest { root: s.source }),
        _ => false,
    }
}

/// Resume: step from `ResumeLoaded`.
pub open spec fn next_resume_loaded(s: MigrationRun, ev: RunEvent, t: MigrationRun, r: RunStep) -> bool {
    match ev {
        RunEvent::Manifest(Err(e)) => fails(s, t, r, seq![], seq![], RunError::ManifestLoadFailed(e)),
        RunEvent::Manifest(Ok(m)) => moves(MigrationRun { source_manifest: m, ..s }, t, r, RunPhase::ResumeTmpManifest, seq![], seq![], RunAction::GenerateManifest { root: s.tmp_path }),
        _ => false,
    }
}

/// Resume: step from `ResumeSourceManifest`.
pub open spec fn next_resume_source_manifest(s: MigrationRun, ev: RunEvent, t: MigrationRun, r: RunStep) -> bool {
    match ev {
        RunEvent::Manifest(Err(e)) => fails(s, t, r, seq![], seq![], RunError::Io(e)),
        RunEvent::Manifest(Ok(m)) => moves(MigrationRun { source_manifest: m, ..s }, t, r, RunPhase::ResumeTmpManifest, seq![], seq![], RunAction::GenerateManifest { root: s.tmp_path }),
        _ => false,
    }
}

/// The cleanup of a resumed copy found incomplete.
pub open spec fn discard_resumed(s: MigrationRun) -> Seq<Cleanup> {
    match s.job.manifest_path {
        Some(mp) => seq![Cleanup::RemoveTree(s.tmp_path), Cleanup::ClearJob, Cleanup::RemoveFile(mp)],
        None => seq![Cleanup::RemoveTree(s.tmp_path), Cleanup::ClearJob],
    }
}

/// Resume: step from `ResumeTmpManifest`: the kept copy must match.
pub open spec fn next_resume_tmp_manifest(s: MigrationRun, ev: RunEvent, t: MigrationRun, r: RunStep) -> bool {
    match ev {
        RunEvent::Manifest(Err(e)) => fails(s, t, r, seq![], seq![], RunError::Io(e)),
        RunEvent::Manifest(Ok(m)) => match manifest_mismatch(s.source_manifest, m) {
            None => moves(MigrationRun { target_manifest: m, ..s }, t, r, RunPhase::AwaitTmpRenamed, seq![], seq![Notice::ResumeActivating], RunAction::Rename { from: s.tmp_path, to: s.final_path }),
            Some(reason) => {
                &&& t == (MigrationRun { phase: RunPhase::Finished, target_manifest: m, ..s })
                &&& r.cleanup@ == discard_resumed(s)
                &&& r.notices@.len() == 0
                &&& r.action matches RunAction::Finish(Err(RunError::ResumeIncomplete(x)))
                &&& x@ == reason
            },
        },
        _ => false,
    }
}

/// Resume: step from `ResumeFinalizedWritten`.
pub open spec fn next_resume_finalized_written(s: MigrationRun, ev: RunEvent, t: MigrationRun, r: RunStep) -> bool {
    match ev {
        RunEvent::Done(Err(e)) => fails(s, t, r, seq![], seq![], RunError::Io(e)),
        RunEvent::Done(Ok(())) => moves(s, t, r, RunPhase::ResumeFinal, seq![], seq![], RunAction::PathExists { path: s.final_path }),
        _ => false,
    }
}

/// Resume: step from `ResumeFinal`.
pub open spec fn next_resume_final(s: MigrationRun, ev: RunEvent, t: MigrationRun, r: RunStep) -> bool {
    match ev {
        RunEvent::Exists(false) => fails(s, t, r, seq![Cleanup::ClearJob], seq![], RunError::ResumeFinalMissing(s.final_path)),
        RunEvent::Exists(true) => moves(s, t, r, RunPhase::ResumeSourceProbe, seq![], seq![], RunAction::ProbeSource { source: s.source, old: s.old_path }),
        _ => false,
    }
}

/// Resume: step from `ResumeSourceProbe`.
pub open spec fn next_resume_source_probe(s: MigrationRun, ev: RunEvent, t: MigrationRun, r: RunStep) -> bool {
    match ev {
        RunEvent::Source(p) => if p.is_junction {
            fails(s, t, r, seq![Cleanup::ClearJob], seq![], RunError::ResumeAlreadyJunction)
        } else if p.old_exists {
            fails(s, t, r, seq![Cleanup::ClearJob], seq![], RunError::ResumeOldPathExists(s.old_path))
        } else {
            moves(s, t, r, RunPhase::AwaitSourceRenamed, seq![], seq![Notice::ResumeRenamingSource], RunAction::Rename { from: s.source, to: s.old_path })
        },
        _ => false,
    }
}

/// The transition relation of a migration run: from state `s`, outcome
/// `ev` leads to state `t` and step `r`.
pub open spec fn run_next(s: MigrationRun, ev: RunEvent, t: MigrationRun, r: RunStep) -> bool {
    match s.phase {
        RunPhase::Start => next_start(s, t, r),
        RunPhase::AwaitJob => next_job(s, ev, t, r),
        RunPhase::AwaitSourceProbe => next_source_probe(s, ev, t, r),
        RunPhase::AwaitNtfs => next_ntfs(s, ev, t, r),
        RunPhase::AwaitSpace => next_space(s, ev, t, r),
        RunPhase::AwaitScan => next_scan(s, ev, t, r),
        RunPhase::AwaitTargets => next_targets(s, ev, t, r),
        RunPhase::AwaitSourceManifest => next_source_manifest(s, ev, t, r),
        RunPhase::AwaitLocation => next_location(s, ev, t, r),
        RunPhase::AwaitManifestSaved => next_manifest_saved(s, ev, t, r),
        RunPhase::AwaitInitiatedWritten => next_initiated_written(s, ev, t, r),
        RunPhase::AwaitCopy => next_copy(s, ev, t, r),
        RunPhase::AwaitTargetManifest => next_target_manifest(s, ev, t, r),
        RunPhase::AwaitFresh => next_fresh(s, ev, t, r),
        RunPhase::AwaitFreshSaved => next_fresh_saved(s, ev, t, r),
        RunPhase::AwaitRecopy => next_recopy(s, ev, t, r),
        RunPhase::AwaitRecheck => next_recheck(s, ev, t, r),
        RunPhase::AwaitSyncedSaved => next_synced_saved(s, ev, t, r),
        RunPhase::AwaitCopiedWritten => next_copied_written(s, ev, t, r),
        RunPhase::AwaitTmpRenamed => next_tmp_renamed(s, ev, t, r),
        RunPhase::AwaitFinalizedWritten => next_finalized_written(s, ev, t, r),
        RunPhase::AwaitSourceRenamed => next_source_renamed(s, ev, t, r),
        RunPhase::AwaitLocks => next_locks(s, ev, t, r),
        RunPhase::AwaitSourceRenamedWritten => next_renamed_written(s, ev, t, r),
        RunPhase::AwaitJunction => next_junction(s, ev, t, r),
        RunPhase::AwaitRestore => next_restore(s, ev, t, r),
        RunPhase::AwaitLinkedWritten => next_linked_written(s, ev, t, r),
        RunPhase::ResumeSource => next_resume_source(s, ev, t, r),
        RunPhase::ResumeTmp => next_resume_tmp(s, ev, t, r),
        RunPhase::ResumeManifestExists => next_resume_manifest_exists(s, ev, t, r),
        RunPhase::ResumeLoaded => next_resume_loaded(s, ev, t, r),
        RunPhase::ResumeSourceManifest => next_resume_source_manifest(s, ev, t, r),
        RunPhase::ResumeTmpManifest => next_resume_tmp_manifest(s, ev, t, r),
        RunPhase::ResumeFinalizedWritten => next_resume_finalized_written(s, ev, t, r),
        RunPhase::ResumeFinal => next_resume_final(s, ev, t, r),
        RunPhase::ResumeSourceProbe => next_resume_source_probe(s, ev, t, r),
        RunPhase::Finished => false,
    }
}

/// The outcome kind each phase waits for.
pub open spec fn expects(s: MigrationRun, ev: RunEvent) -> bool {
    match s.phase {
        RunPhase::Start => true,
        RunPhase::AwaitJob => ev is Job,
        RunPhase::AwaitSourceProbe | RunPhase::ResumeSourceProbe => ev is Source,
        RunPhase::AwaitNtfs => ev is Ntfs,
        RunPhase::AwaitSpace => ev is Space,
        RunPhase::AwaitScan => ev is Scan && (ev matches RunEvent::Scan(Ok(t)) ==> safe_margin_spec(
            t.total_size as nat,
        ) <= u64::MAX),
        RunPhase::AwaitTargets => ev is Targets,
        RunPhase::AwaitSourceManifest | RunPhase::AwaitTargetManifest | RunPhase::AwaitFresh
        | RunPhase::AwaitRecheck | RunPhase::ResumeLoaded | RunPhase::ResumeSourceManifest
        | RunPhase::ResumeTmpManifest => ev is Manifest,
        RunPhase::AwaitLocation => ev is Location,
        RunPhase::AwaitLocks => ev is Locks,
        RunPhase::ResumeSource | RunPhase::ResumeTmp | RunPhase::ResumeManifestExists
        | RunPhase::ResumeFinal => ev is Exists,
        RunPhase::Finished => false,
        _ => ev is Done,
    }
}

/// The state a run starts in, for the source directory `source` (whose
/// last component is `name`) and the target directory `target_drive`.
pub open spec fn initial_run(
    r: MigrationRun,
    source: Seq<char>,
    name: Seq<char>,
    target_drive: Seq<char>,
    job_random: Seq<u32>,
    manifest_random: Seq<u32>,
) -> bool {
    &&& r.phase == RunPhase::Start
    &&& !r.resuming
    &&& r.source@ == source
    &&& r.target_drive@ == target_drive
    &&& r.target_letter@ == drive_letter_spec(target_drive)
    &&& r.same_drive == eq_ignore_ascii_case_spec(drive_letter_spec(source), drive_letter_spec(target_drive))
    &&& r.ntfs_root@ == ntfs_root_spec(target_drive)
    &&& r.space_root@ == space_root_spec(target_drive)
    &&& r.old_path@ == old_path_spec(source)
    &&& r.final_path@ == join_spec(target_drive, name)
    &&& r.tmp_path@ == join_spec(target_drive, ".tmp_"@ + name)
    &&& r.job_id@ == uuid_text(uuid_bytes(job_random))
    &&& r.manifest_file_name@ == "manifest_"@ + uuid_text(uuid_bytes(manifest_random)) + ".json"@
    &&& r.total_files == 0
    &&& r.total_size == 0
    &&& r.retry == 0
}


// ---------------------------------------------------------------- exec

fn seq0<T>() -> (r: Vec<T>)
    ensures
        r@ == Seq::<T>::empty(),
{
    Vec::new()
}

fn seq1<T>(a: T) -> (r: Vec<T>)
    ensures
        r@ == seq![a],
{
    let mut v = Vec::new();
    v.push(a);
    v
}

fn seq2<T>(a: T, b: T) -> (r: Vec<T>)
    ensures
        r@ == seq![a, b],
{
    let mut v = Vec::new();
    v.push(a);
    v.push(b);
    v
}

fn seq3<T>(a: T, b: T, c: T) -> (r: Vec<T>)
    ensures
        r@ == seq![a, b, c],
{
    let mut v = Vec::new();
    v.push(a);
    v.push(b);
    v.push(c);
    v
}

fn step_of(cleanup: Vec<Cleanup>, notices: Vec<Notice>, action: RunAction) -> (r: RunStep)
    ensures
        r.cleanup@ == cleanup@,
        r.notices@ == notices@,
        r.action == action,
{
    RunStep { cleanup, notices, action }
}

impl MigrationRun {
    /// A migration of the directory `source` (last component `name`) into
    /// the directory `target_drive`, with 16 random numbers for each of the
    /// job identifier and the manifest file name.
    pub fn execute_migration(
        source: String,
        name: String,
        target_drive: String,
        job_random: [u32; 16],
        manifest_random: [u32; 16],
    ) -> (r: MigrationRun)
        requires
            drive_text_ok(target_drive@),
        ensures
            initial_run(r, source@, name@, target_drive@, job_random@, manifest_random@),
            r.wf(),
            run_inv(r),
    {
        let target_letter = drive_letter(target_drive.as_str());
        let source_letter = drive_letter(source.as_str());
        let same_drive = eq_ignore_ascii_case(source_letter.as_str(), target_letter.as_str());
        let nroot = ntfs_root(target_drive.as_str());
        let sroot = space_root(target_drive.as_str());
        let old_path = make_old_path(source.as_str());
        let final_path = join_path(target_drive.as_str(), name.as_str());
        let tmp_name = concat2(".tmp_", name.as_str());
        let tmp_path = join_path(target_drive.as_str(), tmp_name.as_str());
        let job_id = uuid_v4_like(&job_random);
        let manifest_file_name = concat3("manifest_", uuid_v4_like(&manifest_random).as_str(), ".json");
        MigrationRun {
            phase: RunPhase::Start,
            resuming: false,
            source,
            target_drive,
            target_letter,
            same_drive,
            ntfs_root: nroot,
            space_root: sroot,
            old_path,
            final_path,
            tmp_path,
            job_id,
            manifest_file_name,
            manifest_path: String::new(),
            old_exists: false,
            free_space: 0,
            safe_margin: 0,
            total_files: 0,
            total_size: 0,
            source_manifest: Manifest::empty(),
            target_manifest: Manifest::empty(),
            fresh_manifest: Manifest::empty(),
            job: PendingJob {
                job_id: String::new(),
                source_path: String::new(),
                target_path: String::new(),
                final_target_path: String::new(),
                stage: MigrationStage::Initiated,
                manifest_path: None,
                renamed_source_path: None,
            },
            retry: 0,
            failure: String::new(),
        }
    }

    fn fail(&mut self, cleanup: Vec<Cleanup>, notices: Vec<Notice>, e: RunError) -> (r: RunStep)
        ensures
            fails(*old(self), *final(self), r, cleanup@, notices@, e),
    {
        self.phase = RunPhase::Finished;
        step_of(cleanup, notices, RunAction::Finish(Err(e)))
    }

    fn go(&mut self, p: RunPhase, cleanup: Vec<Cleanup>, notices: Vec<Notice>, a: RunAction) -> (r: RunStep)
        ensures
            moves(*old(self), *final(self), r, p, cleanup@, notices@, a),
    {
        self.phase = p;
        step_of(cleanup, notices, a)
    }

    fn note(&self, k: u8) -> (r: Notice)
        requires
            k <= 4,
        ensures
            r == totals_note(*self, k as int),
    {
        let f = self.total_files;
        let z = self.total_size;
        if k == 0 {
            Notice::Verifying { total_files: f, total_size: z }
        } else if k == 1 {
            Notice::Verified { total_files: f, total_size: z }
        } else if k == 2 {
            Notice::ActivatingTarget { total_files: f, total_size: z }
        } else if k == 3 {
            Notice::RenamingSource { total_files: f, total_size: z }
        } else {
            Notice::Linking { total_files: f, total_size: z }
        }
    }

    fn on_job(&mut self, ev: RunEvent) -> (r: RunStep)
        requires
            ev is Job,
        ensures
            next_job(*old(self), ev, *final(self), r),
    {
        match ev {
            RunEvent::Job(Ok(Some(j))) => {
                if j.source_path == self.source && (j.stage == MigrationStage::Copied || j.stage
                    == MigrationStage::Finalized) {
                    self.phase = RunPhase::ResumeSource;
                    self.resuming = true;
                    self.final_path = j.final_target_path.clone();
                    self.tmp_path = j.target_path.clone();
                    self.job = j;
                    let a = RunAction::PathExists { path: self.source.clone() };
                    step_of(seq0(), seq1(Notice::Resuming), a)
                } else {
                    let a = RunAction::ProbeSource { source: self.source.clone(), old: self.old_path.clone() };
                    self.go(RunPhase::AwaitSourceProbe, seq0(), seq0(), a)
                }
            },
            _ => {
                let a = RunAction::ProbeSource { source: self.source.clone(), old: self.old_path.clone() };
                self.go(RunPhase::AwaitSourceProbe, seq0(), seq0(), a)
            },
        }
    }

    fn on_source_probe(&mut self, ev: RunEvent) -> (r: RunStep)
        requires
            ev is Source,
        ensures
            next_source_probe(*old(self), ev, *final(self), r),
    {
        match ev {
            RunEvent::Source(p) => {
                if !p.exists {
                    let e = RunError::SourceMissing(self.source.clone());
                    self.fail(seq0(), seq0(), e)
                } else if !p.is_dir {
                    let e = RunError::NotADirectory(self.source.clone());
                    self.fail(seq0(), seq0(), e)
                } else if p.is_junction {
                    let e = RunError::AlreadyJunction(self.source.clone());
                    self.fail(seq0(), seq0(), e)
                } else if self.same_drive {
                    self.fail(seq0(), seq0(), RunError::SameDrive)
                } else if !p.has_file_name {
                    let e = RunError::DriveRoot(self.source.clone());
                    self.fail(seq0(), seq0(), e)
                } else {
                    self.old_exists = p.old_exists;
                    let a = RunAction::CheckNtfs { root: self.ntfs_root.clone() };
                    self.go(RunPhase::AwaitNtfs, seq0(), seq0(), a)
                }
            },
            _ => { proof { assert(false); } self.fail(seq0(), seq0(), RunError::SameDrive) },
        }
    }

    fn on_ntfs(&mut self, ev: RunEvent) -> (r: RunStep)
        requires
            ev is Ntfs,
        ensures
            next_ntfs(*old(self), ev, *final(self), r),
    {
        match ev {
            RunEvent::Ntfs(Ok(true)) => {
                if self.old_exists {
                    let e = RunError::OldPathExists(self.old_path.clone());
                    self.fail(seq0(), seq0(), e)
                } else {
                    let a = RunAction::FreeSpace { root: self.space_root.clone() };
                    self.go(RunPhase::AwaitSpace, seq0(), seq0(), a)
                }
            },
            RunEvent::Ntfs(Ok(false)) => {
                let e = RunError::NotNtfs(self.target_letter.clone());
                self.fail(seq0(), seq0(), e)
            },
            RunEvent::Ntfs(Err(e)) => self.fail(seq0(), seq0(), RunError::NtfsQueryFailed(e)),
            _ => { proof { assert(false); } self.fail(seq0(), seq0(), RunError::SameDrive) },
        }
    }

    fn on_space(&mut self, ev: RunEvent) -> (r: RunStep)
        requires
            ev is Space,
        ensures
            next_space(*old(self), ev, *final(self), r),
    {
        match ev {
            RunEvent::Space(Ok(free)) => {
                self.free_space = free;
                let a = RunAction::PreScan { source: self.source.clone() };
                self.go(RunPhase::AwaitScan, seq0(), seq1(Notice::PreScanning), a)
            },
            RunEvent::Space(Err(e)) => self.fail(seq0(), seq0(), RunError::SpaceQueryFailed(e)),
            _ => { proof { assert(false); } self.fail(seq0(), seq0(), RunError::SameDrive) },
        }
    }

    fn on_scan(&mut self, ev: RunEvent) -> (r: RunStep)
        requires
            ev is Scan,
            ev matches RunEvent::Scan(Ok(t)) ==> safe_margin_spec(t.total_size as nat) <= u64::MAX,
        ensures
            next_scan(*old(self), ev, *final(self), r),
    {
        match ev {
            RunEvent::Scan(Err(e)) => self.fail(seq0(), seq0(), RunError::Io(e)),
            RunEvent::Scan(Ok(totals)) => {
                let margin = match safe_margin(totals.total_size) {
                    Some(m) => m,
                    None => {
                        proof {
                            assert(false);
                        }
                        0
                    },
                };
                self.total_files = totals.total_files;
                self.total_size = totals.total_size;
                self.safe_margin = margin;
                let note = Notice::PreScanned { total_files: totals.total_files, total_size: totals.total_size };
                if totals.total_files == 0 {
                    self.fail(seq0(), seq0(), RunError::EmptySource)
                } else if self.free_space < margin {
                    let e = RunError::InsufficientSpace { free: self.free_space, required: margin };
                    self.fail(seq0(), seq1(note), e)
                } else {
                    let a = RunAction::ProbeTargets { final_path: self.final_path.clone(), tmp_path: self.tmp_path.clone() };
                    self.go(RunPhase::AwaitTargets, seq0(), seq1(note), a)
                }
            },
            _ => { proof { assert(false); } self.fail(seq0(), seq0(), RunError::SameDrive) },
        }
    }

    fn on_targets(&mut self, ev: RunEvent) -> (r: RunStep)
        requires
            ev is Targets,
        ensures
            next_targets(*old(self), ev, *final(self), r),
    {
        match ev {
            RunEvent::Targets(p) => {
                if p.final_exists {
                    let e = RunError::FinalExists(self.final_path.clone());
                    self.fail(seq0(), seq0(), e)
                } else {
                    let c = if p.tmp_exists { seq1(Cleanup::RemoveTree(self.tmp_path.clone())) } else { seq0() };
                    let a = RunAction::GenerateManifest { root: self.source.clone() };
                    self.go(RunPhase::AwaitSourceManifest, c, seq1(Notice::GeneratingManifest), a)
                }
            },
            _ => { proof { assert(false); } self.fail(seq0(), seq0(), RunError::SameDrive) },
        }
    }

    fn on_source_manifest(&mut self, ev: RunEvent) -> (r: RunStep)
        requires
            ev is Manifest,
        ensures
            next_source_manifest(*old(self), ev, *final(self), r),
    {
        match ev {
            RunEvent::Manifest(Err(e)) => self.fail(seq0(), seq0(), RunError::Io(e)),
            RunEvent::Manifest(Ok(m)) => {
                self.source_manifest = m;
                let a = RunAction::LocateManifest { file_name: self.manifest_file_name.clone() };
                self.go(RunPhase::AwaitLocation, seq0(), seq0(), a)
            },
            _ => { proof { assert(false); } self.fail(seq0(), seq0(), RunError::SameDrive) },
        }
    }

    fn on_location(&mut self, ev: RunEvent) -> (r: RunStep)
        requires
            ev is Location,
        ensures
            next_location(*old(self), ev, *final(self), r),
    {
        match ev {
            RunEvent::Location(Err(e)) => self.fail(seq0(), seq0(), RunError::Io(e)),
            RunEvent::Location(Ok(dir)) => {
                self.manifest_path = join_path(dir.as_str(), self.manifest_file_name.as_str());
                let a = RunAction::SaveManifest {
                    manifest: self.source_manifest.duplicate(),
                    path: self.manifest_path.clone(),
                };
                self.go(RunPhase::AwaitManifestSaved, seq0(), seq0(), a)
            },
            _ => { proof { assert(false); } self.fail(seq0(), seq0(), RunError::SameDrive) },
        }
    }

    fn on_manifest_saved(&mut self, ev: RunEvent) -> (r: RunStep)
        requires
            ev is Done,
        ensures
            next_manifest_saved(*old(self), ev, *final(self), r),
    {
        match ev {
            RunEvent::Done(Err(e)) => self.fail(seq0(), seq0(), RunError::Io(e)),
            RunEvent::Done(Ok(())) => {
                let job = PendingJob {
                    job_id: self.job_id.clone(),
                    source_path: self.source.clone(),
                    target_path: self.tmp_path.clone(),
                    final_target_path: self.final_path.clone(),
                    stage: MigrationStage::Initiated,
                    manifest_path: Some(self.manifest_path.clone()),
                    renamed_source_path: None,
                };
                self.job = job.duplicate();
                self.go(RunPhase::AwaitInitiatedWritten, seq0(), seq0(), RunAction::WriteJob { job })
            },
            _ => { proof { assert(false); } self.fail(seq0(), seq0(), RunError::SameDrive) },
        }
    }

    fn on_initiated_written(&mut self, ev: RunEvent) -> (r: RunStep)
        requires
            ev is Done,
        ensures
            next_initiated_written(*old(self), ev, *final(self), r),
    {
        match ev {
            RunEvent::Done(Err(e)) => self.fail(seq0(), seq0(), RunError::Io(e)),
            RunEvent::Done(Ok(())) => {
                let n = Notice::CopyStarted { total_files: self.total_files, total_size: self.total_size };
                let a = RunAction::CopyTree {
                    from: self.source.clone(),
                    to: self.tmp_path.clone(),
                    total_size: self.total_size,
                    total_files: self.total_files,
                };
                self.go(RunPhase::AwaitCopy, seq0(), seq1(n), a)
            },
            _ => { proof { assert(false); } self.fail(seq0(), seq0(), RunError::SameDrive) },
        }
    }

    fn discard_copy_exec(&self) -> (r: Vec<Cleanup>)
        ensures
            r@ == discard_copy(*self),
    {
        seq3(Cleanup::RemoveTree(self.tmp_path.clone()), Cleanup::ClearJob, Cleanup::RemoveFile(self.manifest_path.clone()))
    }

    fn on_copy(&mut self, ev: RunEvent) -> (r: RunStep)
        requires
            ev is Done,
        ensures
            next_copy(*old(self), ev, *final(self), r),
    {
        match ev {
            RunEvent::Done(Err(e)) => {
                let c = self.discard_copy_exec();
                self.fail(c, seq0(), RunError::CopyFailed(e))
            },
            RunEvent::Done(Ok(())) => {
                let n = self.note(0);
                let a = RunAction::GenerateManifest { root: self.tmp_path.clone() };
                self.go(RunPhase::AwaitTargetManifest, seq0(), seq1(n), a)
            },
            _ => { proof { assert(false); } self.fail(seq0(), seq0(), RunError::SameDrive) },
        }
    }

    fn to_copied_exec(&mut self, n: Vec<Notice>) -> (r: RunStep)
        ensures
            to_copied(*old(self), *final(self), r, n@),
    {
        self.job.stage = MigrationStage::Copied;
        let job = self.job.duplicate();
        self.go(RunPhase::AwaitCopiedWritten, seq0(), n, RunAction::WriteJob { job })
    }

    fn on_target_manifest(&mut self, ev: RunEvent) -> (r: RunStep)
        requires
            ev is Manifest,
        ensures
            next_target_manifest(*old(self), ev, *final(self), r),
    {
        match ev {
            RunEvent::Manifest(Err(e)) => self.fail(seq0(), seq0(), RunError::Io(e)),
            RunEvent::Manifest(Ok(m)) => {
                let check = self.source_manifest.verify_against(&m);
                self.target_manifest = m;
                match check {
                    Ok(()) => {
                        let n = self.note(1);
                        self.to_copied_exec(seq1(n))
                    },
                    Err(reason) => {
                        self.retry = 0;
                        let a = RunAction::GenerateManifest { root: self.source.clone() };
                        self.go(RunPhase::AwaitFresh, seq0(), seq1(Notice::SourceChanged { reason }), a)
                    },
                }
            },
            _ => { proof { assert(false); } self.fail(seq0(), seq0(), RunError::SameDrive) },
        }
    }

    fn on_fresh(&mut self, ev: RunEvent) -> (r: RunStep)
        requires
            ev is Manifest,
            old(self).retry < 2,
        ensures
            next_fresh(*old(self), ev, *final(self), r),
            final(self).retry < 2,
    {
        match ev {
            RunEvent::Manifest(Err(e)) => self.fail(seq0(), seq0(), RunError::Io(e)),
            RunEvent::Manifest(Ok(f)) => {
                let d = find_manifest_diff_files(&f, &self.target_manifest);
                self.fresh_manifest = f;
                if d.len() == 0 {
                    let a = RunAction::SaveManifest { manifest: self.fresh_manifest.duplicate(), path: self.manifest_path.clone() };
                    self.go(RunPhase::AwaitFreshSaved, seq0(), seq0(), a)
                } else {
                    let n = Notice::Recopying { count: d.len(), attempt: self.retry + 1 };
                    let a = RunAction::CopyFiles { from_root: self.source.clone(), to_root: self.tmp_path.clone(), relative_paths: d };
                    self.go(RunPhase::AwaitRecopy, seq0(), seq1(n), a)
                }
            },
            _ => { proof { assert(false); } self.fail(seq0(), seq0(), RunError::SameDrive) },
        }
    }

    fn on_fresh_saved(&mut self, ev: RunEvent) -> (r: RunStep)
        requires
            ev is Done,
        ensures
            next_fresh_saved(*old(self), ev, *final(self), r),
    {
        match ev {
            RunEvent::Done(Err(e)) => self.fail(seq0(), seq0(), RunError::Io(e)),
            RunEvent::Done(Ok(())) => {
                let n = self.note(1);
                self.to_copied_exec(seq1(n))
            },
            _ => { proof { assert(false); } self.fail(seq0(), seq0(), RunError::SameDrive) },
        }
    }

    fn on_recopy(&mut self, ev: RunEvent) -> (r: RunStep)
        requires
            ev is Done,
        ensures
            next_recopy(*old(self), ev, *final(self), r),
    {
        match ev {
            RunEvent::Done(Err(e)) => self.fail(seq0(), seq0(), RunError::Io(e)),
            RunEvent::Done(Ok(())) => {
                let a = RunAction::GenerateManifest { root: self.tmp_path.clone() };
                self.go(RunPhase::AwaitRecheck, seq0(), seq0(), a)
            },
            _ => { proof { assert(false); } self.fail(seq0(), seq0(), RunError::SameDrive) },
        }
    }

    fn on_recheck(&mut self, ev: RunEvent) -> (r: RunStep)
        requires
            ev is Manifest,
            old(self).retry < 2,
        ensures
            next_recheck(*old(self), ev, *final(self), r),
            final(self).retry <= 2,
            final(self).phase == RunPhase::AwaitFresh ==> final(self).retry < 2,
    {
        match ev {
            RunEvent::Manifest(Err(e)) => self.fail(seq0(), seq0(), RunError::Io(e)),
            RunEvent::Manifest(Ok(m)) => {
                match self.fresh_manifest.verify_against(&m) {
                    Ok(()) => {
                        let a = RunAction::SaveManifest { manifest: self.fresh_manifest.duplicate(), path: self.manifest_path.clone() };
                        self.go(RunPhase::AwaitSyncedSaved, seq0(), seq0(), a)
                    },
                    Err(reason) => {
                        self.retry = self.retry + 1;
                        if self.retry >= 2 {
                            self.retry = self.retry - 1;
                            let c = self.discard_copy_exec();
                            self.retry = self.retry + 1;
                            self.fail(c, seq0(), RunError::StillChanging(reason))
                        } else {
                            let a = RunAction::GenerateManifest { root: self.source.clone() };
                            self.go(RunPhase::AwaitFresh, seq0(), seq0(), a)
                        }
                    },
                }
            },
            _ => { proof { assert(false); } self.fail(seq0(), seq0(), RunError::SameDrive) },
        }
    }

    fn on_synced_saved(&mut self, ev: RunEvent) -> (r: RunStep)
        requires
            ev is Done,
        ensures
            next_synced_saved(*old(self), ev, *final(self), r),
    {
        match ev {
            RunEvent::Done(Err(e)) => self.fail(seq0(), seq0(), RunError::Io(e)),
            RunEvent::Done(Ok(())) => {
                let n = self.note(1);
                self.to_copied_exec(seq2(Notice::Resynced, n))
            },
            _ => { proof { assert(false); } self.fail(seq0(), seq0(), RunError::SameDrive) },
        }
    }

    fn on_copied_written(&mut self, ev: RunEvent) -> (r: RunStep)
        requires
            ev is Done,
        ensures
            next_copied_written(*old(self), ev, *final(self), r),
    {
        match ev {
            RunEvent::Done(Err(e)) => self.fail(seq0(), seq0(), RunError::Io(e)),
            RunEvent::Done(Ok(())) => {
                let n = self.note(2);
                let a = RunAction::Rename { from: self.tmp_path.clone(), to: self.final_path.clone() };
                self.go(RunPhase::AwaitTmpRenamed, seq0(), seq1(n), a)
            },
            _ => { proof { assert(false); } self.fail(seq0(), seq0(), RunError::SameDrive) },
        }
    }

    fn on_tmp_renamed(&mut self, ev: RunEvent) -> (r: RunStep)
        requires
            ev is Done,
        ensures
            next_tmp_renamed(*old(self), ev, *final(self), r),
    {
        match ev {
            RunEvent::Done(Err(e)) => {
                if self.resuming {
                    let err = RunError::ResumeTargetRenameFailed { error: e, tmp: self.tmp_path.clone(), final_target: self.final_path.clone() };
                    self.fail(seq0(), seq0(), err)
                } else {
                    let err = RunError::TargetRenameFailed { error: e, tmp: self.tmp_path.clone() };
                    self.fail(seq0(), seq0(), err)
                }
            },
            RunEvent::Done(Ok(())) => {
                self.job.stage = MigrationStage::Finalized;
                let job = self.job.duplicate();
                let p = if self.resuming { RunPhase::ResumeFinalizedWritten } else { RunPhase::AwaitFinalizedWritten };
                self.go(p, seq0(), seq0(), RunAction::WriteJob { job })
            },
            _ => { proof { assert(false); } self.fail(seq0(), seq0(), RunError::SameDrive) },
        }
    }

    fn on_finalized_written(&mut self, ev: RunEvent) -> (r: RunStep)
        requires
            ev is Done,
        ensures
            next_finalized_written(*old(self), ev, *final(self), r),
    {
        match ev {
            RunEvent::Done(Err(e)) => self.fail(seq0(), seq0(), RunError::Io(e)),
            RunEvent::Done(Ok(())) => {
                let n = self.note(3);
                let a = RunAction::Rename { from: self.source.clone(), to: self.old_path.clone() };
                self.go(RunPhase::AwaitSourceRenamed, seq0(), seq1(n), a)
            },
            _ => { proof { assert(false); } self.fail(seq0(), seq0(), RunError::SameDrive) },
        }
    }

    fn on_source_renamed(&mut self, ev: RunEvent) -> (r: RunStep)
        requires
            ev is Done,
        ensures
            next_source_renamed(*old(self), ev, *final(self), r),
    {
        match ev {
            RunEvent::Done(Err(e)) => {
                self.failure = e;
                let c = if self.resuming {
                    seq0()
                } else {
                    self.job.stage = MigrationStage::Copied;
                    self.job.target_path = self.tmp_path.clone();
                    seq2(
                        Cleanup::Rename { from: self.final_path.clone(), to: self.tmp_path.clone() },
                        Cleanup::WriteJob(self.job.duplicate()),
                    )
                };
                let a = RunAction::DetectLocks { dir: self.source.clone() };
                self.go(RunPhase::AwaitLocks, c, seq0(), a)
            },
            RunEvent::Done(Ok(())) => {
                self.job.stage = MigrationStage::SourceRenamed;
                self.job.renamed_source_path = Some(self.old_path.clone());
                let job = self.job.duplicate();
                self.go(RunPhase::AwaitSourceRenamedWritten, seq0(), seq0(), RunAction::WriteJob { job })
            },
            _ => { proof { assert(false); } self.fail(seq0(), seq0(), RunError::SameDrive) },
        }
    }

    fn on_locks(&mut self, ev: RunEvent) -> (r: RunStep)
        requires
            ev is Locks,
        ensures
            next_locks(*old(self), ev, *final(self), r),
    {
        match ev {
            RunEvent::Locks(l) => {
                let e = if self.resuming {
                    RunError::ResumeSourceRenameFailed { error: self.failure.clone(), locks: l }
                } else {
                    RunError::SourceRenameFailed { error: self.failure.clone(), locks: l }
                };
                self.fail(seq0(), seq0(), e)
            },
            _ => { proof { assert(false); } self.fail(seq0(), seq0(), RunError::SameDrive) },
        }
    }

    fn on_renamed_written(&mut self, ev: RunEvent) -> (r: RunStep)
        requires
            ev is Done,
        ensures
            next_renamed_written(*old(self), ev, *final(self), r),
    {
        match ev {
            RunEvent::Done(Err(e)) => self.fail(seq0(), seq0(), RunError::Io(e)),
            RunEvent::Done(Ok(())) => {
                let n = if self.resuming { Notice::ResumeLinking } else { self.note(4) };
                let a = RunAction::CreateJunction { link: self.source.clone(), target: self.final_path.clone() };
                self.go(RunPhase::AwaitJunction, seq0(), seq1(n), a)
            },
            _ => { proof { assert(false); } self.fail(seq0(), seq0(), RunError::SameDrive) },
        }
    }

    fn on_junction(&mut self, ev: RunEvent) -> (r: RunStep)
        requires
            ev is Done,
        ensures
            next_junction(*old(self), ev, *final(self), r),
    {
        match ev {
            RunEvent::Done(Err(e)) => {
                self.failure = e;
                let a = RunAction::Rename { from: self.old_path.clone(), to: self.source.clone() };
                self.go(RunPhase::AwaitRestore, seq0(), seq0(), a)
            },
            RunEvent::Done(Ok(())) => {
                self.job.stage = MigrationStage::Linked;
                let job = self.job.duplicate();
                self.go(RunPhase::AwaitLinkedWritten, seq0(), seq0(), RunAction::WriteJob { job })
            },
            _ => { proof { assert(false); } self.fail(seq0(), seq0(), RunError::SameDrive) },
        }
    }

    fn junction_error_exec(&self) -> (r: RunError)
        ensures
            r == junction_error(*self),
    {
        if self.resuming {
            RunError::ResumeJunctionFailed { error: self.failure.clone(), source: self.source.clone(), final_target: self.final_path.clone() }
        } else {
            RunError::JunctionFailed { error: self.failure.clone(), source: self.source.clone(), final_target: self.final_path.clone() }
        }
    }

    fn on_restore(&mut self, ev: RunEvent) -> (r: RunStep)
        requires
            ev is Done,
        ensures
            next_restore(*old(self), ev, *final(self), r),
    {
        let e = self.junction_error_exec();
        match ev {
            RunEvent::Done(Ok(())) => {
                self.job.stage = MigrationStage::Finalized;
                self.job.renamed_source_path = None;
                let c = seq1(Cleanup::WriteJob(self.job.duplicate()));
                self.fail(c, seq0(), e)
            },
            RunEvent::Done(Err(_)) => self.fail(seq0(), seq0(), e),
            _ => { proof { assert(false); } self.fail(seq0(), seq0(), RunError::SameDrive) },
        }
    }

    fn on_linked_written(&mut self, ev: RunEvent) -> (r: RunStep)
        requires
            ev is Done,
        ensures
            next_linked_written(*old(self), ev, *final(self), r),
    {
        match ev {
            RunEvent::Done(Err(e)) => self.fail(seq0(), seq0(), RunError::Io(e)),
            RunEvent::Done(Ok(())) => {
                let n = Notice::AwaitingConfirmation {
                    total_files: self.total_files,
                    total_size: self.total_size,
                    source_path: self.source.clone(),
                    renamed_source_path: self.old_path.clone(),
                    final_target_path: self.final_path.clone(),
                };
                self.fail_ok(seq1(n))
            },
            _ => { proof { assert(false); } self.fail(seq0(), seq0(), RunError::SameDrive) },
        }
    }

    fn fail_ok(&mut self, notices: Vec<Notice>) -> (r: RunStep)
        ensures
            *final(self) == (MigrationRun { phase: RunPhase::Finished, ..*old(self) }),
            step_is(r, seq![], notices@, RunAction::Finish(Ok(()))),
    {
        self.phase = RunPhase::Finished;
        step_of(seq0(), notices, RunAction::Finish(Ok(())))
    }

    fn on_resume_source(&mut self, ev: RunEvent) -> (r: RunStep)
        requires
            ev is Exists,
        ensures
            next_resume_source(*old(self), ev, *final(self), r),
    {
        match ev {
            RunEvent::Exists(false) => self.fail(seq1(Cleanup::ClearJob), seq0(), RunError::ResumeSourceMissing),
            RunEvent::Exists(true) => {
                if self.job.stage == MigrationStage::Copied {
                    let a = RunAction::PathExists { path: self.tmp_path.clone() };
                    self.go(RunPhase::ResumeTmp, seq0(), seq0(), a)
                } else {
                    let a = RunAction::PathExists { path: self.final_path.clone() };
                    self.go(RunPhase::ResumeFinal, seq0(), seq0(), a)
                }
            },
            _ => { proof { assert(false); } self.fail(seq0(), seq0(), RunError::SameDrive) },
        }
    }

    fn on_resume_tmp(&mut self, ev: RunEvent) -> (r: RunStep)
        requires
            ev is Exists,
        ensures
            next_resume_tmp(*old(self), ev, *final(self), r),
    {
        match ev {
            RunEvent::Exists(false) => self.fail(seq1(Cleanup::ClearJob), seq0(), RunError::ResumeTmpMissing),
            RunEvent::Exists(true) => {
                match &self.job.manifest_path {
                    Some(mp) => {
                        let a = RunAction::PathExists { path: mp.clone() };
                        self.go(RunPhase::ResumeManifestExists, seq0(), seq1(Notice::ResumeVerifying), a)
                    },
                    None => {
                        let a = RunAction::GenerateManifest { root: self.source.clone() };
                        self.go(RunPhase::ResumeSourceManifest, seq0(), seq1(Notice::ResumeVerifying), a)
                    },
                }
            },
            _ => { proof { assert(false); } self.fail(seq0(), seq0(), RunError::SameDrive) },
        }
    }

    fn on_resume_manifest_exists(&mut self, ev: RunEvent) -> (r: RunStep)
        requires
            ev is Exists,
            old(self).job.manifest_path is Some,
        ensures
            next_resume_manifest_exists(*old(self), ev, *final(self), r),
    {
        match ev {
            RunEvent::Exists(true) => {
                let path = match &self.job.manifest_path {
                    Some(mp) => mp.clone(),
                    None => String::new(),
                };
                self.go(RunPhase::ResumeLoaded, seq0(), seq0(), RunAction::LoadManifest { path })
            },
            RunEvent::Exists(false) => {
                let a = RunAction::GenerateManifest { root: self.source.clone() };
                self.go(RunPhase::ResumeSourceManifest, seq0(), seq0(), a)
            },
            _ => { proof { assert(false); } self.fail(seq0(), seq0(), RunError::SameDrive) },
        }
    }

    fn on_resume_loaded(&mut self, ev: RunEvent) -> (r: RunStep)
        requires
            ev is Manifest,
        ensures
            next_resume_loaded(*old(self), ev, *final(self), r),
    {
        match ev {
            RunEvent::Manifest(Err(e)) => self.fail(seq0(), seq0(), RunError::ManifestLoadFailed(e)),
            RunEvent::Manifest(Ok(m)) => {
                self.source_manifest = m;
                let a = RunAction::GenerateManifest { root: self.tmp_path.clone() };
                self.go(RunPhase::ResumeTmpManifest, seq0(), seq0(), a)
            },
            _ => { proof { assert(false); } self.fail(seq0(), seq0(), RunError::SameDrive) },
        }
    }

    fn on_resume_source_manifest(&mut self, ev: RunEvent) -> (r: RunStep)
        requires
            ev is Manifest,
        ensures
            next_resume_source_manifest(*old(self), ev, *final(self), r),
    {
        match ev {
            RunEvent::Manifest(Err(e)) => self.fail(seq0(), seq0(), RunError::Io(e)),
            RunEvent::Manifest(Ok(m)) => {
                self.source_manifest = m;
                let a = RunAction::GenerateManifest { root: self.tmp_path.clone() };
                self.go(RunPhase::ResumeTmpManifest, seq0(), seq0(), a)
            },
            _ => { proof { assert(false); } self.fail(seq0(), seq0(), RunError::SameDrive) },
        }
    }

    fn on_resume_tmp_manifest(&mut self, ev: RunEvent) -> (r: RunStep)
        requires
            ev is Manifest,
        ensures
            next_resume_tmp_manifest(*old(self), ev, *final(self), r),
    {
        match ev {
            RunEvent::Manifest(Err(e)) => self.fail(seq0(), seq0(), RunError::Io(e)),
            RunEvent::Manifest(Ok(m)) => {
                let check = self.source_manifest.verify_against(&m);
                self.target_manifest = m;
                match check {
                    Ok(()) => {
                        let a = RunAction::Rename { from: self.tmp_path.clone(), to: self.final_path.clone() };
                        self.go(RunPhase::AwaitTmpRenamed, seq0(), seq1(Notice::ResumeActivating), a)
                    },
                    Err(reason) => {
                        let c = match &self.job.manifest_path {
                            Some(mp) => seq3(Cleanup::RemoveTree(self.tmp_path.clone()), Cleanup::ClearJob, Cleanup::RemoveFile(mp.clone())),
                            None => seq2(Cleanup::RemoveTree(self.tmp_path.clone()), Cleanup::ClearJob),
                        };
                        self.fail(c, seq0(), RunError::ResumeIncomplete(reason))
                    },
                }
            },
            _ => { proof { assert(false); } self.fail(seq0(), seq0(), RunError::SameDrive) },
        }
    }

    fn on_resume_finalized_written(&mut self, ev: RunEvent) -> (r: RunStep)
        requires
            ev is Done,
        ensures
            next_resume_finalized_written(*old(self), ev, *final(self), r),
    {
        match ev {
            RunEvent::Done(Err(e)) => self.fail(seq0(), seq0(), RunError::Io(e)),
            RunEvent::Done(Ok(())) => {
                let a = RunAction::PathExists { path: self.final_path.clone() };
                self.go(RunPhase::ResumeFinal, seq0(), seq0(), a)
            },
            _ => { proof { assert(false); } self.fail(seq0(), seq0(), RunError::SameDrive) },
        }
    }

    fn on_resume_final(&mut self, ev: RunEvent) -> (r: RunStep)
        requires
            ev is Exists,
        ensures
            next_resume_final(*old(self), ev, *final(self), r),
    {
        match ev {
            RunEvent::Exists(false) => {
                let e = RunError::ResumeFinalMissing(self.final_path.clone());
                self.fail(seq1(Cleanup::ClearJob), seq0(), e)
            },
            RunEvent::Exists(true) => {
                let a = RunAction::ProbeSource { source: self.source.clone(), old: self.old_path.clone() };
                self.go(RunPhase::ResumeSourceProbe, seq0(), seq0(), a)
            },
            _ => { proof { assert(false); } self.fail(seq0(), seq0(), RunError::SameDrive) },
        }
    }

    fn on_resume_source_probe(&mut self, ev: RunEvent) -> (r: RunStep)
        requires
            ev is Source,
        ensures
            next_resume_source_probe(*old(self), ev, *final(self), r),
    {
        match ev {
            RunEvent::Source(p) => {
                if p.is_junction {
                    self.fail(seq1(Cleanup::ClearJob), seq0(), RunError::ResumeAlreadyJunction)
                } else if p.old_exists {
                    let e = RunError::ResumeOldPathExists(self.old_path.clone());
                    self.fail(seq1(Cleanup::ClearJob), seq0(), e)
                } else {
                    let a = RunAction::Rename { from: self.source.clone(), to: self.old_path.clone() };
                    self.go(RunPhase::AwaitSourceRenamed, seq0(), seq1(Notice::ResumeRenamingSource), a)
                }
            },
            _ => { proof { assert(false); } self.fail(seq0(), seq0(), RunError::SameDrive) },
        }
    }

    /// The retry counter stays below two while the run can still retry.
    pub open spec fn wf(&self) -> bool {
        &&& self.retry <= 2
        &&& (self.phase == RunPhase::AwaitFresh || self.phase == RunPhase::AwaitRecheck
            || self.phase == RunPhase::AwaitRecopy || self.phase == RunPhase::AwaitFreshSaved) ==> self.retry < 2
        &&& self.phase == RunPhase::ResumeManifestExists ==> self.job.manifest_path is Some
    }

    /// Takes the outcome of the last action and returns the next step.
    pub fn step(&mut self, ev: RunEvent) -> (r: RunStep)
        requires
            old(self).wf(),
            expects(*old(self), ev),
        ensures
            run_next(*old(self), ev, *final(self), r),
            final(self).wf(),
    {
        match self.phase {
            RunPhase::Start => self.go(RunPhase::AwaitJob, seq0(), seq0(), RunAction::ReadJob),
            RunPhase::AwaitJob => self.on_job(ev),
            RunPhase::AwaitSourceProbe => self.on_source_probe(ev),
            RunPhase::AwaitNtfs => self.on_ntfs(ev),
            RunPhase::AwaitSpace => self.on_space(ev),
            RunPhase::AwaitScan => self.on_scan(ev),
            RunPhase::AwaitTargets => self.on_targets(ev),
            RunPhase::AwaitSourceManifest => self.on_source_manifest(ev),
            RunPhase::AwaitLocation => self.on_location(ev),
            RunPhase::AwaitManifestSaved => self.on_manifest_saved(ev),
            RunPhase::AwaitInitiatedWritten => self.on_initiated_written(ev),
            RunPhase::AwaitCopy => self.on_copy(ev),
            RunPhase::AwaitTargetManifest => self.on_target_manifest(ev),
            RunPhase::AwaitFresh => self.on_fresh(ev),
            RunPhase::AwaitFreshSaved => self.on_fresh_saved(ev),
            RunPhase::AwaitRecopy => self.on_recopy(ev),
            RunPhase::AwaitRecheck => self.on_recheck(ev),
            RunPhase::AwaitSyncedSaved => self.on_synced_saved(ev),
            RunPhase::AwaitCopiedWritten => self.on_copied_written(ev),
            RunPhase::AwaitTmpRenamed => self.on_tmp_renamed(ev),
            RunPhase::AwaitFinalizedWritten => self.on_finalized_written(ev),
            RunPhase::AwaitSourceRenamed => self.on_source_renamed(ev),
            RunPhase::AwaitLocks => self.on_locks(ev),
            RunPhase::AwaitSourceRenamedWritten => self.on_renamed_written(ev),
            RunPhase::AwaitJunction => self.on_junction(ev),
            RunPhase::AwaitRestore => self.on_restore(ev),
            RunPhase::AwaitLinkedWritten => self.on_linked_written(ev),
            RunPhase::ResumeSource => self.on_resume_source(ev),
            RunPhase::ResumeTmp => self.on_resume_tmp(ev),
            RunPhase::ResumeManifestExists => self.on_resume_manifest_exists(ev),
            RunPhase::ResumeLoaded => self.on_resume_loaded(ev),
            RunPhase::ResumeSourceManifest => self.on_resume_source_manifest(ev),
            RunPhase::ResumeTmpManifest => self.on_resume_tmp_manifest(ev),
            RunPhase::ResumeFinalizedWritten => self.on_resume_finalized_written(ev),
            RunPhase::ResumeFinal => self.on_resume_final(ev),
            RunPhase::ResumeSourceProbe => self.on_resume_source_probe(ev),
            RunPhase::Finished => { proof { assert(false); } self.fail(seq0(), seq0(), RunError::SameDrive) },
        }
    }
}


// ---------------------------------------------------------------- laws

/// What holds of a run in each phase: the journal stage recorded so far,
/// and, once the copy is decided, that the target has the margin free.
pub open spec fn run_inv(s: MigrationRun) -> bool {
    let p = s.phase;
    &&& (p == RunPhase::AwaitTargets || p == RunPhase::AwaitSourceManifest || p == RunPhase::AwaitLocation
        || p == RunPhase::AwaitManifestSaved || p == RunPhase::AwaitInitiatedWritten
        || p == RunPhase::AwaitCopy) ==> s.free_space >= s.safe_margin && s.total_files > 0
        && s.safe_margin == safe_margin_spec(s.total_size as nat)
    &&& (p == RunPhase::AwaitInitiatedWritten || p == RunPhase::AwaitCopy
        || p == RunPhase::AwaitTargetManifest || p == RunPhase::AwaitFresh
        || p == RunPhase::AwaitFreshSaved || p == RunPhase::AwaitRecopy || p == RunPhase::AwaitRecheck
        || p == RunPhase::AwaitSyncedSaved) ==> s.job.stage == MigrationStage::Initiated
    &&& (p == RunPhase::AwaitCopiedWritten || p == RunPhase::AwaitTmpRenamed || p == RunPhase::ResumeTmp
        || p == RunPhase::ResumeManifestExists || p == RunPhase::ResumeLoaded
        || p == RunPhase::ResumeSourceManifest || p == RunPhase::ResumeTmpManifest)
        ==> s.job.stage == MigrationStage::Copied
    &&& (p == RunPhase::ResumeSource) ==> resumable(s.job)
    &&& (p == RunPhase::AwaitFinalizedWritten || p == RunPhase::ResumeFinalizedWritten
        || p == RunPhase::ResumeFinal || p == RunPhase::ResumeSourceProbe
        || p == RunPhase::AwaitSourceRenamed) ==> s.job.stage == MigrationStage::Finalized
    &&& (p == RunPhase::AwaitSourceRenamedWritten || p == RunPhase::AwaitJunction
        || p == RunPhase::AwaitRestore) ==> s.job.stage == MigrationStage::SourceRenamed
        && s.job.renamed_source_path == Some(s.old_path)
    &&& p == RunPhase::AwaitLinkedWritten ==> s.job.stage == MigrationStage::Linked
        && s.job.renamed_source_path == Some(s.old_path)
    &&& (p == RunPhase::AwaitTmpRenamed && s.resuming) ==> s.job.stage == MigrationStage::Copied
    &&& job_carried(p) ==> s.job.source_path@ == s.source@ && s.job.final_target_path == s.final_path
}

/// The phases in which the run holds its own journal record: from the
/// record's first writing, or from the record a resumed run read.
pub open spec fn job_carried(p: RunPhase) -> bool {
    !(p == RunPhase::Start || p == RunPhase::AwaitJob || p == RunPhase::AwaitSourceProbe
        || p == RunPhase::AwaitNtfs || p == RunPhase::AwaitSpace || p == RunPhase::AwaitScan
        || p == RunPhase::AwaitTargets || p == RunPhase::AwaitSourceManifest
        || p == RunPhase::AwaitLocation || p == RunPhase::AwaitManifestSaved || p == RunPhase::Finished)
}

/// Law: every step keeps `run_inv`, starting from the initial state.
pub proof fn lemma_run_inv_step(s: MigrationRun, ev: RunEvent, t: MigrationRun, r: RunStep)
    requires
        run_inv(s),
        run_next(s, ev, t, r),
    ensures
        run_inv(t),
{
}

/// Law: a new run satisfies `run_inv`.
pub proof fn lemma_run_inv_initial(s: MigrationRun)
    requires
        s.phase == RunPhase::Start,
    ensures
        run_inv(s),
{
}

/// Law (the renamed source and the final directory are never deleted): the
/// only directory a migration run ever removes is its temporary directory.
pub proof fn lemma_run_removes_only_tmp(s: MigrationRun, ev: RunEvent, t: MigrationRun, r: RunStep, i: int)
    requires
        run_next(s, ev, t, r),
        0 <= i < r.cleanup@.len(),
        r.cleanup@[i] is RemoveTree,
    ensures
        r.cleanup@[i] == Cleanup::RemoveTree(s.tmp_path),
{
}

/// Law (space before copying): the copy starts only when the
/// target's free space is at least the safety margin (1.1 times the size
/// plus 1 GiB), so at least the size plus 1 GiB, and the source is not
/// empty.
pub proof fn lemma_run_copies_with_margin(s: MigrationRun, ev: RunEvent, t: MigrationRun, r: RunStep)
    requires
        run_inv(s),
        run_next(s, ev, t, r),
        r.action is CopyTree,
    ensures
        s.free_space >= s.safe_margin,
        s.safe_margin == safe_margin_spec(s.total_size as nat),
        s.free_space >= s.total_size + pow2(30),
        s.total_files > 0,
        s.job.stage == MigrationStage::Initiated,
{
    lemma_safe_margin_covers(s.total_size);
}

/// Law (verify before committing): the journal moves to `Copied` only right
/// after the copy was found to agree with the source manifest, or after a
/// re-listing found nothing left to copy, or after re-copied files agreed.
pub proof fn lemma_run_copied_only_when_verified(s: MigrationRun, ev: RunEvent, t: MigrationRun, r: RunStep)
    requires
        run_next(s, ev, t, r),
        r.action matches RunAction::WriteJob { job } && job.stage == MigrationStage::Copied,
    ensures
        s.phase == RunPhase::AwaitTargetManifest || s.phase == RunPhase::AwaitFreshSaved
            || s.phase == RunPhase::AwaitSyncedSaved,
        s.phase == RunPhase::AwaitTargetManifest ==> (ev matches RunEvent::Manifest(Ok(m))
            && manifest_mismatch(s.source_manifest, m) is None),
{
}

/// Law (rename, do not delete, and only once the target is final): the
/// step that asks to rename the source aside is taken only when the
/// journal records `Finalized`, and it renames the source to the
/// `._cdisklinker_old` path.
pub proof fn lemma_run_source_renamed_when_finalized(s: MigrationRun, ev: RunEvent, t: MigrationRun, r: RunStep)
    requires
        run_inv(s),
        run_next(s, ev, t, r),
        t.phase == RunPhase::AwaitSourceRenamed,
    ensures
        s.job.stage == MigrationStage::Finalized,
        r.action == (RunAction::Rename { from: s.source, to: s.old_path }),
{
}

/// Law (link last): the junction is created only when the journal records
/// that the source was renamed aside, and it points the source path at the
/// final directory.
pub proof fn lemma_run_links_after_rename(s: MigrationRun, ev: RunEvent, t: MigrationRun, r: RunStep)
    requires
        run_inv(s),
        run_next(s, ev, t, r),
        r.action is CreateJunction,
    ensures
        s.job.stage == MigrationStage::SourceRenamed,
        s.job.renamed_source_path == Some(s.old_path),
        r.action == (RunAction::CreateJunction { link: s.source, target: s.final_path }),
{
}

/// Law (success needs the user's confirmation): a run ends successfully only
/// after the journal recorded `Linked`, and it never deletes the renamed
/// source itself.
pub proof fn lemma_run_success_is_linked(s: MigrationRun, ev: RunEvent, t: MigrationRun, r: RunStep)
    requires
        run_inv(s),
        run_next(s, ev, t, r),
        r.action == RunAction::Finish(Ok(())),
    ensures
        s.job.stage == MigrationStage::Linked,
{
}

/// Law (files that changed during the copy are copied again): after a
/// fresh listing `f` of the source, the fresh manifest is saved (the step
/// before the journal moves to `Copied`) only when every file of `f` has an
/// entry with the same path, size and SHA-256 in the last listing of the
/// copy. When some file has none, the next action copies files again from
/// the source into the temporary directory: every such file is among them,
/// and only files of `f` are.
pub proof fn lemma_fresh_recopies_changed(s: MigrationRun, f: Manifest, t: MigrationRun, r: RunStep)
    requires
        s.phase == RunPhase::AwaitFresh,
        run_next(s, RunEvent::Manifest(Ok(f)), t, r),
    ensures
        r.action is SaveManifest ==> forall|i: int|
            0 <= i < f.files@.len() ==> has_same_file(#[trigger] f.files@[i], s.target_manifest.files@),
        (exists|i: int| 0 <= i < f.files@.len() && !has_same_file(#[trigger] f.files@[i], s.target_manifest.files@))
            ==> (r.action matches RunAction::CopyFiles { from_root, to_root, relative_paths } && from_root
            == s.source && to_root == s.tmp_path && (forall|i: int|
            0 <= i < f.files@.len() && !has_same_file(#[trigger] f.files@[i], s.target_manifest.files@)
                ==> exists|j: int| 0 <= j < relative_paths@.len() && (#[trigger] relative_paths@[j])@
                == f.files@[i].relative_path@) && (forall|j: int|
            0 <= j < relative_paths@.len() ==> exists|i: int|
                0 <= i < f.files@.len() && (#[trigger] f.files@[i]).relative_path@ == (#[trigger] relative_paths@[j])@)),
{
    let d = diff_paths(f.files@, s.target_manifest.files@);
    lemma_diff_paths_meaning(f.files@, s.target_manifest.files@);
    if exists|i: int| 0 <= i < f.files@.len() && !has_same_file(#[trigger] f.files@[i], s.target_manifest.files@) {
        let i0 = choose|i: int| 0 <= i < f.files@.len() && !has_same_file(#[trigger] f.files@[i], s.target_manifest.files@);
        assert(d.contains(f.files@[i0].relative_path@));
        assert(d.len() > 0);
        match r.action {
            RunAction::CopyFiles { from_root, to_root, relative_paths } => {
                assert forall|i: int|
                    0 <= i < f.files@.len() && !has_same_file(#[trigger] f.files@[i], s.target_manifest.files@)
                    implies exists|j: int| 0 <= j < relative_paths@.len() && (#[trigger] relative_paths@[j])@
                    == f.files@[i].relative_path@ by {
                    assert(d.contains(f.files@[i].relative_path@));
                    let j = choose|j: int| 0 <= j < d.len() && d[j] == f.files@[i].relative_path@;
                    assert(relative_paths@[j]@ == d[j]);
                }
                assert forall|j: int| 0 <= j < relative_paths@.len() implies exists|i: int|
                    0 <= i < f.files@.len() && (#[trigger] f.files@[i]).relative_path@ == (#[trigger] relative_paths@[j])@ by {
                    assert(relative_paths@[j]@ == d[j]);
                }
            },
            _ => {},
        }
    }
}

/// Law (the record a run leaves for the user): the journal is written at
/// `Linked` only right after the junction from the source to the final
/// directory was made, and that record names the run's source, its final
/// directory and its renamed source.
pub proof fn lemma_run_linked_record(s: MigrationRun, ev: RunEvent, t: MigrationRun, r: RunStep, j: PendingJob)
    requires
        run_inv(s),
        run_next(s, ev, t, r),
        r.action == (RunAction::WriteJob { job: j }),
        j.stage == MigrationStage::Linked,
    ensures
        s.phase == RunPhase::AwaitJunction,
        ev matches RunEvent::Done(Ok(_)),
        j.source_path@ == s.source@,
        j.final_target_path == s.final_path,
        j.renamed_source_path == Some(s.old_path),
{
}

/// Law (checks first): a new migration asks for the
/// target's free space only after the source was found to be a directory
/// that is not a junction, not a drive root and not on the target's drive,
/// and the target was found to be NTFS with the renamed-source path free.
pub proof fn lemma_run_checks_before_space(s: MigrationRun, ev: RunEvent, t: MigrationRun, r: RunStep)
    requires
        run_next(s, ev, t, r),
        t.phase == RunPhase::AwaitSpace,
    ensures
        s.phase == RunPhase::AwaitNtfs,
        ev matches RunEvent::Ntfs(Ok(true)),
        !s.old_exists,
{
}

/// Law (what reaches the file system check): a new migration checks the
/// target's file system only for a source that exists, is a directory, is
/// not a junction, has a last component, and lies on another drive.
pub proof fn lemma_run_source_checked(s: MigrationRun, ev: RunEvent, t: MigrationRun, r: RunStep)
    requires
        run_next(s, ev, t, r),
        t.phase == RunPhase::AwaitNtfs,
    ensures
        s.phase == RunPhase::AwaitSourceProbe,
        !s.same_drive,
        ev matches RunEvent::Source(p) && p.exists && p.is_dir && !p.is_junction && p.has_file_name,
        t.old_exists == ev->Source_0.old_exists,
{
}

} // verus!
