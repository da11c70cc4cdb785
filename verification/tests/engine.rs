//! Manifests, paths and the migration state machines, driven with made-up
//! file system answers.

use cdisklinker::engine::control::{ControlAction, ControlError, ControlEvent, DeleteResult, JobControl, RollbackProbe};
use cdisklinker::engine::locks::{format_locks, LockEvent, LockProbe, LockSearch};
use cdisklinker::engine::manifest::{
    content_hash, digest_finish, digest_new, digest_update, find_manifest_diff_files, pre_scan_migration, Manifest, ManifestDirEntry,
    ManifestFileEntry, ManifestJunctionEntry,
};
use cdisklinker::engine::paths::{drive_text_valid, join_path, make_old_path, ntfs_root, space_root, uuid_v4_like};
use cdisklinker::engine::recovery::{CrashRecovery, RecoveryAction, RecoveryEvent, RecoveryProbe, RecoveryReport};
use cdisklinker::engine::run::{
    Cleanup, MigrationRun, Notice, RunAction, RunError, RunEvent, ScanTotals, SourceProbe, TargetProbe,
};
use cdisklinker::engine::undo::{MigrationUndo, UndoAction, UndoCleanup, UndoEvent};
use cdisklinker::engine::walk::{classify_entry, EntryKind};
use cdisklinker::journal::{MigrationStage, PendingJob};

fn file(path: &str, size: u64, sha: &str) -> ManifestFileEntry {
    ManifestFileEntry { relative_path: path.to_string(), size, sha256: sha.to_string() }
}

fn manifest(files: Vec<ManifestFileEntry>, junctions: Vec<ManifestJunctionEntry>, dirs: Vec<ManifestDirEntry>) -> Manifest {
    let m = Manifest::generate("C:\\Steam".to_string(), files, junctions, dirs, 1700000000);
    m
}

fn sample_manifest() -> Manifest {
    manifest(
        vec![file("b.txt", 3, "bb"), file("a/x.bin", 10, "aa")],
        vec![ManifestJunctionEntry { relative_path: "link".to_string(), target: "D:\\Data".to_string() }],
        vec![ManifestDirEntry { relative_path: "empty".to_string() }],
    )
}

#[test]
fn manifest_totals_and_self_hash() {
    let mut m = sample_manifest();
    assert_eq!(m.total_files, 2);
    assert_eq!(m.total_size, 13);
    assert!(m.self_hash.is_empty());
    m.seal(b"abc");
    assert_eq!(m.self_hash, "ba7816bf8f01cfea414140de5dae2223b00361a396177a9cb410ff61f20015ad");
    assert!(m.check_self_hash(b"abc").is_ok());
    let err = m.check_self_hash(b"abd").unwrap_err();
    assert!(err.starts_with("Manifest 自校验失败：哈希不匹配（文件可能损坏）。期望 "));
    assert!(err.ends_with("，实际 ba7816bf8f01cfea414140de5dae2223b00361a396177a9cb410ff61f20015ad"));
    assert_eq!(content_hash(b""), "e3b0c44298fc1c149afbf4c8996fb92427ae41e4649b934ca495991b7852b855");
}

#[test]
fn file_hash_fed_in_pieces_equals_hash_of_whole() {
    let mut d = digest_new();
    digest_update(&mut d, b"a");
    digest_update(&mut d, b"");
    digest_update(&mut d, b"bc");
    assert_eq!(digest_finish(d), "ba7816bf8f01cfea414140de5dae2223b00361a396177a9cb410ff61f20015ad");
    assert_eq!(digest_finish(digest_new()), content_hash(b""));
}

#[test]
fn manifests_agree_regardless_of_listing_order() {
    let a = sample_manifest();
    let b = manifest(
        vec![file("a/x.bin", 10, "aa"), file("b.txt", 3, "bb")],
        vec![ManifestJunctionEntry { relative_path: "link".to_string(), target: "d:\\data".to_string() }],
        vec![ManifestDirEntry { relative_path: "empty".to_string() }],
    );
    assert!(a.verify_against(&b).is_ok());
    assert!(find_manifest_diff_files(&a, &b).is_empty());
}

#[test]
fn manifest_disagreements_are_reported() {
    let a = sample_manifest();
    let fewer = manifest(vec![file("a/x.bin", 10, "aa")], vec![], vec![]);
    let err = a.verify_against(&fewer).unwrap_err();
    assert!(err.starts_with("文件数量不一致"), "{}", err);
    let changed = manifest(
        vec![file("a/x.bin", 10, "aa"), file("b.txt", 4, "bc")],
        vec![ManifestJunctionEntry { relative_path: "link".to_string(), target: "D:\\Data".to_string() }],
        vec![ManifestDirEntry { relative_path: "empty".to_string() }],
    );
    assert!(a.verify_against(&changed).is_err());
    assert_eq!(find_manifest_diff_files(&a, &changed), vec!["b.txt".to_string()]);
    let other_link = manifest(
        vec![file("a/x.bin", 10, "aa"), file("b.txt", 3, "bb")],
        vec![ManifestJunctionEntry { relative_path: "link".to_string(), target: "E:\\Data".to_string() }],
        vec![ManifestDirEntry { relative_path: "empty".to_string() }],
    );
    assert!(a.verify_against(&other_link).is_err());
    let missing = manifest(vec![file("a/x.bin", 10, "aa")], vec![], vec![]);
    assert_eq!(find_manifest_diff_files(&a, &missing), vec!["b.txt".to_string()]);
}

#[test]
fn pre_scan_counts_and_sums() {
    let listing = vec![("a".to_string(), 5u64), ("b".to_string(), 7u64), ("c".to_string(), 0u64)];
    assert_eq!(pre_scan_migration(&listing), (3, 12));
    assert_eq!(pre_scan_migration(&Vec::new()), (0, 0));
}

#[test]
fn paths() {
    assert_eq!(make_old_path("C:\\Steam"), "C:\\Steam._cdisklinker_old");
    assert_eq!(join_path("D:\\", "Steam"), "D:\\Steam");
    assert_eq!(join_path("D:", "Steam"), "D:Steam");
    assert_eq!(join_path("D:\\Moved", "Steam"), "D:\\Moved\\Steam");
    assert_eq!(ntfs_root("D:\\Moved"), "D:\\");
    assert_eq!(space_root("D:\\Moved"), "D:\\");
    assert_eq!(ntfs_root("D:"), "D:\\");
    assert_eq!(space_root("D:"), "D:");
    assert!(drive_text_valid("D:\\Moved"));
    assert!(drive_text_valid("D:"));
    assert!(drive_text_valid("é"));
    assert!(!drive_text_valid("盘"));
    assert!(!drive_text_valid("D盘\\x"));
    let samples = [0u32, 1, 2, 3, 4, 5, 6, 7, 8, 9, 10, 11, 12, 13, 14, 255];
    assert_eq!(uuid_v4_like(&samples), "00010203-0405-0607-0809-0a0b0c0d0eff");
    let big = [256u32 + 0xab; 16];
    assert_eq!(uuid_v4_like(&big), "abababab-abab-abab-abab-abababababab");
}

#[test]
fn walk_never_enters_a_junction() {
    assert_eq!(classify_entry(true, true, false), EntryKind::Junction);
    assert_eq!(classify_entry(true, true, true), EntryKind::Junction);
    assert_eq!(classify_entry(false, false, true), EntryKind::Link);
    assert_eq!(classify_entry(true, false, false), EntryKind::Directory);
    assert_eq!(classify_entry(false, true, false), EntryKind::Junction);
    assert_eq!(classify_entry(false, false, false), EntryKind::File);
}

#[test]
fn lock_report_falls_back_in_order() {
    let locks = vec![(1234u32, "wps.exe".to_string()), (42u32, "a b.exe".to_string())];
    assert_eq!(format_locks(&locks), "，占用进程: wps.exe (PID:1234), a b.exe (PID:42)");

    let mut s = LockSearch::detect_locks_with_fallback("C:\\Steam".to_string());
    assert!(matches!(s.step(LockEvent::Start), LockProbe::QueryDirectory { .. }));
    assert!(matches!(s.step(LockEvent::Processes(Err("x".to_string()))), LockProbe::QueryFiles { .. }));
    assert!(matches!(s.step(LockEvent::Processes(Ok(Vec::new()))), LockProbe::FindLockedFile { .. }));
    match s.step(LockEvent::LockedFile(Some("bin\\game.exe".to_string()))) {
        LockProbe::Report(m) => assert_eq!(m, "，被占用的文件: bin\\game.exe"),
        _ => panic!("expected a report"),
    }

    let mut s = LockSearch::detect_locks_with_fallback("C:\\Steam".to_string());
    s.step(LockEvent::Start);
    match s.step(LockEvent::Processes(Ok(vec![(7u32, "x.exe".to_string())]))) {
        LockProbe::Report(m) => assert_eq!(m, "，占用进程: x.exe (PID:7)"),
        _ => panic!("expected a report"),
    }

    let mut s = LockSearch::detect_locks_with_fallback("C:\\Steam".to_string());
    s.step(LockEvent::Start);
    s.step(LockEvent::Processes(Ok(Vec::new())));
    s.step(LockEvent::Processes(Ok(Vec::new())));
    match s.step(LockEvent::LockedFile(None)) {
        LockProbe::Report(m) => assert_eq!(m, "，未检测到占用进程或锁定文件"),
        _ => panic!("expected a report"),
    }
}

/// A made-up file system for one migration of `C:\Steam` to `D:\Moved`.
struct World {
    free: u64,
    renames: Vec<(String, String)>,
    junctions: Vec<(String, String)>,
    jobs: Vec<PendingJob>,
    copy_fails: bool,
    target_differs: bool,
    source_rename_fails: bool,
}

fn world() -> World {
    World {
        free: 1 << 40,
        renames: Vec::new(),
        junctions: Vec::new(),
        jobs: Vec::new(),
        copy_fails: false,
        target_differs: false,
        source_rename_fails: false,
    }
}

fn run_migration(w: &mut World, source: &str, target_drive: &str) -> (Result<(), RunError>, Vec<Notice>, Vec<Cleanup>) {
    let mut run = MigrationRun::execute_migration(
        source.to_string(),
        "Steam".to_string(),
        target_drive.to_string(),
        [1; 16],
        [2; 16],
    );
    let mut notices = Vec::new();
    let mut cleanups = Vec::new();
    let mut ev = RunEvent::Exists(false);
    for _ in 0..200 {
        let step = run.step(ev);
        notices.extend(step.notices);
        cleanups.extend(step.cleanup);
        ev = match step.action {
            RunAction::ReadJob => RunEvent::Job(Ok(None)),
            RunAction::ProbeSource { .. } => RunEvent::Source(SourceProbe {
                exists: true,
                is_dir: true,
                is_junction: false,
                has_file_name: true,
                old_exists: false,
            }),
            RunAction::CheckNtfs { .. } => RunEvent::Ntfs(Ok(true)),
            RunAction::FreeSpace { .. } => RunEvent::Space(Ok(w.free)),
            RunAction::PreScan { .. } => RunEvent::Scan(Ok(ScanTotals { total_files: 2, total_size: 13 })),
            RunAction::ProbeTargets { .. } => RunEvent::Targets(TargetProbe { final_exists: false, tmp_exists: false }),
            RunAction::GenerateManifest { root } => {
                if w.target_differs && root.contains(".tmp_") {
                    RunEvent::Manifest(Ok(manifest(vec![file("b.txt", 3, "bb")], vec![], vec![])))
                } else {
                    RunEvent::Manifest(Ok(sample_manifest()))
                }
            }
            RunAction::LocateManifest { file_name } => RunEvent::Location(Ok(format!("E:\\app\\{}", file_name))),
            RunAction::SaveManifest { .. } => RunEvent::Done(Ok(())),
            RunAction::LoadManifest { .. } => RunEvent::Manifest(Ok(sample_manifest())),
            RunAction::WriteJob { job } => {
                w.jobs.push(job);
                RunEvent::Done(Ok(()))
            }
            RunAction::CopyTree { .. } => {
                if w.copy_fails {
                    RunEvent::Done(Err("磁盘已满".to_string()))
                } else {
                    RunEvent::Done(Ok(()))
                }
            }
            RunAction::CopyFiles { .. } => RunEvent::Done(Ok(())),
            RunAction::Rename { from, to } => {
                if w.source_rename_fails && from == source {
                    RunEvent::Done(Err("拒绝访问。".to_string()))
                } else {
                    w.renames.push((from, to));
                    RunEvent::Done(Ok(()))
                }
            }
            RunAction::CreateJunction { link, target } => {
                w.junctions.push((link, target));
                RunEvent::Done(Ok(()))
            }
            RunAction::DetectLocks { .. } => RunEvent::Locks("，占用进程: steam.exe (PID:9)".to_string()),
            RunAction::PathExists { .. } => RunEvent::Exists(false),
            RunAction::Finish(r) => return (r, notices, cleanups),
        };
    }
    panic!("the migration did not finish");
}

#[test]
fn migration_happy_path_links_and_journals_in_order() {
    let mut w = world();
    let (r, notices, _) = run_migration(&mut w, "C:\\Steam", "D:\\Moved");
    assert!(r.is_ok(), "{:?}", r.err().map(|_| ()));
    let stages: Vec<MigrationStage> = w.jobs.iter().map(|j| j.stage).collect();
    assert_eq!(
        stages,
        vec![MigrationStage::Initiated, MigrationStage::Copied, MigrationStage::Finalized, MigrationStage::SourceRenamed, MigrationStage::Linked]
    );
    assert_eq!(
        w.renames,
        vec![
            ("D:\\Moved\\.tmp_Steam".to_string(), "D:\\Moved\\Steam".to_string()),
            ("C:\\Steam".to_string(), "C:\\Steam._cdisklinker_old".to_string()),
        ]
    );
    assert_eq!(w.junctions, vec![("C:\\Steam".to_string(), "D:\\Moved\\Steam".to_string())]);
    assert_eq!(w.jobs[0].job_id, "01010101-0101-0101-0101-010101010101");
    assert_eq!(w.jobs[4].renamed_source_path, Some("C:\\Steam._cdisklinker_old".to_string()));
    assert!(matches!(notices.last(), Some(Notice::AwaitingConfirmation { .. })));
}

#[test]
fn migration_refuses_same_drive_and_small_target() {
    let mut w = world();
    let (r, _, _) = run_migration(&mut w, "C:\\Steam", "c:\\Moved");
    assert!(matches!(r, Err(RunError::SameDrive)));
    assert!(w.jobs.is_empty());

    let mut w = world();
    w.free = 1000;
    let (r, _, _) = run_migration(&mut w, "C:\\Steam", "D:\\Moved");
    match r {
        Err(RunError::InsufficientSpace { free, required }) => {
            assert_eq!(free, 1000);
            assert_eq!(required, 1073741838);
        }
        _ => panic!("expected InsufficientSpace"),
    }
    assert!(w.renames.is_empty());
}

#[test]
fn failed_copy_discards_only_the_temporary_copy() {
    let mut w = world();
    w.copy_fails = true;
    let (r, _, cleanups) = run_migration(&mut w, "C:\\Steam", "D:\\Moved");
    assert!(matches!(r, Err(RunError::CopyFailed(_))));
    assert!(w.renames.is_empty());
    for c in &cleanups {
        if let Cleanup::RemoveTree(p) = c {
            assert_eq!(p, "D:\\Moved\\.tmp_Steam");
        }
    }
}

#[test]
fn source_rename_failure_reports_locks_and_keeps_final() {
    let mut w = world();
    w.source_rename_fails = true;
    let (r, _, cleanups) = run_migration(&mut w, "C:\\Steam", "D:\\Moved");
    match r {
        Err(RunError::SourceRenameFailed { locks, .. }) => assert_eq!(locks, "，占用进程: steam.exe (PID:9)"),
        _ => panic!("expected SourceRenameFailed"),
    }
    for c in &cleanups {
        if let Cleanup::RemoveTree(p) = c {
            assert_ne!(p, "D:\\Moved\\Steam");
        }
    }
}

fn job(stage: MigrationStage) -> PendingJob {
    PendingJob {
        job_id: "j".to_string(),
        source_path: "C:\\Steam".to_string(),
        target_path: "D:\\Moved\\.tmp_Steam".to_string(),
        final_target_path: "D:\\Moved\\Steam".to_string(),
        stage,
        manifest_path: Some("E:\\app\\manifest_x.json".to_string()),
        renamed_source_path: if stage == MigrationStage::Linked || stage == MigrationStage::SourceRenamed {
            Some("C:\\Steam._cdisklinker_old".to_string())
        } else {
            None
        },
    }
}

fn recover(j: Option<PendingJob>, p: RecoveryProbe) -> (Result<Option<RecoveryReport>, String>, Vec<Cleanup>, Vec<(String, String)>) {
    let mut r = CrashRecovery::handle_crash_recovery();
    let mut cleanups = Vec::new();
    let mut renames = Vec::new();
    let mut ev = RecoveryEvent::Done(Ok(()));
    let mut job_once = Some(j);
    let mut probe_once = Some(p);
    for _ in 0..20 {
        let step = r.step(ev);
        cleanups.extend(step.cleanup);
        ev = match step.action {
            RecoveryAction::ReadJob => RecoveryEvent::Job(Ok(job_once.take().unwrap())),
            RecoveryAction::Probe { .. } => RecoveryEvent::Probed(probe_once.take().unwrap()),
            RecoveryAction::Rename { from, to } => {
                renames.push((from, to));
                RecoveryEvent::Done(Ok(()))
            }
            RecoveryAction::CreateJunction { .. } => RecoveryEvent::Done(Ok(())),
            RecoveryAction::Finish(res) => return (res, cleanups, renames),
        };
    }
    panic!("recovery did not finish");
}

fn probe(target: bool, source: bool, junction: bool, final_: bool, old: bool) -> RecoveryProbe {
    RecoveryProbe { target_exists: target, source_exists: source, source_is_junction: junction, final_exists: final_, old_exists: old }
}

#[test]
fn recovery_rolls_back_an_interrupted_copy() {
    let (r, cleanups, _) = recover(Some(job(MigrationStage::Initiated)), probe(true, true, false, false, false));
    assert!(matches!(r, Ok(Some(RecoveryReport::RolledBackCopy { .. }))));
    assert!(cleanups.iter().any(|c| matches!(c, Cleanup::RemoveTree(p) if p == "D:\\Moved\\.tmp_Steam")));
}

#[test]
fn recovery_keeps_the_only_copy() {
    let (r, cleanups, _) = recover(Some(job(MigrationStage::Initiated)), probe(true, false, false, false, false));
    assert!(matches!(r, Ok(Some(RecoveryReport::InitiatedSourceMissing { .. }))));
    assert!(!cleanups.iter().any(|c| matches!(c, Cleanup::RemoveTree(_))));
}

#[test]
fn recovery_with_no_journal_finds_nothing() {
    let (r, cleanups, _) = recover(None, probe(false, false, false, false, false));
    assert!(matches!(r, Ok(None)));
    assert!(cleanups.is_empty());
}

#[test]
fn recovery_completes_a_finalized_migration() {
    let (r, _, renames) = recover(Some(job(MigrationStage::Finalized)), probe(false, true, false, true, false));
    assert!(matches!(r, Ok(Some(RecoveryReport::AutoCompleted { .. }))), "unexpected report");
    assert_eq!(renames, vec![("C:\\Steam".to_string(), "C:\\Steam._cdisklinker_old".to_string())]);
}

fn control(c: JobControl, j: Option<PendingJob>, p: RollbackProbe) -> (Result<DeleteResult, ControlError>, Vec<String>) {
    control_leaving(c, j, p, Vec::new())
}

/// Runs a confirmation or rollback whose deletions leave `left` behind.
fn control_leaving(
    mut c: JobControl,
    j: Option<PendingJob>,
    p: RollbackProbe,
    left: Vec<String>,
) -> (Result<DeleteResult, ControlError>, Vec<String>) {
    let mut log = Vec::new();
    let mut ev = ControlEvent::Done(Ok(()));
    let mut job_once = Some(j);
    let mut probe_once = Some(p);
    for _ in 0..20 {
        let step = c.step(ev);
        for cl in step.cleanup {
            if let Cleanup::RemoveTree(p) = cl {
                log.push(format!("cleanup remove {}", p));
            }
        }
        ev = match step.action {
            ControlAction::ReadJob => ControlEvent::Job(Ok(job_once.take().unwrap())),
            ControlAction::PathExists { .. } => ControlEvent::Exists(true),
            ControlAction::RemoveTree { path } => {
                log.push(format!("remove {}", path));
                ControlEvent::Removed(left.clone())
            }
            ControlAction::WriteJob { job } => {
                log.push(format!("journal {:?}", job.stage));
                ControlEvent::Done(Ok(()))
            }
            ControlAction::Probe { .. } => ControlEvent::Probed(probe_once.take().unwrap()),
            ControlAction::DeleteJunction { path } => {
                log.push(format!("unlink {}", path));
                ControlEvent::Done(Ok(()))
            }
            ControlAction::Rename { from, to } => {
                log.push(format!("rename {} {}", from, to));
                ControlEvent::Done(Ok(()))
            }
            ControlAction::Finish(r) => return (r, log),
        };
    }
    panic!("did not finish");
}

fn no_probe() -> RollbackProbe {
    RollbackProbe { source_is_junction: false, old_exists: false, final_exists: false }
}

#[test]
fn confirm_deletes_the_renamed_source_then_records_completion() {
    let c = JobControl::confirm_delete_source("C:\\Steam".to_string());
    let (r, log) = control(c, Some(job(MigrationStage::Linked)), no_probe());
    let d = r.unwrap();
    assert!(d.fully_deleted);
    assert!(d.failed_files.is_empty());
    assert_eq!(log, vec!["remove C:\\Steam._cdisklinker_old".to_string(), "journal Completed".to_string()]);
}

#[test]
fn confirm_completes_and_reports_files_it_could_not_delete() {
    let c = JobControl::confirm_delete_source("C:\\Steam".to_string());
    let left = vec!["game\\locked.dll: 拒绝访问。 (os error 5)".to_string()];
    let (r, log) = control_leaving(c, Some(job(MigrationStage::Linked)), no_probe(), left.clone());
    let d = r.unwrap();
    assert!(!d.fully_deleted);
    assert_eq!(d.failed_files, left);
    assert_eq!(log, vec!["remove C:\\Steam._cdisklinker_old".to_string(), "journal Completed".to_string()]);
}

#[test]
fn instant_rollback_reports_what_is_left_of_the_final_directory() {
    let c = JobControl::rollback_migration_instant("C:\\Steam".to_string());
    let p = RollbackProbe { source_is_junction: true, old_exists: true, final_exists: true };
    let left = vec!["data.bin: 另一个程序正在使用此文件。 (os error 32)".to_string()];
    let (r, _) = control_leaving(c, Some(job(MigrationStage::Linked)), p, left.clone());
    let d = r.unwrap();
    assert!(!d.fully_deleted);
    assert_eq!(d.failed_files, left);
}

#[test]
fn confirm_refuses_other_sources_and_stages() {
    let c = JobControl::confirm_delete_source("C:\\Other".to_string());
    let (r, log) = control(c, Some(job(MigrationStage::Linked)), no_probe());
    assert!(matches!(r, Err(ControlError::SourceMismatch { .. })));
    assert!(log.is_empty());
    let c = JobControl::confirm_delete_source("C:\\Steam".to_string());
    let (r, _) = control(c, Some(job(MigrationStage::Finalized)), no_probe());
    assert!(matches!(r, Err(ControlError::NotLinked(MigrationStage::Finalized))));
    let c = JobControl::confirm_delete_source("C:\\Steam".to_string());
    let (r, _) = control(c, None, no_probe());
    assert!(matches!(r, Err(ControlError::NoJob)));
}

#[test]
fn instant_rollback_puts_the_source_back_before_deleting_final() {
    let c = JobControl::rollback_migration_instant("C:\\Steam".to_string());
    let p = RollbackProbe { source_is_junction: true, old_exists: true, final_exists: true };
    let (r, log) = control(c, Some(job(MigrationStage::Linked)), p);
    assert!(r.unwrap().fully_deleted);
    assert_eq!(
        log,
        vec![
            "unlink C:\\Steam".to_string(),
            "rename C:\\Steam._cdisklinker_old C:\\Steam".to_string(),
            "remove D:\\Moved\\Steam".to_string(),
        ]
    );
}

#[test]
fn instant_rollback_stops_when_renamed_source_is_missing() {
    let c = JobControl::rollback_migration_instant("C:\\Steam".to_string());
    let p = RollbackProbe { source_is_junction: true, old_exists: false, final_exists: true };
    let (r, log) = control(c, Some(job(MigrationStage::Linked)), p);
    assert!(matches!(r, Err(ControlError::OldMissing(_))));
    assert!(!log.iter().any(|l| l.contains("remove")));
}

fn undo(fails_copy: bool, back_differs: bool, free: u64) -> (Result<(), String>, Vec<String>) {
    let mut u = MigrationUndo::rollback_completed_migration("C:\\Steam".to_string(), "D:\\Moved\\Steam".to_string());
    let mut log = Vec::new();
    let mut ev = UndoEvent::Start;
    for _ in 0..20 {
        let step = u.step(ev);
        for c in step.cleanup {
            match c {
                UndoCleanup::RemoveTree(p) => log.push(format!("cleanup remove {}", p)),
                UndoCleanup::CreateJunction { link, target } => log.push(format!("cleanup link {} {}", link, target)),
            }
        }
        ev = match step.action {
            UndoAction::Probe { .. } => UndoEvent::Probed { link_exists: true, target_exists: true },
            UndoAction::DeleteJunction { link } => {
                log.push(format!("unlink {}", link));
                UndoEvent::Done(Ok(()))
            }
            UndoAction::Measure { .. } => UndoEvent::Measured { total_size: 13, total_files: 2 },
            UndoAction::FreeSpace { root } => {
                assert_eq!(root, "C:\\");
                UndoEvent::Free(Ok(free))
            }
            UndoAction::GenerateManifest { root } => {
                if back_differs && root == "C:\\Steam" {
                    UndoEvent::Manifest(Ok(manifest(vec![], vec![], vec![])))
                } else {
                    UndoEvent::Manifest(Ok(sample_manifest()))
                }
            }
            UndoAction::CopyTree { .. } => {
                if fails_copy {
                    UndoEvent::Done(Err("磁盘已满".to_string()))
                } else {
                    UndoEvent::Done(Ok(()))
                }
            }
            UndoAction::RemoveTree { path } => {
                log.push(format!("remove {}", path));
                UndoEvent::Done(Ok(()))
            }
            UndoAction::Finish(r) => return (r, log),
        };
    }
    panic!("did not finish");
}

#[test]
fn undo_deletes_target_only_after_verified_copy() {
    let (r, log) = undo(false, false, 1 << 40);
    assert!(r.is_ok());
    assert_eq!(log, vec!["unlink C:\\Steam".to_string(), "remove D:\\Moved\\Steam".to_string()]);
}

#[test]
fn undo_failures_relink() {
    let (r, log) = undo(true, false, 1 << 40);
    assert_eq!(r, Err("将文件拷贝回 C 盘时发生故障: 磁盘已满".to_string()));
    assert!(log.contains(&"cleanup link C:\\Steam D:\\Moved\\Steam".to_string()));
    assert!(!log.contains(&"remove D:\\Moved\\Steam".to_string()));

    let (r, log) = undo(false, true, 1 << 40);
    let e = r.unwrap_err();
    assert!(e.starts_with("数据回滚完整性校验失败: 文件数量不一致"), "{}", e);
    assert!(e.ends_with("。已恢复 Junction 指向 D 盘原始数据"));
    assert!(log.contains(&"cleanup remove C:\\Steam".to_string()));

    let (r, log) = undo(false, false, 1000);
    assert_eq!(r, Err("C 盘剩余可用容量不足以塞回已迁移的文件数据！".to_string()));
    assert_eq!(log, vec!["unlink C:\\Steam".to_string(), "cleanup link C:\\Steam D:\\Moved\\Steam".to_string()]);
}

#[test]
fn run_error_texts() {
    assert_eq!(RunError::EmptySource.text(), "源目录为空，没有可迁移的文件");
    assert_eq!(
        RunError::InsufficientSpace { free: 1024, required: 1073741824 }.text(),
        "目标盘空间不足！可用空间：1.00 KB，安全余量要求：1.00 GB，请清理后再试。"
    );
    assert_eq!(
        RunError::FinalExists("D:\\Moved\\Steam".to_string()).text(),
        "目标路径已存在同名正式文件夹 \"D:\\\\Moved\\\\Steam\"，迁移失败"
    );
    assert_eq!(RunError::CopyFailed("磁盘已满".to_string()).text(), "文件拷贝流遇到异常终止: 磁盘已满");
    assert_eq!(
        RunError::ResumeIncomplete("缺少 1 个文件".to_string()).text(),
        "恢复失败：临时目录数据不完整（缺少 1 个文件），已清理，请重新迁移"
    );
    assert_eq!(
        RunError::ResumeJunctionFailed {
            error: "拒绝访问".to_string(),
            source: "C:\\A".to_string(),
            final_target: "D:\\A".to_string()
        }
        .text(),
        "建立 NTFS 目录联接失败: 拒绝访问。请手动执行 mklink /J \"\"C:\\\\A\"\" \"\"D:\\\\A\"\"。"
    );
    assert_eq!(RunError::Io("x".to_string()).text(), "x");
}

#[test]
fn control_and_recovery_texts() {
    assert_eq!(
        ControlError::Unsupported(MigrationStage::Copied).text(),
        "即时回滚不支持 Copied 状态，仅支持 Linked/SourceRenamed/Finalized"
    );
    assert_eq!(
        ControlError::NotLinked(MigrationStage::Finalized).text(),
        "当前迁移状态为 Finalized，仅在 Linked 状态下可确认删除旧源"
    );
    assert_eq!(ControlError::NoJob.text(), "没有进行中的迁移任务");
    assert_eq!(
        RecoveryReport::CompletedCleaned { source: "C:\\Steam".to_string() }.text(),
        "检测到已完成的迁移事务 \"C:\\\\Steam\"，已清理残留日志。"
    );
}
