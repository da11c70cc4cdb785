//! What to do at start-up about a migration the journal shows unfinished.
//!
//! The decision depends on the recorded stage and on what is found on disk.
//! The guiding rule: never delete what may be the only copy of the data.
//! Before the source is renamed the source is authoritative (the temporary
//! copy of an unfinished copy may go); from `SourceRenamed` on, the final
//! directory is, and it is never deleted.
use vstd::prelude::*;
use crate::engine::paths::{make_old_path, old_path_spec};
use crate::engine::run::Cleanup;
use crate::journal::{MigrationStage, PendingJob};

verus! {

/// What was found on disk for the journal's paths.
#[derive(Debug)]
pub struct RecoveryProbe {
    /// The temporary directory exists.
    pub target_exists: bool,
    pub source_exists: bool,
    pub source_is_junction: bool,
    pub final_exists: bool,
    /// The renamed-source path exists.
    pub old_exists: bool,
}

/// The report shown to the user after recovery.
#[derive(Debug)]
pub enum RecoveryReport {
    /// The copy was interrupted; its temporary directory was removed.
    RolledBackCopy { source: String },
    /// Stage `Initiated` but the source is gone; the temporary directory is kept.
    InitiatedSourceMissing { source: String, tmp: String },
    /// Stage `Copied`: migrating the directory again resumes after the copy.
    CopiedResumable { source: String },
    /// Stage `Copied` but the source is gone: the temporary directory holds the data.
    CopiedSourceMissing { source: String, tmp: String, final_target: String },
    /// Stage `Finalized` but the final directory is missing while the temporary one is there.
    FinalizedFinalMissing { source: String, final_target: String, tmp: String },
    /// Stage `Finalized` and neither target directory exists.
    FinalizedDataLost { source: String },
    /// The renamed-source path is taken; the user must resolve it.
    OldPathTaken { source: String, old: String },
    /// Renaming the source aside failed.
    AutoRenameFailed { error: String },
    /// The source was renamed but the junction failed; the source was renamed back.
    AutoLinkFailed { error: String, source: String, final_target: String },
    /// The migration was completed automatically.
    AutoCompleted { source: String },
    /// Stage `Finalized` but the source is gone or already a junction.
    FinalizedSourceGone { source: String, final_target: String },
    /// Stage `SourceRenamed` with the source back in place: the journal went back to `Finalized`.
    RevertedToFinalized { source: String },
    /// Stage `SourceRenamed` but neither the renamed source nor the source exists.
    RenamedSourceMissing { source: String, old: String },
    /// Stage `SourceRenamed` but the final directory is missing.
    RenamedFinalMissing { source: String, final_target: String },
    /// The data is complete but the junction failed.
    LinkFailed { error: String, source: String, final_target: String },
    /// The junction was created automatically.
    AutoLinked { source: String },
    /// Stage `Linked`: waiting for the user to confirm or roll back.
    AwaitingConfirmation { source: String },
    /// Stage `Completed`: leftover journal removed.
    CompletedCleaned { source: String },
}

/// The next thing to do.
#[derive(Debug)]
pub enum RecoveryAction {
    ReadJob,
    Probe { source: String, tmp: String, final_path: String, old: String },
    Rename { from: String, to: String },
    CreateJunction { link: String, target: String },
    Finish(Result<Option<RecoveryReport>, String>),
}

/// The outcome of the last action.
#[derive(Debug)]
pub enum RecoveryEvent {
    Job(Result<Option<PendingJob>, String>),
    Probed(RecoveryProbe),
    Done(Result<(), String>),
}

/// One step: cleanups (failures ignored), then the action.
pub struct RecoveryStep {
    pub cleanup: Vec<Cleanup>,
    pub action: RecoveryAction,
}

#[derive(PartialEq, Eq, Structural, Clone, Copy, Debug)]
pub enum RecoveryPhase {
    Start,
    AwaitJob,
    AwaitProbe,
    /// Finalized: renaming the source aside.
    AwaitRename,
    /// Finalized: linking after the rename.
    AwaitRelink,
    /// SourceRenamed: linking.
    AwaitLink,
    Finished,
}

/// The state of a start-up recovery.
pub struct CrashRecovery {
    pub phase: RecoveryPhase,
    pub job: PendingJob,
    /// The renamed-source path for this job.
    pub old_path: String,
}

/// The renamed-source path recovery works with: the recorded one in stage
/// `SourceRenamed` (derived from the source when missing), else the one
/// derived from the source.
pub open spec fn recovery_old_path(j: PendingJob) -> Seq<char> {
    if j.stage == MigrationStage::SourceRenamed {
        match j.renamed_source_path {
            Some(p) => p@,
            None => old_path_spec(j.source_path@),
        }
    } else {
        old_path_spec(j.source_path@)
    }
}

/// Removing the journal and the saved manifest.
pub open spec fn forget_job(j: PendingJob) -> Seq<Cleanup> {
    match j.manifest_path {
        Some(mp) => seq![Cleanup::ClearJob, Cleanup::RemoveFile(mp)],
        None => seq![Cleanup::ClearJob],
    }
}

pub open spec fn reports(s: CrashRecovery, t: CrashRecovery, r: RecoveryStep, c: Seq<Cleanup>, rep: RecoveryReport) -> bool {
    &&& t == (CrashRecovery { phase: RecoveryPhase::Finished, ..s })
    &&& r.cleanup@ == c
    &&& r.action == RecoveryAction::Finish(Ok(Some(rep)))
}

pub open spec fn goes(s: CrashRecovery, t: CrashRecovery, r: RecoveryStep, p: RecoveryPhase, c: Seq<Cleanup>, a: RecoveryAction) -> bool {
    &&& t == (CrashRecovery { phase: p, ..s })
    &&& r.cleanup@ == c
    &&& r.action == a
}

/// The decision once the disk was looked at.
pub open spec fn decide(s: CrashRecovery, p: RecoveryProbe, t: CrashRecovery, r: RecoveryStep) -> bool {
    let j = s.job;
    let src_ok = p.source_exists && !p.source_is_junction;
    match j.stage {
        MigrationStage::Initiated => {
            let c = if p.target_exists { seq![Cleanup::RemoveTree(j.target_path)] } else { seq![] };
            if p.source_exists {
                reports(s, t, r, c + forget_job(j), RecoveryReport::RolledBackCopy { source: j.source_path })
            } else {
                reports(s, t, r, seq![], RecoveryReport::InitiatedSourceMissing { source: j.source_path, tmp: j.target_path })
            }
        },
        MigrationStage::Copied => if src_ok {
            reports(s, t, r, seq![], RecoveryReport::CopiedResumable { source: j.source_path })
        } else {
            reports(s, t, r, seq![], RecoveryReport::CopiedSourceMissing { source: j.source_path, tmp: j.target_path, final_target: j.final_target_path })
        },
        MigrationStage::Finalized => if !p.final_exists {
            if p.target_exists {
                reports(s, t, r, seq![], RecoveryReport::FinalizedFinalMissing { source: j.source_path, final_target: j.final_target_path, tmp: j.target_path })
            } else {
                reports(s, t, r, forget_job(j), RecoveryReport::FinalizedDataLost { source: j.source_path })
            }
        } else if src_ok {
            if p.old_exists {
                reports(s, t, r, seq![], RecoveryReport::OldPathTaken { source: j.source_path, old: s.old_path })
            } else {
                goes(s, t, r, RecoveryPhase::AwaitRename, seq![], RecoveryAction::Rename { from: j.source_path, to: s.old_path })
            }
        } else {
            reports(s, t, r, seq![], RecoveryReport::FinalizedSourceGone { source: j.source_path, final_target: j.final_target_path })
        },
        MigrationStage::SourceRenamed => if !p.old_exists {
            if src_ok {
                let back = PendingJob { stage: MigrationStage::Finalized, renamed_source_path: None, ..j };
                reports(s, t, r, seq![Cleanup::WriteJob(back)], RecoveryReport::RevertedToFinalized { source: j.source_path })
            } else {
                reports(s, t, r, seq![Cleanup::ClearJob], RecoveryReport::RenamedSourceMissing { source: j.source_path, old: s.old_path })
            }
        } else if !p.final_exists {
            reports(s, t, r, seq![Cleanup::ClearJob], RecoveryReport::RenamedFinalMissing { source: j.source_path, final_target: j.final_target_path })
        } else {
            goes(s, t, r, RecoveryPhase::AwaitLink, seq![], RecoveryAction::CreateJunction { link: j.source_path, target: j.final_target_path })
        },
        MigrationStage::Linked => reports(s, t, r, seq![], RecoveryReport::AwaitingConfirmation { source: j.source_path }),
        MigrationStage::Completed => reports(s, t, r, forget_job(j), RecoveryReport::CompletedCleaned { source: j.source_path }),
    }
}

/// The record once the source was renamed aside automatically.
pub open spec fn auto_renamed(s: CrashRecovery) -> PendingJob {
    PendingJob { stage: MigrationStage::SourceRenamed, renamed_source_path: Some(s.old_path), ..s.job }
}

/// The transition relation of start-up recovery.
pub open spec fn recovery_next(s: CrashRecovery, ev: RecoveryEvent, t: CrashRecovery, r: RecoveryStep) -> bool {
    match s.phase {
        RecoveryPhase::Start => goes(s, t, r, RecoveryPhase::AwaitJob, seq![], RecoveryAction::ReadJob),
        RecoveryPhase::AwaitJob => match ev {
            RecoveryEvent::Job(Err(e)) => {
                &&& t == (CrashRecovery { phase: RecoveryPhase::Finished, ..s })
                &&& r.cleanup@.len() == 0
                &&& r.action == RecoveryAction::Finish(Err(e))
            },
            RecoveryEvent::Job(Ok(None)) => {
                &&& t == (CrashRecovery { phase: RecoveryPhase::Finished, ..s })
                &&& r.cleanup@.len() == 0
                &&& r.action == RecoveryAction::Finish(Ok(None))
            },
            RecoveryEvent::Job(Ok(Some(j))) => {
                &&& t.phase == RecoveryPhase::AwaitProbe
                &&& t.job == j
                &&& t.old_path@ == recovery_old_path(j)
                &&& r.cleanup@.len() == 0
                &&& r.action == RecoveryAction::Probe {
                    source: j.source_path,
                    tmp: j.target_path,
                    final_path: j.final_target_path,
                    old: t.old_path,
                }
            },
            _ => false,
        },
        RecoveryPhase::AwaitProbe => match ev {
            RecoveryEvent::Probed(p) => decide(s, p, t, r),
            _ => false,
        },
        RecoveryPhase::AwaitRename => match ev {
            RecoveryEvent::Done(Err(e)) => reports(s, t, r, seq![], RecoveryReport::AutoRenameFailed { error: e }),
            RecoveryEvent::Done(Ok(())) => {
                &&& t == (CrashRecovery { phase: RecoveryPhase::AwaitRelink, job: auto_renamed(s), ..s })
                &&& r.cleanup@ == seq![Cleanup::WriteJob(auto_renamed(s))]
                &&& r.action == RecoveryAction::CreateJunction { link: s.job.source_path, target: s.job.final_target_path }
            },
            _ => false,
        },
        RecoveryPhase::AwaitRelink => match ev {
            RecoveryEvent::Done(Err(e)) => {
                let back = PendingJob { stage: MigrationStage::Finalized, renamed_source_path: None, ..s.job };
                reports(
                    CrashRecovery { job: back, ..s },
                    t,
                    r,
                    seq![Cleanup::Rename { from: s.old_path, to: s.job.source_path }, Cleanup::WriteJob(back)],
                    RecoveryReport::AutoLinkFailed { error: e, source: s.job.source_path, final_target: s.job.final_target_path },
                )
            },
            RecoveryEvent::Done(Ok(())) => {
                let linked = PendingJob { stage: MigrationStage::Linked, ..s.job };
                reports(CrashRecovery { job: linked, ..s }, t, r, seq![Cleanup::WriteJob(linked)], RecoveryReport::AutoCompleted { source: s.job.source_path })
            },
            _ => false,
        },
        RecoveryPhase::AwaitLink => match ev {
            RecoveryEvent::Done(Err(e)) => reports(s, t, r, seq![], RecoveryReport::LinkFailed { error: e, source: s.job.source_path, final_target: s.job.final_target_path }),
            RecoveryEvent::Done(Ok(())) => {
                let linked = PendingJob {
                    stage: MigrationStage::Linked,
                    renamed_source_path: match s.job.renamed_source_path {
                        Some(p) => Some(p),
                        None => Some(s.old_path),
                    },
                    ..s.job
                };
                reports(CrashRecovery { job: linked, ..s }, t, r, seq![Cleanup::WriteJob(linked)], RecoveryReport::AutoLinked { source: s.job.source_path })
            },
            _ => false,
        },
        RecoveryPhase::Finished => false,
    }
}

/// The outcome kind each phase waits for.
pub open spec fn recovery_expects(s: CrashRecovery, ev: RecoveryEvent) -> bool {
    match s.phase {
        RecoveryPhase::Start => true,
        RecoveryPhase::AwaitJob => ev is Job,
        RecoveryPhase::AwaitProbe => ev is Probed,
        RecoveryPhase::Finished => false,
        _ => ev is Done,
    }
}

// ---------------------------------------------------------------- exec

fn cleanup0() -> (r: Vec<Cleanup>)
    ensures
        r@ == Seq::<Cleanup>::empty(),
{
    Vec::new()
}

fn cleanup1(a: Cleanup) -> (r: Vec<Cleanup>)
    ensures
        r@ == seq![a],
{
    let mut v = Vec::new();
    v.push(a);
    v
}

fn forget_job_exec(j: &PendingJob) -> (r: Vec<Cleanup>)
    ensures
        r@ == forget_job(*j),
{
    let mut v = Vec::new();
    v.push(Cleanup::ClearJob);
    match &j.manifest_path {
        Some(mp) => {
            v.push(Cleanup::RemoveFile(mp.clone()));
        },
        None => {},
    }
    v
}

fn append_cleanups(a: Vec<Cleanup>, b: Vec<Cleanup>) -> (r: Vec<Cleanup>)
    ensures
        r@ == a@ + b@,
{
    let mut a = a;
    let mut b = b;
    a.append(&mut b);
    a
}

impl CrashRecovery {
    /// The start-up check for a migration the journal shows unfinished;
    /// it has not looked at the journal yet, so it holds no job: the record
    /// it carries is blank (empty texts, stage `Initiated`, no paths) and so
    /// is the renamed-source path.
    pub fn handle_crash_recovery() -> (r: CrashRecovery)
        ensures
            r.phase == RecoveryPhase::Start,
            r.job.job_id@ == Seq::<char>::empty(),
            r.job.source_path@ == Seq::<char>::empty(),
            r.job.target_path@ == Seq::<char>::empty(),
            r.job.final_target_path@ == Seq::<char>::empty(),
            r.job.stage == MigrationStage::Initiated,
            r.job.manifest_path is None,
            r.job.renamed_source_path is None,
            r.old_path@ == Seq::<char>::empty(),
            recovery_inv(r),
    {
        CrashRecovery {
            phase: RecoveryPhase::Start,
            job: PendingJob {
                job_id: String::new(),
                source_path: String::new(),
                target_path: String::new(),
                final_target_path: String::new(),
                stage: MigrationStage::Initiated,
                manifest_path: None,
                renamed_source_path: None,
            },
            old_path: String::new(),
        }
    }

    fn report(&mut self, c: Vec<Cleanup>, rep: RecoveryReport) -> (r: RecoveryStep)
        ensures
            reports(*old(self), *final(self), r, c@, rep),
    {
        self.phase = RecoveryPhase::Finished;
        RecoveryStep { cleanup: c, action: RecoveryAction::Finish(Ok(Some(rep))) }
    }

    fn go(&mut self, p: RecoveryPhase, c: Vec<Cleanup>, a: RecoveryAction) -> (r: RecoveryStep)
        ensures
            goes(*old(self), *final(self), r, p, c@, a),
    {
        self.phase = p;
        RecoveryStep { cleanup: c, action: a }
    }

    fn decide_exec(&mut self, p: RecoveryProbe) -> (r: RecoveryStep)
        requires
            old(self).phase == RecoveryPhase::AwaitProbe,
        ensures
            decide(*old(self), p, *final(self), r),
    {
        let src_ok = p.source_exists && !p.source_is_junction;
        let source = self.job.source_path.clone();
        match self.job.stage {
            MigrationStage::Initiated => {
                if p.source_exists {
                    let c = if p.target_exists { cleanup1(Cleanup::RemoveTree(self.job.target_path.clone())) } else { cleanup0() };
                    let f = forget_job_exec(&self.job);
                    self.report(append_cleanups(c, f), RecoveryReport::RolledBackCopy { source })
                } else {
                    let tmp = self.job.target_path.clone();
                    self.report(cleanup0(), RecoveryReport::InitiatedSourceMissing { source, tmp })
                }
            },
            MigrationStage::Copied => {
                if src_ok {
                    self.report(cleanup0(), RecoveryReport::CopiedResumable { source })
                } else {
                    let rep = RecoveryReport::CopiedSourceMissing {
                        source,
                        tmp: self.job.target_path.clone(),
                        final_target: self.job.final_target_path.clone(),
                    };
                    self.report(cleanup0(), rep)
                }
            },
            MigrationStage::Finalized => {
                if !p.final_exists {
                    if p.target_exists {
                        let rep = RecoveryReport::FinalizedFinalMissing {
                            source,
                            final_target: self.job.final_target_path.clone(),
                            tmp: self.job.target_path.clone(),
                        };
                        self.report(cleanup0(), rep)
                    } else {
                        let f = forget_job_exec(&self.job);
                        self.report(f, RecoveryReport::FinalizedDataLost { source })
                    }
                } else if src_ok {
                    if p.old_exists {
                        let old = self.old_path.clone();
                        self.report(cleanup0(), RecoveryReport::OldPathTaken { source, old })
                    } else {
                        let a = RecoveryAction::Rename { from: source, to: self.old_path.clone() };
                        self.go(RecoveryPhase::AwaitRename, cleanup0(), a)
                    }
                } else {
                    let rep = RecoveryReport::FinalizedSourceGone { source, final_target: self.job.final_target_path.clone() };
                    self.report(cleanup0(), rep)
                }
            },
            MigrationStage::SourceRenamed => {
                if !p.old_exists {
                    if src_ok {
                        let mut back = self.job.duplicate();
                        back.stage = MigrationStage::Finalized;
                        back.renamed_source_path = None;
                        self.report(cleanup1(Cleanup::WriteJob(back)), RecoveryReport::RevertedToFinalized { source })
                    } else {
                        let old = self.old_path.clone();
                        self.report(cleanup1(Cleanup::ClearJob), RecoveryReport::RenamedSourceMissing { source, old })
                    }
                } else if !p.final_exists {
                    let rep = RecoveryReport::RenamedFinalMissing { source, final_target: self.job.final_target_path.clone() };
                    self.report(cleanup1(Cleanup::ClearJob), rep)
                } else {
                    let a = RecoveryAction::CreateJunction { link: source, target: self.job.final_target_path.clone() };
                    self.go(RecoveryPhase::AwaitLink, cleanup0(), a)
                }
            },
            MigrationStage::Linked => self.report(cleanup0(), RecoveryReport::AwaitingConfirmation { source }),
            MigrationStage::Completed => {
                let f = forget_job_exec(&self.job);
                self.report(f, RecoveryReport::CompletedCleaned { source })
            },
        }
    }

    fn on_await_job(&mut self, ev: RecoveryEvent) -> (r: RecoveryStep)
        requires
            old(self).phase == RecoveryPhase::AwaitJob,
            recovery_expects(*old(self), ev),
        ensures
            recovery_next(*old(self), ev, *final(self), r),
    {
        match ev {
        RecoveryEvent::Job(Err(e)) => {
            self.phase = RecoveryPhase::Finished;
            RecoveryStep { cleanup: cleanup0(), action: RecoveryAction::Finish(Err(e)) }
        },
        RecoveryEvent::Job(Ok(None)) => {
            self.phase = RecoveryPhase::Finished;
            RecoveryStep { cleanup: cleanup0(), action: RecoveryAction::Finish(Ok(None)) }
        },
        RecoveryEvent::Job(Ok(Some(j))) => {
            let old = if j.stage == MigrationStage::SourceRenamed {
                match &j.renamed_source_path {
                    Some(p) => p.clone(),
                    None => make_old_path(j.source_path.as_str()),
                }
            } else {
                make_old_path(j.source_path.as_str())
            };
            let a = RecoveryAction::Probe {
                source: j.source_path.clone(),
                tmp: j.target_path.clone(),
                final_path: j.final_target_path.clone(),
                old: old.clone(),
            };
            self.job = j;
            self.old_path = old;
            self.phase = RecoveryPhase::AwaitProbe;
            RecoveryStep { cleanup: cleanup0(), action: a }
        },
        _ => {
            proof {
                assert(false);
            }
            self.go(RecoveryPhase::Finished, cleanup0(), RecoveryAction::ReadJob)
        },
    }
    }

    fn on_await_rename(&mut self, ev: RecoveryEvent) -> (r: RecoveryStep)
        requires
            old(self).phase == RecoveryPhase::AwaitRename,
            recovery_expects(*old(self), ev),
        ensures
            recovery_next(*old(self), ev, *final(self), r),
    {
        match ev {
        RecoveryEvent::Done(Err(e)) => self.report(cleanup0(), RecoveryReport::AutoRenameFailed { error: e }),
        RecoveryEvent::Done(Ok(())) => {
            self.job.stage = MigrationStage::SourceRenamed;
            self.job.renamed_source_path = Some(self.old_path.clone());
            let c = cleanup1(Cleanup::WriteJob(self.job.duplicate()));
            let a = RecoveryAction::CreateJunction {
                link: self.job.source_path.clone(),
                target: self.job.final_target_path.clone(),
            };
            self.go(RecoveryPhase::AwaitRelink, c, a)
        },
        _ => {
            proof {
                assert(false);
            }
            self.go(RecoveryPhase::Finished, cleanup0(), RecoveryAction::ReadJob)
        },
    }
    }

    fn on_await_relink(&mut self, ev: RecoveryEvent) -> (r: RecoveryStep)
        requires
            old(self).phase == RecoveryPhase::AwaitRelink,
            recovery_expects(*old(self), ev),
        ensures
            recovery_next(*old(self), ev, *final(self), r),
    {
        match ev {
        RecoveryEvent::Done(Err(e)) => {
            let source = self.job.source_path.clone();
            let final_target = self.job.final_target_path.clone();
            let rename_back = Cleanup::Rename { from: self.old_path.clone(), to: self.job.source_path.clone() };
            self.job.stage = MigrationStage::Finalized;
            self.job.renamed_source_path = None;
            let w = Cleanup::WriteJob(self.job.duplicate());
            let ghost rb = rename_back;
            let ghost wb = w;
            let mut c = cleanup1(rename_back);
            c.push(w);
            assert(c@ =~= seq![rb, wb]);
            self.report(c, RecoveryReport::AutoLinkFailed { error: e, source, final_target })
        },
        RecoveryEvent::Done(Ok(())) => {
            self.job.stage = MigrationStage::Linked;
            let c = cleanup1(Cleanup::WriteJob(self.job.duplicate()));
            let source = self.job.source_path.clone();
            self.report(c, RecoveryReport::AutoCompleted { source })
        },
        _ => {
            proof {
                assert(false);
            }
            self.go(RecoveryPhase::Finished, cleanup0(), RecoveryAction::ReadJob)
        },
    }
    }

    fn on_await_link(&mut self, ev: RecoveryEvent) -> (r: RecoveryStep)
        requires
            old(self).phase == RecoveryPhase::AwaitLink,
            recovery_expects(*old(self), ev),
        ensures
            recovery_next(*old(self), ev, *final(self), r),
    {
        match ev {
        RecoveryEvent::Done(Err(e)) => {
            let rep = RecoveryReport::LinkFailed {
                error: e,
                source: self.job.source_path.clone(),
                final_target: self.job.final_target_path.clone(),
            };
            self.report(cleanup0(), rep)
        },
        RecoveryEvent::Done(Ok(())) => {
            self.job.stage = MigrationStage::Linked;
            if self.job.renamed_source_path.is_none() {
                self.job.renamed_source_path = Some(self.old_path.clone());
            }
            let c = cleanup1(Cleanup::WriteJob(self.job.duplicate()));
            let source = self.job.source_path.clone();
            self.report(c, RecoveryReport::AutoLinked { source })
        },
        _ => {
            proof {
                assert(false);
            }
            self.go(RecoveryPhase::Finished, cleanup0(), RecoveryAction::ReadJob)
        },
    }
    }

    /// Takes the outcome of the last action and returns the next step.
    pub fn step(&mut self, ev: RecoveryEvent) -> (r: RecoveryStep)
        requires
            recovery_expects(*old(self), ev),
        ensures
            recovery_next(*old(self), ev, *final(self), r),
    {
        match self.phase {
            RecoveryPhase::Start => self.go(RecoveryPhase::AwaitJob, cleanup0(), RecoveryAction::ReadJob),
            RecoveryPhase::AwaitJob => self.on_await_job(ev),
            RecoveryPhase::AwaitProbe => match ev {
                RecoveryEvent::Probed(p) => self.decide_exec(p),
                _ => {
                    proof {
                        assert(false);
                    }
                    self.go(RecoveryPhase::Finished, cleanup0(), RecoveryAction::ReadJob)
                },
            },
            RecoveryPhase::AwaitRename => self.on_await_rename(ev),
            RecoveryPhase::AwaitRelink => self.on_await_relink(ev),
            RecoveryPhase::AwaitLink => self.on_await_link(ev),
            RecoveryPhase::Finished => {
                proof {
                    assert(false);
                }
                self.go(RecoveryPhase::Finished, cleanup0(), RecoveryAction::ReadJob)
            },
        }
    }
}

// ---------------------------------------------------------------- laws

/// What holds in each phase of a recovery.
pub open spec fn recovery_inv(s: CrashRecovery) -> bool {
    &&& s.phase == RecoveryPhase::AwaitRename ==> s.job.stage == MigrationStage::Finalized
    &&& s.phase == RecoveryPhase::AwaitRelink ==> s.job.stage == MigrationStage::SourceRenamed
    &&& s.phase == RecoveryPhase::AwaitLink ==> s.job.stage == MigrationStage::SourceRenamed
    &&& s.phase == RecoveryPhase::AwaitRelink ==> s.job.renamed_source_path == Some(s.old_path)
    &&& (s.phase != RecoveryPhase::Start && s.phase != RecoveryPhase::AwaitJob && s.phase
        != RecoveryPhase::Finished) ==> s.old_path@ == recovery_old_path(s.job)
}

/// Law: every recovery step keeps `recovery_inv`.
pub proof fn lemma_recovery_inv_step(s: CrashRecovery, ev: RecoveryEvent, t: CrashRecovery, r: RecoveryStep)
    requires
        recovery_inv(s),
        recovery_next(s, ev, t, r),
    ensures
        recovery_inv(t),
{
}

/// Law (the only copy is never deleted): recovery removes a directory only
/// for a job recorded at `Initiated`, and then only its temporary
/// directory, and only while the source is still there; the final
/// directory is removed only for a journal that records it as the
/// temporary directory too (where the source still holds the data).
pub proof fn lemma_recovery_removes_only_unfinished_copy(
    s: CrashRecovery,
    ev: RecoveryEvent,
    t: CrashRecovery,
    r: RecoveryStep,
    i: int,
)
    requires
        recovery_next(s, ev, t, r),
        0 <= i < r.cleanup@.len(),
        r.cleanup@[i] is RemoveTree,
    ensures
        s.job.stage == MigrationStage::Initiated,
        r.cleanup@[i] == Cleanup::RemoveTree(s.job.target_path),
        ev matches RecoveryEvent::Probed(p) && p.source_exists && p.target_exists,
        r.cleanup@[i] == Cleanup::RemoveTree(s.job.final_target_path) ==> s.job.target_path
            == s.job.final_target_path,
{
}

/// Law (the user decides after linking): for a job recorded at `Linked`,
/// recovery changes nothing on disk and only reports.
pub proof fn lemma_recovery_keeps_linked(s: CrashRecovery, p: RecoveryProbe, t: CrashRecovery, r: RecoveryStep)
    requires
        s.phase == RecoveryPhase::AwaitProbe,
        s.job.stage == MigrationStage::Linked,
        recovery_next(s, RecoveryEvent::Probed(p), t, r),
    ensures
        r.cleanup@.len() == 0,
        r.action is Finish,
{
}

/// Law (link only a complete, renamed migration): recovery creates a
/// junction only from the source path to the final directory, when the
/// final directory was found and the source had been (or was just) renamed
/// aside.
pub proof fn lemma_recovery_links_safely(s: CrashRecovery, ev: RecoveryEvent, t: CrashRecovery, r: RecoveryStep)
    requires
        recovery_inv(s),
        recovery_next(s, ev, t, r),
        r.action is CreateJunction,
    ensures
        r.action == (RecoveryAction::CreateJunction { link: s.job.source_path, target: s.job.final_target_path }),
        s.phase == RecoveryPhase::AwaitRename || s.phase == RecoveryPhase::AwaitProbe,
        s.phase == RecoveryPhase::AwaitProbe ==> (ev matches RecoveryEvent::Probed(p)
            && p.final_exists && p.old_exists),
{
}

/// Law (an automatic completion is recorded): whenever recovery ends by
/// reporting that it made the junction itself (after renaming the source
/// aside, or for a source already renamed), the junction was just made, and
/// its cleanups write the job's record at stage `Linked` with the renamed
/// source recorded, so that the user can confirm or roll back.
pub proof fn lemma_recovery_auto_link_recorded(s: CrashRecovery, ev: RecoveryEvent, t: CrashRecovery, r: RecoveryStep)
    requires
        recovery_inv(s),
        recovery_next(s, ev, t, r),
        r.action matches RecoveryAction::Finish(Ok(Some(rep))) && (rep is AutoCompleted || rep is AutoLinked),
    ensures
        s.phase == RecoveryPhase::AwaitRelink || s.phase == RecoveryPhase::AwaitLink,
        ev matches RecoveryEvent::Done(Ok(_)),
        r.cleanup@.len() == 1,
        r.cleanup@[0] matches Cleanup::WriteJob(j) && j.stage == MigrationStage::Linked && j.job_id == s.job.job_id
            && j.source_path == s.job.source_path && j.target_path == s.job.target_path
            && j.final_target_path == s.job.final_target_path && j.manifest_path == s.job.manifest_path
            && (j.renamed_source_path matches Some(o) && o@ == s.old_path@),
{
}

/// Law (the journal keeps its identity): every record recovery writes is the
/// job's own record with only its stage and renamed-source path changed.
pub proof fn lemma_recovery_writes_same_job(
    s: CrashRecovery,
    ev: RecoveryEvent,
    t: CrashRecovery,
    r: RecoveryStep,
    i: int,
)
    requires
        s.phase != RecoveryPhase::AwaitJob,
        recovery_next(s, ev, t, r),
        0 <= i < r.cleanup@.len(),
        r.cleanup@[i] is WriteJob,
    ensures
        r.cleanup@[i] matches Cleanup::WriteJob(j) && j.job_id == s.job.job_id && j.source_path
            == s.job.source_path && j.target_path == s.job.target_path && j.final_target_path
            == s.job.final_target_path && j.manifest_path == s.job.manifest_path,
{
}

} // verus!
