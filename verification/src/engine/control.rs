//! The two decisions the user takes after a migration is linked: confirm
//! it (delete the renamed source) or roll it back instantly (put the
//! renamed source back), each as a state machine.
use vstd::prelude::*;
use crate::engine::paths::{make_old_path, old_path_spec};
use crate::engine::recovery::forget_job;
use crate::engine::run::{
    lemma_run_linked_record, run_inv, run_next, Cleanup, MigrationRun, RunAction, RunEvent, RunStep,
};
use crate::journal::{MigrationStage, PendingJob};

verus! {

/// What a best-effort deletion of a redundant copy left behind: whether
/// everything went, and the entries that could not be deleted.
#[derive(Debug)]
pub struct DeleteResult {
    pub fully_deleted: bool,
    pub failed_files: Vec<String>,
}

/// What was found on disk before an instant rollback.
#[derive(Debug)]
pub struct RollbackProbe {
    pub source_is_junction: bool,
    pub old_exists: bool,
    pub final_exists: bool,
}

/// Why a confirmation or a rollback stopped.
#[derive(Debug)]
pub enum ControlError {
    Io(String),
    NoJob,
    NotLinked(MigrationStage),
    SourceMismatch { job_source: String, requested: String },
    RestoreFailed { old: String, source: String, error: String },
    OldMissing(String),
    Unsupported(MigrationStage),
}

/// The next thing to do.
#[derive(Debug)]
pub enum ControlAction {
    ReadJob,
    PathExists { path: String },
    /// Delete a tree entry by entry, best effort (a junction only as a
    /// link): an entry that cannot be deleted is noted and the rest still
    /// goes; answer with the entries left.
    RemoveTree { path: String },
    WriteJob { job: PendingJob },
    Probe { source: String, old: String, final_path: String },
    DeleteJunction { path: String },
    Rename { from: String, to: String },
    Finish(Result<DeleteResult, ControlError>),
}

/// The outcome of the last action.
#[derive(Debug)]
pub enum ControlEvent {
    Job(Result<Option<PendingJob>, String>),
    Exists(bool),
    /// The entries a best-effort deletion could not delete.
    Removed(Vec<String>),
    Done(Result<(), String>),
    Probed(RollbackProbe),
}

/// One step: cleanups (failures ignored), then the action.
pub struct ControlStep {
    pub cleanup: Vec<Cleanup>,
    pub action: ControlAction,
}

#[derive(PartialEq, Eq, Structural, Clone, Copy, Debug)]
pub enum ControlPhase {
    Start,
    AwaitJob,
    AwaitOldExists,
    AwaitRemoved,
    AwaitCompletedWritten,
    AwaitProbe,
    AwaitJunctionDeleted,
    AwaitRestore,
    AwaitFinalRemoved,
    Finished,
}

/// The state of a confirmation (`rollback == false`) or of an instant
/// rollback (`rollback == true`) for the source path `requested`.
pub struct JobControl {
    pub rollback: bool,
    pub phase: ControlPhase,
    pub requested: String,
    pub job: PendingJob,
    pub old_path: String,
    pub final_exists: bool,
    /// The entries of the renamed source a confirmation could not delete.
    pub left: Vec<String>,
    /// The renamed source was found before the junction was removed.
    pub old_exists: bool,
}

// ---------------------------------------------------------------- spec

/// The renamed-source path of a job: the recorded one, or the one derived
/// from the source path given.
pub open spec fn control_old_path(j: PendingJob, requested: Seq<char>) -> Seq<char> {
    match j.renamed_source_path {
        Some(p) => p@,
        None => old_path_spec(requested),
    }
}

pub open spec fn stops(s: JobControl, t: JobControl, r: ControlStep, c: Seq<Cleanup>, e: ControlError) -> bool {
    &&& t == (JobControl { phase: ControlPhase::Finished, ..s })
    &&& r.cleanup@ == c
    &&& r.action == ControlAction::Finish(Err(e))
}

pub open spec fn proceeds(s: JobControl, t: JobControl, r: ControlStep, p: ControlPhase, c: Seq<Cleanup>, a: ControlAction) -> bool {
    &&& t == (JobControl { phase: p, ..s })
    &&& r.cleanup@ == c
    &&& r.action == a
}

/// `d` reports a best-effort deletion that left the entries `left`.
pub open spec fn reports_left(d: DeleteResult, left: Seq<String>) -> bool {
    &&& d.fully_deleted == (left.len() == 0)
    &&& d.failed_files@ == left
}

/// The action ends successfully with a report of the entries `left`.
pub open spec fn finishes_reporting(a: ControlAction, left: Seq<String>) -> bool {
    a matches ControlAction::Finish(Ok(d)) && reports_left(d, left)
}

/// The stages an instant rollback handles.
pub open spec fn rollback_stage(st: MigrationStage) -> bool {
    st == MigrationStage::Linked || st == MigrationStage::SourceRenamed || st == MigrationStage::Finalized
}

/// After reading the journal: the job must exist and be for the requested
/// source; a confirmation needs stage `Linked`.
pub open spec fn next_control_job(s: JobControl, ev: ControlEvent, t: JobControl, r: ControlStep) -> bool {
    match ev {
        ControlEvent::Job(Err(e)) => stops(s, t, r, seq![], ControlError::Io(e)),
        ControlEvent::Job(Ok(None)) => stops(s, t, r, seq![], ControlError::NoJob),
        ControlEvent::Job(Ok(Some(j))) => if !s.rollback && j.stage != MigrationStage::Linked {
            stops(s, t, r, seq![], ControlError::NotLinked(j.stage))
        } else if j.source_path@ != s.requested@ {
            stops(s, t, r, seq![], ControlError::SourceMismatch { job_source: j.source_path, requested: s.requested })
        } else if s.rollback && !rollback_stage(j.stage) {
            stops(s, t, r, seq![], ControlError::Unsupported(j.stage))
        } else {
            &&& t.job == j
            &&& t.old_path@ == control_old_path(j, s.requested@)
            &&& t == (JobControl { phase: t.phase, job: j, old_path: t.old_path, ..s })
            &&& r.cleanup@.len() == 0
            &&& if s.rollback {
                &&& t.phase == ControlPhase::AwaitProbe
                &&& r.action == ControlAction::Probe { source: s.requested, old: t.old_path, final_path: j.final_target_path }
            } else {
                &&& t.phase == ControlPhase::AwaitOldExists
                &&& r.action == ControlAction::PathExists { path: t.old_path }
            }
        },
        _ => false,
    }
}

/// The record of a confirmed migration.
pub open spec fn completed_job(s: JobControl) -> PendingJob {
    PendingJob { stage: MigrationStage::Completed, ..s.job }
}

/// Putting the renamed source back, or stopping when it is missing.
pub open spec fn restore_or_stop(s: JobControl, t: JobControl, r: ControlStep, old_exists: bool) -> bool {
    if old_exists {
        proceeds(s, t, r, ControlPhase::AwaitRestore, seq![], ControlAction::Rename { from: s.old_path, to: s.requested })
    } else {
        stops(s, t, r, seq![], ControlError::OldMissing(s.old_path))
    }
}

/// How a rollback ends once the data is back at the source: the final
/// directory, when there, is deleted best effort; then the journal goes and
/// what was left of the final directory is reported.
pub open spec fn end_rollback(s: JobControl, t: JobControl, r: ControlStep) -> bool {
    if s.final_exists {
        proceeds(s, t, r, ControlPhase::AwaitFinalRemoved, seq![], ControlAction::RemoveTree { path: s.job.final_target_path })
    } else {
        &&& t == (JobControl { phase: ControlPhase::Finished, ..s })
        &&& r.cleanup@ == forget_job(s.job)
        &&& finishes_reporting(r.action, s.left@)
    }
}

/// The transition relation of confirmation and instant rollback.
pub open spec fn control_next(s: JobControl, ev: ControlEvent, t: JobControl, r: ControlStep) -> bool {
    match s.phase {
        ControlPhase::Start => proceeds(s, t, r, ControlPhase::AwaitJob, seq![], ControlAction::ReadJob),
        ControlPhase::AwaitJob => next_control_job(s, ev, t, r),
        ControlPhase::AwaitOldExists => match ev {
            ControlEvent::Exists(true) => proceeds(s, t, r, ControlPhase::AwaitRemoved, seq![], ControlAction::RemoveTree { path: s.old_path }),
            ControlEvent::Exists(false) => proceeds(s, t, r, ControlPhase::AwaitCompletedWritten, seq![], ControlAction::WriteJob { job: completed_job(s) }),
            _ => false,
        },
        ControlPhase::AwaitRemoved => match ev {
            ControlEvent::Removed(l) => proceeds(
                JobControl { left: l, ..s },
                t,
                r,
                ControlPhase::AwaitCompletedWritten,
                seq![],
                ControlAction::WriteJob { job: completed_job(s) },
            ),
            _ => false,
        },
        ControlPhase::AwaitCompletedWritten => match ev {
            ControlEvent::Done(Err(e)) => stops(s, t, r, seq![], ControlError::Io(e)),
            ControlEvent::Done(Ok(())) => {
                &&& t == (JobControl { phase: ControlPhase::Finished, job: completed_job(s), ..s })
                &&& r.cleanup@ == forget_job(s.job)
                &&& finishes_reporting(r.action, s.left@)
            },
            _ => false,
        },
        ControlPhase::AwaitProbe => match ev {
            ControlEvent::Probed(p) => {
                let s2 = JobControl { final_exists: p.final_exists, ..s };
                if s.job.stage == MigrationStage::Finalized {
                    end_rollback(s2, t, r)
                } else if s.job.stage == MigrationStage::Linked && p.source_is_junction {
                    &&& t == (JobControl { phase: ControlPhase::AwaitJunctionDeleted, old_exists: p.old_exists, ..s2 })
                    &&& r.cleanup@.len() == 0
                    &&& r.action == ControlAction::DeleteJunction { path: s.requested }
                } else {
                    restore_or_stop(s2, t, r, p.old_exists)
                }
            },
            _ => false,
        },
        ControlPhase::AwaitJunctionDeleted => match ev {
            ControlEvent::Done(Err(e)) => stops(s, t, r, seq![], ControlError::Io(e)),
            ControlEvent::Done(Ok(())) => restore_or_stop(s, t, r, s.old_exists),
            _ => false,
        },
        ControlPhase::AwaitRestore => match ev {
            ControlEvent::Done(Err(e)) => stops(s, t, r, seq![], ControlError::RestoreFailed { old: s.old_path, source: s.requested, error: e }),
            ControlEvent::Done(Ok(())) => end_rollback(s, t, r),
            _ => false,
        },
        ControlPhase::AwaitFinalRemoved => match ev {
            ControlEvent::Removed(l) => {
                &&& t == (JobControl { phase: ControlPhase::Finished, left: l, ..s })
                &&& r.cleanup@ == forget_job(s.job)
                &&& finishes_reporting(r.action, l@)
            },
            _ => false,
        },
        ControlPhase::Finished => false,
    }
}

/// The outcome kind each phase waits for.
pub open spec fn control_expects(s: JobControl, ev: ControlEvent) -> bool {
    match s.phase {
        ControlPhase::Start => true,
        ControlPhase::AwaitJob => ev is Job,
        ControlPhase::AwaitOldExists => ev is Exists,
        ControlPhase::AwaitRemoved | ControlPhase::AwaitFinalRemoved => ev is Removed,
        ControlPhase::AwaitProbe => ev is Probed,
        ControlPhase::Finished => false,
        _ => ev is Done,
    }
}

// ---------------------------------------------------------------- exec

fn none_cleanup() -> (r: Vec<Cleanup>)
    ensures
        r@ == Seq::<Cleanup>::empty(),
{
    Vec::new()
}

/// A copy of the entries left, as a report.
fn delete_result_of(left: &Vec<String>) -> (r: DeleteResult)
    ensures
        reports_left(r, left@),
{
    let mut out: Vec<String> = Vec::new();
    let mut i: usize = 0;
    while i < left.len()
        invariant
            i <= left@.len(),
            out@ == left@.take(i as int),
        decreases left@.len() - i,
    {
        out.push(left[i].clone());
        assert(left@.take(i + 1) =~= left@.take(i as int).push(left@[i as int]));
        i = i + 1;
    }
    assert(left@.take(left@.len() as int) =~= left@);
    DeleteResult { fully_deleted: left.len() == 0, failed_files: out }
}

fn forget_exec(j: &PendingJob) -> (r: Vec<Cleanup>)
    ensures
        r@ == forget_job(*j),
{
    let mut v = Vec::new();
    v.push(Cleanup::ClearJob);
    match &j.manifest_path {
        Some(mp) => {
            v.push(Cleanup::RemoveFile(mp.clone()));
        },
        None => {},
    }
    v
}

impl JobControl {
    /// The user confirms the migration of `source_path`: its renamed
    /// source is deleted and the journal records `Completed`.
    pub fn confirm_delete_source(source_path: String) -> (r: JobControl)
        ensures
            r.phase == ControlPhase::Start,
            !r.rollback,
            r.requested == source_path,
            r.left@.len() == 0,
    {
        JobControl::of(source_path, false)
    }

    /// The user rolls back the migration of `source_path` at once: the
    /// junction goes and the renamed source is put back.
    pub fn rollback_migration_instant(source_path: String) -> (r: JobControl)
        ensures
            r.phase == ControlPhase::Start,
            r.rollback,
            r.requested == source_path,
            r.left@.len() == 0,
    {
        JobControl::of(source_path, true)
    }

    fn of(source_path: String, rollback: bool) -> (r: JobControl)
        ensures
            r.phase == ControlPhase::Start,
            r.rollback == rollback,
            r.requested == source_path,
            r.left@.len() == 0,
    {
        JobControl {
            rollback,
            phase: ControlPhase::Start,
            requested: source_path,
            job: PendingJob {
                job_id: String::new(),
                source_path: String::new(),
                target_path: String::new(),
                final_target_path: String::new(),
                stage: MigrationStage::Initiated,
                manifest_path: None,
                renamed_source_path: None,
            },
            old_path: String::new(),
            final_exists: false,
            left: Vec::new(),
            old_exists: false,
        }
    }

    fn stop(&mut self, c: Vec<Cleanup>, e: ControlError) -> (r: ControlStep)
        ensures
            stops(*old(self), *final(self), r, c@, e),
    {
        self.phase = ControlPhase::Finished;
        ControlStep { cleanup: c, action: ControlAction::Finish(Err(e)) }
    }

    fn proceed(&mut self, p: ControlPhase, a: ControlAction) -> (r: ControlStep)
        ensures
            proceeds(*old(self), *final(self), r, p, seq![], a),
    {
        self.phase = p;
        ControlStep { cleanup: none_cleanup(), action: a }
    }

    fn end_rollback_exec(&mut self) -> (r: ControlStep)
        ensures
            end_rollback(*old(self), *final(self), r),
    {
        if self.final_exists {
            let a = ControlAction::RemoveTree { path: self.job.final_target_path.clone() };
            self.proceed(ControlPhase::AwaitFinalRemoved, a)
        } else {
            let c = forget_exec(&self.job);
            let res = delete_result_of(&self.left);
            self.phase = ControlPhase::Finished;
            ControlStep { cleanup: c, action: ControlAction::Finish(Ok(res)) }
        }
    }

    fn restore_or_stop_exec(&mut self, old_exists: bool) -> (r: ControlStep)
        ensures
            restore_or_stop(*old(self), *final(self), r, old_exists),
    {
        if old_exists {
            let a = ControlAction::Rename { from: self.old_path.clone(), to: self.requested.clone() };
            self.proceed(ControlPhase::AwaitRestore, a)
        } else {
            let e = ControlError::OldMissing(self.old_path.clone());
            self.stop(none_cleanup(), e)
        }
    }

    fn on_job(&mut self, ev: ControlEvent) -> (r: ControlStep)
        requires
            ev is Job,
        ensures
            next_control_job(*old(self), ev, *final(self), r),
    {
        match ev {
            ControlEvent::Job(Err(e)) => self.stop(none_cleanup(), ControlError::Io(e)),
            ControlEvent::Job(Ok(None)) => self.stop(none_cleanup(), ControlError::NoJob),
            ControlEvent::Job(Ok(Some(j))) => {
                if !self.rollback && j.stage != MigrationStage::Linked {
                    self.stop(none_cleanup(), ControlError::NotLinked(j.stage))
                } else if j.source_path != self.requested {
                    let e = ControlError::SourceMismatch { job_source: j.source_path, requested: self.requested.clone() };
                    self.stop(none_cleanup(), e)
                } else if self.rollback && !(j.stage == MigrationStage::Linked || j.stage
                    == MigrationStage::SourceRenamed || j.stage == MigrationStage::Finalized) {
                    self.stop(none_cleanup(), ControlError::Unsupported(j.stage))
                } else {
                    let old = match &j.renamed_source_path {
                        Some(p) => p.clone(),
                        None => make_old_path(self.requested.as_str()),
                    };
                    let a = if self.rollback {
                        ControlAction::Probe {
                            source: self.requested.clone(),
                            old: old.clone(),
                            final_path: j.final_target_path.clone(),
                        }
                    } else {
                        ControlAction::PathExists { path: old.clone() }
                    };
                    self.job = j;
                    self.old_path = old;
                    self.phase = if self.rollback { ControlPhase::AwaitProbe } else { ControlPhase::AwaitOldExists };
                    ControlStep { cleanup: none_cleanup(), action: a }
                }
            },
            _ => {
                proof {
                    assert(false);
                }
                self.stop(none_cleanup(), ControlError::NoJob)
            },
        }
    }

    fn on_probe(&mut self, ev: ControlEvent) -> (r: ControlStep)
        requires
            ev is Probed,
            old(self).phase == ControlPhase::AwaitProbe,
        ensures
            control_next(*old(self), ev, *final(self), r),
    {
        match ev {
            ControlEvent::Probed(p) => {
                self.final_exists = p.final_exists;
                if self.job.stage == MigrationStage::Finalized {
                    self.end_rollback_exec()
                } else if self.job.stage == MigrationStage::Linked && p.source_is_junction {
                    self.old_exists = p.old_exists;
                    let a = ControlAction::DeleteJunction { path: self.requested.clone() };
                    self.proceed(ControlPhase::AwaitJunctionDeleted, a)
                } else {
                    self.restore_or_stop_exec(p.old_exists)
                }
            },
            _ => {
                proof {
                    assert(false);
                }
                self.stop(none_cleanup(), ControlError::NoJob)
            },
        }
    }

    /// Takes the outcome of the last action and returns the next step.
    pub fn step(&mut self, ev: ControlEvent) -> (r: ControlStep)
        requires
            control_expects(*old(self), ev),
        ensures
            control_next(*old(self), ev, *final(self), r),
    {
        match self.phase {
            ControlPhase::Start => self.proceed(ControlPhase::AwaitJob, ControlAction::ReadJob),
            ControlPhase::AwaitJob => self.on_job(ev),
            ControlPhase::AwaitOldExists => match ev {
                ControlEvent::Exists(true) => {
                    let a = ControlAction::RemoveTree { path: self.old_path.clone() };
                    self.proceed(ControlPhase::AwaitRemoved, a)
                },
                ControlEvent::Exists(false) => {
                    let job = self.job.at_stage(MigrationStage::Completed);
                    self.proceed(ControlPhase::AwaitCompletedWritten, ControlAction::WriteJob { job })
                },
                _ => {
                    proof {
                        assert(false);
                    }
                    self.stop(none_cleanup(), ControlError::NoJob)
                },
            },
            ControlPhase::AwaitRemoved => match ev {
                ControlEvent::Removed(l) => {
                    self.left = l;
                    let job = self.job.at_stage(MigrationStage::Completed);
                    self.proceed(ControlPhase::AwaitCompletedWritten, ControlAction::WriteJob { job })
                },
                _ => {
                    proof {
                        assert(false);
                    }
                    self.stop(none_cleanup(), ControlError::NoJob)
                },
            },
            ControlPhase::AwaitCompletedWritten => match ev {
                ControlEvent::Done(Err(e)) => self.stop(none_cleanup(), ControlError::Io(e)),
                ControlEvent::Done(Ok(())) => {
                    let c = forget_exec(&self.job);
                    let res = delete_result_of(&self.left);
                    self.job.stage = MigrationStage::Completed;
                    self.phase = ControlPhase::Finished;
                    ControlStep { cleanup: c, action: ControlAction::Finish(Ok(res)) }
                },
                _ => {
                    proof {
                        assert(false);
                    }
                    self.stop(none_cleanup(), ControlError::NoJob)
                },
            },
            ControlPhase::AwaitProbe => self.on_probe(ev),
            ControlPhase::AwaitJunctionDeleted => match ev {
                ControlEvent::Done(Err(e)) => self.stop(none_cleanup(), ControlError::Io(e)),
                ControlEvent::Done(Ok(())) => {
                    let exists = self.old_exists;
                    self.restore_or_stop_exec(exists)
                },
                _ => {
                    proof {
                        assert(false);
                    }
                    self.stop(none_cleanup(), ControlError::NoJob)
                },
            },
            ControlPhase::AwaitRestore => match ev {
                ControlEvent::Done(Err(e)) => {
                    let err = ControlError::RestoreFailed { old: self.old_path.clone(), source: self.requested.clone(), error: e };
                    self.stop(none_cleanup(), err)
                },
                ControlEvent::Done(Ok(())) => self.end_rollback_exec(),
                _ => {
                    proof {
                        assert(false);
                    }
                    self.stop(none_cleanup(), ControlError::NoJob)
                },
            },
            ControlPhase::AwaitFinalRemoved => match ev {
                ControlEvent::Removed(l) => {
                    let c = forget_exec(&self.job);
                    let res = delete_result_of(&l);
                    self.left = l;
                    self.phase = ControlPhase::Finished;
                    ControlStep { cleanup: c, action: ControlAction::Finish(Ok(res)) }
                },
                _ => {
                    proof {
                        assert(false);
                    }
                    self.stop(none_cleanup(), ControlError::NoJob)
                },
            },
            ControlPhase::Finished => {
                proof {
                    assert(false);
                }
                self.stop(none_cleanup(), ControlError::NoJob)
            },
        }
    }
}

// ---------------------------------------------------------------- laws

/// What holds in each phase: once past the journal, the job is the one of
/// the requested source, at `Linked` for a confirmation and at a stage an
/// instant rollback handles for a rollback; nothing is noted as left until
/// a deletion answered.
pub open spec fn control_inv(s: JobControl) -> bool {
    &&& (s.phase != ControlPhase::AwaitCompletedWritten && s.phase != ControlPhase::Finished) ==> s.left@.len() == 0
    &&& (s.phase != ControlPhase::Start && s.phase != ControlPhase::AwaitJob && s.phase != ControlPhase::Finished) ==> {
        &&& s.job.source_path@ == s.requested@
        &&& s.old_path@ == control_old_path(s.job, s.requested@)
        &&& !s.rollback ==> s.job.stage == MigrationStage::Linked
        &&& s.rollback ==> rollback_stage(s.job.stage)
        &&& (s.phase == ControlPhase::AwaitOldExists || s.phase == ControlPhase::AwaitRemoved
            || s.phase == ControlPhase::AwaitCompletedWritten) ==> !s.rollback
        &&& (s.phase == ControlPhase::AwaitProbe || s.phase == ControlPhase::AwaitJunctionDeleted
            || s.phase == ControlPhase::AwaitRestore || s.phase == ControlPhase::AwaitFinalRemoved) ==> s.rollback
        &&& s.phase == ControlPhase::AwaitRestore ==> s.job.stage != MigrationStage::Finalized
        &&& s.phase == ControlPhase::AwaitJunctionDeleted ==> s.job.stage == MigrationStage::Linked
    }
}

/// Law: a new confirmation or rollback starts in `control_inv`.
pub proof fn lemma_control_inv_initial(s: JobControl)
    requires
        s.phase == ControlPhase::Start,
        s.left@.len() == 0,
    ensures
        control_inv(s),
{
}

/// Law: every step keeps `control_inv`.
pub proof fn lemma_control_inv_step(s: JobControl, ev: ControlEvent, t: JobControl, r: ControlStep)
    requires
        control_inv(s),
        control_next(s, ev, t, r),
        t.phase != ControlPhase::Finished,
    ensures
        control_inv(t),
{
}

/// Law (the renamed source goes only on confirmation): a confirmation
/// deletes only the renamed source, of the source the journal records, at
/// stage `Linked`; no cleanup of either operation deletes a directory.
pub proof fn lemma_confirm_deletes_only_linked_old(s: JobControl, ev: ControlEvent, t: JobControl, r: ControlStep, i: int)
    requires
        control_inv(s),
        control_next(s, ev, t, r),
        !s.rollback,
        r.action is RemoveTree,
    ensures
        s.job.stage == MigrationStage::Linked,
        s.job.source_path@ == s.requested@,
        r.action == (ControlAction::RemoveTree { path: s.old_path }),
        0 <= i < r.cleanup@.len() ==> !(r.cleanup@[i] is RemoveTree),
{
}

/// Law (a confirmation ends recorded): a confirmation succeeds only after
/// the journal was written at `Completed`.
pub proof fn lemma_confirm_success_recorded(s: JobControl, ev: ControlEvent, t: JobControl, r: ControlStep)
    requires
        control_inv(s),
        control_next(s, ev, t, r),
        !s.rollback,
        r.action matches ControlAction::Finish(Ok(_)),
    ensures
        s.phase == ControlPhase::AwaitCompletedWritten,
        ev matches ControlEvent::Done(Ok(_)),
        t.job.stage == MigrationStage::Completed,
{
}

/// Law (entries that cannot be deleted do not stop a confirmation): after
/// the best-effort deletion of the renamed source answered with the
/// entries `left`, the journal is written at `Completed`, and once written
/// the confirmation succeeds, clears the journal and reports exactly those
/// entries (fully deleted when there are none).
pub proof fn lemma_confirm_best_effort(
    s: JobControl,
    left: Vec<String>,
    t: JobControl,
    r: ControlStep,
    u: JobControl,
    r2: ControlStep,
)
    requires
        control_inv(s),
        !s.rollback,
        s.phase == ControlPhase::AwaitRemoved,
        control_next(s, ControlEvent::Removed(left), t, r),
        control_next(t, ControlEvent::Done(Ok(())), u, r2),
    ensures
        r.action == (ControlAction::WriteJob { job: completed_job(s) }),
        u.job.stage == MigrationStage::Completed,
        r2.cleanup@ == forget_job(s.job),
        finishes_reporting(r2.action, left@),
{
}

/// Law (rollback keeps a copy): an instant rollback deletes only the final
/// directory, and only once the renamed source is back at the source path,
/// or when the journal shows the source was never moved (`Finalized`).
pub proof fn lemma_rollback_removes_final_safely(s: JobControl, ev: ControlEvent, t: JobControl, r: ControlStep, i: int)
    requires
        control_inv(s),
        control_next(s, ev, t, r),
        s.rollback,
        r.action is RemoveTree,
    ensures
        r.action == (ControlAction::RemoveTree { path: s.job.final_target_path }),
        (s.phase == ControlPhase::AwaitRestore && ev matches ControlEvent::Done(Ok(_))) || (s.phase
            == ControlPhase::AwaitProbe && s.job.stage == MigrationStage::Finalized),
        0 <= i < r.cleanup@.len() ==> !(r.cleanup@[i] is RemoveTree),
{
}

/// Law (a rollback leaves no orphan copy): an instant rollback, at any
/// stage it handles, succeeds only once the deletion of the final
/// directory was answered, or when the final directory was found absent;
/// the step that starts that deletion deletes the job's final directory.
pub proof fn lemma_rollback_ok_removed_final(s: JobControl, ev: ControlEvent, t: JobControl, r: ControlStep)
    requires
        control_inv(s),
        control_next(s, ev, t, r),
        s.rollback,
    ensures
        r.action matches ControlAction::Finish(Ok(_)) ==> s.phase == ControlPhase::AwaitFinalRemoved
            || !t.final_exists,
        t.phase == ControlPhase::AwaitFinalRemoved && s.phase != ControlPhase::AwaitFinalRemoved ==> r.action
            == (ControlAction::RemoveTree { path: s.job.final_target_path }),
        (s.phase == ControlPhase::AwaitProbe && (ev matches ControlEvent::Probed(p) && p.final_exists)) ==> !(
        r.action matches ControlAction::Finish(Ok(_))),
{
}

/// Law (what the final directory keeps is reported): once the best-effort
/// deletion of the final directory answered with the entries `left`, the
/// rollback succeeds, clears the journal and reports exactly those entries.
pub proof fn lemma_rollback_reports_left(s: JobControl, left: Vec<String>, t: JobControl, r: ControlStep)
    requires
        control_inv(s),
        s.phase == ControlPhase::AwaitFinalRemoved,
        control_next(s, ControlEvent::Removed(left), t, r),
    ensures
        s.rollback,
        t.phase == ControlPhase::Finished,
        r.cleanup@ == forget_job(s.job),
        finishes_reporting(r.action, left@),
{
}

/// Law (instant rollback restores the original state): take the record a
/// migration run writes at `Linked` (source `S`, renamed source `O`, final
/// directory `F`, with the junction `S` to `F` just made). An instant
/// rollback of `S` that reads that record and finds the junction, `O` and
/// `F` in place, with every action succeeding, deletes the junction at `S`,
/// then renames `O` back to `S`, then deletes `F` (best effort), then
/// clears the journal and the manifest and succeeds, reporting what was
/// left of `F`. Nothing is deleted before `O` is back, and `O` is never
/// deleted.
pub proof fn lemma_instant_rollback_round_trip(
    s: MigrationRun,
    rev: RunEvent,
    s2: MigrationRun,
    rr: RunStep,
    j: PendingJob,
    c0: JobControl,
    ev0: ControlEvent,
    c1: JobControl,
    r1: ControlStep,
    c2: JobControl,
    r2: ControlStep,
    c3: JobControl,
    r3: ControlStep,
    c4: JobControl,
    r4: ControlStep,
    c5: JobControl,
    r5: ControlStep,
    left: Vec<String>,
    c6: JobControl,
    r6: ControlStep,
)
    requires
        run_inv(s),
        run_next(s, rev, s2, rr),
        rr.action == (RunAction::WriteJob { job: j }),
        j.stage == MigrationStage::Linked,
        c0.phase == ControlPhase::Start,
        c0.rollback,
        c0.requested@ == s.source@,
        c0.left@.len() == 0,
        control_next(c0, ev0, c1, r1),
        control_next(c1, ControlEvent::Job(Ok(Some(j))), c2, r2),
        control_next(
            c2,
            ControlEvent::Probed(RollbackProbe { source_is_junction: true, old_exists: true, final_exists: true }),
            c3,
            r3,
        ),
        control_next(c3, ControlEvent::Done(Ok(())), c4, r4),
        control_next(c4, ControlEvent::Done(Ok(())), c5, r5),
        control_next(c5, ControlEvent::Removed(left), c6, r6),
    ensures
        r1.action == ControlAction::ReadJob,
        r2.action matches ControlAction::Probe { source, old, final_path } && source == c0.requested && old@
            == s.old_path@ && final_path == s.final_path,
        r3.action == (ControlAction::DeleteJunction { path: c0.requested }),
        r4.action matches ControlAction::Rename { from, to } && from@ == s.old_path@ && to == c0.requested,
        r5.action == (ControlAction::RemoveTree { path: s.final_path }),
        r1.cleanup@.len() == 0 && r2.cleanup@.len() == 0 && r3.cleanup@.len() == 0 && r4.cleanup@.len() == 0
            && r5.cleanup@.len() == 0,
        c6.phase == ControlPhase::Finished,
        r6.cleanup@ == forget_job(j),
        finishes_reporting(r6.action, left@),
{
    lemma_run_linked_record(s, rev, s2, rr, j);
}

} // verus!
