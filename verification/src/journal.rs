//! The migration journal record: which step of a migration is done.
use vstd::prelude::*;

verus! {

/// The milestones of a migration, each written to the journal when reached.
///
/// Before the source is renamed (`Initiated`, `Copied`, `Finalized`) the
/// source is the authoritative copy; from `SourceRenamed` on, the final
/// target directory is, and the renamed source is a redundant copy that is
/// only deleted after the user confirms (`Linked` to `Completed`).
#[derive(PartialEq, Eq, Structural, Clone, Copy, Debug)]
pub enum MigrationStage {
    /// The journal exists; copying is about to start or under way.
    Initiated,
    /// The copy in the temporary directory passed verification; the source
    /// is intact.
    Copied,
    /// The temporary directory was renamed to the final target; the source
    /// is still in place.
    Finalized,
    /// The source was renamed aside; the final target holds the data.
    SourceRenamed,
    /// The junction at the source path points to the final target; waiting
    /// for the user to confirm.
    Linked,
    /// The user confirmed and the renamed source was deleted.
    Completed,
}

/// The journal record of one migration.
#[derive(Debug)]
pub struct PendingJob {
    pub job_id: String,
    pub source_path: String,
    /// The temporary directory on the target drive (`.tmp_<name>`).
    pub target_path: String,
    /// The final directory on the target drive.
    pub final_target_path: String,
    pub stage: MigrationStage,
    /// Where the source manifest was saved, when it was.
    pub manifest_path: Option<String>,
    /// Where the source was renamed to, once it was.
    pub renamed_source_path: Option<String>,
}

impl PendingJob {
    /// An equal copy of the record.
    pub fn duplicate(&self) -> (r: PendingJob)
        ensures
            r == *self,
    {
        PendingJob {
            job_id: self.job_id.clone(),
            source_path: self.source_path.clone(),
            target_path: self.target_path.clone(),
            final_target_path: self.final_target_path.clone(),
            stage: self.stage,
            manifest_path: match &self.manifest_path {
                Some(p) => Some(p.clone()),
                None => None,
            },
            renamed_source_path: match &self.renamed_source_path {
                Some(p) => Some(p.clone()),
                None => None,
            },
        }
    }

    /// The same record at another stage.
    pub fn at_stage(&self, stage: MigrationStage) -> (r: PendingJob)
        ensures
            r == (PendingJob { stage, ..*self }),
    {
        let mut r = self.duplicate();
        r.stage = stage;
        r
    }
}

} // verus!
