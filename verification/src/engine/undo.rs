//! Undoing a finished migration: the junction goes, the data is copied
//! back from the target drive, checked against the target's manifest, and
//! only then is the target copy deleted. Whenever the copy back fails or
//! does not match, the partial copy goes and the junction is made again.
use vstd::prelude::*;
use crate::engine::manifest::{Manifest, manifest_mismatch};
use crate::text::{concat2, concat3, owned};

verus! {

/// A file system action whose failure is ignored.
#[derive(Debug)]
pub enum UndoCleanup {
    /// Delete a tree entry by entry, a junction only as a link.
    RemoveTree(String),
    CreateJunction { link: String, target: String },
}

/// The progress reports of an undo (stage `RollingBack`, with the
/// percentage shown).
#[derive(PartialEq, Eq, Structural, Clone, Copy, Debug)]
pub enum UndoNotice {
    /// 10%: removing the junction.
    Unlinking,
    /// 20%: measuring the data on the target drive.
    Measuring,
    /// 25%: listing the target's files (SHA-256).
    Listing,
    /// 30%: copying the files back.
    CopyingBack,
    /// 90%: checking the copy against the list.
    Verifying,
    /// 95%: deleting the target's copy.
    Cleaning,
    /// 100% (stage `Done`): finished.
    Finished,
}

/// The next thing to do.
#[derive(Debug)]
pub enum UndoAction {
    Probe { link: String, target: String },
    DeleteJunction { link: String },
    /// Measure the target tree: its size in bytes and number of files.
    Measure { target: String },
    FreeSpace { root: String },
    GenerateManifest { root: String },
    CopyTree { from: String, to: String, total_size: u64, total_files: usize },
    RemoveTree { path: String },
    Finish(Result<(), String>),
}

/// The outcome of the last action.
#[derive(Debug)]
pub enum UndoEvent {
    Start,
    Probed { link_exists: bool, target_exists: bool },
    Done(Result<(), String>),
    Measured { total_size: u64, total_files: usize },
    Free(Result<u64, String>),
    Manifest(Result<Manifest, String>),
}

/// One step: cleanups, notices, then the action.
pub struct UndoStep {
    pub cleanup: Vec<UndoCleanup>,
    pub notices: Vec<UndoNotice>,
    pub action: UndoAction,
}

#[derive(PartialEq, Eq, Structural, Clone, Copy, Debug)]
pub enum UndoPhase {
    Start,
    AwaitProbe,
    AwaitUnlinked,
    AwaitMeasure,
    AwaitFree,
    AwaitTargetManifest,
    AwaitCopy,
    AwaitBackManifest,
    AwaitRemoved,
    Finished,
}

/// The undo of the migration whose junction is `link` and whose data is in
/// `target`.
pub struct MigrationUndo {
    pub phase: UndoPhase,
    pub link: String,
    pub target: String,
    pub total_size: u64,
    pub total_files: usize,
    pub target_manifest: Manifest,
}

/// One GiB, the room left free on C: beyond the data copied back.
pub open spec fn spare() -> int {
    1073741824
}

/// Remove the partial copy and make the junction again.
pub open spec fn relink(s: MigrationUndo) -> Seq<UndoCleanup> {
    seq![UndoCleanup::RemoveTree(s.link), UndoCleanup::CreateJunction { link: s.link, target: s.target }]
}

pub open spec fn undo_moves(
    s: MigrationUndo,
    t: MigrationUndo,
    r: UndoStep,
    p: UndoPhase,
    n: Seq<UndoNotice>,
    a: UndoAction,
) -> bool {
    &&& t == (MigrationUndo { phase: p, ..s })
    &&& r.cleanup@.len() == 0
    &&& r.notices@ == n
    &&& r.action == a
}

pub open spec fn undo_fails(s: MigrationUndo, t: MigrationUndo, r: UndoStep, c: Seq<UndoCleanup>, msg: Seq<char>) -> bool {
    &&& t == (MigrationUndo { phase: UndoPhase::Finished, ..s })
    &&& r.cleanup@ == c
    &&& r.notices@.len() == 0
    &&& r.action matches UndoAction::Finish(Err(m)) && m@ == msg
}

pub open spec fn undo_passes(s: MigrationUndo, t: MigrationUndo, r: UndoStep, e: String) -> bool {
    &&& t == (MigrationUndo { phase: UndoPhase::Finished, ..s })
    &&& r.cleanup@.len() == 0
    &&& r.notices@.len() == 0
    &&& r.action == UndoAction::Finish(Err(e))
}

/// The transition relation of an undo.
pub open spec fn undo_next(s: MigrationUndo, ev: UndoEvent, t: MigrationUndo, r: UndoStep) -> bool {
    match s.phase {
        UndoPhase::Start => undo_moves(
            s,
            t,
            r,
            UndoPhase::AwaitProbe,
            seq![],
            UndoAction::Probe { link: s.link, target: s.target },
        ),
        UndoPhase::AwaitProbe => match ev {
            UndoEvent::Probed { link_exists, target_exists } => if !link_exists {
                undo_fails(s, t, r, seq![], "源位置链接路径不存在，无法回滚"@)
            } else if !target_exists {
                undo_fails(s, t, r, seq![], "迁移目标地物理路径不存在，无法回滚"@)
            } else {
                undo_moves(s, t, r, UndoPhase::AwaitUnlinked, seq![UndoNotice::Unlinking], UndoAction::DeleteJunction { link: s.link })
            },
            _ => false,
        },
        UndoPhase::AwaitUnlinked => match ev {
            UndoEvent::Done(Err(e)) => undo_passes(s, t, r, e),
            UndoEvent::Done(Ok(())) => undo_moves(
                s,
                t,
                r,
                UndoPhase::AwaitMeasure,
                seq![UndoNotice::Measuring],
                UndoAction::Measure { target: s.target },
            ),
            _ => false,
        },
        UndoPhase::AwaitMeasure => match ev {
            UndoEvent::Measured { total_size, total_files } => {
                &&& t == (MigrationUndo { phase: UndoPhase::AwaitFree, total_size, total_files, ..s })
                &&& r.cleanup@.len() == 0
                &&& r.notices@.len() == 0
                &&& r.action matches UndoAction::FreeSpace { root } && root@ == "C:\\"@
            },
            _ => false,
        },
        UndoPhase::AwaitFree => match ev {
            UndoEvent::Free(Err(e)) => undo_passes(s, t, r, e),
            UndoEvent::Free(Ok(free)) => if free < s.total_size + spare() {
                undo_fails(
                    s,
                    t,
                    r,
                    seq![UndoCleanup::CreateJunction { link: s.link, target: s.target }],
                    "C 盘剩余可用容量不足以塞回已迁移的文件数据！"@,
                )
            } else {
                undo_moves(
                    s,
                    t,
                    r,
                    UndoPhase::AwaitTargetManifest,
                    seq![UndoNotice::Listing],
                    UndoAction::GenerateManifest { root: s.target },
                )
            },
            _ => false,
        },
        UndoPhase::AwaitTargetManifest => match ev {
            UndoEvent::Manifest(Err(e)) => undo_passes(s, t, r, e),
            UndoEvent::Manifest(Ok(m)) => undo_moves(
                MigrationUndo { target_manifest: m, ..s },
                t,
                r,
                UndoPhase::AwaitCopy,
                seq![UndoNotice::CopyingBack],
                UndoAction::CopyTree {
                    from: s.target,
                    to: s.link,
                    total_size: s.total_size,
                    total_files: s.total_files,
                },
            ),
            _ => false,
        },
        UndoPhase::AwaitCopy => match ev {
            UndoEvent::Done(Err(e)) => undo_fails(s, t, r, relink(s), "将文件拷贝回 C 盘时发生故障: "@ + e@),
            UndoEvent::Done(Ok(())) => undo_moves(
                s,
                t,
                r,
                UndoPhase::AwaitBackManifest,
                seq![UndoNotice::Verifying],
                UndoAction::GenerateManifest { root: s.link },
            ),
            _ => false,
        },
        UndoPhase::AwaitBackManifest => match ev {
            UndoEvent::Manifest(Err(e)) => undo_passes(s, t, r, e),
            UndoEvent::Manifest(Ok(m)) => match manifest_mismatch(s.target_manifest, m) {
                Some(msg) => undo_fails(
                    s,
                    t,
                    r,
                    relink(s),
                    "数据回滚完整性校验失败: "@ + msg + "。已恢复 Junction 指向 D 盘原始数据"@,
                ),
                None => undo_moves(s, t, r, UndoPhase::AwaitRemoved, seq![UndoNotice::Cleaning], UndoAction::RemoveTree { path: s.target }),
            },
            _ => false,
        },
        UndoPhase::AwaitRemoved => match ev {
            UndoEvent::Done(Err(e)) => undo_fails(s, t, r, seq![], "清理 D 盘残留大文件时失败: "@ + e@),
            UndoEvent::Done(Ok(())) => {
                &&& t == (MigrationUndo { phase: UndoPhase::Finished, ..s })
                &&& r.cleanup@.len() == 0
                &&& r.notices@ == seq![UndoNotice::Finished]
                &&& r.action == UndoAction::Finish(Ok(()))
            },
            _ => false,
        },
        UndoPhase::Finished => false,
    }
}

/// The outcome kind each phase waits for.
pub open spec fn undo_expects(s: MigrationUndo, ev: UndoEvent) -> bool {
    match s.phase {
        UndoPhase::Start => true,
        UndoPhase::AwaitProbe => ev is Probed,
        UndoPhase::AwaitUnlinked | UndoPhase::AwaitCopy | UndoPhase::AwaitRemoved => ev is Done,
        UndoPhase::AwaitMeasure => ev is Measured,
        UndoPhase::AwaitFree => ev is Free,
        UndoPhase::AwaitTargetManifest | UndoPhase::AwaitBackManifest => ev is Manifest,
        UndoPhase::Finished => false,
    }
}

impl MigrationUndo {
    /// The undo of the migration whose junction is `source_junction` and
    /// whose data is in `real_target`.
    pub fn rollback_completed_migration(source_junction: String, real_target: String) -> (r: MigrationUndo)
        ensures
            r.phase == UndoPhase::Start,
            r.link == source_junction,
            r.target == real_target,
    {
        MigrationUndo {
            phase: UndoPhase::Start,
            link: source_junction,
            target: real_target,
            total_size: 0,
            total_files: 0,
            target_manifest: Manifest::empty(),
        }
    }

    fn go(&mut self, p: UndoPhase, n: Vec<UndoNotice>, a: UndoAction) -> (r: UndoStep)
        ensures
            undo_moves(*old(self), *final(self), r, p, n@, a),
    {
        self.phase = p;
        UndoStep { cleanup: Vec::new(), notices: n, action: a }
    }

    fn fail(&mut self, c: Vec<UndoCleanup>, m: String) -> (r: UndoStep)
        ensures
            undo_fails(*old(self), *final(self), r, c@, m@),
    {
        self.phase = UndoPhase::Finished;
        UndoStep { cleanup: c, notices: Vec::new(), action: UndoAction::Finish(Err(m)) }
    }

    fn pass(&mut self, e: String) -> (r: UndoStep)
        ensures
            undo_passes(*old(self), *final(self), r, e),
    {
        self.phase = UndoPhase::Finished;
        UndoStep { cleanup: Vec::new(), notices: Vec::new(), action: UndoAction::Finish(Err(e)) }
    }

    fn relink_exec(&self) -> (r: Vec<UndoCleanup>)
        ensures
            r@ == relink(*self),
    {
        let mut c = Vec::new();
        c.push(UndoCleanup::RemoveTree(self.link.clone()));
        c.push(UndoCleanup::CreateJunction { link: self.link.clone(), target: self.target.clone() });
        c
    }

    fn note(n: UndoNotice) -> (r: Vec<UndoNotice>)
        ensures
            r@ == seq![n],
    {
        let mut v = Vec::new();
        v.push(n);
        v
    }

    /// Takes the outcome of the last action and returns the next step.
    pub fn step(&mut self, ev: UndoEvent) -> (r: UndoStep)
        requires
            undo_expects(*old(self), ev),
        ensures
            undo_next(*old(self), ev, *final(self), r),
    {
        match self.phase {
            UndoPhase::Start => {
                let a = UndoAction::Probe { link: self.link.clone(), target: self.target.clone() };
                self.go(UndoPhase::AwaitProbe, Vec::new(), a)
            },
            UndoPhase::AwaitProbe => match ev {
                UndoEvent::Probed { link_exists, target_exists } => {
                    if !link_exists {
                        self.fail(Vec::new(), owned("源位置链接路径不存在，无法回滚"))
                    } else if !target_exists {
                        self.fail(Vec::new(), owned("迁移目标地物理路径不存在，无法回滚"))
                    } else {
                        let a = UndoAction::DeleteJunction { link: self.link.clone() };
                        self.go(UndoPhase::AwaitUnlinked, Self::note(UndoNotice::Unlinking), a)
                    }
                },
                _ => self.pass(String::new()),
            },
            UndoPhase::AwaitUnlinked => match ev {
                UndoEvent::Done(Err(e)) => self.pass(e),
                _ => {
                    let a = UndoAction::Measure { target: self.target.clone() };
                    self.go(UndoPhase::AwaitMeasure, Self::note(UndoNotice::Measuring), a)
                },
            },
            UndoPhase::AwaitMeasure => match ev {
                UndoEvent::Measured { total_size, total_files } => {
                    self.total_size = total_size;
                    self.total_files = total_files;
                    proof {
                        reveal_strlit("C:\\");
                    }
                    self.go(UndoPhase::AwaitFree, Vec::new(), UndoAction::FreeSpace { root: owned("C:\\") })
                },
                _ => self.pass(String::new()),
            },
            UndoPhase::AwaitFree => match ev {
                UndoEvent::Free(Err(e)) => self.pass(e),
                UndoEvent::Free(Ok(free)) => {
                    if (free as u128) < (self.total_size as u128) + 1073741824 {
                        let mut c = Vec::new();
                        c.push(UndoCleanup::CreateJunction { link: self.link.clone(), target: self.target.clone() });
                        self.fail(c, owned("C 盘剩余可用容量不足以塞回已迁移的文件数据！"))
                    } else {
                        let a = UndoAction::GenerateManifest { root: self.target.clone() };
                        self.go(UndoPhase::AwaitTargetManifest, Self::note(UndoNotice::Listing), a)
                    }
                },
                _ => self.pass(String::new()),
            },
            UndoPhase::AwaitTargetManifest => match ev {
                UndoEvent::Manifest(Err(e)) => self.pass(e),
                UndoEvent::Manifest(Ok(m)) => {
                    self.target_manifest = m;
                    let a = UndoAction::CopyTree {
                        from: self.target.clone(),
                        to: self.link.clone(),
                        total_size: self.total_size,
                        total_files: self.total_files,
                    };
                    self.go(UndoPhase::AwaitCopy, Self::note(UndoNotice::CopyingBack), a)
                },
                _ => self.pass(String::new()),
            },
            UndoPhase::AwaitCopy => match ev {
                UndoEvent::Done(Err(e)) => {
                    let c = self.relink_exec();
                    self.fail(c, concat2("将文件拷贝回 C 盘时发生故障: ", e.as_str()))
                },
                _ => {
                    let a = UndoAction::GenerateManifest { root: self.link.clone() };
                    self.go(UndoPhase::AwaitBackManifest, Self::note(UndoNotice::Verifying), a)
                },
            },
            UndoPhase::AwaitBackManifest => match ev {
                UndoEvent::Manifest(Err(e)) => self.pass(e),
                UndoEvent::Manifest(Ok(m)) => match self.target_manifest.verify_against(&m) {
                    Err(msg) => {
                        let c = self.relink_exec();
                        let text = concat3("数据回滚完整性校验失败: ", msg.as_str(), "。已恢复 Junction 指向 D 盘原始数据");
                        self.fail(c, text)
                    },
                    Ok(()) => {
                        let a = UndoAction::RemoveTree { path: self.target.clone() };
                        self.go(UndoPhase::AwaitRemoved, Self::note(UndoNotice::Cleaning), a)
                    },
                },
                _ => self.pass(String::new()),
            },
            UndoPhase::AwaitRemoved => match ev {
                UndoEvent::Done(Err(e)) => self.fail(Vec::new(), concat2("清理 D 盘残留大文件时失败: ", e.as_str())),
                _ => {
                    self.phase = UndoPhase::Finished;
                    UndoStep { cleanup: Vec::new(), notices: Self::note(UndoNotice::Finished), action: UndoAction::Finish(Ok(())) }
                },
            },
            UndoPhase::Finished => self.pass(String::new()),
        }
    }
}

/// Law (the target copy goes last): the data on the target drive is
/// deleted only when the copy back matches the target's manifest taken
/// before the copy.
pub proof fn lemma_target_removed_only_when_verified(s: MigrationUndo, ev: UndoEvent, t: MigrationUndo, r: UndoStep)
    requires
        undo_next(s, ev, t, r),
        r.action is RemoveTree,
    ensures
        s.phase == UndoPhase::AwaitBackManifest,
        ev matches UndoEvent::Manifest(Ok(m)) && manifest_mismatch(s.target_manifest, m) is None,
        r.action == (UndoAction::RemoveTree { path: s.target }),
{
}

/// Law (room on C: before copying back): after the target measured
/// `total_size` bytes and C: reported `free` bytes free, the data is
/// copied back (and the target listed for it) only when `free` is at least
/// `total_size` plus 1 GiB; otherwise the undo stops with the message that
/// C: lacks room, having made the junction again, and copies nothing.
pub proof fn lemma_copy_back_needs_room(
    s: MigrationUndo,
    total_size: u64,
    total_files: usize,
    t: MigrationUndo,
    r: UndoStep,
    free: u64,
    u: MigrationUndo,
    r2: UndoStep,
    ev3: UndoEvent,
    w: MigrationUndo,
    r3: UndoStep,
)
    requires
        s.phase == UndoPhase::AwaitMeasure,
        undo_next(s, UndoEvent::Measured { total_size, total_files }, t, r),
        undo_next(t, UndoEvent::Free(Ok(free)), u, r2),
        undo_next(u, ev3, w, r3),
    ensures
        r3.action is CopyTree ==> free >= total_size + 1073741824,
        r3.action matches UndoAction::CopyTree { total_size: n, .. } ==> n == total_size,
{
}

/// Law (too little room stops the undo): after the target measured
/// `total_size` bytes, a report of `free` bytes free on C: below
/// `total_size` plus 1 GiB ends the undo with the message that C: lacks
/// room, having made the junction again; nothing is copied.
pub proof fn lemma_no_room_stops_undo(
    s: MigrationUndo,
    total_size: u64,
    total_files: usize,
    t: MigrationUndo,
    r: UndoStep,
    free: u64,
    u: MigrationUndo,
    r2: UndoStep,
)
    requires
        s.phase == UndoPhase::AwaitMeasure,
        undo_next(s, UndoEvent::Measured { total_size, total_files }, t, r),
        undo_next(t, UndoEvent::Free(Ok(free)), u, r2),
        free < total_size + 1073741824,
    ensures
        r2.action matches UndoAction::Finish(Err(m)) && m@ == "C 盘剩余可用容量不足以塞回已迁移的文件数据！"@,
        r2.cleanup@ == seq![UndoCleanup::CreateJunction { link: s.link, target: s.target }],
        u.phase == UndoPhase::Finished,
{
}

/// Law (a failed copy back keeps the data reachable): when the copy back
/// fails or does not match, the partial copy is removed and the junction
/// to the untouched target is made again; the target is not deleted.
pub proof fn lemma_failed_copy_relinks(s: MigrationUndo, ev: UndoEvent, t: MigrationUndo, r: UndoStep)
    requires
        undo_next(s, ev, t, r),
        s.phase == UndoPhase::AwaitCopy || s.phase == UndoPhase::AwaitBackManifest,
        r.action matches UndoAction::Finish(Err(_)),
        !(ev matches UndoEvent::Manifest(Err(_))),
    ensures
        r.cleanup@ == relink(s),
{
}

} // verus!
