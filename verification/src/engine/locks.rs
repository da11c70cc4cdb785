//! Finding out what holds a directory that could not be renamed or
//! deleted: the processes that lock it (asked of the directory, then of
//! every file below it), or else the first locked file.
use vstd::prelude::*;
use crate::text::{concat2, decimal, decimal_u64, owned};

verus! {

/// `name (PID:pid)`.
pub open spec fn lock_text(l: (u32, Seq<char>)) -> Seq<char> {
    l.1 + " (PID:"@ + decimal(l.0 as nat) + ")"@
}

/// The lock texts joined with `, `.
pub open spec fn joined_locks(s: Seq<(u32, Seq<char>)>) -> Seq<char>
    decreases s.len(),
{
    if s.len() == 0 {
        Seq::empty()
    } else if s.len() == 1 {
        lock_text(s[0])
    } else {
        joined_locks(s.drop_last()) + ", "@ + lock_text(s.last())
    }
}

/// The locks as plain values.
pub open spec fn lock_views(s: Seq<(u32, String)>) -> Seq<(u32, Seq<char>)> {
    s.map_values(|l: (u32, String)| (l.0, l.1@))
}

/// The report of the processes that hold a directory.
pub open spec fn locks_report(s: Seq<(u32, String)>) -> Seq<char> {
    "，占用进程: "@ + joined_locks(lock_views(s))
}

/// Lists locking processes as `，占用进程: a.exe (PID:1), b.exe (PID:2)`.
pub fn format_locks(locks: &Vec<(u32, String)>) -> (r: String)
    ensures
        r@ == locks_report(locks@),
{
    let mut joined = String::new();
    let mut i: usize = 0;
    assert(lock_views(locks@).take(0) =~= Seq::<(u32, Seq<char>)>::empty());
    while i < locks.len()
        invariant
            i <= locks@.len(),
            joined@ == joined_locks(lock_views(locks@).take(i as int)),
        decreases locks@.len() - i,
    {
        let ghost views = lock_views(locks@);
        let ghost before = joined@;
        if i > 0 {
            joined.append(", ");
        }
        joined.append(locks[i].1.as_str());
        joined.append(" (PID:");
        let pid = decimal_u64(locks[i].0 as u64);
        joined.append(pid.as_str());
        joined.append(")");
        proof {
            let t = views.take(i + 1);
            assert(t.drop_last() =~= views.take(i as int));
            assert(t.last() == (locks@[i as int].0, locks@[i as int].1@));
            if i == 0 {
                assert(t.len() == 1);
                assert(joined@ =~= lock_text(t[0]));
            } else {
                assert(joined@ =~= before + ", "@ + lock_text(t.last()));
            }
        }
        i = i + 1;
    }
    assert(lock_views(locks@).take(locks@.len() as int) =~= lock_views(locks@));
    concat2("，占用进程: ", joined.as_str())
}

/// The next thing to look at.
#[derive(Debug)]
pub enum LockProbe {
    /// The processes that hold the directory itself.
    QueryDirectory { dir: String },
    /// The processes that hold any file below the directory.
    QueryFiles { dir: String },
    /// The first file below the directory that cannot be opened for
    /// deletion, relative to the directory.
    FindLockedFile { dir: String },
    /// The report.
    Report(String),
}

/// What a probe found.
#[derive(Debug)]
pub enum LockEvent {
    Start,
    Processes(Result<Vec<(u32, String)>, String>),
    LockedFile(Option<String>),
}

#[derive(PartialEq, Eq, Structural, Clone, Copy, Debug)]
pub enum LockPhase {
    Start,
    AwaitDirectory,
    AwaitFiles,
    AwaitLockedFile,
    Finished,
}

/// The search for what holds `dir`.
pub struct LockSearch {
    pub dir: String,
    pub phase: LockPhase,
}

/// The probe result names at least one process.
pub open spec fn found_processes(res: Result<Vec<(u32, String)>, String>) -> bool {
    res matches Ok(v) && v@.len() > 0
}

/// The transition relation of the search.
pub open spec fn lock_next(s: LockSearch, ev: LockEvent, t: LockSearch, r: LockProbe) -> bool {
    match s.phase {
        LockPhase::Start => t == (LockSearch { phase: LockPhase::AwaitDirectory, ..s }) && r == LockProbe::QueryDirectory { dir: s.dir },
        LockPhase::AwaitDirectory | LockPhase::AwaitFiles => match ev {
            LockEvent::Processes(res) => if found_processes(res) {
                &&& t == (LockSearch { phase: LockPhase::Finished, ..s })
                &&& r matches LockProbe::Report(m) && m@ == locks_report(res->Ok_0@)
            } else if s.phase == LockPhase::AwaitDirectory {
                t == (LockSearch { phase: LockPhase::AwaitFiles, ..s }) && r == LockProbe::QueryFiles { dir: s.dir }
            } else {
                t == (LockSearch { phase: LockPhase::AwaitLockedFile, ..s }) && r == LockProbe::FindLockedFile { dir: s.dir }
            },
            _ => false,
        },
        LockPhase::AwaitLockedFile => match ev {
            LockEvent::LockedFile(f) => {
                &&& t == (LockSearch { phase: LockPhase::Finished, ..s })
                &&& r matches LockProbe::Report(m) && m@ == match f {
                    Some(p) => "，被占用的文件: "@ + p@,
                    None => "，未检测到占用进程或锁定文件"@,
                }
            },
            _ => false,
        },
        LockPhase::Finished => false,
    }
}

/// The outcome kind each phase waits for.
pub open spec fn lock_expects(s: LockSearch, ev: LockEvent) -> bool {
    match s.phase {
        LockPhase::Start => true,
        LockPhase::AwaitDirectory | LockPhase::AwaitFiles => ev is Processes,
        LockPhase::AwaitLockedFile => ev is LockedFile,
        LockPhase::Finished => false,
    }
}

impl LockSearch {
    /// A search for what holds `dir`.
    pub fn detect_locks_with_fallback(dir: String) -> (r: LockSearch)
        ensures
            r.dir == dir,
            r.phase == LockPhase::Start,
    {
        LockSearch { dir, phase: LockPhase::Start }
    }

    /// Takes what the last probe found and returns the next probe or the
    /// report.
    pub fn step(&mut self, ev: LockEvent) -> (r: LockProbe)
        requires
            lock_expects(*old(self), ev),
        ensures
            lock_next(*old(self), ev, *final(self), r),
    {
        match self.phase {
            LockPhase::Start => {
                self.phase = LockPhase::AwaitDirectory;
                LockProbe::QueryDirectory { dir: self.dir.clone() }
            },
            LockPhase::AwaitDirectory | LockPhase::AwaitFiles => match ev {
                LockEvent::Processes(res) => {
                    match &res {
                        Ok(v) => {
                            if v.len() > 0 {
                                self.phase = LockPhase::Finished;
                                return LockProbe::Report(format_locks(v));
                            }
                        },
                        Err(_) => {},
                    }
                    if self.phase == LockPhase::AwaitDirectory {
                        self.phase = LockPhase::AwaitFiles;
                        LockProbe::QueryFiles { dir: self.dir.clone() }
                    } else {
                        self.phase = LockPhase::AwaitLockedFile;
                        LockProbe::FindLockedFile { dir: self.dir.clone() }
                    }
                },
                _ => {
                    self.phase = LockPhase::Finished;
                    LockProbe::Report(String::new())
                },
            },
            LockPhase::AwaitLockedFile => {
                self.phase = LockPhase::Finished;
                match ev {
                    LockEvent::LockedFile(Some(p)) => LockProbe::Report(concat2("，被占用的文件: ", p.as_str())),
                    _ => LockProbe::Report(owned("，未检测到占用进程或锁定文件")),
                }
            },
            LockPhase::Finished => LockProbe::Report(String::new()),
        }
    }
}

/// Law (processes before files): the search reports a locked file, or that
/// nothing was found, only after both process queries named no process.
pub proof fn lemma_locked_file_last(s: LockSearch, ev: LockEvent, t: LockSearch, r: LockProbe)
    requires
        lock_next(s, ev, t, r),
        r is FindLockedFile,
    ensures
        s.phase == LockPhase::AwaitFiles,
        ev matches LockEvent::Processes(res) && !found_processes(res),
{
}

} // verus!
