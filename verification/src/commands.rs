//! The values handed to the user interface: tree nodes of the scan, the
//! crash-recovery answer, locking processes.
use vstd::prelude::*;
use crate::scanner::{ScanEntry, rating_text, rating_text_spec};
use crate::text::{concat2, owned};

verus! {

/// A node of the directory tree shown to the user.
#[derive(Debug)]
pub struct TreeNode {
    pub id: i32,
    pub path: String,
    pub name: String,
    pub size_text: String,
    pub actual_size_bytes: i64,
    pub rating: String,
    pub level: i32,
    pub is_expanded: bool,
    pub has_children: bool,
    pub is_selected: bool,
    pub is_junction: bool,
    pub is_visible: bool,
    pub children_count: i32,
}

/// The answer of the start-up check for an unfinished migration.
#[derive(Debug)]
pub struct CrashRecoveryResult {
    pub found: bool,
    pub message: String,
}

/// A process that holds a file.
#[derive(Debug)]
pub struct LockProcess {
    pub pid: u32,
    pub name: String,
}

/// The node shown for a scan entry: visible, not selected, with no
/// children counted yet.
pub open spec fn tree_node_of(n: TreeNode, e: ScanEntry, id: i32, is_junction: bool) -> bool {
    &&& n.id == id
    &&& n.path == e.path
    &&& n.name == e.name
    &&& n.size_text == e.size_on_disk_formatted
    &&& n.actual_size_bytes == e.size_in_bytes as i64
    &&& n.rating@ == rating_text_spec(e.rating)
    &&& n.level == e.depth
    &&& n.is_expanded == e.expanded
    &&& n.has_children == e.has_children
    &&& !n.is_selected
    &&& n.is_junction == is_junction
    &&& n.is_visible
    &&& n.children_count == 0
}

/// The tree node of a scan entry; `is_junction` tells whether its path is
/// a junction.
pub fn scan_entry_to_tree_node(entry: &ScanEntry, id: i32, is_junction: bool) -> (r: TreeNode)
    ensures
        tree_node_of(r, *entry, id, is_junction),
{
    TreeNode {
        id,
        path: entry.path.clone(),
        name: entry.name.clone(),
        size_text: entry.size_on_disk_formatted.clone(),
        actual_size_bytes: entry.size_in_bytes as i64,
        rating: rating_text(entry.rating),
        level: entry.depth,
        is_expanded: entry.expanded,
        has_children: entry.has_children,
        is_selected: false,
        is_junction,
        is_visible: true,
        children_count: 0,
    }
}

/// The answer of the start-up check from the recovery outcome: a report is
/// shown, nothing found is silent, and an error is shown as a failed check.
pub fn crash_recovery_result(outcome: Result<Option<String>, String>) -> (r: CrashRecoveryResult)
    ensures
        match outcome {
            Ok(Some(m)) => r.found && r.message == m,
            Ok(None) => !r.found && r.message@ == Seq::<char>::empty(),
            Err(e) => r.found && r.message@ == "自检异常: "@ + e@,
        },
{
    match outcome {
        Ok(Some(m)) => CrashRecoveryResult { found: true, message: m },
        Ok(None) => CrashRecoveryResult { found: false, message: String::new() },
        Err(e) => CrashRecoveryResult { found: true, message: concat2("自检异常: ", e.as_str()) },
    }
}

/// The reply to a rollback request from the recovery outcome: the report,
/// or a note that nothing was pending.
pub fn rollback_journal_reply(outcome: Result<Option<String>, String>) -> (r: Result<String, String>)
    ensures
        match outcome {
            Ok(Some(m)) => r == Ok::<String, String>(m),
            Ok(None) => r matches Ok(t) && t@ == "未检索到残存日志或待回滚的挂起项"@,
            Err(e) => r == Err::<String, String>(e),
        },
{
    match outcome {
        Ok(Some(m)) => Ok(m),
        Ok(None) => Ok(owned("未检索到残存日志或待回滚的挂起项")),
        Err(e) => Err(e),
    }
}

/// The locking processes as shown to the user, in the order found.
pub fn lock_processes(locks: Vec<(u32, String)>) -> (r: Vec<LockProcess>)
    ensures
        r@.len() == locks@.len(),
        forall|i: int| 0 <= i < r@.len() ==> (#[trigger] r@[i]).pid == locks@[i].0 && r@[i].name == locks@[i].1,
{
    let mut out: Vec<LockProcess> = Vec::new();
    let mut i: usize = 0;
    while i < locks.len()
        invariant
            i <= locks@.len(),
            out@.len() == i,
            forall|k: int| 0 <= k < i ==> (#[trigger] out@[k]).pid == locks@[k].0 && out@[k].name == locks@[k].1,
        decreases locks@.len() - i,
    {
        out.push(LockProcess { pid: locks[i].0, name: locks[i].1.clone() });
        i = i + 1;
    }
    out
}

} // verus!
