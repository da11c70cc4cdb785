//! The values handed to the user interface.

use cdisklinker::commands::{crash_recovery_result, lock_processes, rollback_journal_reply, scan_entry_to_tree_node};
use cdisklinker::scanner::{DirectoryRating, ScanEntry};

fn entry() -> ScanEntry {
    ScanEntry {
        path: "C:\\Games".to_string(),
        name: "Games".to_string(),
        size_in_bytes: 5,
        size_on_disk_formatted: "5 Bytes".to_string(),
        rating: DirectoryRating::Warning,
        depth: 1,
        expanded: true,
        has_children: true,
    }
}

#[test]
fn tree_node_of_scan_entry() {
    let n = scan_entry_to_tree_node(&entry(), 7, true);
    assert_eq!(n.id, 7);
    assert_eq!(n.path, "C:\\Games");
    assert_eq!(n.name, "Games");
    assert_eq!(n.size_text, "5 Bytes");
    assert_eq!(n.actual_size_bytes, 5);
    assert_eq!(n.rating, "Warning");
    assert_eq!(n.level, 1);
    assert!(n.is_expanded && n.has_children && n.is_junction && n.is_visible);
    assert!(!n.is_selected);
    assert_eq!(n.children_count, 0);
    let mut big = entry();
    big.size_in_bytes = u64::MAX;
    assert_eq!(scan_entry_to_tree_node(&big, 0, false).actual_size_bytes, -1);
}

#[test]
fn crash_recovery_answers() {
    let r = crash_recovery_result(Ok(Some("已回滚".to_string())));
    assert!(r.found);
    assert_eq!(r.message, "已回滚");
    let r = crash_recovery_result(Ok(None));
    assert!(!r.found);
    assert!(r.message.is_empty());
    let r = crash_recovery_result(Err("读取失败".to_string()));
    assert!(r.found);
    assert_eq!(r.message, "自检异常: 读取失败");
}

#[test]
fn rollback_replies() {
    assert_eq!(rollback_journal_reply(Ok(Some("m".to_string()))), Ok("m".to_string()));
    assert_eq!(rollback_journal_reply(Ok(None)), Ok("未检索到残存日志或待回滚的挂起项".to_string()));
    assert_eq!(rollback_journal_reply(Err("e".to_string())), Err("e".to_string()));
}

#[test]
fn lock_process_list() {
    let l = lock_processes(vec![(1, "a.exe".to_string()), (2, "b.exe".to_string())]);
    assert_eq!(l.len(), 2);
    assert_eq!(l[1].pid, 2);
    assert_eq!(l[1].name, "b.exe");
}
