//! The archive operations driven against an in-memory disk.

use std::collections::{HashMap, HashSet};

use cdisklinker::history::{
    find_by_source_path, list_archives, meta_file_path, ArchiveAction, ArchiveEvent, ArchiveListItem,
    ArchiveProbe, ArchiveTask, MigrationArchive, MigrationHistory, ARCHIVE_VERSION,
};

/// Directories, files (path to text), junctions and the global index.
struct FakeDisk {
    dirs: HashSet<String>,
    files: HashMap<String, String>,
    junctions: HashSet<String>,
    index: Option<String>,
    now: u64,
}

impl FakeDisk {
    fn new() -> FakeDisk {
        FakeDisk { dirs: HashSet::new(), files: HashMap::new(), junctions: HashSet::new(), index: None, now: 1_700_000_100 }
    }

    fn has(&self, path: &str) -> bool {
        self.dirs.contains(path) || self.files.contains_key(path) || self.junctions.contains(path)
    }
}

fn archive_value(a: &MigrationArchive, hash: &str) -> serde_json::Value {
    let mut m = serde_json::Map::new();
    m.insert("version".to_string(), serde_json::Value::from(a.version));
    m.insert("archive_id".to_string(), serde_json::Value::from(a.archive_id.clone()));
    m.insert("source_path".to_string(), serde_json::Value::from(a.source_path.clone()));
    m.insert("target_path".to_string(), serde_json::Value::from(a.target_path.clone()));
    m.insert("created_at".to_string(), serde_json::Value::from(a.created_at));
    m.insert("manifest_self_hash".to_string(), serde_json::Value::from(a.manifest_self_hash.clone()));
    m.insert("total_files".to_string(), serde_json::Value::from(a.total_files));
    m.insert("total_size".to_string(), serde_json::Value::from(a.total_size));
    m.insert("software_version".to_string(), serde_json::Value::from(a.software_version.clone()));
    m.insert("archive_self_hash".to_string(), serde_json::Value::from(hash.to_string()));
    serde_json::Value::Object(m)
}

/// The serialization with the self hash cleared, which the hash covers.
fn unhashed_json(a: &MigrationArchive) -> Vec<u8> {
    serde_json::to_string(&archive_value(a, "")).unwrap().into_bytes()
}

fn archive_text(a: &MigrationArchive) -> String {
    serde_json::to_string_pretty(&archive_value(a, &a.archive_self_hash)).unwrap()
}

fn archive_of(v: &serde_json::Value) -> Option<MigrationArchive> {
    Some(MigrationArchive {
        version: v["version"].as_u64()? as u32,
        archive_id: v["archive_id"].as_str()?.to_string(),
        source_path: v["source_path"].as_str()?.to_string(),
        target_path: v["target_path"].as_str()?.to_string(),
        created_at: v["created_at"].as_u64()?,
        manifest_self_hash: v["manifest_self_hash"].as_str()?.to_string(),
        total_files: v["total_files"].as_u64()? as usize,
        total_size: v["total_size"].as_u64()?,
        software_version: v["software_version"].as_str()?.to_string(),
        archive_self_hash: v["archive_self_hash"].as_str().unwrap_or("").to_string(),
    })
}

fn copy_archive(a: &MigrationArchive) -> MigrationArchive {
    a.duplicate()
}

fn history_text(h: &MigrationHistory) -> String {
    let list: Vec<serde_json::Value> = h.archives.iter().map(|a| archive_value(a, &a.archive_self_hash)).collect();
    let mut m = serde_json::Map::new();
    m.insert("archives".to_string(), serde_json::Value::Array(list));
    m.insert("updated_at".to_string(), serde_json::Value::from(h.updated_at));
    serde_json::to_string_pretty(&serde_json::Value::Object(m)).unwrap()
}

fn history_of(text: &str) -> Result<MigrationHistory, String> {
    let v: serde_json::Value = serde_json::from_str(text).map_err(|e| format!("解析全局索引失败: {}", e))?;
    let mut archives = Vec::new();
    for item in v["archives"].as_array().cloned().unwrap_or_default() {
        archives.push(archive_of(&item).ok_or_else(|| "解析全局索引失败".to_string())?);
    }
    Ok(MigrationHistory { archives, updated_at: v["updated_at"].as_u64().unwrap_or(0) })
}

/// Performs the actions of a task on the disk until it finishes.
fn run(mut task: ArchiveTask, disk: &mut FakeDisk) -> Result<Option<MigrationArchive>, String> {
    let mut ev = ArchiveEvent::Exists(false);
    loop {
        let action = task.step(ev);
        ev = match action {
            ArchiveAction::PathExists { path } => ArchiveEvent::Exists(disk.has(&path)),
            ArchiveAction::SaveMeta { path, archive } => {
                disk.files.insert(path, archive_text(&archive));
                ArchiveEvent::Saved(Ok(()))
            }
            ArchiveAction::LoadHistory => match &disk.index {
                None => ArchiveEvent::History(Ok(None)),
                Some(text) => ArchiveEvent::History(history_of(text).map(Some)),
            },
            ArchiveAction::SaveHistory { history } => {
                disk.index = Some(history_text(&history));
                ArchiveEvent::Saved(Ok(()))
            }
            ArchiveAction::LoadMeta { path } => match disk.files.get(&path) {
                None => ArchiveEvent::Meta(Err(format!("读取档案文件失败 {:?}: 系统找不到指定的文件。", path))),
                Some(text) => {
                    let parsed: Result<serde_json::Value, _> = serde_json::from_str(text);
                    match parsed.ok().and_then(|v| archive_of(&v)) {
                        None => ArchiveEvent::Meta(Err("解析档案失败".to_string())),
                        Some(a) => {
                            let json = unhashed_json(&a);
                            ArchiveEvent::Meta(Ok((a, json)))
                        }
                    }
                }
            },
            ArchiveAction::RemoveFile { path } => {
                disk.files.remove(&path);
                ArchiveEvent::Done(Ok(()))
            }
            ArchiveAction::CreateJunction { source, target } => {
                let _ = target;
                disk.junctions.insert(source);
                ArchiveEvent::Done(Ok(()))
            }
            ArchiveAction::Finish(r) => return r,
        };
    }
}

fn write_archive(disk: &mut FakeDisk, archive: MigrationArchive) -> Result<(), String> {
    let json = unhashed_json(&archive);
    let now = disk.now;
    run(ArchiveTask::write_archive(archive, &json, now), disk).map(|_| ())
}

fn remove_archive(disk: &mut FakeDisk, id: &str) -> Result<(), String> {
    let now = disk.now;
    run(ArchiveTask::remove_archive(id.to_string(), now), disk).map(|_| ())
}

fn verify_archive(disk: &mut FakeDisk, id: &str) -> Result<MigrationArchive, String> {
    run(ArchiveTask::verify_archive(id.to_string()), disk).map(|a| a.unwrap())
}

fn rebuild_meta_from_index(disk: &mut FakeDisk, id: &str) -> Result<(), String> {
    run(ArchiveTask::rebuild_meta_from_index(id.to_string()), disk).map(|_| ())
}

fn rebuild_junction(disk: &mut FakeDisk, id: &str) -> Result<(), String> {
    run(ArchiveTask::rebuild_junction(id.to_string()), disk).map(|_| ())
}

fn load_history(disk: &FakeDisk) -> MigrationHistory {
    match &disk.index {
        None => MigrationHistory::empty(),
        Some(t) => history_of(t).unwrap(),
    }
}

fn list(disk: &FakeDisk) -> Vec<ArchiveListItem> {
    let h = load_history(disk);
    let probes: Vec<ArchiveProbe> = h
        .archives
        .iter()
        .map(|a| ArchiveProbe {
            target_exists: disk.has(&a.target_path),
            meta_exists: disk.files.contains_key(&meta_file_path(&a.target_path)),
            source_is_junction: disk.junctions.contains(&a.source_path),
        })
        .collect();
    list_archives(&h, &probes)
}

fn meta_exists(disk: &FakeDisk, target: &str) -> bool {
    disk.files.contains_key(&meta_file_path(target))
}

fn make_test_archive(source: &str, target: &str, archive_id: &str) -> MigrationArchive {
    MigrationArchive {
        version: ARCHIVE_VERSION,
        archive_id: archive_id.to_string(),
        source_path: source.to_string(),
        target_path: target.to_string(),
        created_at: 1700000000,
        manifest_self_hash: "abc123".to_string(),
        total_files: 100,
        total_size: 1024 * 1024 * 100,
        software_version: "1.5.0".to_string(),
        archive_self_hash: String::new(),
    }
}

fn disk_with_target(target: &str) -> FakeDisk {
    let mut d = FakeDisk::new();
    d.dirs.insert(target.to_string());
    d
}

const TARGET: &str = "D:\\cdisklinker_history_tests\\root\\target";

#[test]
fn test_archive_self_hash_tamper_detection() {
    let mut disk = disk_with_target(TARGET);
    let mut archive = make_test_archive("C:\\Test", TARGET, "id-tamper");
    let json = unhashed_json(&archive);
    archive.fill_self_hash(&json);
    assert_eq!(archive.archive_self_hash.len(), 64);

    // saved and read back, the hash matches
    let meta_path = meta_file_path(TARGET);
    disk.files.insert(meta_path.clone(), archive_text(&archive));
    let loaded = archive_of(&serde_json::from_str(&disk.files[&meta_path]).unwrap()).unwrap();
    assert_eq!(loaded.archive_self_hash, archive.archive_self_hash);
    assert!(loaded.verify_self_hash(&unhashed_json(&loaded)).is_ok());

    // the source path is changed but the hash kept
    let content = disk.files[&meta_path].clone();
    let tampered = content.replace("C:\\\\Test", "C:\\\\Tampered");
    assert_ne!(tampered, content);
    disk.files.insert(meta_path.clone(), tampered);
    let loaded = archive_of(&serde_json::from_str(&disk.files[&meta_path]).unwrap()).unwrap();
    let result = loaded.verify_self_hash(&unhashed_json(&loaded));
    assert!(result.is_err(), "篡改后加载应失败");
    let err = result.unwrap_err();
    assert!(err.contains("自哈希不匹配") || err.contains("篡改"), "错误信息应提示自哈希不匹配: {}", err);
}

#[test]
fn test_archive_self_hash_empty_skips_verification() {
    let archive = make_test_archive("C:\\Test", "D:\\Test", "id-empty");
    assert!(archive.archive_self_hash.is_empty());
    assert!(archive.verify_self_hash(&unhashed_json(&archive)).is_ok());
}

#[test]
fn test_write_archive_creates_meta_file_and_updates_index() {
    let mut disk = disk_with_target(TARGET);
    let archive = make_test_archive("C:\\Steam", TARGET, "id-write-1");
    assert!(!meta_exists(&disk, TARGET));
    write_archive(&mut disk, copy_archive(&archive)).unwrap();
    assert!(meta_exists(&disk, TARGET));
    let loaded = verify_archive(&mut disk, "id-write-1").unwrap();
    assert_eq!(loaded.archive_id, "id-write-1");
    assert_eq!(loaded.source_path, "C:\\Steam");
    let items = list(&disk);
    let found = items.iter().find(|i| i.archive.archive_id == "id-write-1");
    assert!(found.is_some(), "全局索引应包含刚写入的档案");
    assert!(found.unwrap().meta_file_exists, "meta_file_exists 应为 true");
}

#[test]
fn test_write_archive_idempotent() {
    let mut disk = disk_with_target(TARGET);
    let mut archive = make_test_archive("C:\\Steam", TARGET, "id-idempotent");
    write_archive(&mut disk, copy_archive(&archive)).unwrap();
    archive.total_files = 200;
    write_archive(&mut disk, copy_archive(&archive)).unwrap();
    let items = list(&disk);
    let count = items.iter().filter(|i| i.archive.archive_id == "id-idempotent").count();
    assert_eq!(count, 1, "同 archive_id 重复写入应只保留 1 条");
    assert_eq!(items[0].archive.total_files, 200);
}

#[test]
fn test_list_archives_meta_file_missing() {
    let mut disk = disk_with_target(TARGET);
    let archive = make_test_archive("C:\\Steam", TARGET, "id-missing");
    write_archive(&mut disk, archive).unwrap();
    let meta_path = meta_file_path(TARGET);
    assert!(disk.files.contains_key(&meta_path));
    disk.files.remove(&meta_path);
    let items = list(&disk);
    let found = items.iter().find(|i| i.archive.archive_id == "id-missing");
    assert!(found.is_some());
    assert!(!found.unwrap().meta_file_exists, "误删后 meta_file_exists 应为 false");
}

#[test]
fn test_list_archives_junction_exists_field() {
    let mut disk = disk_with_target(TARGET);
    let archive = make_test_archive("C:\\DefinitelyNotExists_abc123", TARGET, "id-junc-1");
    write_archive(&mut disk, archive).unwrap();
    let items = list(&disk);
    let found = items.iter().find(|i| i.archive.archive_id == "id-junc-1");
    assert!(found.is_some());
    assert!(!found.unwrap().junction_exists, "source_path 不存在时 junction_exists 应为 false");
}

#[test]
fn test_find_by_source_path_case_insensitive() {
    let mut disk = disk_with_target(TARGET);
    let archive = make_test_archive("C:\\Steam", TARGET, "id-find");
    write_archive(&mut disk, archive).unwrap();
    let h = load_history(&disk);
    let found = find_by_source_path(&h, "C:\\Steam");
    assert!(found.is_some());
    assert_eq!(found.unwrap().archive_id, "id-find");
    let found = find_by_source_path(&h, "c:\\steam");
    assert!(found.is_some());
    let not_found = find_by_source_path(&h, "C:\\NotExists");
    assert!(not_found.is_none());
}

#[test]
fn test_remove_archive_clears_both() {
    let mut disk = disk_with_target(TARGET);
    let archive = make_test_archive("C:\\Steam", TARGET, "id-remove");
    write_archive(&mut disk, archive).unwrap();
    assert!(meta_exists(&disk, TARGET));
    remove_archive(&mut disk, "id-remove").unwrap();
    let items = list(&disk);
    let found = items.iter().find(|i| i.archive.archive_id == "id-remove");
    assert!(found.is_none(), "移除后全局索引不应包含该档案");
    assert!(!meta_exists(&disk, TARGET), "移除后目标元文件应被删除");
    assert_eq!(load_history(&disk).updated_at, disk.now);
}

#[test]
fn test_remove_archive_nonexistent_ok() {
    let mut disk = FakeDisk::new();
    let result = remove_archive(&mut disk, "id-not-exist");
    assert!(result.is_ok());
    assert!(disk.index.is_none());
}

#[test]
fn test_verify_archive_ok() {
    let mut disk = disk_with_target(TARGET);
    let archive = make_test_archive("C:\\Steam", TARGET, "id-verify");
    write_archive(&mut disk, archive).unwrap();
    let verified = verify_archive(&mut disk, "id-verify").unwrap();
    assert_eq!(verified.archive_id, "id-verify");
    assert_eq!(verified.source_path, "C:\\Steam");
}

#[test]
fn test_verify_archive_target_missing() {
    let mut disk = disk_with_target(TARGET);
    let archive = make_test_archive("C:\\Steam", TARGET, "id-verify-missing");
    write_archive(&mut disk, archive).unwrap();
    disk.dirs.remove(TARGET);
    disk.files.clear();
    let result = verify_archive(&mut disk, "id-verify-missing");
    assert!(result.is_err());
    let err = result.unwrap_err();
    assert!(err.contains("目标目录不存在"));
    assert_eq!(err, format!("目标目录不存在: {:?}", TARGET));
}

#[test]
fn test_verify_archive_meta_deleted() {
    let mut disk = disk_with_target(TARGET);
    let archive = make_test_archive("C:\\Steam", TARGET, "id-verify-meta-deleted");
    write_archive(&mut disk, archive).unwrap();
    disk.files.remove(&meta_file_path(TARGET));
    let result = verify_archive(&mut disk, "id-verify-meta-deleted");
    assert!(result.is_err());
    assert!(result.unwrap_err().contains("读取档案文件失败"));
}

#[test]
fn test_verify_archive_tampered() {
    let mut disk = disk_with_target(TARGET);
    let archive = make_test_archive("C:\\Steam", TARGET, "id-verify-tampered");
    write_archive(&mut disk, archive).unwrap();
    let meta_path = meta_file_path(TARGET);
    let content = disk.files[&meta_path].clone();
    let tampered = content.replace("C:\\\\Steam", "C:\\\\Tampered");
    assert_ne!(tampered, content);
    disk.files.insert(meta_path, tampered);
    let result = verify_archive(&mut disk, "id-verify-tampered");
    assert!(result.is_err());
    assert!(result.unwrap_err().contains("自哈希不匹配"));
}

#[test]
fn test_rebuild_meta_from_index() {
    let mut disk = disk_with_target(TARGET);
    let archive = make_test_archive("C:\\Steam", TARGET, "id-rebuild");
    write_archive(&mut disk, archive).unwrap();
    disk.files.remove(&meta_file_path(TARGET));
    assert!(!meta_exists(&disk, TARGET));
    assert!(verify_archive(&mut disk, "id-rebuild").is_err());
    rebuild_meta_from_index(&mut disk, "id-rebuild").unwrap();
    assert!(meta_exists(&disk, TARGET));
    let verified = verify_archive(&mut disk, "id-rebuild").unwrap();
    assert_eq!(verified.archive_id, "id-rebuild");
}

#[test]
fn test_rebuild_meta_nonexistent() {
    let mut disk = FakeDisk::new();
    let result = rebuild_meta_from_index(&mut disk, "id-not-exist");
    assert!(result.is_err());
    assert!(result.unwrap_err().contains("全局索引中不存在档案"));
}

#[test]
fn test_rebuild_junction_nonexistent() {
    let mut disk = FakeDisk::new();
    let result = rebuild_junction(&mut disk, "id-not-exist");
    assert!(result.is_err());
    assert_eq!(result.unwrap_err(), "全局索引中不存在档案: id-not-exist");
}

#[test]
fn test_rebuild_junction_target_missing() {
    let mut disk = disk_with_target(TARGET);
    let archive = make_test_archive("C:\\DefinitelyNotExists_xyz789", TARGET, "id-junc-target-missing");
    write_archive(&mut disk, archive).unwrap();
    disk.dirs.remove(TARGET);
    disk.files.clear();
    let result = rebuild_junction(&mut disk, "id-junc-target-missing");
    assert!(result.is_err());
    assert!(result.unwrap_err().contains("目标目录不存在"), "目标目录不存在时应报错");
}

#[test]
fn test_rebuild_junction_source_exists_as_dir() {
    let mut disk = disk_with_target(TARGET);
    let source = "D:\\cdisklinker_history_tests\\root\\fake_source";
    disk.dirs.insert(source.to_string());
    let archive = make_test_archive(source, TARGET, "id-junc-source-dir");
    write_archive(&mut disk, archive).unwrap();
    let result = rebuild_junction(&mut disk, "id-junc-source-dir");
    assert!(result.is_err());
    let err = result.unwrap_err();
    assert!(err.contains("已存在"), "源路径已存在普通目录时应报错，避免覆盖");
    assert!(disk.junctions.is_empty());
}

#[test]
fn rebuild_junction_makes_link_when_source_free() {
    let mut disk = disk_with_target(TARGET);
    let archive = make_test_archive("C:\\Steam", TARGET, "id-relink");
    write_archive(&mut disk, archive).unwrap();
    rebuild_junction(&mut disk, "id-relink").unwrap();
    assert!(disk.junctions.contains("C:\\Steam"));
    let items = list(&disk);
    assert!(items[0].junction_exists);
}

#[test]
fn write_archive_refuses_missing_target() {
    let mut disk = FakeDisk::new();
    let archive = make_test_archive("C:\\Steam", TARGET, "id-no-target");
    let err = write_archive(&mut disk, archive).unwrap_err();
    assert_eq!(err, format!("目标目录不存在，无法写入档案: {:?}", TARGET));
    assert!(disk.index.is_none());
    assert!(disk.files.is_empty());
}

#[test]
fn rebuild_meta_refuses_missing_target() {
    let mut disk = disk_with_target(TARGET);
    write_archive(&mut disk, make_test_archive("C:\\Steam", TARGET, "id-rm")).unwrap();
    disk.dirs.remove(TARGET);
    let err = rebuild_meta_from_index(&mut disk, "id-rm").unwrap_err();
    assert_eq!(err, format!("目标目录不存在，无法重建档案: {:?}", TARGET));
}

#[test]
fn verify_archive_reports_disagreeing_copies() {
    let mut disk = disk_with_target(TARGET);
    write_archive(&mut disk, make_test_archive("C:\\Steam", TARGET, "id-a")).unwrap();
    // a meta file written for another archive id, correctly sealed
    let mut other = make_test_archive("C:\\Steam", TARGET, "id-b");
    let json = unhashed_json(&other);
    other.fill_self_hash(&json);
    disk.files.insert(meta_file_path(TARGET), archive_text(&other));
    let err = verify_archive(&mut disk, "id-a").unwrap_err();
    assert_eq!(err, "档案 ID 不一致：全局索引 id-a，自包含档案 id-b");

    let mut moved = make_test_archive("C:\\Games", TARGET, "id-a");
    let json = unhashed_json(&moved);
    moved.fill_self_hash(&json);
    disk.files.insert(meta_file_path(TARGET), archive_text(&moved));
    let err = verify_archive(&mut disk, "id-a").unwrap_err();
    assert_eq!(err, format!("源路径不一致：全局索引 {:?}，自包含档案 {:?}", "C:\\Steam", "C:\\Games"));
}

#[test]
fn self_hash_mismatch_message_names_both_hashes() {
    let mut a = make_test_archive("C:\\Test", "D:\\Test", "id-msg");
    a.archive_self_hash = "0".repeat(64);
    let json = unhashed_json(&a);
    let err = a.verify_self_hash(&json).unwrap_err();
    let mut fresh = make_test_archive("C:\\Test", "D:\\Test", "id-msg");
    fresh.fill_self_hash(&json);
    assert_eq!(
        err,
        format!("档案自哈希不匹配（可能被篡改或损坏）。期望 {}，实际 {}", fresh.archive_self_hash, "0".repeat(64))
    );
}

#[test]
fn self_hash_is_sha256_hex_of_serialization() {
    let mut a = make_test_archive("C:\\Test", "D:\\Test", "id-sha");
    a.fill_self_hash(b"abc");
    assert_eq!(a.archive_self_hash, "ba7816bf8f01cfea414140de5dae2223b00361a396177a9cb410ff61f20015ad");
}

#[test]
fn history_record_and_remove_keep_other_ids() {
    let mut h = MigrationHistory::empty();
    h.record(make_test_archive("C:\\A", "D:\\A", "a"), 5);
    h.record(make_test_archive("C:\\B", "D:\\B", "b"), 6);
    h.record(make_test_archive("C:\\A2", "D:\\A", "a"), 7);
    let ids: Vec<&str> = h.archives.iter().map(|x| x.archive_id.as_str()).collect();
    assert_eq!(ids, vec!["b", "a"]);
    assert_eq!(h.archives[1].source_path, "C:\\A2");
    assert_eq!(h.updated_at, 7);
    h.remove_id(&"a".to_string(), 9);
    let ids: Vec<&str> = h.archives.iter().map(|x| x.archive_id.as_str()).collect();
    assert_eq!(ids, vec!["b"]);
    assert_eq!(h.updated_at, 9);
    assert!(h.lookup("a").is_none());
    assert_eq!(h.lookup("b").unwrap().source_path, "C:\\B");
}

#[test]
fn remove_keeps_meta_file_when_index_save_fails() {
    let mut task = ArchiveTask::remove_archive("id-x".to_string(), 42);
    assert!(matches!(task.step(ArchiveEvent::Exists(false)), ArchiveAction::LoadHistory));
    let mut h = MigrationHistory::empty();
    h.record(make_test_archive("C:\\Steam", TARGET, "id-x"), 1);
    match task.step(ArchiveEvent::History(Ok(Some(h)))) {
        ArchiveAction::SaveHistory { history } => {
            assert!(history.archives.is_empty());
            assert_eq!(history.updated_at, 42);
        }
        _ => panic!("expected the index to be saved first"),
    }
    match task.step(ArchiveEvent::Saved(Err("磁盘已满".to_string()))) {
        ArchiveAction::Finish(r) => assert_eq!(r.unwrap_err(), "磁盘已满"),
        _ => panic!("expected the removal to stop"),
    }
}

#[test]
fn write_saves_meta_before_index() {
    let archive = make_test_archive("C:\\Steam", TARGET, "id-order");
    let json = unhashed_json(&archive);
    let mut task = ArchiveTask::write_archive(archive, &json, 7);
    assert!(matches!(task.step(ArchiveEvent::Exists(false)), ArchiveAction::PathExists { .. }));
    match task.step(ArchiveEvent::Exists(true)) {
        ArchiveAction::SaveMeta { path, archive } => {
            assert_eq!(path, format!("{}\\.cdisklinker_meta.json", TARGET));
            assert_eq!(archive.archive_self_hash.len(), 64);
        }
        _ => panic!("expected the meta file first"),
    }
    match task.step(ArchiveEvent::Saved(Err("拒绝访问。".to_string()))) {
        ArchiveAction::Finish(r) => assert_eq!(r.unwrap_err(), "拒绝访问。"),
        _ => panic!("a failed meta file stops the write before the index"),
    }
}
