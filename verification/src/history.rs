//! Migration archives: the record of each finished migration, kept twice
//! (a meta file in the target directory, authoritative, and an entry in the
//! global index), and the operations on them.
//!
//! Writing stores the meta file first and the index second; removing drops
//! the index entry first and the meta file second. The operations that
//! touch the disk are state machines: the caller performs each action and
//! hands back its outcome.
use vstd::prelude::*;
use crate::engine::manifest::{content_hash, content_hash_spec};
use crate::engine::paths::{join_path, join_spec};
use crate::search::{first_match, lemma_first_match_at, lemma_first_match_some};
use crate::text::{concat2, concat4, owned};
use crate::trusted::{debug_quoted, debug_str, lowercase_of, to_lowercase};

verus! {

/// The name of the meta file written at the root of a target directory.
pub const META_FILE_NAME: &'static str = ".cdisklinker_meta.json";

/// The name of the global index file.
pub const HISTORY_FILE_NAME: &'static str = "migration_history.json";

/// The archive format version.
pub const ARCHIVE_VERSION: u32 = 1;

/// The record of one finished migration.
#[derive(Debug)]
pub struct MigrationArchive {
    pub version: u32,
    pub archive_id: String,
    /// Where the junction stands: the location the data was moved away from.
    pub source_path: String,
    /// Where the data lives.
    pub target_path: String,
    pub created_at: u64,
    /// The manifest's self hash at the end of the migration (empty when the
    /// manifest was gone).
    pub manifest_self_hash: String,
    pub total_files: usize,
    pub total_size: u64,
    pub software_version: String,
    /// SHA-256 (lowercase hex) of the archive serialized with this field
    /// empty; empty means "not set".
    pub archive_self_hash: String,
}

/// The global index: every archive, and when it last changed.
#[derive(Debug)]
pub struct MigrationHistory {
    pub archives: Vec<MigrationArchive>,
    pub updated_at: u64,
}

/// One line of the archive list: the archive, whether its meta file is
/// there, and whether its source is still a junction.
#[derive(Debug)]
pub struct ArchiveListItem {
    pub archive: MigrationArchive,
    pub meta_file_exists: bool,
    pub junction_exists: bool,
}

/// What was found on disk for one archive of the index.
#[derive(Debug)]
pub struct ArchiveProbe {
    pub target_exists: bool,
    pub meta_exists: bool,
    pub source_is_junction: bool,
}

// ---------------------------------------------------------------- specs

/// The meta file of a target directory.
pub open spec fn meta_path_spec(target_dir: Seq<char>) -> Seq<char> {
    join_spec(target_dir, ".cdisklinker_meta.json"@)
}

/// The check of an archive's self hash against its serialization with the
/// hash cleared: an empty hash is not checked.
pub open spec fn self_hash_check(a: MigrationArchive, unhashed_json: Seq<u8>) -> Result<(), Seq<char>> {
    if a.archive_self_hash@.len() == 0 || a.archive_self_hash@ == content_hash_spec(unhashed_json) {
        Ok(())
    } else {
        Err("档案自哈希不匹配（可能被篡改或损坏）。期望 "@ + content_hash_spec(unhashed_json) + "，实际 "@
            + a.archive_self_hash@)
    }
}

/// `r` is `a` with its self hash computed from `unhashed_json`.
pub open spec fn sealed_from(r: MigrationArchive, a: MigrationArchive, unhashed_json: Seq<u8>) -> bool {
    &&& r.archive_self_hash@ == content_hash_spec(unhashed_json)
    &&& r == (MigrationArchive { archive_self_hash: r.archive_self_hash, ..a })
}

/// The archives whose id is not `id`, in order.
pub open spec fn without_id(s: Seq<MigrationArchive>, id: Seq<char>) -> Seq<MigrationArchive>
    decreases s.len(),
{
    if s.len() == 0 {
        s
    } else {
        let rest = without_id(s.drop_last(), id);
        if s.last().archive_id@ == id {
            rest
        } else {
            rest.push(s.last())
        }
    }
}

/// The index after writing `a`: every record with its id goes, `a` is
/// appended.
pub open spec fn upsert(s: Seq<MigrationArchive>, a: MigrationArchive) -> Seq<MigrationArchive> {
    without_id(s, a.archive_id@).push(a)
}

/// How many records carry the id.
pub open spec fn count_id(s: Seq<MigrationArchive>, id: Seq<char>) -> nat
    decreases s.len(),
{
    if s.len() == 0 {
        0
    } else {
        count_id(s.drop_last(), id) + if s.last().archive_id@ == id { 1nat } else { 0nat }
    }
}

/// The archive has this id.
pub open spec fn has_id(id: Seq<char>) -> spec_fn(MigrationArchive) -> bool {
    |a: MigrationArchive| a.archive_id@ == id
}

/// The archive's source path, lowercased, is `lowered`.
pub open spec fn has_lower_source(lowered: Seq<char>) -> spec_fn(MigrationArchive) -> bool {
    |a: MigrationArchive| lowercase_of(a.source_path@) == lowered
}

/// The first archive with the id.
pub open spec fn lookup(s: Seq<MigrationArchive>, id: Seq<char>) -> Option<MigrationArchive> {
    match first_match(s, has_id(id)) {
        Some(i) => Some(s[i]),
        None => None,
    }
}

/// The first archive whose source path equals `source_path` when both are
/// lowercased.
pub open spec fn find_by_source_spec(s: Seq<MigrationArchive>, source_path: Seq<char>) -> Option<MigrationArchive> {
    match first_match(s, has_lower_source(lowercase_of(source_path))) {
        Some(i) => Some(s[i]),
        None => None,
    }
}

/// The list item of an archive and its probe.
pub open spec fn list_item_spec(item: ArchiveListItem, a: MigrationArchive, p: ArchiveProbe) -> bool {
    &&& item.archive == a
    &&& item.meta_file_exists == (p.target_exists && p.meta_exists)
    &&& item.junction_exists == p.source_is_junction
}

// ---------------------------------------------------------------- lemmas

proof fn lemma_without_id_len(s: Seq<MigrationArchive>, id: Seq<char>)
    ensures
        without_id(s, id).len() <= s.len(),
        count_id(without_id(s, id), id) == 0,
        forall|k: int| 0 <= k < without_id(s, id).len() ==> without_id(s, id)[k].archive_id@ != id,
    decreases s.len(),
{
    if s.len() > 0 {
        lemma_without_id_len(s.drop_last(), id);
        let rest = without_id(s.drop_last(), id);
        if s.last().archive_id@ != id {
            assert(rest.push(s.last()).drop_last() =~= rest);
        }
    }
}

proof fn lemma_without_id_twice(s: Seq<MigrationArchive>, id: Seq<char>)
    ensures
        without_id(without_id(s, id), id) == without_id(s, id),
    decreases s.len(),
{
    if s.len() > 0 {
        lemma_without_id_twice(s.drop_last(), id);
        let rest = without_id(s.drop_last(), id);
        if s.last().archive_id@ != id {
            assert(rest.push(s.last()).drop_last() =~= rest);
        }
    }
}

proof fn lemma_count_other(s: Seq<MigrationArchive>, id: Seq<char>, other: Seq<char>)
    requires
        other != id,
    ensures
        count_id(without_id(s, id), other) == count_id(s, other),
    decreases s.len(),
{
    if s.len() > 0 {
        lemma_count_other(s.drop_last(), id, other);
        let rest = without_id(s.drop_last(), id);
        if s.last().archive_id@ != id {
            assert(rest.push(s.last()).drop_last() =~= rest);
        }
    }
}

// ---------------------------------------------------------------- laws

/// Law (one record per id): after writing an archive the index holds
/// exactly one record with its id, namely the archive, as the last entry;
/// every other id keeps its number of records.
pub proof fn lemma_upsert_one_record(s: Seq<MigrationArchive>, a: MigrationArchive, other: Seq<char>)
    requires
        other != a.archive_id@,
    ensures
        count_id(upsert(s, a), a.archive_id@) == 1,
        upsert(s, a).last() == a,
        count_id(upsert(s, a), other) == count_id(s, other),
{
    let w = without_id(s, a.archive_id@);
    lemma_without_id_len(s, a.archive_id@);
    lemma_count_other(s, a.archive_id@, other);
    assert(w.push(a).drop_last() =~= w);
}

/// Law (writing is idempotent): writing `a` and then `b` with the same id
/// leaves the same index as writing `b` alone.
pub proof fn lemma_upsert_idempotent(s: Seq<MigrationArchive>, a: MigrationArchive, b: MigrationArchive)
    requires
        a.archive_id@ == b.archive_id@,
    ensures
        upsert(upsert(s, a), b) == upsert(s, b),
{
    let w = without_id(s, a.archive_id@);
    assert(w.push(a).drop_last() =~= w);
    lemma_without_id_twice(s, a.archive_id@);
}

/// Law (removing undoes writing): removing the id of a written archive
/// leaves the records of every other id as they were before the write, and
/// none with that id.
pub proof fn lemma_remove_after_upsert(s: Seq<MigrationArchive>, a: MigrationArchive)
    ensures
        without_id(upsert(s, a), a.archive_id@) == without_id(s, a.archive_id@),
        count_id(without_id(upsert(s, a), a.archive_id@), a.archive_id@) == 0,
{
    let w = without_id(s, a.archive_id@);
    assert(w.push(a).drop_last() =~= w);
    lemma_without_id_twice(s, a.archive_id@);
    lemma_without_id_len(upsert(s, a), a.archive_id@);
}

/// Law (a sealed archive checks): an archive whose self hash was computed
/// from a serialization passes the check against that serialization.
pub proof fn lemma_sealed_checks(a: MigrationArchive, sealed: MigrationArchive, unhashed_json: Seq<u8>)
    requires
        sealed_from(sealed, a, unhashed_json),
    ensures
        self_hash_check(sealed, unhashed_json) is Ok,
{
}

/// Law (a written archive is found by its source): after writing `a`, a
/// case-insensitive search for its source path finds `a`, provided no other
/// record of the index has that source path.
pub proof fn lemma_find_after_upsert(s: Seq<MigrationArchive>, a: MigrationArchive, query: Seq<char>)
    requires
        lowercase_of(query) == lowercase_of(a.source_path@),
        forall|k: int| 0 <= k < s.len() && s[k].archive_id@ != a.archive_id@ ==>
            lowercase_of(#[trigger] s[k].source_path@) != lowercase_of(a.source_path@),
    ensures
        find_by_source_spec(upsert(s, a), query) == Some(a),
{
    let w = without_id(s, a.archive_id@);
    let u = w.push(a);
    lemma_without_id_members(s, a.archive_id@);
    let p = has_lower_source(lowercase_of(query));
    assert forall|j: int| 0 <= j < w.len() implies !p(u[j]) by {
        let k = choose|k: int| 0 <= k < s.len() && s[k] == w[j] && s[k].archive_id@ != a.archive_id@;
        assert(lowercase_of(s[k].source_path@) != lowercase_of(a.source_path@));
    }
    lemma_first_match_at(u, p, w.len() as int);
}

proof fn lemma_without_id_members(s: Seq<MigrationArchive>, id: Seq<char>)
    ensures
        forall|j: int| 0 <= j < without_id(s, id).len() ==> exists|k: int|
            0 <= k < s.len() && s[k] == #[trigger] without_id(s, id)[j] && s[k].archive_id@ != id,
    decreases s.len(),
{
    if s.len() > 0 {
        let d = s.drop_last();
        lemma_without_id_members(d, id);
        let rest = without_id(d, id);
        assert forall|j: int| 0 <= j < without_id(s, id).len() implies exists|k: int|
            0 <= k < s.len() && s[k] == #[trigger] without_id(s, id)[j] && s[k].archive_id@ != id by {
            if j < rest.len() {
                let k = choose|k: int| 0 <= k < d.len() && d[k] == rest[j] && d[k].archive_id@ != id;
                assert(s[k] == d[k]);
            } else {
                assert(s[s.len() - 1] == s.last());
            }
        }
    }
}

// ---------------------------------------------------------------- exec

impl MigrationArchive {
    /// An equal copy.
    pub fn duplicate(&self) -> (r: MigrationArchive)
        ensures
            r == *self,
    {
        MigrationArchive {
            version: self.version,
            archive_id: self.archive_id.clone(),
            source_path: self.source_path.clone(),
            target_path: self.target_path.clone(),
            created_at: self.created_at,
            manifest_self_hash: self.manifest_self_hash.clone(),
            total_files: self.total_files,
            total_size: self.total_size,
            software_version: self.software_version.clone(),
            archive_self_hash: self.archive_self_hash.clone(),
        }
    }

    /// Stores the self hash computed from `unhashed_json`, the serialization
    /// of this archive with an empty `archive_self_hash`.
    pub fn fill_self_hash(&mut self, unhashed_json: &[u8])
        ensures
            sealed_from(*final(self), *old(self), unhashed_json@),
    {
        self.archive_self_hash = content_hash(unhashed_json);
    }

    /// Checks the stored self hash against `unhashed_json` (the archive
    /// serialized with the hash cleared). An empty hash counts as not set
    /// and passes; a different one is reported with both values.
    pub fn verify_self_hash(&self, unhashed_json: &[u8]) -> (r: Result<(), String>)
        ensures
            match r {
                Ok(()) => self_hash_check(*self, unhashed_json@) is Ok,
                Err(m) => self_hash_check(*self, unhashed_json@) == Err::<(), Seq<char>>(m@),
            },
    {
        if self.archive_self_hash.as_str().is_empty() {
            return Ok(());
        }
        let expected = content_hash(unhashed_json);
        if self.archive_self_hash != expected {
            return Err(concat4(
                "档案自哈希不匹配（可能被篡改或损坏）。期望 ",
                expected.as_str(),
                "，实际 ",
                self.archive_self_hash.as_str(),
            ));
        }
        Ok(())
    }
}

/// The path of the meta file of a target directory.
pub fn meta_file_path(target_dir: &str) -> (r: String)
    ensures
        r@ == meta_path_spec(target_dir@),
{
    join_path(target_dir, ".cdisklinker_meta.json")
}

fn without_id_exec(v: &Vec<MigrationArchive>, id: &String) -> (r: Vec<MigrationArchive>)
    ensures
        r@ == without_id(v@, id@),
{
    let mut out: Vec<MigrationArchive> = Vec::new();
    let mut i: usize = 0;
    while i < v.len()
        invariant
            i <= v@.len(),
            out@ == without_id(v@.take(i as int), id@),
        decreases v@.len() - i,
    {
        assert(v@.take(i + 1).drop_last() =~= v@.take(i as int));
        if v[i].archive_id != *id {
            out.push(v[i].duplicate());
        }
        i = i + 1;
    }
    assert(v@.take(v@.len() as int) =~= v@);
    out
}

fn lookup_exec(v: &Vec<MigrationArchive>, id: &str) -> (r: Option<usize>)
    ensures
        match r {
            Some(i) => i < v@.len() && first_match(v@, has_id(id@)) == Some(i as int),
            None => first_match(v@, has_id(id@)) is None,
        },
{
    let wanted = owned(id);
    let mut i: usize = 0;
    while i < v.len()
        invariant
            i <= v@.len(),
            wanted@ == id@,
            forall|j: int| 0 <= j < i ==> !has_id(id@)(v@[j]),
        decreases v@.len() - i,
    {
        if v[i].archive_id == wanted {
            proof {
                lemma_first_match_at(v@, has_id(id@), i as int);
            }
            return Some(i);
        }
        i = i + 1;
    }
    None
}

impl MigrationHistory {
    /// An index with no archive.
    pub fn empty() -> (r: MigrationHistory)
        ensures
            r.archives@.len() == 0,
            r.updated_at == 0,
    {
        MigrationHistory { archives: Vec::new(), updated_at: 0 }
    }

    /// Records a written archive: the records with its id go, the archive
    /// is appended, and the index is stamped `now`.
    pub fn record(&mut self, archive: MigrationArchive, now: u64)
        ensures
            final(self).archives@ == upsert(old(self).archives@, archive),
            final(self).updated_at == now,
    {
        let mut kept = without_id_exec(&self.archives, &archive.archive_id);
        kept.push(archive);
        self.archives = kept;
        self.updated_at = now;
    }

    /// Drops every record with the id and stamps the index `now`.
    pub fn remove_id(&mut self, archive_id: &String, now: u64)
        ensures
            final(self).archives@ == without_id(old(self).archives@, archive_id@),
            final(self).updated_at == now,
    {
        self.archives = without_id_exec(&self.archives, archive_id);
        self.updated_at = now;
    }

    /// The first record with the id.
    pub fn lookup(&self, archive_id: &str) -> (r: Option<MigrationArchive>)
        ensures
            r == lookup(self.archives@, archive_id@),
    {
        match lookup_exec(&self.archives, archive_id) {
            Some(i) => Some(self.archives[i].duplicate()),
            None => None,
        }
    }
}

/// The archive of the index whose source path matches `source_path` when
/// both are lowercased (the first one, if several do); `None` if none does.
pub fn find_by_source_path(history: &MigrationHistory, source_path: &str) -> (r: Option<MigrationArchive>)
    ensures
        r == find_by_source_spec(history.archives@, source_path@),
{
    let q = to_lowercase(source_path);
    let ghost p = has_lower_source(lowercase_of(source_path@));
    let mut i: usize = 0;
    while i < history.archives.len()
        invariant
            i <= history.archives@.len(),
            q@ == lowercase_of(source_path@),
            p == has_lower_source(lowercase_of(source_path@)),
            forall|j: int| 0 <= j < i ==> !p(history.archives@[j]),
        decreases history.archives@.len() - i,
    {
        let l = to_lowercase(history.archives[i].source_path.as_str());
        if l == q {
            proof {
                lemma_first_match_at(history.archives@, p, i as int);
            }
            return Some(history.archives[i].duplicate());
        }
        i = i + 1;
    }
    None
}

/// The archive list: each archive of the index with its probe; the meta
/// file counts as there only when the target directory is there too.
pub fn list_archives(history: &MigrationHistory, probes: &Vec<ArchiveProbe>) -> (r: Vec<ArchiveListItem>)
    requires
        probes@.len() == history.archives@.len(),
    ensures
        r@.len() == history.archives@.len(),
        forall|i: int| 0 <= i < r@.len() ==> list_item_spec(#[trigger] r@[i], history.archives@[i], probes@[i]),
{
    let mut out: Vec<ArchiveListItem> = Vec::new();
    let mut i: usize = 0;
    while i < history.archives.len()
        invariant
            i <= history.archives@.len(),
            probes@.len() == history.archives@.len(),
            out@.len() == i,
            forall|k: int| 0 <= k < i ==> list_item_spec(#[trigger] out@[k], history.archives@[k], probes@[k]),
        decreases history.archives@.len() - i,
    {
        let p = &probes[i];
        out.push(ArchiveListItem {
            archive: history.archives[i].duplicate(),
            meta_file_exists: p.target_exists && p.meta_exists,
            junction_exists: p.source_is_junction,
        });
        i = i + 1;
    }
    out
}

// ---------------------------------------------------------------- tasks

/// The archive operations that touch the disk.
#[derive(PartialEq, Eq, Structural, Clone, Copy, Debug)]
pub enum ArchiveOp {
    /// Write an archive: the meta file first, then the index.
    Write,
    /// Remove an archive: the index entry first, then the meta file.
    Remove,
    /// Check an archive before a restore: index entry, target directory,
    /// meta file, self hash, and agreement of the two copies.
    Verify,
    /// Write the meta file again from the index entry.
    RebuildMeta,
    /// Verify the archive, then make the junction at its source again.
    RebuildJunction,
}

#[derive(PartialEq, Eq, Structural, Clone, Copy, Debug)]
pub enum ArchivePhase {
    Start,
    AwaitTargetExists,
    AwaitMetaSaved,
    AwaitHistory,
    AwaitHistorySaved,
    AwaitMetaExists,
    AwaitMetaRemoved,
    AwaitMeta,
    AwaitLinkTarget,
    AwaitSourceExists,
    AwaitJunction,
    Finished,
}

/// The next thing to do.
#[derive(Debug)]
pub enum ArchiveAction {
    PathExists { path: String },
    /// Write the archive, serialized, to the meta file at `path` and hide
    /// the file (hiding may fail silently).
    SaveMeta { path: String, archive: MigrationArchive },
    /// Read the global index (`None` when the index file does not exist).
    LoadHistory,
    SaveHistory { history: MigrationHistory },
    /// Read and parse the meta file at `path`; hand back the archive and its
    /// serialization with the self hash cleared.
    LoadMeta { path: String },
    /// Delete a file; a failure is ignored.
    RemoveFile { path: String },
    CreateJunction { source: String, target: String },
    Finish(Result<Option<MigrationArchive>, String>),
}

/// The outcome of the last action.
#[derive(Debug)]
pub enum ArchiveEvent {
    Exists(bool),
    Saved(Result<(), String>),
    History(Result<Option<MigrationHistory>, String>),
    Meta(Result<(MigrationArchive, Vec<u8>), String>),
    Done(Result<(), String>),
}

/// The state of one archive operation.
pub struct ArchiveTask {
    pub op: ArchiveOp,
    pub phase: ArchivePhase,
    /// The archive the operation is about.
    pub archive_id: String,
    /// For a write, the sealed archive; otherwise the index entry once found.
    pub archive: MigrationArchive,
    /// The meta file's archive once loaded.
    pub meta: MigrationArchive,
    /// The time stamped on the index when it changes.
    pub now: u64,
    /// A write has stored its meta file.
    pub meta_saved: bool,
}

/// The archives of a loaded index; no index file means no archive.
pub open spec fn loaded(h: Option<MigrationHistory>) -> Seq<MigrationArchive> {
    match h {
        Some(x) => x.archives@,
        None => Seq::empty(),
    }
}

pub open spec fn moves(s: ArchiveTask, t: ArchiveTask, r: ArchiveAction, p: ArchivePhase, a: ArchiveAction) -> bool {
    &&& t == (ArchiveTask { phase: p, ..s })
    &&& r == a
}

pub open spec fn ends(s: ArchiveTask, t: ArchiveTask, r: ArchiveAction, res: Result<Option<MigrationArchive>, String>) -> bool {
    moves(s, t, r, ArchivePhase::Finished, ArchiveAction::Finish(res))
}

pub open spec fn fails(s: ArchiveTask, t: ArchiveTask, r: ArchiveAction, msg: Seq<char>) -> bool {
    &&& t == (ArchiveTask { phase: ArchivePhase::Finished, ..s })
    &&& r matches ArchiveAction::Finish(Err(m)) && m@ == msg
}

/// The message when the target directory is missing.
pub open spec fn target_missing_message(op: ArchiveOp, target: Seq<char>) -> Seq<char> {
    if op == ArchiveOp::Write {
        "目标目录不存在，无法写入档案: "@ + debug_quoted(target)
    } else if op == ArchiveOp::RebuildMeta {
        "目标目录不存在，无法重建档案: "@ + debug_quoted(target)
    } else {
        "目标目录不存在: "@ + debug_quoted(target)
    }
}

/// The check of a loaded meta file against the index entry, in the order
/// made: self hash, id, source path, target path.
pub open spec fn meta_mismatch(index: MigrationArchive, m: MigrationArchive, json: Seq<u8>) -> Option<Seq<char>> {
    if self_hash_check(m, json) is Err {
        Some(self_hash_check(m, json)->Err_0)
    } else if m.archive_id@ != index.archive_id@ {
        Some("档案 ID 不一致：全局索引 "@ + index.archive_id@ + "，自包含档案 "@ + m.archive_id@)
    } else if m.source_path@ != index.source_path@ {
        Some("源路径不一致：全局索引 "@ + debug_quoted(index.source_path@) + "，自包含档案 "@ + debug_quoted(
            m.source_path@,
        ))
    } else if m.target_path@ != index.target_path@ {
        Some("目标路径不一致：全局索引 "@ + debug_quoted(index.target_path@) + "，自包含档案 "@ + debug_quoted(
            m.target_path@,
        ))
    } else {
        None
    }
}

pub open spec fn next_target_exists(s: ArchiveTask, found: bool, t: ArchiveTask, r: ArchiveAction) -> bool {
    if !found {
        fails(s, t, r, target_missing_message(s.op, s.archive.target_path@))
    } else if s.op == ArchiveOp::Write || s.op == ArchiveOp::RebuildMeta {
        &&& t == (ArchiveTask { phase: ArchivePhase::AwaitMetaSaved, ..s })
        &&& r matches ArchiveAction::SaveMeta { path, archive } && path@ == meta_path_spec(s.archive.target_path@)
            && archive == s.archive
    } else {
        &&& t == (ArchiveTask { phase: ArchivePhase::AwaitMeta, ..s })
        &&& r matches ArchiveAction::LoadMeta { path } && path@ == meta_path_spec(s.archive.target_path@)
    }
}

pub open spec fn next_history(s: ArchiveTask, h: Option<MigrationHistory>, t: ArchiveTask, r: ArchiveAction) -> bool {
    let arch = loaded(h);
    if s.op == ArchiveOp::Write {
        &&& t == (ArchiveTask { phase: ArchivePhase::AwaitHistorySaved, ..s })
        &&& r matches ArchiveAction::SaveHistory { history } && history.archives@ == upsert(arch, s.archive)
            && history.updated_at == s.now
    } else {
        match lookup(arch, s.archive_id@) {
            None => if s.op == ArchiveOp::Remove {
                ends(s, t, r, Ok(None))
            } else {
                fails(s, t, r, "全局索引中不存在档案: "@ + s.archive_id@)
            },
            Some(a) => if s.op == ArchiveOp::Remove {
                &&& t == (ArchiveTask { phase: ArchivePhase::AwaitHistorySaved, archive: a, ..s })
                &&& r matches ArchiveAction::SaveHistory { history } && history.archives@ == without_id(arch, s.archive_id@)
                    && history.updated_at == s.now
            } else {
                moves(
                    ArchiveTask { archive: a, ..s },
                    t,
                    r,
                    ArchivePhase::AwaitTargetExists,
                    ArchiveAction::PathExists { path: a.target_path },
                )
            },
        }
    }
}

pub open spec fn next_meta(s: ArchiveTask, m: MigrationArchive, json: Seq<u8>, t: ArchiveTask, r: ArchiveAction) -> bool {
    match meta_mismatch(s.archive, m, json) {
        Some(msg) => fails(s, t, r, msg),
        None => if s.op == ArchiveOp::RebuildJunction {
            moves(
                ArchiveTask { meta: m, ..s },
                t,
                r,
                ArchivePhase::AwaitLinkTarget,
                ArchiveAction::PathExists { path: m.target_path },
            )
        } else {
            ends(ArchiveTask { meta: m, ..s }, t, r, Ok(Some(m)))
        },
    }
}

/// The transition relation of the archive operations.
pub open spec fn archive_next(s: ArchiveTask, ev: ArchiveEvent, t: ArchiveTask, r: ArchiveAction) -> bool {
    match s.phase {
        ArchivePhase::Start => if s.op == ArchiveOp::Write {
            moves(s, t, r, ArchivePhase::AwaitTargetExists, ArchiveAction::PathExists { path: s.archive.target_path })
        } else {
            moves(s, t, r, ArchivePhase::AwaitHistory, ArchiveAction::LoadHistory)
        },
        ArchivePhase::AwaitTargetExists => match ev {
            ArchiveEvent::Exists(found) => next_target_exists(s, found, t, r),
            _ => false,
        },
        ArchivePhase::AwaitMetaSaved => match ev {
            ArchiveEvent::Saved(Err(e)) => ends(s, t, r, Err(e)),
            ArchiveEvent::Saved(Ok(())) => if s.op == ArchiveOp::RebuildMeta {
                ends(s, t, r, Ok(None))
            } else {
                moves(ArchiveTask { meta_saved: true, ..s }, t, r, ArchivePhase::AwaitHistory, ArchiveAction::LoadHistory)
            },
            _ => false,
        },
        ArchivePhase::AwaitHistory => match ev {
            ArchiveEvent::History(Err(e)) => ends(s, t, r, Err(e)),
            ArchiveEvent::History(Ok(h)) => next_history(s, h, t, r),
            _ => false,
        },
        ArchivePhase::AwaitHistorySaved => match ev {
            ArchiveEvent::Saved(Err(e)) => ends(s, t, r, Err(e)),
            ArchiveEvent::Saved(Ok(())) => if s.op == ArchiveOp::Remove {
                &&& t == (ArchiveTask { phase: ArchivePhase::AwaitMetaExists, ..s })
                &&& r matches ArchiveAction::PathExists { path } && path@ == meta_path_spec(s.archive.target_path@)
            } else {
                ends(s, t, r, Ok(None))
            },
            _ => false,
        },
        ArchivePhase::AwaitMetaExists => match ev {
            ArchiveEvent::Exists(true) => {
                &&& t == (ArchiveTask { phase: ArchivePhase::AwaitMetaRemoved, ..s })
                &&& r matches ArchiveAction::RemoveFile { path } && path@ == meta_path_spec(s.archive.target_path@)
            },
            ArchiveEvent::Exists(false) => ends(s, t, r, Ok(None)),
            _ => false,
        },
        ArchivePhase::AwaitMetaRemoved => match ev {
            ArchiveEvent::Done(_) => ends(s, t, r, Ok(None)),
            _ => false,
        },
        ArchivePhase::AwaitMeta => match ev {
            ArchiveEvent::Meta(Err(e)) => ends(s, t, r, Err(e)),
            ArchiveEvent::Meta(Ok((m, json))) => next_meta(s, m, json@, t, r),
            _ => false,
        },
        ArchivePhase::AwaitLinkTarget => match ev {
            ArchiveEvent::Exists(false) => fails(s, t, r, "目标目录不存在，无法重建链接: "@ + debug_quoted(s.meta.target_path@)),
            ArchiveEvent::Exists(true) => moves(s, t, r, ArchivePhase::AwaitSourceExists, ArchiveAction::PathExists { path: s.meta.source_path }),
            _ => false,
        },
        ArchivePhase::AwaitSourceExists => match ev {
            ArchiveEvent::Exists(true) => fails(
                s,
                t,
                r,
                "源路径已存在，不可覆盖（可能是 Junction 仍存在或出现了同名目录）: "@ + debug_quoted(s.meta.source_path@),
            ),
            ArchiveEvent::Exists(false) => moves(
                s,
                t,
                r,
                ArchivePhase::AwaitJunction,
                ArchiveAction::CreateJunction { source: s.meta.source_path, target: s.meta.target_path },
            ),
            _ => false,
        },
        ArchivePhase::AwaitJunction => match ev {
            ArchiveEvent::Done(Err(e)) => ends(s, t, r, Err(e)),
            ArchiveEvent::Done(Ok(())) => ends(s, t, r, Ok(None)),
            _ => false,
        },
        ArchivePhase::Finished => false,
    }
}

/// The outcome kind each phase waits for.
pub open spec fn archive_expects(s: ArchiveTask, ev: ArchiveEvent) -> bool {
    match s.phase {
        ArchivePhase::Start => true,
        ArchivePhase::AwaitTargetExists | ArchivePhase::AwaitMetaExists | ArchivePhase::AwaitLinkTarget
        | ArchivePhase::AwaitSourceExists => ev is Exists,
        ArchivePhase::AwaitMetaSaved | ArchivePhase::AwaitHistorySaved => ev is Saved,
        ArchivePhase::AwaitHistory => ev is History,
        ArchivePhase::AwaitMeta => ev is Meta,
        ArchivePhase::AwaitMetaRemoved | ArchivePhase::AwaitJunction => ev is Done,
        ArchivePhase::Finished => false,
    }
}

// ---------------------------------------------------------------- task exec

/// The archive a task holds before any was read: current version, every
/// text empty and every number zero.
fn blank_archive() -> (r: MigrationArchive)
    ensures
        r.version == ARCHIVE_VERSION,
        r.archive_id@ == Seq::<char>::empty(),
        r.source_path@ == Seq::<char>::empty(),
        r.target_path@ == Seq::<char>::empty(),
        r.created_at == 0,
        r.manifest_self_hash@ == Seq::<char>::empty(),
        r.total_files == 0,
        r.total_size == 0,
        r.software_version@ == Seq::<char>::empty(),
        r.archive_self_hash@ == Seq::<char>::empty(),
{
    MigrationArchive {
        version: ARCHIVE_VERSION,
        archive_id: String::new(),
        source_path: String::new(),
        target_path: String::new(),
        created_at: 0,
        manifest_self_hash: String::new(),
        total_files: 0,
        total_size: 0,
        software_version: String::new(),
        archive_self_hash: String::new(),
    }
}

fn with_debug(prefix: &str, value: &String) -> (r: String)
    ensures
        r@ == prefix@ + debug_quoted(value@),
{
    let d = debug_str(value.as_str());
    concat2(prefix, d.as_str())
}

fn pair_message(a: &str, x: &str, b: &str, y: &str) -> (r: String)
    ensures
        r@ == a@ + x@ + b@ + y@,
{
    concat4(a, x, b, y)
}

impl ArchiveTask {
    fn of(op: ArchiveOp, archive_id: String, archive: MigrationArchive, now: u64) -> (r: ArchiveTask)
        ensures
            r.op == op,
            r.phase == ArchivePhase::Start,
            r.archive_id == archive_id,
            r.archive == archive,
            r.now == now,
            !r.meta_saved,
    {
        ArchiveTask { op, phase: ArchivePhase::Start, archive_id, archive, meta: blank_archive(), now, meta_saved: false }
    }

    /// Writes an archive: seals it with the self hash of `unhashed_json`
    /// (its serialization with an empty `archive_self_hash`), stores the
    /// meta file in its target directory, then records it in the index
    /// stamped `now`, replacing any record with the same id.
    pub fn write_archive(archive: MigrationArchive, unhashed_json: &[u8], now: u64) -> (r: ArchiveTask)
        ensures
            r.op == ArchiveOp::Write,
            r.phase == ArchivePhase::Start,
            r.archive_id@ == archive.archive_id@,
            sealed_from(r.archive, archive, unhashed_json@),
            r.now == now,
            !r.meta_saved,
    {
        let mut a = archive;
        a.fill_self_hash(unhashed_json);
        let id = a.archive_id.clone();
        ArchiveTask::of(ArchiveOp::Write, id, a, now)
    }

    /// Removes an archive: drops its records from the index (stamped
    /// `now`), then deletes its meta file if there. An unknown id is no error.
    pub fn remove_archive(archive_id: String, now: u64) -> (r: ArchiveTask)
        ensures
            r.op == ArchiveOp::Remove,
            r.phase == ArchivePhase::Start,
            r.archive_id == archive_id,
            r.now == now,
            !r.meta_saved,
    {
        ArchiveTask::of(ArchiveOp::Remove, archive_id, blank_archive(), now)
    }

    /// Checks an archive before a restore; ends with the meta file's
    /// archive.
    pub fn verify_archive(archive_id: String) -> (r: ArchiveTask)
        ensures
            r.op == ArchiveOp::Verify,
            r.phase == ArchivePhase::Start,
            r.archive_id == archive_id,
            !r.meta_saved,
    {
        ArchiveTask::of(ArchiveOp::Verify, archive_id, blank_archive(), 0)
    }

    /// Writes the meta file of an archive again from its index entry.
    pub fn rebuild_meta_from_index(archive_id: String) -> (r: ArchiveTask)
        ensures
            r.op == ArchiveOp::RebuildMeta,
            r.phase == ArchivePhase::Start,
            r.archive_id == archive_id,
            !r.meta_saved,
    {
        ArchiveTask::of(ArchiveOp::RebuildMeta, archive_id, blank_archive(), 0)
    }

    /// Makes the junction of an archive again: the archive must verify,
    /// its target directory must exist and its source path must not.
    pub fn rebuild_junction(archive_id: String) -> (r: ArchiveTask)
        ensures
            r.op == ArchiveOp::RebuildJunction,
            r.phase == ArchivePhase::Start,
            r.archive_id == archive_id,
            !r.meta_saved,
    {
        ArchiveTask::of(ArchiveOp::RebuildJunction, archive_id, blank_archive(), 0)
    }

    fn go(&mut self, p: ArchivePhase, a: ArchiveAction) -> (r: ArchiveAction)
        ensures
            moves(*old(self), *final(self), r, p, a),
    {
        self.phase = p;
        a
    }

    fn end(&mut self, res: Result<Option<MigrationArchive>, String>) -> (r: ArchiveAction)
        ensures
            ends(*old(self), *final(self), r, res),
    {
        self.phase = ArchivePhase::Finished;
        ArchiveAction::Finish(res)
    }

    fn fail(&mut self, m: String) -> (r: ArchiveAction)
        ensures
            fails(*old(self), *final(self), r, m@),
    {
        self.phase = ArchivePhase::Finished;
        ArchiveAction::Finish(Err(m))
    }

    fn on_target_exists(&mut self, found: bool) -> (r: ArchiveAction)
        ensures
            next_target_exists(*old(self), found, *final(self), r),
    {
        if !found {
            let m = if self.op == ArchiveOp::Write {
                with_debug("目标目录不存在，无法写入档案: ", &self.archive.target_path)
            } else if self.op == ArchiveOp::RebuildMeta {
                with_debug("目标目录不存在，无法重建档案: ", &self.archive.target_path)
            } else {
                with_debug("目标目录不存在: ", &self.archive.target_path)
            };
            self.fail(m)
        } else if self.op == ArchiveOp::Write || self.op == ArchiveOp::RebuildMeta {
            let path = meta_file_path(self.archive.target_path.as_str());
            let a = ArchiveAction::SaveMeta { path, archive: self.archive.duplicate() };
            self.go(ArchivePhase::AwaitMetaSaved, a)
        } else {
            let path = meta_file_path(self.archive.target_path.as_str());
            self.go(ArchivePhase::AwaitMeta, ArchiveAction::LoadMeta { path })
        }
    }

    fn on_history(&mut self, h: Option<MigrationHistory>) -> (r: ArchiveAction)
        ensures
            next_history(*old(self), h, *final(self), r),
    {
        let ghost arch = loaded(h);
        let mut history = match h {
            Some(x) => x,
            None => MigrationHistory::empty(),
        };
        assert(history.archives@ == arch);
        if self.op == ArchiveOp::Write {
            history.record(self.archive.duplicate(), self.now);
            return self.go(ArchivePhase::AwaitHistorySaved, ArchiveAction::SaveHistory { history });
        }
        let found = history.lookup(self.archive_id.as_str());
        match found {
            None => {
                if self.op == ArchiveOp::Remove {
                    self.end(Ok(None))
                } else {
                    let m = concat2("全局索引中不存在档案: ", self.archive_id.as_str());
                    self.fail(m)
                }
            },
            Some(a) => {
                if self.op == ArchiveOp::Remove {
                    history.remove_id(&self.archive_id, self.now);
                    self.archive = a;
                    self.go(ArchivePhase::AwaitHistorySaved, ArchiveAction::SaveHistory { history })
                } else {
                    let path = a.target_path.clone();
                    self.archive = a;
                    self.go(ArchivePhase::AwaitTargetExists, ArchiveAction::PathExists { path })
                }
            },
        }
    }

    fn on_meta(&mut self, m: MigrationArchive, json: Vec<u8>) -> (r: ArchiveAction)
        ensures
            next_meta(*old(self), m, json@, *final(self), r),
    {
        match m.verify_self_hash(json.as_slice()) {
            Err(msg) => {
                return self.fail(msg);
            },
            Ok(()) => {},
        }
        if m.archive_id != self.archive.archive_id {
            let msg = pair_message(
                "档案 ID 不一致：全局索引 ",
                self.archive.archive_id.as_str(),
                "，自包含档案 ",
                m.archive_id.as_str(),
            );
            return self.fail(msg);
        }
        if m.source_path != self.archive.source_path {
            let a = debug_str(self.archive.source_path.as_str());
            let b = debug_str(m.source_path.as_str());
            let msg = pair_message("源路径不一致：全局索引 ", a.as_str(), "，自包含档案 ", b.as_str());
            return self.fail(msg);
        }
        if m.target_path != self.archive.target_path {
            let a = debug_str(self.archive.target_path.as_str());
            let b = debug_str(m.target_path.as_str());
            let msg = pair_message("目标路径不一致：全局索引 ", a.as_str(), "，自包含档案 ", b.as_str());
            return self.fail(msg);
        }
        if self.op == ArchiveOp::RebuildJunction {
            let path = m.target_path.clone();
            self.meta = m;
            self.go(ArchivePhase::AwaitLinkTarget, ArchiveAction::PathExists { path })
        } else {
            let out = m.duplicate();
            self.meta = m;
            self.end(Ok(Some(out)))
        }
    }

    /// Takes the outcome of the last action and returns the next one.
    pub fn step(&mut self, ev: ArchiveEvent) -> (r: ArchiveAction)
        requires
            archive_expects(*old(self), ev),
        ensures
            archive_next(*old(self), ev, *final(self), r),
    {
        match self.phase {
            ArchivePhase::Start => {
                if self.op == ArchiveOp::Write {
                    let path = self.archive.target_path.clone();
                    self.go(ArchivePhase::AwaitTargetExists, ArchiveAction::PathExists { path })
                } else {
                    self.go(ArchivePhase::AwaitHistory, ArchiveAction::LoadHistory)
                }
            },
            ArchivePhase::AwaitTargetExists => match ev {
                ArchiveEvent::Exists(found) => self.on_target_exists(found),
                _ => self.end(Ok(None)),
            },
            ArchivePhase::AwaitMetaSaved => match ev {
                ArchiveEvent::Saved(Err(e)) => self.end(Err(e)),
                ArchiveEvent::Saved(Ok(())) => {
                    if self.op == ArchiveOp::RebuildMeta {
                        self.end(Ok(None))
                    } else {
                        self.meta_saved = true;
                        self.go(ArchivePhase::AwaitHistory, ArchiveAction::LoadHistory)
                    }
                },
                _ => self.end(Ok(None)),
            },
            ArchivePhase::AwaitHistory => match ev {
                ArchiveEvent::History(Err(e)) => self.end(Err(e)),
                ArchiveEvent::History(Ok(h)) => self.on_history(h),
                _ => self.end(Ok(None)),
            },
            ArchivePhase::AwaitHistorySaved => match ev {
                ArchiveEvent::Saved(Err(e)) => self.end(Err(e)),
                ArchiveEvent::Saved(Ok(())) => {
                    if self.op == ArchiveOp::Remove {
                        let path = meta_file_path(self.archive.target_path.as_str());
                        self.go(ArchivePhase::AwaitMetaExists, ArchiveAction::PathExists { path })
                    } else {
                        self.end(Ok(None))
                    }
                },
                _ => self.end(Ok(None)),
            },
            ArchivePhase::AwaitMetaExists => match ev {
                ArchiveEvent::Exists(true) => {
                    let path = meta_file_path(self.archive.target_path.as_str());
                    self.go(ArchivePhase::AwaitMetaRemoved, ArchiveAction::RemoveFile { path })
                },
                _ => self.end(Ok(None)),
            },
            ArchivePhase::AwaitMetaRemoved => self.end(Ok(None)),
            ArchivePhase::AwaitMeta => match ev {
                ArchiveEvent::Meta(Err(e)) => self.end(Err(e)),
                ArchiveEvent::Meta(Ok((m, json))) => self.on_meta(m, json),
                _ => self.end(Ok(None)),
            },
            ArchivePhase::AwaitLinkTarget => match ev {
                ArchiveEvent::Exists(true) => {
                    let path = self.meta.source_path.clone();
                    self.go(ArchivePhase::AwaitSourceExists, ArchiveAction::PathExists { path })
                },
                _ => {
                    let m = with_debug("目标目录不存在，无法重建链接: ", &self.meta.target_path);
                    self.fail(m)
                },
            },
            ArchivePhase::AwaitSourceExists => match ev {
                ArchiveEvent::Exists(false) => {
                    let a = ArchiveAction::CreateJunction {
                        source: self.meta.source_path.clone(),
                        target: self.meta.target_path.clone(),
                    };
                    self.go(ArchivePhase::AwaitJunction, a)
                },
                _ => {
                    let m = with_debug(
                        "源路径已存在，不可覆盖（可能是 Junction 仍存在或出现了同名目录）: ",
                        &self.meta.source_path,
                    );
                    self.fail(m)
                },
            },
            ArchivePhase::AwaitJunction => match ev {
                ArchiveEvent::Done(Err(e)) => self.end(Err(e)),
                _ => self.end(Ok(None)),
            },
            ArchivePhase::Finished => self.end(Ok(None)),
        }
    }
}

// ---------------------------------------------------------------- task laws

/// What holds in each phase of an archive operation.
pub open spec fn archive_inv(s: ArchiveTask) -> bool {
    &&& s.phase == ArchivePhase::AwaitTargetExists ==> s.op != ArchiveOp::Remove
    &&& s.phase == ArchivePhase::AwaitMetaSaved ==> (s.op == ArchiveOp::Write || s.op == ArchiveOp::RebuildMeta)
    &&& s.phase == ArchivePhase::AwaitHistorySaved ==> (s.op == ArchiveOp::Write || s.op == ArchiveOp::Remove)
    &&& (s.phase == ArchivePhase::AwaitMetaExists || s.phase == ArchivePhase::AwaitMetaRemoved) ==> s.op
        == ArchiveOp::Remove
    &&& s.phase == ArchivePhase::AwaitMeta ==> (s.op == ArchiveOp::Verify || s.op == ArchiveOp::RebuildJunction)
    &&& (s.phase == ArchivePhase::AwaitLinkTarget || s.phase == ArchivePhase::AwaitSourceExists || s.phase
        == ArchivePhase::AwaitJunction) ==> s.op == ArchiveOp::RebuildJunction
    &&& s.op == ArchiveOp::Write ==> s.archive.archive_id@ == s.archive_id@
    &&& s.op == ArchiveOp::Write ==> (s.meta_saved <==> (s.phase == ArchivePhase::AwaitHistory || s.phase
        == ArchivePhase::AwaitHistorySaved || (s.phase == ArchivePhase::Finished && s.meta_saved)))
    &&& s.op != ArchiveOp::Write ==> !s.meta_saved
    &&& (s.op != ArchiveOp::Write && s.phase != ArchivePhase::Start && s.phase != ArchivePhase::AwaitHistory
        && s.phase != ArchivePhase::Finished) ==> s.archive.archive_id@ == s.archive_id@
    &&& (s.phase == ArchivePhase::AwaitLinkTarget || s.phase == ArchivePhase::AwaitSourceExists || s.phase
        == ArchivePhase::AwaitJunction) ==> {
        &&& s.meta.archive_id@ == s.archive.archive_id@
        &&& s.meta.source_path@ == s.archive.source_path@
        &&& s.meta.target_path@ == s.archive.target_path@
    }
}

/// Law: every operation starts in the invariant.
pub proof fn lemma_archive_inv_initial(s: ArchiveTask)
    requires
        s.phase == ArchivePhase::Start,
        !s.meta_saved,
        s.op == ArchiveOp::Write ==> s.archive.archive_id@ == s.archive_id@,
    ensures
        archive_inv(s),
{
}

proof fn lemma_lookup_has_id(s: Seq<MigrationArchive>, id: Seq<char>)
    ensures
        lookup(s, id) matches Some(a) ==> a.archive_id@ == id,
{
    if first_match(s, has_id(id)) is Some {
        lemma_first_match_some(s, has_id(id));
    }
}

/// Law: every step keeps the invariant.
pub proof fn lemma_archive_inv_step(s: ArchiveTask, ev: ArchiveEvent, t: ArchiveTask, r: ArchiveAction)
    requires
        archive_inv(s),
        archive_next(s, ev, t, r),
    ensures
        archive_inv(t),
{
    if s.phase == ArchivePhase::AwaitHistory {
        if let ArchiveEvent::History(Ok(h)) = ev {
            lemma_lookup_has_id(loaded(h), s.archive_id@);
        }
    }
}

/// Law (meta file before index): a write saves the index only after its
/// meta file was saved, and the saved index holds exactly one record with
/// the archive's id: the sealed archive, last.
pub proof fn lemma_write_index_after_meta(s: ArchiveTask, ev: ArchiveEvent, t: ArchiveTask, r: ArchiveAction)
    requires
        archive_inv(s),
        archive_next(s, ev, t, r),
        s.op == ArchiveOp::Write,
        r is SaveHistory,
    ensures
        s.meta_saved,
        s.phase == ArchivePhase::AwaitHistory,
        r matches ArchiveAction::SaveHistory { history } && count_id(history.archives@, s.archive_id@) == 1
            && history.archives@.last() == s.archive && history.updated_at == s.now,
{
    if let ArchiveEvent::History(Ok(h)) = ev {
        let other = s.archive_id@ + seq!['.'];
        assert(other.len() != s.archive_id@.len());
        lemma_upsert_one_record(loaded(h), s.archive, other);
    }
}

/// Law (the meta file is saved only once): `meta_saved` is set only by a
/// successful save of a write's meta file.
pub proof fn lemma_meta_saved_only_on_success(s: ArchiveTask, ev: ArchiveEvent, t: ArchiveTask, r: ArchiveAction)
    requires
        archive_inv(s),
        archive_next(s, ev, t, r),
        !s.meta_saved,
        t.meta_saved,
    ensures
        s.op == ArchiveOp::Write,
        s.phase == ArchivePhase::AwaitMetaSaved,
        ev matches ArchiveEvent::Saved(Ok(_)),
{
}

/// Law (index before meta file on removal): the meta file of an archive is
/// deleted only after the index without its id was saved, and it is the
/// meta file of the removed record.
pub proof fn lemma_remove_meta_after_index(s: ArchiveTask, ev: ArchiveEvent, t: ArchiveTask, r: ArchiveAction)
    requires
        archive_inv(s),
        archive_next(s, ev, t, r),
        t.phase == ArchivePhase::AwaitMetaExists || r is RemoveFile,
    ensures
        s.op == ArchiveOp::Remove,
        s.archive.archive_id@ == s.archive_id@,
        t.phase == ArchivePhase::AwaitMetaExists ==> s.phase == ArchivePhase::AwaitHistorySaved && ev matches ArchiveEvent::Saved(Ok(_)),
        r matches ArchiveAction::RemoveFile { path } ==> s.phase == ArchivePhase::AwaitMetaExists && path@
            == meta_path_spec(s.archive.target_path@),
{
}

/// Law (a verified archive agrees with the index): when verification
/// succeeds, the archive returned is the meta file's, its self hash checks
/// against its serialization, and its id, source path and target path are
/// those of the index entry for the requested id.
pub proof fn lemma_verify_agrees(s: ArchiveTask, ev: ArchiveEvent, t: ArchiveTask, r: ArchiveAction)
    requires
        archive_inv(s),
        archive_next(s, ev, t, r),
        r matches ArchiveAction::Finish(Ok(Some(_))),
    ensures
        s.phase == ArchivePhase::AwaitMeta,
        ev matches ArchiveEvent::Meta(Ok((m, json))) && r == ArchiveAction::Finish(Ok(Some(m)))
            && self_hash_check(m, json@) is Ok && m.archive_id@ == s.archive_id@
            && m.source_path@ == s.archive.source_path@ && m.target_path@ == s.archive.target_path@,
{
}

/// Law (a junction is remade safely): the junction is created only for a
/// verified archive, from its source path to its target directory, after
/// the target was found and the source path was found free.
pub proof fn lemma_rebuild_junction_safe(s: ArchiveTask, ev: ArchiveEvent, t: ArchiveTask, r: ArchiveAction)
    requires
        archive_inv(s),
        archive_next(s, ev, t, r),
        r is CreateJunction,
    ensures
        s.op == ArchiveOp::RebuildJunction,
        s.phase == ArchivePhase::AwaitSourceExists,
        ev matches ArchiveEvent::Exists(false),
        r == (ArchiveAction::CreateJunction { source: s.meta.source_path, target: s.meta.target_path }),
        s.meta.archive_id@ == s.archive_id@,
        s.meta.source_path@ == s.archive.source_path@,
        s.meta.target_path@ == s.archive.target_path@,
{
}

} // verus!
