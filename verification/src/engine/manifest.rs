//! The file manifest of a directory tree: what it lists, how two manifests
//! are compared, which files differ, and its self hash.
use vstd::prelude::*;
use vstd::string::*;
use crate::order::{Keyed, key_sorted, sort_by_key};
use crate::text::{
    chars_of, decimal, decimal_u64, decimal_usize, eq_ignore_ascii_case,
    eq_ignore_ascii_case_spec, hex_lower, hex_lower_exec, owned,
};
use crate::trusted::{
    debug_quoted, debug_str, digest_end, digest_feed, digest_input, digest_start, sha256, sha256_of, StreamDigest,
};

verus! {

/// One regular file of the tree: its path relative to the root (with `/`
/// separators), its size and the lowercase hex SHA-256 of its contents.
#[derive(Debug)]
pub struct ManifestFileEntry {
    pub relative_path: String,
    pub size: u64,
    pub sha256: String,
}

/// One directory junction of the tree, which is recorded, not followed.
#[derive(Debug)]
pub struct ManifestJunctionEntry {
    pub relative_path: String,
    pub target: String,
}

/// One empty directory of the tree.
#[derive(Debug)]
pub struct ManifestDirEntry {
    pub relative_path: String,
}

/// The complete listing of a directory tree, made before a migration and
/// compared against the copy.
#[derive(Debug)]
pub struct Manifest {
    pub source_root: String,
    pub files: Vec<ManifestFileEntry>,
    pub junctions: Vec<ManifestJunctionEntry>,
    pub empty_dirs: Vec<ManifestDirEntry>,
    pub total_files: usize,
    pub total_size: u64,
    pub self_hash: String,
    pub created_at: u64,
}

impl Keyed for ManifestFileEntry {
    open spec fn key(&self) -> Seq<char> {
        self.relative_path@
    }

    fn key_chars(&self) -> (r: Vec<char>) {
        chars_of(self.relative_path.as_str())
    }

    fn duplicate(&self) -> (r: Self) {
        ManifestFileEntry {
            relative_path: self.relative_path.clone(),
            size: self.size,
            sha256: self.sha256.clone(),
        }
    }
}

impl Keyed for ManifestJunctionEntry {
    open spec fn key(&self) -> Seq<char> {
        self.relative_path@
    }

    fn key_chars(&self) -> (r: Vec<char>) {
        chars_of(self.relative_path.as_str())
    }

    fn duplicate(&self) -> (r: Self) {
        ManifestJunctionEntry {
            relative_path: self.relative_path.clone(),
            target: self.target.clone(),
        }
    }
}

impl Keyed for ManifestDirEntry {
    open spec fn key(&self) -> Seq<char> {
        self.relative_path@
    }

    fn key_chars(&self) -> (r: Vec<char>) {
        chars_of(self.relative_path.as_str())
    }

    fn duplicate(&self) -> (r: Self) {
        ManifestDirEntry { relative_path: self.relative_path.clone() }
    }
}

// ------------------------------------------------------------ comparison

/// Two file entries agree: same path, size and digest.
pub open spec fn file_agrees(a: ManifestFileEntry, b: ManifestFileEntry) -> bool {
    a.relative_path@ == b.relative_path@ && a.size == b.size && a.sha256@ == b.sha256@
}

/// Two junction entries agree: same path, and targets equal up to ASCII case.
pub open spec fn junction_agrees(a: ManifestJunctionEntry, b: ManifestJunctionEntry) -> bool {
    a.relative_path@ == b.relative_path@ && eq_ignore_ascii_case_spec(a.target@, b.target@)
}

/// The first index `>= i` below `n` at which the sorted file lists disagree,
/// or `n`.
pub open spec fn first_file_diff(a: Seq<ManifestFileEntry>, b: Seq<ManifestFileEntry>, i: int) -> int
    decreases a.len() - i,
{
    if i >= a.len() || i < 0 {
        a.len() as int
    } else if !file_agrees(a[i], b[i]) {
        i
    } else {
        first_file_diff(a, b, i + 1)
    }
}

/// The same for junction lists.
pub open spec fn first_junction_diff(
    a: Seq<ManifestJunctionEntry>,
    b: Seq<ManifestJunctionEntry>,
    i: int,
) -> int
    decreases a.len() - i,
{
    if i >= a.len() || i < 0 {
        a.len() as int
    } else if !junction_agrees(a[i], b[i]) {
        i
    } else {
        first_junction_diff(a, b, i + 1)
    }
}

/// The same for empty directory lists.
pub open spec fn first_dir_diff(a: Seq<ManifestDirEntry>, b: Seq<ManifestDirEntry>, i: int) -> int
    decreases a.len() - i,
{
    if i >= a.len() || i < 0 {
        a.len() as int
    } else if a[i].relative_path@ != b[i].relative_path@ {
        i
    } else {
        first_dir_diff(a, b, i + 1)
    }
}

/// "源 {a} 个，目标 {b} 个".
pub open spec fn count_pair(a: nat, b: nat) -> Seq<char> {
    "：源 "@ + decimal(a) + " 个，目标 "@ + decimal(b) + " 个"@
}

/// The message for a pair of file entries that disagree, at sorted index `i`.
pub open spec fn file_diff_message(i: int, s: ManifestFileEntry, t: ManifestFileEntry) -> Seq<char> {
    if s.relative_path@ != t.relative_path@ {
        "第 "@ + decimal((i + 1) as nat) + " 个文件路径不匹配：源 "@ + debug_quoted(
            s.relative_path@,
        ) + "，目标 "@ + debug_quoted(t.relative_path@)
    } else if s.size != t.size {
        "文件大小不一致 "@ + debug_quoted(s.relative_path@) + "：源 "@ + decimal(s.size as nat)
            + " 字节，目标 "@ + decimal(t.size as nat) + " 字节"@
    } else {
        "文件 SHA256 不一致 "@ + debug_quoted(s.relative_path@) + "：源 "@ + s.sha256@
            + "，目标 "@ + t.sha256@
    }
}

/// The message for a pair of junction entries that disagree.
pub open spec fn junction_diff_message(
    i: int,
    s: ManifestJunctionEntry,
    t: ManifestJunctionEntry,
) -> Seq<char> {
    if s.relative_path@ != t.relative_path@ {
        "第 "@ + decimal((i + 1) as nat) + " 个 Junction 路径不匹配：源 "@ + debug_quoted(
            s.relative_path@,
        ) + "，目标 "@ + debug_quoted(t.relative_path@)
    } else {
        "Junction 目标不一致 "@ + debug_quoted(s.relative_path@) + "：源 "@ + debug_quoted(
            s.target@,
        ) + "，目标 "@ + debug_quoted(t.target@)
    }
}

/// The message for a pair of empty directory entries that disagree.
pub open spec fn dir_diff_message(s: ManifestDirEntry, t: ManifestDirEntry) -> Seq<char> {
    "空目录不匹配：源 "@ + debug_quoted(s.relative_path@) + "，目标 "@ + debug_quoted(
        t.relative_path@,
    )
}

/// What comparing manifest `s` against manifest `t` finds: `None` when every
/// file, junction and empty directory agrees (lists compared in path order),
/// else the message of the first disagreement.
pub open spec fn manifest_mismatch(s: Manifest, t: Manifest) -> Option<Seq<char>> {
    let sf = key_sorted(s.files@);
    let tf = key_sorted(t.files@);
    let sj = key_sorted(s.junctions@);
    let tj = key_sorted(t.junctions@);
    let sd = key_sorted(s.empty_dirs@);
    let td = key_sorted(t.empty_dirs@);
    let fi = first_file_diff(sf, tf, 0);
    let ji = first_junction_diff(sj, tj, 0);
    let di = first_dir_diff(sd, td, 0);
    if s.files@.len() != t.files@.len() {
        Some("文件数量不一致"@ + count_pair(s.files@.len(), t.files@.len()))
    } else if fi < sf.len() {
        Some(file_diff_message(fi, sf[fi], tf[fi]))
    } else if s.junctions@.len() != t.junctions@.len() {
        Some("Junction 数量不一致"@ + count_pair(s.junctions@.len(), t.junctions@.len()))
    } else if ji < sj.len() {
        Some(junction_diff_message(ji, sj[ji], tj[ji]))
    } else if s.empty_dirs@.len() != t.empty_dirs@.len() {
        Some("空目录数量不一致"@ + count_pair(s.empty_dirs@.len(), t.empty_dirs@.len()))
    } else if di < sd.len() {
        Some(dir_diff_message(sd[di], td[di]))
    } else {
        None
    }
}

proof fn lemma_sorted_len<T: Keyed>(s: Seq<T>)
    ensures
        key_sorted(s).len() == s.len(),
    decreases s.len(),
{
    if s.len() > 0 {
        lemma_sorted_len(s.drop_last());
        lemma_insert_len(s.last(), key_sorted(s.drop_last()));
    }
}

proof fn lemma_insert_len<T: Keyed>(e: T, t: Seq<T>)
    ensures
        crate::order::insert_sorted(e, t).len() == t.len() + 1,
    decreases t.len(),
{
    if t.len() > 0 {
        lemma_insert_len(e, t.drop_last());
    }
}

/// The "源 a 个，目标 b 个" tail of a count message.
fn count_pair_exec(a: usize, b: usize) -> (r: String)
    ensures
        r@ == count_pair(a as nat, b as nat),
{
    let mut r = owned("：源 ");
    r.append(decimal_usize(a).as_str());
    r.append(" 个，目标 ");
    r.append(decimal_usize(b).as_str());
    r.append(" 个");
    r
}

fn file_diff_message_exec(i: usize, s: &ManifestFileEntry, t: &ManifestFileEntry) -> (r: String)
    requires
        i < usize::MAX,
    ensures
        r@ == file_diff_message(i as int, *s, *t),
{
    if s.relative_path != t.relative_path {
        let mut r = owned("第 ");
        r.append(decimal_usize(i + 1).as_str());
        r.append(" 个文件路径不匹配：源 ");
        r.append(debug_str(s.relative_path.as_str()).as_str());
        r.append("，目标 ");
        r.append(debug_str(t.relative_path.as_str()).as_str());
        r
    } else if s.size != t.size {
        let mut r = owned("文件大小不一致 ");
        r.append(debug_str(s.relative_path.as_str()).as_str());
        r.append("：源 ");
        r.append(decimal_u64(s.size).as_str());
        r.append(" 字节，目标 ");
        r.append(decimal_u64(t.size).as_str());
        r.append(" 字节");
        r
    } else {
        let mut r = owned("文件 SHA256 不一致 ");
        r.append(debug_str(s.relative_path.as_str()).as_str());
        r.append("：源 ");
        r.append(s.sha256.as_str());
        r.append("，目标 ");
        r.append(t.sha256.as_str());
        r
    }
}

fn junction_diff_message_exec(
    i: usize,
    s: &ManifestJunctionEntry,
    t: &ManifestJunctionEntry,
) -> (r: String)
    requires
        i < usize::MAX,
    ensures
        r@ == junction_diff_message(i as int, *s, *t),
{
    if s.relative_path != t.relative_path {
        let mut r = owned("第 ");
        r.append(decimal_usize(i + 1).as_str());
        r.append(" 个 Junction 路径不匹配：源 ");
        r.append(debug_str(s.relative_path.as_str()).as_str());
        r.append("，目标 ");
        r.append(debug_str(t.relative_path.as_str()).as_str());
        r
    } else {
        let mut r = owned("Junction 目标不一致 ");
        r.append(debug_str(s.relative_path.as_str()).as_str());
        r.append("：源 ");
        r.append(debug_str(s.target.as_str()).as_str());
        r.append("，目标 ");
        r.append(debug_str(t.target.as_str()).as_str());
        r
    }
}

fn dir_diff_message_exec(s: &ManifestDirEntry, t: &ManifestDirEntry) -> (r: String)
    ensures
        r@ == dir_diff_message(*s, *t),
{
    let mut r = owned("空目录不匹配：源 ");
    r.append(debug_str(s.relative_path.as_str()).as_str());
    r.append("，目标 ");
    r.append(debug_str(t.relative_path.as_str()).as_str());
    r
}

/// First disagreement of two sorted file lists of equal length.
fn find_file_diff(a: &Vec<ManifestFileEntry>, b: &Vec<ManifestFileEntry>) -> (r: usize)
    requires
        a@.len() == b@.len(),
    ensures
        r == first_file_diff(a@, b@, 0),
{
    let mut i: usize = 0;
    while i < a.len()
        invariant
            a@.len() == b@.len(),
            i <= a@.len(),
            first_file_diff(a@, b@, 0) == first_file_diff(a@, b@, i as int),
        decreases a@.len() - i,
    {
        if !(a[i].relative_path == b[i].relative_path && a[i].size == b[i].size && a[i].sha256
            == b[i].sha256) {
            return i;
        }
        i = i + 1;
    }
    i
}

/// First disagreement of two sorted junction lists of equal length.
fn find_junction_diff(a: &Vec<ManifestJunctionEntry>, b: &Vec<ManifestJunctionEntry>) -> (r: usize)
    requires
        a@.len() == b@.len(),
    ensures
        r == first_junction_diff(a@, b@, 0),
{
    let mut i: usize = 0;
    while i < a.len()
        invariant
            a@.len() == b@.len(),
            i <= a@.len(),
            first_junction_diff(a@, b@, 0) == first_junction_diff(a@, b@, i as int),
        decreases a@.len() - i,
    {
        if !(a[i].relative_path == b[i].relative_path && eq_ignore_ascii_case(
            a[i].target.as_str(),
            b[i].target.as_str(),
        )) {
            return i;
        }
        i = i + 1;
    }
    i
}

/// First disagreement of two sorted directory lists of equal length.
fn find_dir_diff(a: &Vec<ManifestDirEntry>, b: &Vec<ManifestDirEntry>) -> (r: usize)
    requires
        a@.len() == b@.len(),
    ensures
        r == first_dir_diff(a@, b@, 0),
{
    let mut i: usize = 0;
    while i < a.len()
        invariant
            a@.len() == b@.len(),
            i <= a@.len(),
            first_dir_diff(a@, b@, 0) == first_dir_diff(a@, b@, i as int),
        decreases a@.len() - i,
    {
        if a[i].relative_path != b[i].relative_path {
            return i;
        }
        i = i + 1;
    }
    i
}

impl Manifest {
    /// Compares this (source) manifest with the manifest of the copy: file
    /// count, then files in path order (path, size, SHA-256), then junction
    /// count and junctions in path order (path, target up to ASCII case),
    /// then empty directory count and empty directories in path order.
    /// `Ok` exactly when everything agrees; otherwise the message of the
    /// first disagreement.
    pub fn verify_against(&self, target_manifest: &Manifest) -> (r: Result<(), String>)
        ensures
            match r {
                Ok(()) => manifest_mismatch(*self, *target_manifest) is None,
                Err(m) => manifest_mismatch(*self, *target_manifest) == Some(m@),
            },
    {
        let ghost s = *self;
        let ghost t = *target_manifest;
        if self.files.len() != target_manifest.files.len() {
            let mut m = owned("文件数量不一致");
            m.append(count_pair_exec(self.files.len(), target_manifest.files.len()).as_str());
            return Err(m);
        }
        let src_files = sort_by_key(&self.files);
        let tgt_files = sort_by_key(&target_manifest.files);
        proof {
            lemma_sorted_len(s.files@);
            lemma_sorted_len(t.files@);
        }
        let fi = find_file_diff(&src_files, &tgt_files);
        if fi < src_files.len() {
            return Err(file_diff_message_exec(fi, &src_files[fi], &tgt_files[fi]));
        }
        if self.junctions.len() != target_manifest.junctions.len() {
            let mut m = owned("Junction 数量不一致");
            m.append(count_pair_exec(self.junctions.len(), target_manifest.junctions.len()).as_str());
            return Err(m);
        }
        let src_jcns = sort_by_key(&self.junctions);
        let tgt_jcns = sort_by_key(&target_manifest.junctions);
        proof {
            lemma_sorted_len(s.junctions@);
            lemma_sorted_len(t.junctions@);
        }
        let ji = find_junction_diff(&src_jcns, &tgt_jcns);
        if ji < src_jcns.len() {
            return Err(junction_diff_message_exec(ji, &src_jcns[ji], &tgt_jcns[ji]));
        }
        if self.empty_dirs.len() != target_manifest.empty_dirs.len() {
            let mut m = owned("空目录数量不一致");
            m.append(count_pair_exec(self.empty_dirs.len(), target_manifest.empty_dirs.len()).as_str());
            return Err(m);
        }
        let src_dirs = sort_by_key(&self.empty_dirs);
        let tgt_dirs = sort_by_key(&target_manifest.empty_dirs);
        proof {
            lemma_sorted_len(s.empty_dirs@);
            lemma_sorted_len(t.empty_dirs@);
        }
        let di = find_dir_diff(&src_dirs, &tgt_dirs);
        if di < src_dirs.len() {
            return Err(dir_diff_message_exec(&src_dirs[di], &tgt_dirs[di]));
        }
        Ok(())
    }
}


proof fn lemma_first_file_diff_all(a: Seq<ManifestFileEntry>, b: Seq<ManifestFileEntry>, i: int)
    requires
        0 <= i <= a.len(),
        first_file_diff(a, b, i) >= a.len(),
    ensures
        forall|k: int| i <= k < a.len() ==> #[trigger] file_agrees(a[k], b[k]),
    decreases a.len() - i,
{
    if i < a.len() {
        lemma_first_file_diff_all(a, b, i + 1);
    }
}

proof fn lemma_first_junction_diff_all(a: Seq<ManifestJunctionEntry>, b: Seq<ManifestJunctionEntry>, i: int)
    requires
        0 <= i <= a.len(),
        first_junction_diff(a, b, i) >= a.len(),
    ensures
        forall|k: int| i <= k < a.len() ==> #[trigger] junction_agrees(a[k], b[k]),
    decreases a.len() - i,
{
    if i < a.len() {
        lemma_first_junction_diff_all(a, b, i + 1);
    }
}

proof fn lemma_first_dir_diff_all(a: Seq<ManifestDirEntry>, b: Seq<ManifestDirEntry>, i: int)
    requires
        0 <= i <= a.len(),
        first_dir_diff(a, b, i) >= a.len(),
    ensures
        forall|k: int| i <= k < a.len() ==> (#[trigger] a[k]).relative_path@ == b[k].relative_path@,
    decreases a.len() - i,
{
    if i < a.len() {
        lemma_first_dir_diff_all(a, b, i + 1);
    }
}

/// Law (a verified copy matches file by file): when the comparison of a
/// source manifest with the manifest of its copy finds nothing (so
/// `verify_against` returns `Ok`), both list the same number of files,
/// junctions and empty directories, and, with each list sorted by path,
/// the entries at every position have the same path; files also the same
/// size and the same SHA-256, junctions the same target up to ASCII case.
pub proof fn lemma_verified_copy_matches(s: Manifest, t: Manifest)
    requires
        manifest_mismatch(s, t) is None,
    ensures
        s.files@.len() == t.files@.len(),
        s.junctions@.len() == t.junctions@.len(),
        s.empty_dirs@.len() == t.empty_dirs@.len(),
        key_sorted(s.files@).len() == s.files@.len(),
        key_sorted(t.files@).len() == t.files@.len(),
        forall|i: int| 0 <= i < s.files@.len() ==> {
            let a = #[trigger] key_sorted(s.files@)[i];
            let b = key_sorted(t.files@)[i];
            &&& a.relative_path@ == b.relative_path@
            &&& a.size == b.size
            &&& a.sha256@ == b.sha256@
        },
        forall|i: int| 0 <= i < s.junctions@.len() ==> {
            let a = #[trigger] key_sorted(s.junctions@)[i];
            let b = key_sorted(t.junctions@)[i];
            &&& a.relative_path@ == b.relative_path@
            &&& eq_ignore_ascii_case_spec(a.target@, b.target@)
        },
        forall|i: int| 0 <= i < s.empty_dirs@.len() ==> (#[trigger] key_sorted(s.empty_dirs@)[i]).relative_path@
            == key_sorted(t.empty_dirs@)[i].relative_path@,
{
    lemma_sorted_len(s.files@);
    lemma_sorted_len(t.files@);
    lemma_sorted_len(s.junctions@);
    lemma_sorted_len(t.junctions@);
    lemma_sorted_len(s.empty_dirs@);
    lemma_sorted_len(t.empty_dirs@);
    lemma_first_file_diff_all(key_sorted(s.files@), key_sorted(t.files@), 0);
    lemma_first_junction_diff_all(key_sorted(s.junctions@), key_sorted(t.junctions@), 0);
    lemma_first_dir_diff_all(key_sorted(s.empty_dirs@), key_sorted(t.empty_dirs@), 0);
    assert forall|i: int| 0 <= i < s.files@.len() implies file_agrees(
        #[trigger] key_sorted(s.files@)[i],
        key_sorted(t.files@)[i],
    ) by {}
    assert forall|i: int| 0 <= i < s.junctions@.len() implies junction_agrees(
        #[trigger] key_sorted(s.junctions@)[i],
        key_sorted(t.junctions@)[i],
    ) by {}
}

// ------------------------------------------------------------ differences

/// The last entry of `t` whose path is `p` (a map built by inserting the
/// entries in order keeps the last one).
pub open spec fn last_with_path(t: Seq<ManifestFileEntry>, p: Seq<char>) -> Option<ManifestFileEntry>
    decreases t.len(),
{
    if t.len() == 0 {
        None
    } else if t.last().relative_path@ == p {
        Some(t.last())
    } else {
        last_with_path(t.drop_last(), p)
    }
}

/// A source file differs from the target listing when the target lacks its
/// path or holds it with another size or digest.
pub open spec fn file_differs(e: ManifestFileEntry, t: Seq<ManifestFileEntry>) -> bool {
    match last_with_path(t, e.relative_path@) {
        Some(x) => x.size != e.size || x.sha256@ != e.sha256@,
        None => true,
    }
}

/// Paths of the source files that differ, in source order.
pub open spec fn diff_paths(s: Seq<ManifestFileEntry>, t: Seq<ManifestFileEntry>) -> Seq<Seq<char>>
    decreases s.len(),
{
    if s.len() == 0 {
        seq![]
    } else if file_differs(s.last(), t) {
        diff_paths(s.drop_last(), t).push(s.last().relative_path@)
    } else {
        diff_paths(s.drop_last(), t)
    }
}

/// Some entry of `t` has the path, size and digest of `e`.
pub open spec fn has_same_file(e: ManifestFileEntry, t: Seq<ManifestFileEntry>) -> bool {
    exists|k: int|
        0 <= k < t.len() && (#[trigger] t[k]).relative_path@ == e.relative_path@ && t[k].size == e.size
            && t[k].sha256@ == e.sha256@
}

proof fn lemma_last_with_path_in(t: Seq<ManifestFileEntry>, p: Seq<char>)
    ensures
        last_with_path(t, p) matches Some(x) ==> exists|k: int|
            0 <= k < t.len() && #[trigger] t[k] == x && x.relative_path@ == p,
    decreases t.len(),
{
    if t.len() > 0 && t.last().relative_path@ != p {
        lemma_last_with_path_in(t.drop_last(), p);
        if last_with_path(t, p) is Some {
            let x = last_with_path(t, p)->0;
            let k = choose|k: int| 0 <= k < t.drop_last().len() && #[trigger] t.drop_last()[k] == x
                && x.relative_path@ == p;
            assert(t[k] == x);
        }
    } else if t.len() > 0 {
        assert(t[t.len() - 1] == t.last());
    }
}

proof fn lemma_diff_paths_meaning_rec(s: Seq<ManifestFileEntry>, t: Seq<ManifestFileEntry>)
    ensures
        forall|i: int| 0 <= i < s.len() && file_differs(#[trigger] s[i], t) ==> diff_paths(s, t).contains(
            s[i].relative_path@,
        ),
        forall|j: int| #![trigger diff_paths(s, t)[j]] 0 <= j < diff_paths(s, t).len() ==> exists|i: int|
            0 <= i < s.len() && (#[trigger] s[i]).relative_path@ == diff_paths(s, t)[j],
        diff_paths(s, t).len() == 0 ==> forall|i: int| 0 <= i < s.len() ==> !file_differs(#[trigger] s[i], t),
    decreases s.len(),
{
    if s.len() > 0 {
        let s0 = s.drop_last();
        lemma_diff_paths_meaning_rec(s0, t);
        let d0 = diff_paths(s0, t);
        assert forall|i: int| 0 <= i < s.len() && file_differs(#[trigger] s[i], t) implies diff_paths(s, t).contains(
            s[i].relative_path@,
        ) by {
            if i < s.len() - 1 {
                assert(s0[i] == s[i]);
                let j = choose|j: int| 0 <= j < d0.len() && d0[j] == s[i].relative_path@;
                if file_differs(s.last(), t) {
                    assert(diff_paths(s, t)[j] == d0[j]);
                } else {
                    assert(diff_paths(s, t)[j] == d0[j]);
                }
            } else {
                assert(s[i] == s.last());
                assert(diff_paths(s, t)[d0.len() as int] == s.last().relative_path@);
            }
        }
        assert forall|j: int| #![trigger diff_paths(s, t)[j]] 0 <= j < diff_paths(s, t).len() implies exists|i: int|
            0 <= i < s.len() && (#[trigger] s[i]).relative_path@ == diff_paths(s, t)[j] by {
            if j < d0.len() {
                assert(diff_paths(s, t)[j] == d0[j]);
                let i = choose|i: int| 0 <= i < s0.len() && (#[trigger] s0[i]).relative_path@ == d0[j];
                assert(s[i] == s0[i]);
            } else {
                assert(s[s.len() - 1] == s.last());
            }
        }
        if diff_paths(s, t).len() == 0 {
            assert forall|i: int| 0 <= i < s.len() implies !file_differs(#[trigger] s[i], t) by {
                if i < s.len() - 1 {
                    assert(s0[i] == s[i]);
                } else {
                    assert(s[i] == s.last());
                }
            }
        }
    }
}

/// Law (what must be copied again): the paths `find_manifest_diff_files`
/// lists are paths of files of the source listing `s`; every source file
/// for which the target listing `t` holds no entry with the same path, size
/// and SHA-256 is listed; and when nothing is listed, every source file has
/// such an entry in the target listing.
pub proof fn lemma_diff_paths_meaning(s: Seq<ManifestFileEntry>, t: Seq<ManifestFileEntry>)
    ensures
        forall|j: int| #![trigger diff_paths(s, t)[j]] 0 <= j < diff_paths(s, t).len() ==> exists|i: int|
            0 <= i < s.len() && (#[trigger] s[i]).relative_path@ == diff_paths(s, t)[j],
        forall|i: int| 0 <= i < s.len() && !has_same_file(#[trigger] s[i], t) ==> diff_paths(s, t).contains(
            s[i].relative_path@,
        ),
        diff_paths(s, t).len() == 0 ==> forall|i: int| 0 <= i < s.len() ==> has_same_file(#[trigger] s[i], t),
{
    lemma_diff_paths_meaning_rec(s, t);
    assert forall|i: int| 0 <= i < s.len() && !file_differs(#[trigger] s[i], t) implies has_same_file(s[i], t) by {
        lemma_last_with_path_in(t, s[i].relative_path@);
        let x = last_with_path(t, s[i].relative_path@)->0;
        let k = choose|k: int| 0 <= k < t.len() && #[trigger] t[k] == x && x.relative_path@ == s[i].relative_path@;
        assert(t[k].relative_path@ == s[i].relative_path@);
    }
}

/// The entry the target listing holds for `path` (its last one), if any.
fn lookup_last(t: &Vec<ManifestFileEntry>, path: &String) -> (r: Option<usize>)
    ensures
        match r {
            Some(i) => i < t@.len() && last_with_path(t@, path@) == Some(t@[i as int]),
            None => last_with_path(t@, path@) is None,
        },
{
    let mut j: usize = t.len();
    assert(t@.take(t@.len() as int) =~= t@);
    while j > 0
        invariant
            j <= t@.len(),
            last_with_path(t@, path@) == last_with_path(t@.take(j as int), path@),
        decreases j,
    {
        let ghost tj = t@.take(j as int);
        assert(tj.drop_last() =~= t@.take(j - 1));
        assert(tj.last() == t@[j - 1]);
        if t[j - 1].relative_path == *path {
            return Some(j - 1);
        }
        j = j - 1;
    }
    None
}

/// Finds the source files whose copy in the target is missing or differs
/// in size or SHA-256, in source order.
pub fn find_manifest_diff_files(source: &Manifest, target: &Manifest) -> (r: Vec<String>)
    ensures
        r@.len() == diff_paths(source.files@, target.files@).len(),
        forall|i: int| 0 <= i < r@.len() ==> (#[trigger] r@[i])@ == diff_paths(
            source.files@,
            target.files@,
        )[i],
{
    let mut diff: Vec<String> = Vec::new();
    let mut i: usize = 0;
    assert(target.files@.take(target.files@.len() as int) =~= target.files@);
    while i < source.files.len()
        invariant
            i <= source.files@.len(),
            diff@.len() == diff_paths(source.files@.take(i as int), target.files@).len(),
            forall|k: int| 0 <= k < diff@.len() ==> (#[trigger] diff@[k])@ == diff_paths(
                source.files@.take(i as int),
                target.files@,
            )[k],
        decreases source.files@.len() - i,
    {
        let e = &source.files[i];
        let ghost s1 = source.files@.take(i + 1);
        assert(s1.drop_last() =~= source.files@.take(i as int));
        assert(s1.last() == *e);
        let differs = match lookup_last(&target.files, &e.relative_path) {
            Some(j) => target.files[j].size != e.size || target.files[j].sha256 != e.sha256,
            None => true,
        };
        if differs {
            diff.push(e.relative_path.clone());
        }
        i = i + 1;
    }
    assert(source.files@.take(source.files@.len() as int) =~= source.files@);
    diff
}

/// A path relative to the manifest root with every `\\` turned into `/`.
pub open spec fn slash_path(rel: Seq<char>) -> Seq<char> {
    rel.map_values(|c: char| if c == '\\' { '/' } else { c })
}

/// The form a relative path is recorded in: `/` separators.
pub fn manifest_relative_path(rel: &str) -> (r: String)
    ensures
        r@ == slash_path(rel@),
{
    let v = chars_of(rel);
    let mut out = String::new();
    let mut i: usize = 0;
    while i < v.len()
        invariant
            v@ == rel@,
            i <= v@.len(),
            out@ == slash_path(v@.take(i as int)),
        decreases v@.len() - i,
    {
        let c = v[i];
        out.push(if c == '\\' { '/' } else { c });
        assert(slash_path(v@.take(i + 1)) =~= slash_path(v@.take(i as int)).push(if c == '\\' { '/' } else { c }));
        i = i + 1;
    }
    assert(v@.take(v@.len() as int) =~= v@);
    out
}

// ------------------------------------------------------------ assembly

/// Sum of the sizes of the listed files.
pub open spec fn size_sum(f: Seq<ManifestFileEntry>) -> nat
    decreases f.len(),
{
    if f.len() == 0 {
        0
    } else {
        size_sum(f.drop_last()) + f.last().size as nat
    }
}

/// Lowercase hex SHA-256 of a serialized value (the `self_hash` scheme).
pub open spec fn content_hash_spec(bytes: Seq<u8>) -> Seq<char> {
    hex_lower(sha256_of(bytes))
}

/// Lowercase hex SHA-256 of bytes, as `format!("{:x}", Sha256::digest(..))`.
pub fn content_hash(bytes: &[u8]) -> (r: String)
    ensures
        r@ == content_hash_spec(bytes@),
{
    let d = sha256(bytes);
    hex_lower_exec(d.as_slice())
}

/// Starts the SHA-256 of a file read piece by piece.
pub fn digest_new() -> (d: StreamDigest)
    ensures
        digest_input(d) == Seq::<u8>::empty(),
{
    digest_start()
}

/// Feeds the next piece of the file.
pub fn digest_update(d: &mut StreamDigest, chunk: &[u8])
    ensures
        digest_input(*final(d)) == digest_input(*old(d)) + chunk@,
{
    digest_feed(d, chunk)
}

/// The hash of everything fed, as the manifest records it: lowercase hex
/// SHA-256, the same as `content_hash` of all the pieces at once.
pub fn digest_finish(d: StreamDigest) -> (r: String)
    ensures
        r@ == content_hash_spec(digest_input(d)),
{
    let bytes = digest_end(d);
    hex_lower_exec(bytes.as_slice())
}

impl Manifest {
    /// Builds the manifest of a tree from what a walk of it collected:
    /// the totals are the number of files and the sum of their sizes;
    /// `self_hash` is left empty, to be filled by `seal` from the
    /// serialization of exactly this value.
    pub fn generate(
        source_root: String,
        files: Vec<ManifestFileEntry>,
        junctions: Vec<ManifestJunctionEntry>,
        empty_dirs: Vec<ManifestDirEntry>,
        created_at: u64,
    ) -> (r: Manifest)
        requires
            size_sum(files@) <= u64::MAX,
        ensures
            r.source_root == source_root,
            r.files == files,
            r.junctions == junctions,
            r.empty_dirs == empty_dirs,
            r.total_files == files@.len(),
            r.total_size == size_sum(files@),
            r.self_hash@ == Seq::<char>::empty(),
            r.created_at == created_at,
    {
        let mut total: u64 = 0;
        let mut i: usize = 0;
        assert(files@.take(0) =~= Seq::<ManifestFileEntry>::empty());
        while i < files.len()
            invariant
                i <= files@.len(),
                total == size_sum(files@.take(i as int)),
                size_sum(files@) <= u64::MAX,
            decreases files@.len() - i,
        {
            proof {
                let t = files@.take(i + 1);
                assert(t.drop_last() =~= files@.take(i as int));
                lemma_size_sum_prefix(files@, i + 1);
            }
            total = total + files[i].size;
            i = i + 1;
        }
        assert(files@.take(files@.len() as int) =~= files@);
        let total_files = files.len();
        Manifest {
            source_root,
            files,
            junctions,
            empty_dirs,
            total_files,
            total_size: total,
            self_hash: String::new(),
            created_at,
        }
    }

    /// Stores the self hash computed from `unhashed_json`, the serialization
    /// of this manifest with an empty `self_hash`.
    pub fn seal(&mut self, unhashed_json: &[u8])
        ensures
            final(self).self_hash@ == content_hash_spec(unhashed_json@),
            final(self).source_root == old(self).source_root,
            final(self).files == old(self).files,
            final(self).junctions == old(self).junctions,
            final(self).empty_dirs == old(self).empty_dirs,
            final(self).total_files == old(self).total_files,
            final(self).total_size == old(self).total_size,
            final(self).created_at == old(self).created_at,
    {
        self.self_hash = content_hash(unhashed_json);
    }

    /// The check made when a manifest is read back: its stored `self_hash`
    /// must equal the hash of `unhashed_json` (its serialization with the
    /// hash cleared); otherwise the error names both values.
    pub fn check_self_hash(&self, unhashed_json: &[u8]) -> (r: Result<(), String>)
        ensures
            r is Ok <==> self.self_hash@ == content_hash_spec(unhashed_json@),
            r matches Err(m) ==> m@ == "Manifest 自校验失败：哈希不匹配（文件可能损坏）。期望 "@
                + content_hash_spec(unhashed_json@) + "，实际 "@ + self.self_hash@,
    {
        let expected = content_hash(unhashed_json);
        if self.self_hash != expected {
            let mut m = owned("Manifest 自校验失败：哈希不匹配（文件可能损坏）。期望 ");
            m.append(expected.as_str());
            m.append("，实际 ");
            m.append(self.self_hash.as_str());
            return Err(m);
        }
        Ok(())
    }
}

proof fn lemma_size_sum_prefix(f: Seq<ManifestFileEntry>, n: int)
    requires
        0 <= n <= f.len(),
    ensures
        size_sum(f.take(n)) <= size_sum(f),
    decreases f.len() - n,
{
    if n < f.len() {
        lemma_size_sum_prefix(f, n + 1);
        let t = f.take(n + 1);
        assert(t.drop_last() =~= f.take(n));
    } else {
        assert(f.take(n) =~= f);
    }
}

/// Listing of a tree as (relative path, size) pairs: the number of files and
/// the sum of their sizes (the pre-migration statistics).
pub open spec fn listing_size(l: Seq<(String, u64)>) -> nat
    decreases l.len(),
{
    if l.len() == 0 {
        0
    } else {
        listing_size(l.drop_last()) + l.last().1 as nat
    }
}

/// The pre-migration statistics of a listing: how many files and how many
/// bytes in all.
pub fn pre_scan_migration(files: &Vec<(String, u64)>) -> (r: (usize, u64))
    requires
        listing_size(files@) <= u64::MAX,
    ensures
        r.0 == files@.len(),
        r.1 == listing_size(files@),
{
    let mut total: u64 = 0;
    let mut i: usize = 0;
    assert(files@.take(0) =~= Seq::<(String, u64)>::empty());
    while i < files.len()
        invariant
            i <= files@.len(),
            total == listing_size(files@.take(i as int)),
            listing_size(files@) <= u64::MAX,
        decreases files@.len() - i,
    {
        proof {
            let t = files@.take(i + 1);
            assert(t.drop_last() =~= files@.take(i as int));
            lemma_listing_prefix(files@, i + 1);
        }
        total = total + files[i].1;
        i = i + 1;
    }
    assert(files@.take(files@.len() as int) =~= files@);
    (files.len(), total)
}

proof fn lemma_listing_prefix(f: Seq<(String, u64)>, n: int)
    requires
        0 <= n <= f.len(),
    ensures
        listing_size(f.take(n)) <= listing_size(f),
    decreases f.len() - n,
{
    if n < f.len() {
        lemma_listing_prefix(f, n + 1);
        let t = f.take(n + 1);
        assert(t.drop_last() =~= f.take(n));
    } else {
        assert(f.take(n) =~= f);
    }
}


/// Two manifests with the same contents.
pub open spec fn same_manifest(a: Manifest, b: Manifest) -> bool {
    &&& a.source_root@ == b.source_root@
    &&& a.files@ == b.files@
    &&& a.junctions@ == b.junctions@
    &&& a.empty_dirs@ == b.empty_dirs@
    &&& a.total_files == b.total_files
    &&& a.total_size == b.total_size
    &&& a.self_hash@ == b.self_hash@
    &&& a.created_at == b.created_at
}

fn duplicate_entries<T: Keyed>(v: &Vec<T>) -> (r: Vec<T>)
    ensures
        r@ == v@,
{
    let mut out: Vec<T> = Vec::new();
    let mut i: usize = 0;
    while i < v.len()
        invariant
            i <= v@.len(),
            out@ == v@.take(i as int),
        decreases v@.len() - i,
    {
        out.push(v[i].duplicate());
        assert(v@.take(i + 1) =~= v@.take(i as int).push(v@[i as int]));
        i = i + 1;
    }
    assert(v@.take(v@.len() as int) =~= v@);
    out
}

impl Manifest {
    /// A manifest with nothing listed.
    pub fn empty() -> (r: Manifest)
        ensures
            r.source_root@ == Seq::<char>::empty(),
            r.files@.len() == 0,
            r.junctions@.len() == 0,
            r.empty_dirs@.len() == 0,
            r.total_files == 0,
            r.total_size == 0,
            r.self_hash@ == Seq::<char>::empty(),
            r.created_at == 0,
    {
        Manifest {
            source_root: String::new(),
            files: Vec::new(),
            junctions: Vec::new(),
            empty_dirs: Vec::new(),
            total_files: 0,
            total_size: 0,
            self_hash: String::new(),
            created_at: 0,
        }
    }

    /// A copy with the same contents.
    pub fn duplicate(&self) -> (r: Manifest)
        ensures
            same_manifest(r, *self),
    {
        Manifest {
            source_root: self.source_root.clone(),
            files: duplicate_entries(&self.files),
            junctions: duplicate_entries(&self.junctions),
            empty_dirs: duplicate_entries(&self.empty_dirs),
            total_files: self.total_files,
            total_size: self.total_size,
            self_hash: self.self_hash.clone(),
            created_at: self.created_at,
        }
    }
}

} // verus!
