//! What the library reads out of Windows: the output of `reg query`,
//! `fsutil reparsepoint query` and `mklink`, file attributes and reparse
//! tags, and the system proxy setting. The commands and system calls
//! themselves are made by the caller.
use vstd::prelude::*;
use crate::search::{first_match, lemma_first_match_at};
use crate::text::{
    chars_of, concat2, concat4, contains_spec, contains_str, eq_ignore_ascii_case,
    eq_ignore_ascii_case_spec, find_chars, find_spec, last_word, last_word_spec, lines_of,
    lines_spec, owned, starts_with_spec, starts_with_str, string_of_range, trim_spec, trim_str,
};
use crate::trusted::{from_utf8_lossy, gbk_decode, gbk_decoded, utf8_lossy};

verus! {

// ---------------------------------------------------------------- reg query

/// The line mentions the value name.
pub open spec fn mentions(name: Seq<char>) -> spec_fn(Seq<char>) -> bool {
    |l: Seq<char>| contains_spec(l, name)
}

/// What `reg query` printed for a value: on the first line that mentions
/// the value name, the last whitespace-separated word.
pub open spec fn registry_value_spec(out: Seq<char>, name: Seq<char>) -> Option<Seq<char>> {
    match first_match(lines_spec(out), mentions(name)) {
        Some(i) => last_word_spec(lines_spec(out)[i]),
        None => None,
    }
}

/// Reads a registry value out of what `reg query <key> /v <name>` wrote
/// (decoded as UTF-8, invalid bytes replaced).
pub fn registry_value_from_output(stdout: &[u8], value_name: &str) -> (r: Option<String>)
    ensures
        match r {
            Some(v) => registry_value_spec(utf8_lossy(stdout@), value_name@) == Some(v@),
            None => registry_value_spec(utf8_lossy(stdout@), value_name@) is None,
        },
{
    let text = from_utf8_lossy(stdout);
    let lines = lines_of(text.as_str());
    let ghost ls = lines_spec(text@);
    let mut i: usize = 0;
    while i < lines.len()
        invariant
            i <= lines@.len(),
            lines@.len() == ls.len(),
            ls == lines_spec(text@),
            text@ == utf8_lossy(stdout@),
            forall|k: int| 0 <= k < lines@.len() ==> (#[trigger] lines@[k])@ == ls[k],
            forall|j: int| 0 <= j < i ==> !mentions(value_name@)(ls[j]),
        decreases lines@.len() - i,
    {
        if contains_str(lines[i].as_str(), value_name) {
            proof {
                lemma_first_match_at(ls, mentions(value_name@), i as int);
            }
            let w = last_word(lines[i].as_str());
            assert(registry_value_spec(utf8_lossy(stdout@), value_name@) == last_word_spec(ls[i as int]));
            return w;
        }
        i = i + 1;
    }
    None
}

// ---------------------------------------------------------------- proxy

/// `str::split` by one character: the pieces between separators, the
/// empty ones included.
pub open spec fn split_spec(s: Seq<char>, c: char) -> Seq<Seq<char>>
    decreases s.len(),
{
    if s.len() == 0 {
        seq![seq![]]
    } else if s.last() == c {
        split_spec(s.drop_last(), c).push(seq![])
    } else {
        let p = split_spec(s.drop_last(), c);
        p.update(p.len() - 1, p.last().push(s.last()))
    }
}

/// What follows `prefix` in a piece that starts with it.
pub open spec fn after_prefix(t: Seq<char>, prefix: Seq<char>) -> Option<Seq<char>> {
    if starts_with_spec(t, prefix) {
        Some(t.skip(prefix.len() as int))
    } else {
        None
    }
}

/// The first piece, trimmed, that starts with `prefix`: what follows it.
pub open spec fn first_after(pieces: Seq<Seq<char>>, prefix: Seq<char>) -> Option<Seq<char>>
    decreases pieces.len(),
{
    if pieces.len() == 0 {
        None
    } else {
        match after_prefix(trim_spec(pieces[0]), prefix) {
            Some(a) => Some(a),
            None => first_after(pieces.drop_first(), prefix),
        }
    }
}

/// The address a per-protocol proxy list (`http=...;https=...`) gives:
/// its https address wherever it stands in the list, else its http one;
/// empty when it names neither.
pub open spec fn list_address(pieces: Seq<Seq<char>>) -> Seq<char> {
    match first_after(pieces, "https="@) {
        Some(a) => a,
        None => match first_after(pieces, "http="@) {
            Some(a) => a,
            None => Seq::empty(),
        },
    }
}

/// The proxy URL of a `ProxyServer` value: a per-protocol list gives its
/// https address first, else its http one; a value that is not such a list
/// is the address as a whole; the address gets `http://` unless it has a
/// scheme. Nothing when the value or the address is empty.
pub open spec fn proxy_url_spec(server: Seq<char>) -> Option<Seq<char>> {
    let s = trim_spec(server);
    let addr = if contains_spec(s, "="@) {
        list_address(split_spec(s, ';'))
    } else {
        s
    };
    if s.len() == 0 || addr.len() == 0 {
        None
    } else if starts_with_spec(addr, "http://"@) || starts_with_spec(addr, "https://"@) {
        Some(addr)
    } else {
        Some("http://"@ + addr)
    }
}

/// The system proxy: set only when `ProxyEnable` reads `0x1` and
/// `ProxyServer` gives an address.
pub open spec fn system_proxy_spec(enable: Option<Seq<char>>, server: Option<Seq<char>>) -> Option<Seq<char>> {
    match enable {
        Some(e) => if contains_spec(e, "0x1"@) {
            match server {
                Some(s) => proxy_url_spec(s),
                None => None,
            }
        } else {
            None
        },
        None => None,
    }
}

fn split_exec(s: &Vec<char>, c: char) -> (r: Vec<Vec<char>>)
    ensures
        r@.len() == split_spec(s@, c).len(),
        forall|k: int| 0 <= k < r@.len() ==> (#[trigger] r@[k])@ == split_spec(s@, c)[k],
{
    let mut pieces: Vec<Vec<char>> = Vec::new();
    let mut cur: Vec<char> = Vec::new();
    let mut i: usize = 0;
    assert(s@.take(0) =~= Seq::<char>::empty());
    while i < s.len()
        invariant
            i <= s@.len(),
            pieces@.len() + 1 == split_spec(s@.take(i as int), c).len(),
            forall|k: int| 0 <= k < pieces@.len() ==> (#[trigger] pieces@[k])@ == split_spec(s@.take(i as int), c)[k],
            cur@ == split_spec(s@.take(i as int), c).last(),
        decreases s@.len() - i,
    {
        let ghost before = split_spec(s@.take(i as int), c);
        assert(s@.take(i + 1).drop_last() =~= s@.take(i as int));
        assert(s@.take(i + 1).last() == s@[i as int]);
        if s[i] == c {
            let done = cur;
            pieces.push(done);
            cur = Vec::new();
            assert(cur@ =~= Seq::<char>::empty());
        } else {
            cur.push(s[i]);
        }
        i = i + 1;
    }
    assert(s@.take(s@.len() as int) =~= s@);
    pieces.push(cur);
    pieces
}

fn after_prefix_exec(t: &str, prefix: &str) -> (r: Option<String>)
    ensures
        match r {
            Some(a) => after_prefix(t@, prefix@) == Some(a@),
            None => after_prefix(t@, prefix@) is None,
        },
{
    if starts_with_str(t, prefix) {
        let v = chars_of(t);
        let n = chars_of(prefix).len();
        let a = string_of_range(&v, n, v.len());
        assert(v@.subrange(n as int, v@.len() as int) =~= t@.skip(prefix@.len() as int));
        Some(a)
    } else {
        None
    }
}

proof fn lemma_first_after_skip(p: Seq<Seq<char>>, prefix: Seq<char>, i: int)
    requires
        0 <= i <= p.len(),
        forall|j: int| 0 <= j < i ==> after_prefix(trim_spec(#[trigger] p[j]), prefix) is None,
    ensures
        first_after(p, prefix) == first_after(p.skip(i), prefix),
    decreases i,
{
    if i > 0 {
        assert(p.drop_first().skip(i - 1) =~= p.skip(i));
        assert forall|j: int| 0 <= j < i - 1 implies after_prefix(trim_spec(#[trigger] p.drop_first()[j]), prefix) is None by {
            assert(p.drop_first()[j] == p[j + 1]);
        }
        lemma_first_after_skip(p.drop_first(), prefix, i - 1);
    } else {
        assert(p.skip(0) =~= p);
    }
}

/// The first piece, trimmed, that starts with `prefix`: what follows it.
fn first_after_exec(pieces: &Vec<Vec<char>>, Ghost(ps): Ghost<Seq<Seq<char>>>, prefix: &str) -> (r: Option<String>)
    requires
        pieces@.len() == ps.len(),
        forall|k: int| 0 <= k < pieces@.len() ==> (#[trigger] pieces@[k])@ == ps[k],
    ensures
        match r {
            Some(a) => first_after(ps, prefix@) == Some(a@),
            None => first_after(ps, prefix@) is None,
        },
{
    let mut i: usize = 0;
    while i < pieces.len()
        invariant
            i <= pieces@.len(),
            pieces@.len() == ps.len(),
            forall|k: int| 0 <= k < pieces@.len() ==> (#[trigger] pieces@[k])@ == ps[k],
            forall|j: int| 0 <= j < i ==> after_prefix(trim_spec(#[trigger] ps[j]), prefix@) is None,
        decreases pieces@.len() - i,
    {
        let piece = string_of_range(&pieces[i], 0, pieces[i].len());
        assert(pieces@[i as int]@.subrange(0, pieces@[i as int]@.len() as int) =~= ps[i as int]);
        let t = trim_str(piece.as_str());
        match after_prefix_exec(t.as_str(), prefix) {
            Some(a) => {
                proof {
                    lemma_first_after_skip(ps, prefix@, i as int);
                    assert(ps.skip(i as int)[0] == ps[i as int]);
                }
                return Some(a);
            },
            None => {},
        }
        i = i + 1;
    }
    proof {
        lemma_first_after_skip(ps, prefix@, ps.len() as int);
    }
    None
}

/// The proxy URL of a `ProxyServer` value.
pub fn proxy_url(server: &str) -> (r: Option<String>)
    ensures
        match r {
            Some(u) => proxy_url_spec(server@) == Some(u@),
            None => proxy_url_spec(server@) is None,
        },
{
    let s = trim_str(server);
    let sv = chars_of(s.as_str());
    if sv.len() == 0 {
        return None;
    }
    let addr: String = if contains_str(s.as_str(), "=") {
        let pieces = split_exec(&sv, ';');
        let ghost ps = split_spec(s@, ';');
        match first_after_exec(&pieces, Ghost(ps), "https=") {
            Some(a) => a,
            None => match first_after_exec(&pieces, Ghost(ps), "http=") {
                Some(a) => a,
                None => String::new(),
            },
        }
    } else {
        s
    };
    proof {
        reveal_strlit("http://");
        reveal_strlit("https://");
    }
    let av = chars_of(addr.as_str());
    if av.len() == 0 {
        return None;
    }
    if starts_with_str(addr.as_str(), "http://") || starts_with_str(addr.as_str(), "https://") {
        Some(addr)
    } else {
        Some(concat2("http://", addr.as_str()))
    }
}

/// The system proxy from the `ProxyEnable` and `ProxyServer` values of the
/// Internet Settings key (`None` where a value could not be read).
pub fn get_system_proxy(proxy_enable: Option<&str>, proxy_server: Option<&str>) -> (r: Option<String>)
    ensures
        match r {
            Some(u) => system_proxy_spec(
                match proxy_enable { Some(e) => Some(e@), None => None },
                match proxy_server { Some(s) => Some(s@), None => None },
            ) == Some(u@),
            None => system_proxy_spec(
                match proxy_enable { Some(e) => Some(e@), None => None },
                match proxy_server { Some(s) => Some(s@), None => None },
            ) is None,
        },
{
    match proxy_enable {
        Some(e) => {
            if !contains_str(e, "0x1") {
                return None;
            }
        },
        None => {
            return None;
        },
    }
    match proxy_server {
        Some(s) => proxy_url(s),
        None => None,
    }
}

// ---------------------------------------------------------------- junctions

/// The text after the first occurrence of a label, trimmed, if not empty.
pub open spec fn label_target(line: Seq<char>, label: Seq<char>) -> Option<Seq<char>> {
    match find_spec(line, label) {
        Some(i) => {
            let t = trim_spec(line.skip(i + label.len()));
            if t.len() > 0 {
                Some(t)
            } else {
                None
            }
        },
        None => None,
    }
}

/// The target a line of `fsutil reparsepoint query` names, after the
/// Chinese label `打印名称:` or else the English `Print Name:`.
pub open spec fn line_target(line: Seq<char>) -> Option<Seq<char>> {
    match label_target(line, "打印名称:"@) {
        Some(t) => Some(t),
        None => label_target(line, "Print Name:"@),
    }
}

/// The line names a target.
pub open spec fn names_target() -> spec_fn(Seq<char>) -> bool {
    |l: Seq<char>| line_target(l) is Some
}

/// The junction target in `fsutil reparsepoint query` output: from the
/// first line that names one.
pub open spec fn fsutil_target(out: Seq<char>) -> Option<Seq<char>> {
    match first_match(lines_spec(out), names_target()) {
        Some(i) => line_target(lines_spec(out)[i]),
        None => None,
    }
}

fn label_target_exec(line: &str, label: &str) -> (r: Option<String>)
    ensures
        match r {
            Some(t) => label_target(line@, label@) == Some(t@),
            None => label_target(line@, label@) is None,
        },
{
    let lv = chars_of(line);
    let pv = chars_of(label);
    match find_chars(&lv, &pv) {
        Some(i) => {
            proof {
                crate::text::lemma_find_in_range(lv@, pv@);
                assert(crate::text::occurs_at(lv@, pv@, i as int));
            }
            let n = lv.len();
            assert(i + pv@.len() <= n);
            let rest = string_of_range(&lv, i + pv.len(), n);
            assert(lv@.subrange(i + pv@.len(), lv@.len() as int) =~= line@.skip(i + label@.len()));
            let t = trim_str(rest.as_str());
            let tv = chars_of(t.as_str());
            if tv.len() > 0 {
                Some(t)
            } else {
                None
            }
        },
        None => None,
    }
}

fn line_target_exec(line: &str) -> (r: Option<String>)
    ensures
        match r {
            Some(t) => line_target(line@) == Some(t@),
            None => line_target(line@) is None,
        },
{
    match label_target_exec(line, "打印名称:") {
        Some(t) => Some(t),
        None => label_target_exec(line, "Print Name:"),
    }
}

/// Reads the junction target out of what `fsutil reparsepoint query`
/// wrote (GBK-encoded); fails when no line names one.
pub fn junction_target_from_output(stdout: &[u8]) -> (r: Result<String, String>)
    ensures
        match r {
            Ok(t) => fsutil_target(gbk_decoded(stdout@)) == Some(t@),
            Err(m) => fsutil_target(gbk_decoded(stdout@)) is None
                && m@ == "无法从 fsutil 输出中解析 Junction 目标路径（不支持当前系统语言格式）"@,
        },
{
    let text = gbk_decode(stdout);
    let lines = lines_of(text.as_str());
    let ghost ls = lines_spec(text@);
    let mut i: usize = 0;
    while i < lines.len()
        invariant
            i <= lines@.len(),
            lines@.len() == ls.len(),
            ls == lines_spec(text@),
            text@ == gbk_decoded(stdout@),
            forall|k: int| 0 <= k < lines@.len() ==> (#[trigger] lines@[k])@ == ls[k],
            forall|j: int| 0 <= j < i ==> !names_target()(ls[j]),
        decreases lines@.len() - i,
    {
        match line_target_exec(lines[i].as_str()) {
            Some(t) => {
                proof {
                    lemma_first_match_at(ls, names_target(), i as int);
                    assert(fsutil_target(gbk_decoded(stdout@)) == line_target(ls[i as int]));
                }
                return Ok(t);
            },
            None => {},
        }
        i = i + 1;
    }
    Err(owned("无法从 fsutil 输出中解析 Junction 目标路径（不支持当前系统语言格式）"))
}

/// The arguments given to `cmd` to make a junction at `source` pointing to
/// `target`.
pub fn mklink_arguments(source: &str, target: &str) -> (r: String)
    ensures
        r@ == "/c mklink /J \""@ + source@ + "\" \""@ + target@ + "\""@,
{
    let mut r = concat4("/c mklink /J \"", source, "\" \"", target);
    r.append("\"");
    r
}

/// The error reported when `mklink` fails: its output and error output,
/// decoded from GBK and trimmed.
pub fn mklink_failure(stdout: &[u8], stderr: &[u8]) -> (r: String)
    ensures
        r@ == "mklink /J 失败: "@ + trim_spec(gbk_decoded(stdout@)) + " "@ + trim_spec(gbk_decoded(stderr@)),
{
    let o = gbk_decode(stdout);
    let e = gbk_decode(stderr);
    let ot = trim_str(o.as_str());
    let et = trim_str(e.as_str());
    concat4("mklink /J 失败: ", ot.as_str(), " ", et.as_str())
}

// ---------------------------------------------------------------- attributes

/// `FILE_ATTRIBUTE_REPARSE_POINT`.
pub const FILE_ATTRIBUTE_REPARSE_POINT: u32 = 0x400;

/// `IO_REPARSE_TAG_MOUNT_POINT`: the tag of a junction.
pub const IO_REPARSE_TAG_MOUNT_POINT: u32 = 0xA0000003;

/// Whether file attributes (as `GetFileAttributesW` returns them, all ones
/// on failure) mark a reparse point.
pub fn has_reparse_attribute(attrs: u32) -> (r: bool)
    ensures
        r == (attrs != u32::MAX && attrs & 0x400 != 0),
{
    attrs != u32::MAX && (attrs & FILE_ATTRIBUTE_REPARSE_POINT) != 0
}

/// The little-endian `u32` at the start of a byte string.
pub open spec fn le_u32(b: Seq<u8>) -> int {
    b[0] + 256 * b[1] + 65536 * b[2] + 16777216 * b[3]
}

/// Whether a reparse data buffer (of which `returned` bytes were filled)
/// starts with the junction tag.
pub fn is_mount_point_tag(buffer: &[u8], returned: u32) -> (r: bool)
    ensures
        r == (returned >= 4 && buffer@.len() >= 4 && le_u32(buffer@) == 0xA0000003),
{
    if returned < 4 || buffer.len() < 4 {
        return false;
    }
    let tag: u64 = buffer[0] as u64 + 256 * (buffer[1] as u64) + 65536 * (buffer[2] as u64) + 16777216 * (
    buffer[3] as u64);
    tag == 0xA0000003
}

/// Whether a file system name (from `GetVolumeInformationW`) is NTFS, in
/// any ASCII case.
pub fn is_ntfs_name(name: &str) -> (r: bool)
    ensures
        r == eq_ignore_ascii_case_spec(name@, "NTFS"@),
{
    eq_ignore_ascii_case(name, "NTFS")
}

/// How an entry is deleted when a tree is cleared: a junction or a link
/// only as a link, never followed.
#[derive(PartialEq, Eq, Structural, Clone, Copy, Debug)]
pub enum Removal {
    /// Remove the directory entry itself (a junction).
    UnlinkDirectory,
    /// Remove the link itself (a file symbolic link).
    UnlinkFile,
    /// Delete the entries inside, then the directory.
    EmptyThenRemove,
    /// Delete the file.
    DeleteFile,
}

/// How to delete an entry of a tree being cleared.
pub fn removal_kind(is_junction: bool, is_symlink: bool, is_dir: bool) -> (r: Removal)
    ensures
        is_junction ==> r == Removal::UnlinkDirectory,
        !is_junction && is_symlink ==> r == Removal::UnlinkFile,
        !is_junction && !is_symlink && is_dir ==> r == Removal::EmptyThenRemove,
        !is_junction && !is_symlink && !is_dir ==> r == Removal::DeleteFile,
{
    if is_junction {
        Removal::UnlinkDirectory
    } else if is_symlink {
        Removal::UnlinkFile
    } else if is_dir {
        Removal::EmptyThenRemove
    } else {
        Removal::DeleteFile
    }
}

} // verus!
