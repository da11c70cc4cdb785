//! Path texts the engine derives: the renamed-source path, target paths on
//! the target drive, the drive prefix, and job identifiers.
use vstd::prelude::*;
use vstd::string::*;
use crate::text::{
    byte_prefix, byte_prefix_exec, concat2, hex_lower, hex_lower_exec, owned, utf8_len, utf8_len_at_least,
    utf8_width,
};

verus! {

/// The suffix given to a source directory when it is renamed aside.
pub open spec fn old_suffix() -> Seq<char> {
    "._cdisklinker_old"@
}

/// `C:\Steam` becomes `C:\Steam._cdisklinker_old`.
pub open spec fn old_path_spec(source: Seq<char>) -> Seq<char> {
    source + old_suffix()
}

/// Builds the path a source directory is renamed to before the junction is
/// made: the source path followed by `._cdisklinker_old`.
pub fn make_old_path(source_dir: &str) -> (r: String)
    ensures
        r@ == old_path_spec(source_dir@),
{
    concat2(source_dir, "._cdisklinker_old")
}

/// A Windows path separator.
pub open spec fn is_separator(c: char) -> bool {
    c == '\\' || c == '/'
}

/// A bare drive such as `D:` (letter and colon, no root).
pub open spec fn is_bare_drive(s: Seq<char>) -> bool {
    s.len() == 2 && s[1] == ':' && (('a' <= s[0] <= 'z') || ('A' <= s[0] <= 'Z'))
}

/// `Path::join` on Windows of a base and a relative name without
/// separators: a separator is added unless the base is empty, already ends
/// with one, or is a bare drive.
pub open spec fn join_spec(base: Seq<char>, name: Seq<char>) -> Seq<char> {
    if base.len() == 0 || is_separator(base.last()) || is_bare_drive(base) {
        base + name
    } else {
        base + seq!['\\'] + name
    }
}

/// Joins a relative name to a base directory as `Path::join` does on
/// Windows.
pub fn join_path(base: &str, name: &str) -> (r: String)
    ensures
        r@ == join_spec(base@, name@),
{
    let v = crate::text::chars_of(base);
    let n = v.len();
    let needs_sep = if n == 0 {
        false
    } else if v[n - 1] == '\\' || v[n - 1] == '/' {
        false
    } else if n == 2 && v[1] == ':' && (('a' <= v[0] && v[0] <= 'z') || ('A' <= v[0] && v[0]
        <= 'Z')) {
        false
    } else {
        true
    };
    let mut r = owned(base);
    if needs_sep {
        r.push('\\');
    }
    r.append(name);
    proof {
        if n > 0 {
            assert(v@.last() == v@[n - 1]);
        }
    }
    r
}

proof fn lemma_byte_prefix_len(s: Seq<char>, n: nat)
    ensures
        byte_prefix(s, n) is Some ==> n <= utf8_len(s),
    decreases s.len(),
{
    if n > 0 && s.len() > 0 && utf8_width(s[0]) <= n {
        lemma_byte_prefix_len(s.drop_first(), (n - utf8_width(s[0])) as nat);
    }
}

/// Where a target drive path can be cut: its first two and first three
/// bytes must be whole characters when it is three bytes or longer
/// (`&target_drive[..2]` and `&target_drive[..3]` are taken then).
pub open spec fn drive_text_ok(target_drive: Seq<char>) -> bool {
    utf8_len(target_drive) >= 3 ==> byte_prefix(target_drive, 2) is Some && byte_prefix(
        target_drive,
        3,
    ) is Some
}

/// The root checked for the file system: `X:\` from the first two bytes
/// when the target is three bytes or longer, else the target followed by
/// `\`.
pub open spec fn ntfs_root_spec(target_drive: Seq<char>) -> Seq<char> {
    if utf8_len(target_drive) >= 3 {
        byte_prefix(target_drive, 2)->0 + seq!['\\']
    } else {
        target_drive + seq!['\\']
    }
}

/// The root whose free space is asked: the first three bytes of the target
/// when it is that long, else the whole target.
pub open spec fn space_root_spec(target_drive: Seq<char>) -> Seq<char> {
    if utf8_len(target_drive) >= 3 {
        byte_prefix(target_drive, 3)->0
    } else {
        target_drive
    }
}

/// Whether a target drive path can be cut as `drive_text_ok` asks.
pub fn drive_text_valid(target_drive: &str) -> (r: bool)
    ensures
        r == drive_text_ok(target_drive@),
{
    proof {
        lemma_byte_prefix_len(target_drive@, 2);
        lemma_byte_prefix_len(target_drive@, 3);
    }
    if !utf8_len_at_least(target_drive, 3) {
        return true;
    }
    byte_prefix_exec(target_drive, 2).is_some() && byte_prefix_exec(target_drive, 3).is_some()
}

/// The root of the target drive whose file system must be NTFS.
pub fn ntfs_root(target_drive: &str) -> (r: String)
    requires
        drive_text_ok(target_drive@),
    ensures
        r@ == ntfs_root_spec(target_drive@),
{
    proof {
        lemma_byte_prefix_len(target_drive@, 3);
    }
    let long = byte_prefix_exec(target_drive, 3).is_some();
    if long {
        match byte_prefix_exec(target_drive, 2) {
            Some(p) => {
                let mut r = p;
                r.push('\\');
                r
            },
            None => {
                let mut r = owned(target_drive);
                r.push('\\');
                r
            },
        }
    } else {
        let mut r = owned(target_drive);
        r.push('\\');
        r
    }
}

/// The root of the target drive whose free space is checked.
pub fn space_root(target_drive: &str) -> (r: String)
    requires
        drive_text_ok(target_drive@),
    ensures
        r@ == space_root_spec(target_drive@),
{
    proof {
        lemma_byte_prefix_len(target_drive@, 3);
    }
    match byte_prefix_exec(target_drive, 3) {
        Some(p) => p,
        None => owned(target_drive),
    }
}

/// The drive letter part of a path: its first two bytes, or nothing when
/// they do not form whole characters.
pub open spec fn drive_letter_spec(path: Seq<char>) -> Seq<char> {
    match byte_prefix(path, 2) {
        Some(p) => p,
        None => seq![],
    }
}

/// The first two bytes of a path (`s.get(..2).unwrap_or("")`).
pub fn drive_letter(path: &str) -> (r: String)
    ensures
        r@ == drive_letter_spec(path@),
{
    match byte_prefix_exec(path, 2) {
        Some(p) => p,
        None => String::new(),
    }
}

/// The text of a job identifier made of 16 random bytes:
/// `xxxxxxxx-xxxx-xxxx-xxxx-xxxxxxxxxxxx` in lowercase hex.
pub open spec fn uuid_text(d: Seq<u8>) -> Seq<char> {
    hex_lower(d.subrange(0, 4)) + seq!['-'] + hex_lower(d.subrange(4, 6)) + seq!['-'] + hex_lower(
        d.subrange(6, 8),
    ) + seq!['-'] + hex_lower(d.subrange(8, 10)) + seq!['-'] + hex_lower(d.subrange(10, 16))
}

/// The bytes drawn from 16 random numbers: each number modulo 256.
pub open spec fn uuid_bytes(samples: Seq<u32>) -> Seq<u8> {
    Seq::new(16, |i: int| (samples[i] % 256) as u8)
}

/// Formats a job identifier from 16 random numbers (each reduced modulo
/// 256 to one byte), in the 8-4-4-4-12 hex layout.
pub fn uuid_v4_like(samples: &[u32; 16]) -> (r: String)
    ensures
        r@ == uuid_text(uuid_bytes(samples@)),
{
    let mut data: Vec<u8> = Vec::new();
    let mut i: usize = 0;
    while i < 16
        invariant
            i <= 16,
            samples@.len() == 16,
            data@.len() == i,
            forall|k: int| 0 <= k < i ==> data@[k] == (samples@[k] % 256) as u8,
        decreases 16 - i,
    {
        data.push((samples[i] % 256) as u8);
        i = i + 1;
    }
    assert(data@ =~= uuid_bytes(samples@));
    let mut r = hex_lower_exec(&data.as_slice()[0..4]);
    r.push('-');
    r.append(hex_lower_exec(&data.as_slice()[4..6]).as_str());
    r.push('-');
    r.append(hex_lower_exec(&data.as_slice()[6..8]).as_str());
    r.push('-');
    r.append(hex_lower_exec(&data.as_slice()[8..10]).as_str());
    r.push('-');
    r.append(hex_lower_exec(&data.as_slice()[10..16]).as_str());
    r
}

} // verus!
