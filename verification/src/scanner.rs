//! Classification of C-drive directories, size texts, and the shaping of
//! scan results: the listing of one directory level, and the ranking of the
//! largest directories of a tree.
use vstd::prelude::*;
use crate::order::{Keyed, key_sorted, sort_by_key};
use crate::text::{all_ascii, ascii_lowered, chars_of, contains_spec, contains_str, decimal, decimal_u64, digit_char, owned, starts_with_spec, starts_with_str, concat2};
use crate::trusted::{lowercase_of, to_lowercase};

verus! {

/// How safe a directory is to migrate.
#[derive(PartialEq, Eq, Structural, Clone, Copy, Debug)]
pub enum DirectoryRating {
    /// Third-party data that can be moved.
    Safe,
    /// Configuration data (under `AppData`): moving it may lose settings;
    /// the user is warned.
    Warning,
    /// A system directory or the drive root: never selectable.
    Forbidden,
}

// ---------------------------------------------------------------- rating

/// The system directories that may never be migrated, lowercased.
pub open spec fn forbidden_dirs() -> Seq<Seq<char>> {
    seq![
        "c:\\windows"@,
        "c:\\program files"@,
        "c:\\program files (x86)"@,
        "c:\\system volume information"@,
        "c:\\boot"@,
        "c:\\recovery"@,
        "c:\\$recycle.bin"@,
        "c:\\documents and settings"@,
    ]
}

/// A lowercased path is forbidden: the drive root itself, or one of the
/// system directories or a path below one.
pub open spec fn forbidden_lowered(l: Seq<char>) -> bool {
    ||| l == "c:\\"@
    ||| l == "c:"@
    ||| exists|k: int|
        0 <= k < forbidden_dirs().len() && (l == #[trigger] forbidden_dirs()[k] || starts_with_spec(
            l,
            forbidden_dirs()[k] + seq!['\\'],
        ))
}

/// A lowercased path is in a configuration area: it contains `\appdata`.
pub open spec fn warning_lowered(l: Seq<char>) -> bool {
    contains_spec(l, "\\appdata"@)
}

/// Whether a lowercased path is forbidden.
pub fn is_forbidden_lowered(l: &str) -> (r: bool)
    ensures
        r == forbidden_lowered(l@),
{
    let s = owned(l);
    proof {
        reveal_strlit("c:\\");
        reveal_strlit("c:");
    }
    if s == owned("c:\\") || s == owned("c:") {
        return true;
    }
    let list: [&str; 8] = [
        "c:\\windows",
        "c:\\program files",
        "c:\\program files (x86)",
        "c:\\system volume information",
        "c:\\boot",
        "c:\\recovery",
        "c:\\$recycle.bin",
        "c:\\documents and settings",
    ];
    let mut k: usize = 0;
    while k < 8
        invariant
            s@ == l@,
            list@ =~= seq![
                "c:\\windows",
                "c:\\program files",
                "c:\\program files (x86)",
                "c:\\system volume information",
                "c:\\boot",
                "c:\\recovery",
                "c:\\$recycle.bin",
                "c:\\documents and settings",
            ],
            l@ != "c:\\"@,
            l@ != "c:"@,
            k <= 8,
            forall|j: int|
                0 <= j < k ==> !(l@ == #[trigger] forbidden_dirs()[j] || starts_with_spec(
                    l@,
                    forbidden_dirs()[j] + seq!['\\'],
                )),
        decreases 8 - k,
    {
        let f = list[k];
        assert(f@ == forbidden_dirs()[k as int]);
        let with_sep = concat2(f, "\\");
        proof {
            reveal_strlit("\\");
        }
        assert(with_sep@ == forbidden_dirs()[k as int] + seq!['\\']);
        if s == owned(f) || starts_with_str(l, with_sep.as_str()) {
            return true;
        }
        k = k + 1;
    }
    assert forall|j: int| 0 <= j < forbidden_dirs().len() implies !(l@ == #[trigger] forbidden_dirs()[j]
        || starts_with_spec(l@, forbidden_dirs()[j] + seq!['\\'])) by {}
    false
}

/// Whether a lowercased path is in a configuration area.
pub fn is_warning_lowered(l: &str) -> (r: bool)
    ensures
        r == warning_lowered(l@),
{
    contains_str(l, "\\appdata")
}

/// Whether a path is on the forbidden list, compared case-insensitively.
pub fn is_forbidden_path(path: &str) -> (r: bool)
    ensures
        r == forbidden_lowered(lowercase_of(path@)),
        all_ascii(path@) ==> r == forbidden_lowered(ascii_lowered(path@)),
{
    let l = to_lowercase(path);
    is_forbidden_lowered(l.as_str())
}

/// Whether a path is in a configuration area (`AppData`), compared
/// case-insensitively.
pub fn is_warning_path(path: &str) -> (r: bool)
    ensures
        r == warning_lowered(lowercase_of(path@)),
        all_ascii(path@) ==> r == warning_lowered(ascii_lowered(path@)),
{
    let l = to_lowercase(path);
    is_warning_lowered(l.as_str())
}

/// The rating of a directory: forbidden first, then warning, else safe.
pub open spec fn rating_spec(path: Seq<char>) -> DirectoryRating {
    if forbidden_lowered(lowercase_of(path)) {
        DirectoryRating::Forbidden
    } else if warning_lowered(lowercase_of(path)) {
        DirectoryRating::Warning
    } else {
        DirectoryRating::Safe
    }
}

/// Rates a directory.
pub fn rate_path(path: &str) -> (r: DirectoryRating)
    ensures
        r == rating_spec(path@),
{
    if is_forbidden_path(path) {
        DirectoryRating::Forbidden
    } else if is_warning_path(path) {
        DirectoryRating::Warning
    } else {
        DirectoryRating::Safe
    }
}

/// The name of a rating, as shown in the ranking.
pub open spec fn rating_text_spec(r: DirectoryRating) -> Seq<char> {
    match r {
        DirectoryRating::Safe => "Safe"@,
        DirectoryRating::Warning => "Warning"@,
        DirectoryRating::Forbidden => "Forbidden"@,
    }
}

/// The name of a rating.
pub fn rating_text(r: DirectoryRating) -> (t: String)
    ensures
        t@ == rating_text_spec(r),
{
    match r {
        DirectoryRating::Safe => owned("Safe"),
        DirectoryRating::Warning => owned("Warning"),
        DirectoryRating::Forbidden => owned("Forbidden"),
    }
}

// ---------------------------------------------------------------- sizes

/// `n / d` rounded to the nearest integer, ties to the even one.
pub open spec fn round_half_even(n: nat, d: nat) -> nat
    recommends
        d > 0,
{
    let q = n / d;
    let r = n % d;
    if 2 * r > d || (2 * r == d && q % 2 == 1) {
        q + 1
    } else {
        q
    }
}

/// `2^k`.
pub open spec fn pow2(k: nat) -> nat
    decreases k,
{
    if k == 0 {
        1
    } else {
        2 * pow2((k - 1) as nat)
    }
}

/// The number of binary digits of `n` (0 for 0).
pub open spec fn bit_len(n: nat) -> nat
    decreases n,
{
    if n == 0 {
        0
    } else {
        1 + bit_len(n / 2)
    }
}

/// The value of `n as f64`: `n` rounded to 53 significant bits, ties to
/// even.
pub open spec fn f64_value(n: nat) -> nat {
    if n < pow2(53) {
        n
    } else {
        let k = (bit_len(n) - 53) as nat;
        round_half_even(n, pow2(k)) * pow2(k)
    }
}

/// A number of hundredths with two decimals, as `{:.2}` writes it.
pub open spec fn hundredths_text(q: nat) -> Seq<char> {
    decimal(q / 100) + seq!['.', digit_char((q / 10) % 10), digit_char(q % 10)]
}

/// `{:.2}` of `x / 2^k` for a whole `x`: the exact quotient rounded to two
/// decimals, ties to even (the exact rounding `std` uses).
pub open spec fn fixed2_text(x: nat, k: nat) -> Seq<char> {
    hundredths_text(round_half_even(100 * x, pow2(k)))
}

/// The size text of a number of bytes: two decimals in GB, MB or KB, or
/// the whole number of bytes below one KB.
pub open spec fn format_size_spec(bytes: nat) -> Seq<char> {
    if bytes >= pow2(30) {
        fixed2_text(f64_value(bytes), 30) + " GB"@
    } else if bytes >= pow2(20) {
        fixed2_text(bytes, 20) + " MB"@
    } else if bytes >= pow2(10) {
        fixed2_text(bytes, 10) + " KB"@
    } else {
        decimal(bytes) + " Bytes"@
    }
}

proof fn lemma_pow2_add(a: nat, b: nat)
    ensures
        pow2(a + b) == pow2(a) * pow2(b),
    decreases b,
{
    if b > 0 {
        let c = (b - 1) as nat;
        lemma_pow2_add(a, c);
        assert((a + b - 1) as nat == a + c);
        assert(pow2(a + b) == 2 * pow2(a + c));
        assert(pow2(b) == 2 * pow2(c));
        assert(pow2(a) * (2 * pow2(c)) == 2 * (pow2(a) * pow2(c))) by (nonlinear_arith);
    } else {
        assert(pow2(0) == 1);
        assert(a + b == a);
    }
}

proof fn lemma_pow2_values()
    ensures
        pow2(10) == 1024,
        pow2(20) == 1048576,
        pow2(30) == 1073741824,
        pow2(52) == 4503599627370496,
        pow2(53) == 9007199254740992,
        pow2(64) == 18446744073709551616,
        pow2(67) == 147573952589676412928,
        pow2(119) == 664613997892457936451903530140172288,
        pow2(120) == 1329227995784915872903807060280344576,
{
    reveal_with_fuel(pow2, 11);
    assert(pow2(10) == 1024);
    lemma_pow2_add(10, 10);
    lemma_pow2_add(20, 10);
    lemma_pow2_add(30, 10);
    lemma_pow2_add(40, 10);
    lemma_pow2_add(50, 2);
    lemma_pow2_add(50, 3);
    lemma_pow2_add(50, 14);
    lemma_pow2_add(64, 3);
    lemma_pow2_add(64, 55);
    lemma_pow2_add(64, 56);
    lemma_pow2_add(53, 2);
    lemma_pow2_add(53, 3);
    assert(pow2(2) == 4);
    assert(pow2(3) == 8);
    assert(pow2(14) == 16384) by {
        lemma_pow2_add(10, 4);
        assert(pow2(4) == 16);
    }
    assert(pow2(50) == 1125899906842624);
    assert(pow2(53) == 9007199254740992);
    assert(pow2(55) == 36028797018963968);
    assert(pow2(56) == 72057594037927936);
    assert(pow2(64) == 18446744073709551616);
    assert(pow2(119) == 18446744073709551616 * 36028797018963968);
    assert(pow2(120) == 18446744073709551616 * 72057594037927936);
}

proof fn lemma_pow2_pos(k: nat)
    ensures
        pow2(k) >= 1,
    decreases k,
{
    if k > 0 {
        lemma_pow2_pos((k - 1) as nat);
    }
}

proof fn lemma_bit_len_bounds(n: nat)
    ensures
        n < pow2(bit_len(n)),
        n > 0 ==> pow2((bit_len(n) - 1) as nat) <= n,
    decreases n,
{
    if n > 0 {
        lemma_bit_len_bounds(n / 2);
        if n / 2 > 0 {
        } else {
            assert(n == 1);
            assert(bit_len(0) == 0);
        }
    }
}

proof fn lemma_pow2_mono(a: nat, b: nat)
    requires
        a <= b,
    ensures
        pow2(a) <= pow2(b),
    decreases b,
{
    if a < b {
        lemma_pow2_mono(a, (b - 1) as nat);
    }
}

/// `n / d` rounded to nearest, ties to even.
fn round_half_even_exec(n: u128, d: u128) -> (r: u128)
    requires
        d > 0,
        n < u128::MAX / 2,
        d < u128::MAX / 2,
    ensures
        r == round_half_even(n as nat, d as nat),
        r <= n / d + 1,
{
    let q = n / d;
    let rem = n % d;
    if 2 * rem > d || (2 * rem == d && q % 2 == 1) {
        q + 1
    } else {
        q
    }
}

/// A whole number rounded to 53 significant bits, ties to even: the value
/// `n as f64` has, or the significand of a product kept by `f64`.
fn f64_round(n: u128) -> (r: u128)
    requires
        n < pow2(120),
    ensures
        r == f64_value(n as nat),
        r <= pow2(bit_len(n as nat)),
        bit_len(n as nat) <= 120,
{
    proof {
        lemma_pow2_values();
        lemma_bit_len_bounds(n as nat);
        lemma_bit_len_le(n as nat, 120);
    }
    if n < 9007199254740992u128 {
        return n;
    }
    proof {
        if bit_len(n as nat) < 54 {
            lemma_pow2_mono(bit_len(n as nat), 53);
        }
    }
    // the number of binary digits of n, and 2^(that - 53)
    let mut len: u64 = 0;
    let mut m: u128 = n;
    while m > 0
        invariant
            len + bit_len(m as nat) == bit_len(n as nat),
            bit_len(n as nat) <= 120,
        decreases m,
    {
        m = m / 2;
        len = len + 1;
    }
    let k: u64 = len - 53;
    let mut p: u128 = 1;
    let mut i: u64 = 0;
    while i < k
        invariant
            i <= k,
            k <= 67,
            p == pow2(i as nat),
            1 <= p <= pow2(67),
        decreases k - i,
    {
        proof {
            lemma_pow2_mono((i + 1) as nat, 67);
            lemma_pow2_values();
        }
        p = p * 2;
        i = i + 1;
    }
    proof {
        lemma_pow2_values();
        lemma_pow2_mono(67, 119);
    }
    let q = round_half_even_exec(n, p);
    proof {
        assert((n as nat) / (p as nat) * (p as nat) <= n as nat) by (nonlinear_arith)
            requires p > 0;
        assert(((n as nat) / (p as nat) + 1) * (p as nat) <= n as nat + p as nat) by (nonlinear_arith)
            requires p > 0, (n as nat) / (p as nat) * (p as nat) <= n as nat;
        assert(q * p <= (n as nat / p as nat + 1) * p) by (nonlinear_arith)
            requires q <= n as nat / p as nat + 1;
        lemma_round_at_most_pow2(n as nat, k as nat, len as nat);
    }
    q * p
}

proof fn lemma_bit_len_le(n: nat, m: nat)
    requires
        n < pow2(m),
    ensures
        bit_len(n) <= m,
{
    lemma_bit_len_bounds(n);
    if bit_len(n) > m {
        lemma_pow2_mono(m, (bit_len(n) - 1) as nat);
    }
}

proof fn lemma_round_at_most_pow2(n: nat, k: nat, len: nat)
    requires
        len == bit_len(n),
        n < pow2(len),
        k + 53 == len,
    ensures
        round_half_even(n, pow2(k)) * pow2(k) <= pow2(len),
{
    lemma_pow2_pos(k);
    let p = pow2(k);
    lemma_pow2_split(k);
    // n < 2^53 * p, so n / p < 2^53 and the rounded quotient is at most 2^53
    assert(n / p < pow2(53)) by (nonlinear_arith)
        requires n < pow2(53) * p, p > 0;
    assert(round_half_even(n, p) <= pow2(53));
    assert(round_half_even(n, p) * p <= pow2(53) * p) by (nonlinear_arith)
        requires round_half_even(n, p) <= pow2(53), p > 0;
}

proof fn lemma_pow2_split(k: nat)
    ensures
        pow2(k + 53) == pow2(53) * pow2(k),
    decreases k,
{
    if k > 0 {
        lemma_pow2_split((k - 1) as nat);
        assert(pow2(k + 53) == 2 * pow2((k + 52) as nat));
        assert(pow2(53) * pow2(k) == pow2(53) * (2 * pow2((k - 1) as nat)));
        assert(pow2(53) * (2 * pow2((k - 1) as nat)) == 2 * (pow2(53) * pow2((k - 1) as nat))) by (nonlinear_arith);
    } else {
        assert(pow2(53) * 1 == pow2(53));
    }
}

// ---------------------------------------------------------------- margin

/// `(x as f64 * 1.1) as u64`: the float of `x` times the float nearest to
/// 1.1 (`4953959590107546 / 2^52`), rounded to 53 significant bits, cut to a
/// whole number, and at most `u64::MAX` (a float that large converts to it).
pub open spec fn times_1_1(x: nat) -> nat {
    let v = f64_value(f64_value(x) * 4953959590107546) / pow2(52);
    if v >= pow2(64) {
        (pow2(64) - 1) as nat
    } else {
        v
    }
}

/// The free space a migration of `x` bytes asks of the target: 1.1 times
/// the size plus 1 GiB.
pub open spec fn safe_margin_spec(x: nat) -> nat {
    times_1_1(x) + pow2(30)
}

/// The free space a migration of `required` bytes asks of the target, as
/// `(required as f64 * 1.1) as u64 + 1 GiB` computes it; `None` where that
/// sum passes `u64::MAX` (the addition overflows there).
pub fn safe_margin(required: u64) -> (r: Option<u64>)
    ensures
        match r {
            Some(m) => m == safe_margin_spec(required as nat),
            None => safe_margin_spec(required as nat) > u64::MAX,
        },
{
    proof {
        lemma_pow2_values();
        lemma_bit_len_le(required as nat, 64);
        lemma_pow2_mono(64, 120);
        lemma_pow2_mono(bit_len(required as nat), 64);
    }
    let a = f64_round(required as u128);
    assert(a * 4953959590107546 < pow2(120)) by (nonlinear_arith)
        requires a <= 18446744073709551616, pow2(120) == 1329227995784915872903807060280344576;
    let n = a * 4953959590107546;
    let p = f64_round(n);
    proof {
        lemma_pow2_mono(bit_len(n as nat), 120);
    }
    let v = p / 4503599627370496;
    let t: u64 = if v >= 18446744073709551616 {
        u64::MAX
    } else {
        v as u64
    };
    if t > u64::MAX - 1073741824 {
        None
    } else {
        Some(t + 1073741824)
    }
}

proof fn lemma_f64_value_lower(n: nat)
    ensures
        f64_value(n) * pow2(52) >= n * (pow2(52) - 1),
{
    lemma_pow2_values();
    if n >= pow2(53) {
        let len = bit_len(n);
        lemma_bit_len_bounds(n);
        if len < 54 {
            lemma_pow2_mono(len, 53);
        }
        let k = (len - 53) as nat;
        let d = pow2(k);
        lemma_pow2_pos(k);
        lemma_pow2_add(52, k);
        assert((len - 1) as nat == 52 + k);
        // n is at least 2^52 * d, and rounding loses less than d
        let q = n / d;
        assert(q * d <= n && n < q * d + d) by (nonlinear_arith)
            requires d > 0, q == n / d;
        assert(round_half_even(n, d) >= q);
        assert(round_half_even(n, d) * d >= q * d) by (nonlinear_arith)
            requires round_half_even(n, d) >= q, d > 0;
        assert(pow2(52) * d <= n);
        assert(d * pow2(52) <= n);
        assert(f64_value(n) * pow2(52) >= (n - d) * pow2(52));
        assert((n - d) * pow2(52) == n * pow2(52) - d * pow2(52));
    }
}

/// Law (room to spare): the margin asked of the target is at
/// least the size of the migration plus 1 GiB.
pub proof fn lemma_safe_margin_covers(x: u64)
    ensures
        safe_margin_spec(x as nat) >= x + pow2(30),
{
    lemma_pow2_values();
    let a = f64_value(x as nat);
    lemma_f64_value_lower(x as nat);
    let n = a * 4953959590107546;
    lemma_f64_value_lower(n);
    let p = f64_value(n);
    let k: int = 4503599627370496;
    assert(a * k >= x * (k - 1));
    assert(p * k >= n * (k - 1));
    assert(n * k == a * k * 4953959590107546) by (nonlinear_arith)
        requires n == a * 4953959590107546;
    assert(a * k * 4953959590107546 >= x * (k - 1) * 4953959590107546) by (nonlinear_arith)
        requires a * k >= x * (k - 1);
    assert(p * k * k >= n * (k - 1) * k) by (nonlinear_arith)
        requires p * k >= n * (k - 1), k > 0;
    assert(n * (k - 1) * k == n * k * (k - 1)) by (nonlinear_arith);
    assert(n * k * (k - 1) >= x * (k - 1) * 4953959590107546 * (k - 1)) by (nonlinear_arith)
        requires n * k >= x * (k - 1) * 4953959590107546, k > 1;
    assert(x * (k - 1) * 4953959590107546 * (k - 1) >= x * k * k * k) by (nonlinear_arith)
        requires k == 4503599627370496, x >= 0;
    assert(p >= x * k) by (nonlinear_arith)
        requires p * k * k >= x * k * k * k, k > 0;
    assert(p / pow2(52) >= x) by (nonlinear_arith)
        requires p >= x * k, k > 0, pow2(52) == k;
}

/// Two decimals of a number of hundredths.
fn hundredths_exec(q: u64) -> (r: String)
    ensures
        r@ == hundredths_text(q as nat),
{
    let mut t = decimal_u64(q / 100);
    t.push('.');
    let tens = ((q / 10) % 10) as u8;
    let ones = (q % 10) as u8;
    t.push((tens + 48) as char);
    t.push((ones + 48) as char);
    t
}

/// The size text of a number of bytes: two decimals with ` GB`, ` MB` or
/// ` KB` from one KB up, else the whole number with ` Bytes`.
pub fn format_size(bytes: u64) -> (r: String)
    ensures
        r@ == format_size_spec(bytes as nat),
{
    proof {
        lemma_pow2_values();
    }
    if bytes >= 1073741824 {
        proof {
            lemma_bit_len_le(bytes as nat, 64);
            lemma_pow2_mono(64, 120);
            lemma_pow2_mono(bit_len(bytes as nat), 64);
        }
        let f = f64_round(bytes as u128);
        let q = round_half_even_exec(100 * f, 1073741824);
        proof {
            assert(q <= 100 * f / 1073741824 + 1);
        }
        let mut t = hundredths_exec(q as u64);
        t.append(" GB");
        t
    } else if bytes >= 1048576 {
        let q = round_half_even_exec(100 * (bytes as u128), 1048576);
        let mut t = hundredths_exec(q as u64);
        t.append(" MB");
        t
    } else if bytes >= 1024 {
        let q = round_half_even_exec(100 * (bytes as u128), 1024);
        let mut t = hundredths_exec(q as u64);
        t.append(" KB");
        t
    } else {
        let mut t = decimal_u64(bytes);
        t.append(" Bytes");
        t
    }
}

// ---------------------------------------------------------------- one level

/// A candidate directory found by a scan.
#[derive(Debug)]
pub struct ScanEntry {
    pub path: String,
    pub name: String,
    /// Filled in later by the caller (0 here).
    pub size_in_bytes: u64,
    pub size_on_disk_formatted: String,
    pub rating: DirectoryRating,
    pub depth: i32,
    pub expanded: bool,
    pub has_children: bool,
}

/// What was read for one entry of a directory.
#[derive(Debug)]
pub struct ChildProbe {
    pub path: String,
    /// The final component of the path (empty when it has none).
    pub name: String,
    pub is_dir: bool,
    /// The entry is a junction (a migrated directory).
    pub is_junction: bool,
    /// The entry holds at least one directory that is not a reparse point.
    pub has_subdirectories: bool,
}

impl Keyed for ScanEntry {
    open spec fn key(&self) -> Seq<char> {
        lowercase_of(self.name@)
    }

    fn key_chars(&self) -> (r: Vec<char>) {
        let l = to_lowercase(self.name.as_str());
        chars_of(l.as_str())
    }

    fn duplicate(&self) -> (r: ScanEntry) {
        ScanEntry {
            path: self.path.clone(),
            name: self.name.clone(),
            size_in_bytes: self.size_in_bytes,
            size_on_disk_formatted: self.size_on_disk_formatted.clone(),
            rating: self.rating,
            depth: self.depth,
            expanded: self.expanded,
            has_children: self.has_children,
        }
    }
}

/// The entry a directory of the listing becomes: rated by its path, not
/// expanded, size unknown, with children unless it is a junction.
pub open spec fn scan_entry_of(e: ScanEntry, p: ChildProbe, depth: i32) -> bool {
    &&& e.path == p.path
    &&& e.name == p.name
    &&& e.size_in_bytes == 0
    &&& e.size_on_disk_formatted@ == Seq::<char>::empty()
    &&& e.rating == rating_spec(p.path@)
    &&& e.depth == depth
    &&& !e.expanded
    &&& e.has_children == (!p.is_junction && p.has_subdirectories)
}

/// The entries of the listing that are directories or junctions, as scan
/// entries, in listing order.
pub open spec fn scanned(l: Seq<ChildProbe>, e: Seq<ScanEntry>, depth: i32) -> bool
    decreases l.len(),
{
    if l.len() == 0 {
        e.len() == 0
    } else if l.last().is_dir || l.last().is_junction {
        e.len() > 0 && scan_entry_of(e.last(), l.last(), depth) && scanned(l.drop_last(), e.drop_last(), depth)
    } else {
        scanned(l.drop_last(), e, depth)
    }
}

/// The scan of one directory level: the directories and junctions of the
/// listing, rated, in the stable order of their lowercased names.
pub fn scan_subdirectories(listing: &Vec<ChildProbe>, depth: i32) -> (r: Vec<ScanEntry>)
    ensures
        exists|e: Seq<ScanEntry>| scanned(listing@, e, depth) && r@ == key_sorted(e),
{
    let mut found: Vec<ScanEntry> = Vec::new();
    let mut i: usize = 0;
    assert(listing@.take(0) =~= Seq::<ChildProbe>::empty());
    while i < listing.len()
        invariant
            i <= listing@.len(),
            scanned(listing@.take(i as int), found@, depth),
        decreases listing@.len() - i,
    {
        let p = &listing[i];
        let ghost before = found@;
        assert(listing@.take(i + 1).drop_last() =~= listing@.take(i as int));
        if p.is_dir || p.is_junction {
            let rating = rate_path(p.path.as_str());
            found.push(ScanEntry {
                path: p.path.clone(),
                name: p.name.clone(),
                size_in_bytes: 0,
                size_on_disk_formatted: String::new(),
                rating,
                depth,
                expanded: false,
                has_children: !p.is_junction && p.has_subdirectories,
            });
            assert(found@.drop_last() =~= before);
        }
        i = i + 1;
    }
    assert(listing@.take(listing@.len() as int) =~= listing@);
    sort_by_key(&found)
}

// ---------------------------------------------------------------- ranking

/// One line of the ranking of the largest directories.
#[derive(Debug)]
pub struct LargeDirEntry {
    pub path: String,
    pub name: String,
    pub size_bytes: u64,
    pub size_text: String,
    pub rating: String,
    pub depth: i32,
}

/// A directory of the scanned tree with the size of the files directly in
/// it and of everything below it.
#[derive(Debug)]
pub struct DirTreeNode {
    pub path: String,
    pub name: String,
    pub direct_size: u64,
    pub total_size: u64,
    pub rating: DirectoryRating,
    pub depth: i32,
    pub children: Vec<DirTreeNode>,
}

/// The rating a directory gets in the tree, or `None` for a forbidden one,
/// which is left out with everything below it.
pub open spec fn tree_rating_spec(path: Seq<char>) -> Option<DirectoryRating> {
    if forbidden_lowered(lowercase_of(path)) {
        None
    } else if warning_lowered(lowercase_of(path)) {
        Some(DirectoryRating::Warning)
    } else {
        Some(DirectoryRating::Safe)
    }
}

/// Rates a directory of the tree; `None` means it is left out.
pub fn tree_rating(path: &str) -> (r: Option<DirectoryRating>)
    ensures
        r == tree_rating_spec(path@),
{
    if is_forbidden_path(path) {
        None
    } else if is_warning_path(path) {
        Some(DirectoryRating::Warning)
    } else {
        Some(DirectoryRating::Safe)
    }
}

/// The sum of the total sizes of some nodes.
pub open spec fn totals(c: Seq<DirTreeNode>) -> nat
    decreases c.len(),
{
    if c.len() == 0 {
        0
    } else {
        totals(c.drop_last()) + c.last().total_size as nat
    }
}

impl DirTreeNode {
    /// A directory at the depth limit: its total size was measured whole,
    /// nothing below it is listed.
    pub fn leaf(path: String, name: String, rating: DirectoryRating, depth: i32, total_size: u64) -> (r: DirTreeNode)
        ensures
            r.path == path,
            r.name == name,
            r.rating == rating,
            r.depth == depth,
            r.direct_size == 0,
            r.total_size == total_size,
            r.children@.len() == 0,
    {
        DirTreeNode { path, name, direct_size: 0, total_size, rating, depth, children: Vec::new() }
    }

    /// A directory with its files' size and its subdirectories: the total is
    /// the files' size plus the subdirectories' totals.
    pub fn branch(
        path: String,
        name: String,
        rating: DirectoryRating,
        depth: i32,
        direct_size: u64,
        children: Vec<DirTreeNode>,
    ) -> (r: DirTreeNode)
        requires
            direct_size + totals(children@) <= u64::MAX,
        ensures
            r.path == path,
            r.name == name,
            r.rating == rating,
            r.depth == depth,
            r.direct_size == direct_size,
            r.total_size == direct_size + totals(children@),
            r.children == children,
    {
        let mut total: u64 = direct_size;
        let mut i: usize = 0;
        assert(children@.take(0) =~= Seq::<DirTreeNode>::empty());
        while i < children.len()
            invariant
                i <= children@.len(),
                total == direct_size + totals(children@.take(i as int)),
                direct_size + totals(children@) <= u64::MAX,
            decreases children@.len() - i,
        {
            proof {
                assert(children@.take(i + 1).drop_last() =~= children@.take(i as int));
                lemma_totals_prefix(children@, i + 1);
            }
            total = total + children[i].total_size;
            i = i + 1;
        }
        assert(children@.take(children@.len() as int) =~= children@);
        DirTreeNode { path, name, direct_size, total_size: total, rating, depth, children }
    }
}

proof fn lemma_totals_prefix(c: Seq<DirTreeNode>, n: int)
    requires
        0 <= n <= c.len(),
    ensures
        totals(c.take(n)) <= totals(c),
    decreases c.len() - n,
{
    if n < c.len() {
        lemma_totals_prefix(c, n + 1);
        assert(c.take(n + 1).drop_last() =~= c.take(n));
    } else {
        assert(c.take(n) =~= c);
    }
}

/// The nodes of a tree in preorder: the node, then its subtrees in order.
pub open spec fn preorder(n: DirTreeNode) -> Seq<DirTreeNode>
    decreases n, 1nat,
{
    seq![n] + preorder_all(n.children@)
}

/// The preorders of some trees, one after the other.
pub open spec fn preorder_all(c: Seq<DirTreeNode>) -> Seq<DirTreeNode>
    decreases c, 0nat,
{
    if c.len() == 0 {
        seq![]
    } else {
        preorder_all(c.drop_last()) + preorder(c.last())
    }
}

/// The ranking line of a node.
pub open spec fn line_of(e: LargeDirEntry, n: DirTreeNode) -> bool {
    &&& e.path == n.path
    &&& e.name == n.name
    &&& e.size_bytes == n.total_size
    &&& e.size_text@ == format_size_spec(n.total_size as nat)
    &&& e.rating@ == rating_text_spec(n.rating)
    &&& e.depth == n.depth
}

/// `r` is `prev` followed by the lines of `nodes`.
pub open spec fn appended_lines(r: Seq<LargeDirEntry>, prev: Seq<LargeDirEntry>, nodes: Seq<DirTreeNode>) -> bool {
    &&& r.len() == prev.len() + nodes.len()
    &&& forall|i: int| 0 <= i < prev.len() ==> r[i] == prev[i]
    &&& forall|j: int| 0 <= j < nodes.len() ==> line_of(#[trigger] r[prev.len() + j], nodes[j])
}

/// Appends the lines of a tree to `result`, in preorder.
pub fn collect_dirs_from_tree(node: &DirTreeNode, result: &mut Vec<LargeDirEntry>)
    ensures
        appended_lines(final(result)@, old(result)@, preorder(*node)),
    decreases node,
{
    let ghost prev = result@;
    result.push(LargeDirEntry {
        path: node.path.clone(),
        name: node.name.clone(),
        size_bytes: node.total_size,
        size_text: format_size(node.total_size),
        rating: rating_text(node.rating),
        depth: node.depth,
    });
    let ghost base = result@;
    let mut i: usize = 0;
    assert(node.children@.take(0) =~= Seq::<DirTreeNode>::empty());
    while i < node.children.len()
        invariant
            i <= node.children@.len(),
            base.len() == prev.len() + 1,
            forall|k: int| 0 <= k < prev.len() ==> base[k] == prev[k],
            line_of(base[prev.len() as int], *node),
            appended_lines(result@, base, preorder_all(node.children@.take(i as int))),
        decreases node.children@.len() - i,
    {
        let ghost mid = result@;
        let ghost done = preorder_all(node.children@.take(i as int));
        assert(decreases_to!(*node => node.children));
        assert(decreases_to!(node.children => node.children@));
        assert(decreases_to!(node.children@ => node.children@[i as int]));
        collect_dirs_from_tree(&node.children[i], result);
        proof {
            let c = node.children@.take(i + 1);
            assert(c.drop_last() =~= node.children@.take(i as int));
            assert(c.last() == node.children@[i as int]);
            let now = preorder_all(c);
            let sub = preorder(node.children@[i as int]);
            assert(now == done + sub);
            assert forall|j: int| 0 <= j < now.len() implies line_of(#[trigger] result@[base.len() + j], now[j]) by {
                if j < done.len() {
                    assert(result@[base.len() + j] == mid[base.len() + j]);
                } else {
                    let q = j - done.len();
                    assert(result@[mid.len() + q] == result@[base.len() + j]);
                }
            }
        }
        i = i + 1;
    }
    proof {
        assert(node.children@.take(node.children@.len() as int) =~= node.children@);
        let all = preorder(*node);
        assert(all[0] == *node);
        assert forall|j: int| 0 <= j < all.len() implies line_of(#[trigger] result@[prev.len() + j], all[j]) by {
            if j > 0 {
                assert(all[j] == preorder_all(node.children@)[j - 1]);
                assert(result@[prev.len() + j] == result@[base.len() + (j - 1)]);
            }
        }
    }
}

/// Where a stable sort by size, largest first, puts `e` added after the
/// sorted `t`: after every line at least as large.
pub open spec fn insert_by_size(e: LargeDirEntry, t: Seq<LargeDirEntry>) -> Seq<LargeDirEntry>
    decreases t.len(),
{
    if t.len() == 0 || e.size_bytes <= t.last().size_bytes {
        t.push(e)
    } else {
        insert_by_size(e, t.drop_last()).push(t.last())
    }
}

/// The stable sort of the lines by size, largest first.
pub open spec fn by_size_desc(s: Seq<LargeDirEntry>) -> Seq<LargeDirEntry>
    decreases s.len(),
{
    if s.len() == 0 {
        seq![]
    } else {
        insert_by_size(s.last(), by_size_desc(s.drop_last()))
    }
}

/// The first `n` lines (all of them when there are fewer).
pub open spec fn top(s: Seq<LargeDirEntry>, n: nat) -> Seq<LargeDirEntry> {
    if n < s.len() {
        s.take(n as int)
    } else {
        s
    }
}

proof fn lemma_insert_by_size_at(e: LargeDirEntry, t: Seq<LargeDirEntry>, j: int)
    requires
        0 <= j <= t.len(),
        forall|k: int| j <= k < t.len() ==> e.size_bytes > #[trigger] t[k].size_bytes,
        j == 0 || e.size_bytes <= t[j - 1].size_bytes,
    ensures
        insert_by_size(e, t) == t.take(j).push(e) + t.skip(j),
    decreases t.len() - j,
{
    if t.len() == j {
        assert(t.take(j) =~= t);
        assert(t.push(e) =~= t.take(j).push(e) + t.skip(j));
    } else {
        assert(e.size_bytes > t[t.len() - 1].size_bytes);
        assert forall|k: int| j <= k < t.drop_last().len() implies e.size_bytes
            > #[trigger] t.drop_last()[k].size_bytes by {
            assert(t.drop_last()[k] == t[k]);
        }
        if j > 0 {
            assert(t.drop_last()[j - 1] == t[j - 1]);
        }
        lemma_insert_by_size_at(e, t.drop_last(), j);
        assert(t.drop_last().take(j) =~= t.take(j));
        assert((t.take(j).push(e) + t.drop_last().skip(j)).push(t.last()) =~= t.take(j).push(e) + t.skip(j));
    }
}

/// The `top_n` largest directories: the lines sorted by size, largest
/// first, equal sizes keeping their order, cut after `top_n`.
pub fn rank_large_directories(all: Vec<LargeDirEntry>, top_n: usize) -> (r: Vec<LargeDirEntry>)
    ensures
        r@ == top(by_size_desc(all@), top_n as nat),
{
    let mut out: Vec<LargeDirEntry> = Vec::new();
    let mut rest = all;
    let ghost src = rest@;
    let mut i: usize = 0;
    // consume the lines in order, inserting each after the larger or equal ones
    let mut items: Vec<LargeDirEntry> = Vec::new();
    while rest.len() > 0
        invariant
            rest@ + items@.reverse() == src,
        decreases rest@.len(),
    {
        let ghost before_rest = rest@;
        let ghost before_items = items@;
        let e = rest.pop().unwrap();
        items.push(e);
        proof {
            assert(before_rest == rest@.push(e));
            assert(items@.reverse() =~= seq![e] + before_items.reverse());
            assert(rest@ + items@.reverse() =~= before_rest + before_items.reverse());
        }
    }
    // items now holds the lines last first
    assert(items@.reverse() =~= src);
    let count = items.len();
    assert(src.len() == count);
    assert(src.take(0) =~= Seq::<LargeDirEntry>::empty());
    while items.len() > 0
        invariant
            i <= src.len(),
            src.len() <= usize::MAX,
            items@.len() + i == src.len(),
            forall|k: int| 0 <= k < items@.len() ==> items@[k] == src[src.len() - 1 - k],
            out@ == by_size_desc(src.take(i as int)),
        decreases items@.len(),
    {
        let ghost before = items@;
        let e = items.pop().unwrap();
        assert(e == src[i as int]);
        assert forall|k: int| 0 <= k < items@.len() implies items@[k] == src[src.len() - 1 - k] by {
            assert(items@[k] == before[k]);
        }
        let mut j: usize = out.len();
        while j > 0 && e.size_bytes > out[j - 1].size_bytes
            invariant
                j <= out@.len(),
                forall|k: int| j <= k < out@.len() ==> e.size_bytes > #[trigger] out@[k].size_bytes,
            decreases j,
        {
            j = j - 1;
        }
        proof {
            lemma_insert_by_size_at(e, out@, j as int);
            let t = src.take(i + 1);
            assert(t.drop_last() =~= src.take(i as int));
            assert(t.last() == e);
        }
        let ghost sorted_before = out@;
        out.insert(j, e);
        assert(out@ =~= sorted_before.take(j as int).push(e) + sorted_before.skip(j as int));
        i = i + 1;
    }
    assert(src.take(src.len() as int) =~= src);
    if top_n < out.len() {
        out.truncate(top_n);
    }
    out
}

/// Lines in order of size, largest first.
pub open spec fn size_desc(s: Seq<LargeDirEntry>) -> bool {
    forall|i: int, j: int| 0 <= i < j < s.len() ==> s[i].size_bytes >= s[j].size_bytes
}

proof fn lemma_insert_by_size_bound(e: LargeDirEntry, t: Seq<LargeDirEntry>, b: u64)
    requires
        e.size_bytes >= b,
        forall|k: int| 0 <= k < t.len() ==> #[trigger] t[k].size_bytes >= b,
    ensures
        forall|k: int| 0 <= k < insert_by_size(e, t).len() ==> #[trigger] insert_by_size(e, t)[k].size_bytes >= b,
    decreases t.len(),
{
    if t.len() > 0 && e.size_bytes > t.last().size_bytes {
        let d = t.drop_last();
        assert forall|k: int| 0 <= k < d.len() implies #[trigger] d[k].size_bytes >= b by {
            assert(d[k] == t[k]);
        }
        lemma_insert_by_size_bound(e, d, b);
        let m = insert_by_size(e, d);
        assert(t[t.len() - 1].size_bytes >= b);
        assert forall|k: int| 0 <= k < m.push(t.last()).len() implies #[trigger] m.push(t.last())[k].size_bytes >= b by {
            if k < m.len() {
                assert(m.push(t.last())[k] == m[k]);
            }
        }
    } else {
        assert forall|k: int| 0 <= k < t.push(e).len() implies #[trigger] t.push(e)[k].size_bytes >= b by {
            if k < t.len() {
                assert(t.push(e)[k] == t[k]);
            }
        }
    }
}

proof fn lemma_insert_by_size_keeps(e: LargeDirEntry, t: Seq<LargeDirEntry>)
    requires
        size_desc(t),
    ensures
        size_desc(insert_by_size(e, t)),
        insert_by_size(e, t).to_multiset() == t.to_multiset().insert(e),
    decreases t.len(),
{
    broadcast use vstd::seq_lib::to_multiset_build;
    if t.len() == 0 || e.size_bytes <= t.last().size_bytes {
        assert forall|i: int, j: int| 0 <= i < j < t.push(e).len() implies t.push(e)[i].size_bytes
            >= t.push(e)[j].size_bytes by {
            if j == t.len() {
                assert(t[i].size_bytes >= t[t.len() - 1].size_bytes);
            }
        }
    } else {
        let d = t.drop_last();
        let l = t.last();
        assert(size_desc(d));
        lemma_insert_by_size_keeps(e, d);
        assert forall|k: int| 0 <= k < d.len() implies #[trigger] d[k].size_bytes >= l.size_bytes by {
            assert(t[k].size_bytes >= t[t.len() - 1].size_bytes);
        }
        lemma_insert_by_size_bound(e, d, l.size_bytes);
        let m = insert_by_size(e, d);
        assert forall|i: int, j: int| 0 <= i < j < m.push(l).len() implies m.push(l)[i].size_bytes
            >= m.push(l)[j].size_bytes by {
            if j == m.len() {
                assert(m[i].size_bytes >= l.size_bytes);
            }
        }
        assert(d.push(l) == t);
        assert(m.push(l).to_multiset() =~= d.to_multiset().insert(e).insert(l));
        assert(t.to_multiset() =~= d.to_multiset().insert(l));
    }
}

/// Law (the ranking is ordered and loses nothing): the sorted lines are in
/// decreasing order of size and are the same lines as before, as many
/// times each.
pub proof fn lemma_by_size_desc_sorted(s: Seq<LargeDirEntry>)
    ensures
        size_desc(by_size_desc(s)),
        by_size_desc(s).to_multiset() == s.to_multiset(),
    decreases s.len(),
{
    broadcast use vstd::seq_lib::to_multiset_build;
    if s.len() > 0 {
        lemma_by_size_desc_sorted(s.drop_last());
        lemma_insert_by_size_keeps(s.last(), by_size_desc(s.drop_last()));
        assert(s.drop_last().push(s.last()) == s);
    } else {
        assert(by_size_desc(s) =~= s);
    }
}

} // verus!
