//! Ratings, size texts and the shaping of scan results.

use cdisklinker::scanner::{
    collect_dirs_from_tree, format_size, is_forbidden_lowered, is_forbidden_path, is_warning_path,
    rank_large_directories, rate_path, rating_text, safe_margin, scan_subdirectories, tree_rating, ChildProbe,
    DirTreeNode, DirectoryRating, LargeDirEntry,
};

#[test]
fn test_forbidden_and_warning_paths() {
    assert!(is_forbidden_path("C:\\Windows"));
    assert!(is_forbidden_path("c:\\windows\\system32"));
    assert!(is_forbidden_path("c:\\Program Files (x86)\\Common Files"));
    assert!(is_forbidden_path("C:\\"));

    assert!(!is_forbidden_path("C:\\Users\\Tony\\Downloads"));

    assert!(is_warning_path("C:\\Users\\Tony\\AppData\\Local"));
    assert!(!is_warning_path("C:\\Users\\Tony\\Desktop"));
}

#[test]
fn forbidden_list_edges() {
    assert!(is_forbidden_path("C:"));
    assert!(is_forbidden_path("C:\\$Recycle.Bin"));
    assert!(is_forbidden_path("C:\\Documents and Settings\\x"));
    // a name that only starts like a system directory is not below it
    assert!(!is_forbidden_path("C:\\Windows.old"));
    assert!(!is_forbidden_path("C:\\Bootcamp"));
    assert!(!is_forbidden_path("D:\\Windows"));
    // the lowered check is exact about case
    assert!(!is_forbidden_lowered("C:\\Windows"));
    assert!(is_forbidden_lowered("c:\\windows"));
}

#[test]
fn rating_prefers_forbidden_over_warning() {
    assert_eq!(rate_path("C:\\Windows\\AppData"), DirectoryRating::Forbidden);
    assert_eq!(rate_path("C:\\Users\\A\\APPDATA\\Roaming"), DirectoryRating::Warning);
    assert_eq!(rate_path("C:\\Games"), DirectoryRating::Safe);
    assert_eq!(tree_rating("C:\\Program Files"), None);
    assert_eq!(tree_rating("C:\\Users\\A\\AppData"), Some(DirectoryRating::Warning));
    assert_eq!(tree_rating("C:\\Games"), Some(DirectoryRating::Safe));
    assert_eq!(rating_text(DirectoryRating::Warning), "Warning");
}

fn float_format(bytes: u64) -> String {
    const KB: u64 = 1024;
    const MB: u64 = KB * 1024;
    const GB: u64 = MB * 1024;
    if bytes >= GB {
        format!("{:.2} GB", bytes as f64 / GB as f64)
    } else if bytes >= MB {
        format!("{:.2} MB", bytes as f64 / MB as f64)
    } else if bytes >= KB {
        format!("{:.2} KB", bytes as f64 / KB as f64)
    } else {
        format!("{} Bytes", bytes)
    }
}

#[test]
fn format_size_exact_values() {
    assert_eq!(format_size(0), "0 Bytes");
    assert_eq!(format_size(1023), "1023 Bytes");
    assert_eq!(format_size(1024), "1.00 KB");
    assert_eq!(format_size(1536), "1.50 KB");
    assert_eq!(format_size(1048576), "1.00 MB");
    assert_eq!(format_size(1073741824), "1.00 GB");
    assert_eq!(format_size(104857600), "100.00 MB");
    assert_eq!(format_size(u64::MAX), "17179869184.00 GB");
}

#[test]
fn format_size_rounds_ties_to_even() {
    // 1.125 KB and 1.375 KB lie exactly between two hundredths
    assert_eq!(format_size(1152), "1.12 KB");
    assert_eq!(format_size(1408), "1.38 KB");
    assert_eq!(format_size(1152), float_format(1152));
    assert_eq!(format_size(1408), float_format(1408));
}

#[test]
fn format_size_agrees_with_float_formatting() {
    let mut samples: Vec<u64> = Vec::new();
    for i in 0..4096u64 {
        samples.push(i);
        samples.push(1024 * i + 7 * i);
        samples.push(1048576 * i + 13 * i * i);
        samples.push(1073741824 * i + 1234567 * i);
    }
    let mut x: u64 = 0x9E37_79B9_7F4A_7C15;
    for _ in 0..20000 {
        x ^= x << 13;
        x ^= x >> 7;
        x ^= x << 17;
        samples.push(x);
        samples.push(x >> 20);
        samples.push(x >> 40);
    }
    for k in 0..64u32 {
        let p = 1u64 << k;
        samples.push(p);
        samples.push(p - 1);
        samples.push(p.wrapping_add(1));
        samples.push(p | (p >> 1));
    }
    // values above 2^53 that round when made a float
    samples.push((1u64 << 53) + 1);
    samples.push((1u64 << 54) + 2);
    samples.push((1u64 << 54) + 6);
    samples.push(u64::MAX - 1024);
    for b in samples {
        assert_eq!(format_size(b), float_format(b), "bytes = {}", b);
    }
}

fn probe(path: &str, name: &str, is_dir: bool, is_junction: bool, subdirs: bool) -> ChildProbe {
    ChildProbe {
        path: path.to_string(),
        name: name.to_string(),
        is_dir,
        is_junction,
        has_subdirectories: subdirs,
    }
}

#[test]
fn scan_level_filters_rates_and_sorts_by_lowercase_name() {
    let listing = vec![
        probe("C:\\zeta", "zeta", true, false, true),
        probe("C:\\file.txt", "file.txt", false, false, false),
        probe("C:\\Windows", "Windows", true, false, true),
        probe("C:\\Alpha", "Alpha", true, false, false),
        probe("C:\\moved", "moved", false, true, true),
        probe("C:\\beta", "beta", true, false, true),
    ];
    let entries = scan_subdirectories(&listing, 2);
    let names: Vec<&str> = entries.iter().map(|e| e.name.as_str()).collect();
    assert_eq!(names, vec!["Alpha", "beta", "moved", "Windows", "zeta"]);
    assert_eq!(entries[3].rating, DirectoryRating::Forbidden);
    assert_eq!(entries[0].rating, DirectoryRating::Safe);
    // a junction is listed but never has children
    assert!(!entries[2].has_children);
    assert!(entries[1].has_children);
    assert!(!entries[0].has_children);
    for e in &entries {
        assert_eq!(e.depth, 2);
        assert_eq!(e.size_in_bytes, 0);
        assert!(e.size_on_disk_formatted.is_empty());
        assert!(!e.expanded);
    }
}

#[test]
fn scan_level_keeps_order_of_equal_names() {
    let listing = vec![probe("C:\\x\\A", "A", true, false, false), probe("C:\\y\\a", "a", true, false, false)];
    let entries = scan_subdirectories(&listing, 0);
    assert_eq!(entries[0].path, "C:\\x\\A");
    assert_eq!(entries[1].path, "C:\\y\\a");
}

fn leaf(path: &str, total: u64, depth: i32) -> DirTreeNode {
    DirTreeNode::leaf(path.to_string(), path.to_string(), DirectoryRating::Safe, depth, total)
}

#[test]
fn tree_totals_and_preorder_lines() {
    let a1 = leaf("a1", 100, 2);
    let a2 = leaf("a2", 5000, 2);
    let a = DirTreeNode::branch("a".to_string(), "a".to_string(), DirectoryRating::Warning, 1, 10, vec![a1, a2]);
    assert_eq!(a.total_size, 5110);
    let mut lines: Vec<LargeDirEntry> = Vec::new();
    collect_dirs_from_tree(&a, &mut lines);
    let paths: Vec<&str> = lines.iter().map(|l| l.path.as_str()).collect();
    assert_eq!(paths, vec!["a", "a1", "a2"]);
    assert_eq!(lines[0].size_text, "4.99 KB");
    assert_eq!(lines[0].rating, "Warning");
    assert_eq!(lines[1].size_text, "100 Bytes");
    assert_eq!(lines[2].depth, 2);
}

fn line(path: &str, size: u64) -> LargeDirEntry {
    LargeDirEntry {
        path: path.to_string(),
        name: path.to_string(),
        size_bytes: size,
        size_text: format_size(size),
        rating: "Safe".to_string(),
        depth: 1,
    }
}

#[test]
fn ranking_is_descending_stable_and_cut() {
    let all = vec![line("a", 10), line("b", 30), line("c", 10), line("d", 20), line("e", 30)];
    let top = rank_large_directories(all, 4);
    let paths: Vec<&str> = top.iter().map(|l| l.path.as_str()).collect();
    assert_eq!(paths, vec!["b", "e", "d", "a"]);
    let all = vec![line("a", 1), line("b", 2)];
    let top = rank_large_directories(all, 10);
    let paths: Vec<&str> = top.iter().map(|l| l.path.as_str()).collect();
    assert_eq!(paths, vec!["b", "a"]);
    assert!(rank_large_directories(Vec::new(), 3).is_empty());
    assert!(rank_large_directories(vec![line("a", 1)], 0).is_empty());
}

fn float_margin(required: u64) -> Option<u64> {
    ((required as f64 * 1.1) as u64).checked_add(1024 * 1024 * 1024)
}

#[test]
fn safe_margin_matches_float_formula() {
    assert_eq!(safe_margin(0), Some(1073741824));
    assert_eq!(safe_margin(13), Some(1073741824 + 14));
    assert_eq!(safe_margin(10), Some(1073741824 + 11));
    assert_eq!(safe_margin(u64::MAX), None);
    let mut x: u64 = 0x2545_F491_4F6C_DD1D;
    let mut samples: Vec<u64> = (0..5000u64).collect();
    for _ in 0..50000 {
        x ^= x << 13;
        x ^= x >> 7;
        x ^= x << 17;
        samples.push(x);
        samples.push(x >> 11);
        samples.push(x >> 30);
        samples.push(x >> 50);
    }
    for k in 0..64u32 {
        samples.push(1u64 << k);
        samples.push((1u64 << k) - 1);
        samples.push((1u64 << k) + 1);
    }
    for b in samples {
        assert_eq!(safe_margin(b), float_margin(b), "bytes = {}", b);
        if let Some(m) = safe_margin(b) {
            assert!(m >= b + 1073741824 || m == u64::MAX);
        }
    }
}
