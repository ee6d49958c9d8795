use zoekt_mcp::model::{BranchInfo, ListResponse, RepoEntry, RepoInfo, RepoList, RepoStats};
use zoekt_mcp::repos::{format_repos, push_megabytes};

fn megabytes(bytes: u64) -> String {
    let mut out = String::new();
    push_megabytes(&mut out, bytes);
    out
}

fn entry(name: &str, stats: (u64, u64, u64), has_symbols: bool, branches: Vec<(&str, &str)>) -> RepoEntry {
    RepoEntry {
        repository: RepoInfo {
            name: name.to_string(),
            url: String::new(),
            branches: branches
                .into_iter()
                .map(|(n, v)| BranchInfo { name: n.to_string(), version: v.to_string() })
                .collect(),
            has_symbols,
        },
        stats: RepoStats { documents: stats.0, content_bytes: stats.1, index_bytes: stats.2 },
    }
}

fn listing(repos: Option<Vec<RepoEntry>>) -> ListResponse {
    ListResponse { list: RepoList { repos } }
}

#[test]
fn repository_line_with_symbols() {
    let out = format_repos(&listing(Some(vec![entry("nexus", (42, 2_097_152, 1_048_576), true, vec![])])));
    assert_eq!(
        out,
        "1 repositories indexed\n  nexus — 42 files, 2.0 MB content, 1.0 MB index [symbols]\n"
    );
}

#[test]
fn repository_line_without_symbols() {
    let out = format_repos(&listing(Some(vec![entry("tools", (7, 1_572_864, 0), false, vec![])])));
    assert_eq!(out, "1 repositories indexed\n  tools — 7 files, 1.5 MB content, 0.0 MB index\n");
}

#[test]
fn branch_version_is_cut_to_ten_characters() {
    let out = format_repos(&listing(Some(vec![entry(
        "r",
        (1, 0, 0),
        false,
        vec![("main", "abcdefghijklmnop"), ("release", "v1.2"), ("exact", "0123456789"), ("none", "")],
    )])));
    assert_eq!(
        out,
        "1 repositories indexed\n  r — 1 files, 0.0 MB content, 0.0 MB index\n    branch: main (abcdefghij)\n    branch: release (v1.2)\n    branch: exact (0123456789)\n    branch: none ()\n"
    );
}

#[test]
fn branch_version_is_cut_by_characters() {
    let out = format_repos(&listing(Some(vec![entry("r", (1, 0, 0), false, vec![("b", "ääääääääääää")])])));
    assert!(out.ends_with("    branch: b (ääääääääää)\n"));
}

#[test]
fn repositories_in_order_with_their_branches() {
    let out = format_repos(&listing(Some(vec![
        entry("b", (2, 1_048_576, 1_048_576), false, vec![("main", "1111111111222")]),
        entry("a", (1, 3_145_728, 524_288), true, vec![]),
    ])));
    assert_eq!(
        out,
        "2 repositories indexed\n  b — 2 files, 1.0 MB content, 1.0 MB index\n    branch: main (1111111111)\n  a — 1 files, 3.0 MB content, 0.5 MB index [symbols]\n"
    );
}

#[test]
fn empty_and_absent_listing() {
    assert_eq!(format_repos(&listing(None)), "0 repositories indexed\n");
    assert_eq!(format_repos(&listing(Some(vec![]))), "0 repositories indexed\n");
}

#[test]
fn megabytes_round_to_the_nearest_tenth() {
    assert_eq!(megabytes(0), "0.0");
    assert_eq!(megabytes(1), "0.0");
    assert_eq!(megabytes(52_428), "0.0");
    assert_eq!(megabytes(52_429), "0.1");
    assert_eq!(megabytes(1_048_576), "1.0");
    assert_eq!(megabytes(1_100_000), "1.0");
    assert_eq!(megabytes(1_101_005), "1.1");
    assert_eq!(megabytes(10 * 1_048_576 - 1), "10.0");
    assert_eq!(megabytes(123_456_789), "117.7");
}

#[test]
fn megabytes_halfway_go_to_the_even_tenth() {
    assert_eq!(megabytes(262_144), "0.2");
    assert_eq!(megabytes(786_432), "0.8");
    assert_eq!(megabytes(1_048_576 + 262_144), "1.2");
    assert_eq!(megabytes(9 * 1_048_576 + 786_432 + 262_144), "10.0");
}

#[test]
fn megabytes_agree_with_float_formatting() {
    let mut samples: Vec<u64> = vec![0, 1, 262_144, 786_432, 1_310_720, 1_835_008, 999_999, 5_000_000_000];
    let mut x: u64 = 12_345;
    for _ in 0..2000 {
        x = x.wrapping_mul(6_364_136_223_846_793_005).wrapping_add(1_442_695_040_888_963_407);
        samples.push(x >> 20);
        samples.push((x >> 40) * 52_428 + (x & 0xfffff));
    }
    for b in samples {
        let expected = format!("{:.1}", b as f64 / 1_048_576.0);
        assert_eq!(megabytes(b), expected, "for {}", b);
    }
}
