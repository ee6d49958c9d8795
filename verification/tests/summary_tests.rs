use zoekt_mcp::model::{ChunkMatch, FileMatch, LineMatch, Location, Matches, Range, SearchResult};
use zoekt_mcp::summary::{count_matches, count_ranges, format_count, format_files};

fn at(line: u32) -> Location {
    Location { byte_offset: 0, line_number: line, column: 0 }
}

fn chunk_with_ranges(n: u32) -> ChunkMatch {
    let mut ranges = Vec::new();
    for i in 0..n {
        ranges.push(Range { start: at(i + 1), end: at(i + 1) });
    }
    ChunkMatch { content: "eA==".to_string(), content_start: at(1), ranges, symbol_info: None }
}

fn line(n: u32) -> LineMatch {
    LineMatch { line: "x".to_string(), line_number: n, before: None, after: None }
}

fn file(name: &str, language: &str, matches: Matches) -> FileMatch {
    FileMatch { file_name: name.to_string(), language: language.to_string(), matches }
}

#[test]
fn count_sums_the_ranges_of_all_chunks() {
    let r = SearchResult {
        match_count: 5,
        file_count: 1,
        files: Some(vec![file("a.rs", "Rust", Matches::Chunks(vec![chunk_with_ranges(2), chunk_with_ranges(3)]))]),
    };
    assert_eq!(format_count(&r), "5 matches in 1 files\na.rs:5\n");
}

#[test]
fn count_of_line_matches_and_of_no_matches() {
    let r = SearchResult {
        match_count: 3,
        file_count: 3,
        files: Some(vec![
            file("l.rs", "", Matches::Lines(vec![line(1), line(5), line(8)])),
            file("n.rs", "", Matches::Absent),
            file("e.rs", "", Matches::Chunks(vec![])),
        ]),
    };
    assert_eq!(format_count(&r), "3 matches in 3 files\nl.rs:3\nn.rs:0\ne.rs:0\n");
}

#[test]
fn count_without_file_list() {
    let r = SearchResult { match_count: 0, file_count: 0, files: None };
    assert_eq!(format_count(&r), "0 matches in 0 files\n");
}

#[test]
fn count_helpers() {
    assert_eq!(count_ranges(&vec![]), 0);
    assert_eq!(count_ranges(&vec![chunk_with_ranges(4), chunk_with_ranges(0), chunk_with_ranges(1)]), 5);
    assert_eq!(count_matches(&Matches::Absent), 0);
    assert_eq!(count_matches(&Matches::Lines(vec![line(1), line(2)])), 2);
    assert_eq!(count_matches(&Matches::Chunks(vec![chunk_with_ranges(7)])), 7);
}

#[test]
fn files_lists_names_only_in_order() {
    let r = SearchResult {
        match_count: 9,
        file_count: 3,
        files: Some(vec![
            file("z/last.rs", "Rust", Matches::Chunks(vec![chunk_with_ranges(2)])),
            file("a/first.go", "Go", Matches::Lines(vec![line(3)])),
            file("m.txt", "", Matches::Absent),
        ]),
    };
    assert_eq!(format_files(&r), "Found 3 files\nz/last.rs\na/first.go\nm.txt\n");
}

#[test]
fn files_report_ignores_everything_but_names() {
    let a = SearchResult {
        match_count: 9,
        file_count: 2,
        files: Some(vec![
            file("x.rs", "Rust", Matches::Chunks(vec![chunk_with_ranges(2)])),
            file("y.rs", "Rust", Matches::Lines(vec![line(3)])),
        ]),
    };
    let b = SearchResult {
        match_count: 0,
        file_count: 2,
        files: Some(vec![file("x.rs", "", Matches::Absent), file("y.rs", "", Matches::Absent)]),
    };
    assert_eq!(format_files(&a), format_files(&b));
    assert_eq!(format_files(&a), "Found 2 files\nx.rs\ny.rs\n");
}

#[test]
fn files_without_file_list() {
    let r = SearchResult { match_count: 0, file_count: 7, files: None };
    assert_eq!(format_files(&r), "Found 7 files\n");
}
