//! The data that the search service answers with.

use vstd::prelude::*;

verus! {

/// A position in a file.
pub struct Location {
    pub byte_offset: u32,
    /// Line number, counted from 1.
    pub line_number: u32,
    pub column: u32,
}

/// One exact match span within a chunk.
pub struct Range {
    pub start: Location,
    pub end: Location,
}

/// Describes the symbol that a match lies in.
pub struct SymbolInfo {
    pub sym: String,
    /// Empty where the service gave none.
    pub kind: String,
    /// Empty where the service gave none.
    pub parent: String,
    pub parent_kind: String,
}

/// A contiguous region of a file with one or more matches in it.
pub struct ChunkMatch {
    /// The text of the chunk, base-64 encoded or plain.
    pub content: String,
    /// Where the first line of the chunk stands in the file.
    pub content_start: Location,
    pub ranges: Vec<Range>,
    /// One entry per range, in the same order; `None` where no symbol is
    /// known for that range.
    pub symbol_info: Option<Vec<Option<SymbolInfo>>>,
}

/// A single matching line with the context lines around it.
pub struct LineMatch {
    /// The matching line, base-64 encoded or plain.
    pub line: String,
    /// Line number, counted from 1.
    pub line_number: u32,
    /// The lines before the match, joined by line feeds.
    pub before: Option<String>,
    /// The lines after the match, joined by line feeds.
    pub after: Option<String>,
}

/// The matches of one file, in one of the two forms the service knows.
pub enum Matches {
    /// Matches grouped by contiguous regions.
    Chunks(Vec<ChunkMatch>),
    /// One entry per matching line.
    Lines(Vec<LineMatch>),
    /// The service sent no match data for the file.
    Absent,
}

/// One file of a search result.
pub struct FileMatch {
    pub file_name: String,
    /// Empty where the service named no language.
    pub language: String,
    pub matches: Matches,
}

/// The result of one search.
pub struct SearchResult {
    pub match_count: u64,
    pub file_count: u64,
    /// The files in rank order; `None` where the service sent no list.
    pub files: Option<Vec<FileMatch>>,
}

/// One branch of an indexed repository.
pub struct BranchInfo {
    pub name: String,
    pub version: String,
}

/// An indexed repository.
pub struct RepoInfo {
    pub name: String,
    pub url: String,
    pub branches: Vec<BranchInfo>,
    pub has_symbols: bool,
}

/// Size figures of an indexed repository.
pub struct RepoStats {
    pub documents: u64,
    pub content_bytes: u64,
    pub index_bytes: u64,
}

/// A repository with its size figures.
pub struct RepoEntry {
    pub repository: RepoInfo,
    pub stats: RepoStats,
}

/// The repositories that the service lists.
pub struct RepoList {
    /// `None` where the service sent no list.
    pub repos: Option<Vec<RepoEntry>>,
}

/// The answer to a listing request.
pub struct ListResponse {
    pub list: RepoList,
}

/// The files of a result, none where the list is absent.
pub open spec fn files_of(result: SearchResult) -> Seq<FileMatch> {
    match result.files {
        Some(files) => files@,
        None => Seq::empty(),
    }
}

/// The repositories of a listing, none where the list is absent.
pub open spec fn repos_of(resp: ListResponse) -> Seq<RepoEntry> {
    match resp.list.repos {
        Some(repos) => repos@,
        None => Seq::empty(),
    }
}

} // verus!
