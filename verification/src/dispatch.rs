//! The two operations, `search` and `list_repos`, without their remote
//! call: what is sent for an input, and what text is returned for what came
//! back.

use crate::content::{content_report, format_content};
use crate::model::{ListResponse, SearchResult};
use crate::repos::{format_repos, repos_report};
use crate::summary::{count_report, files_report, format_count, format_files};
use vstd::prelude::*;
use vstd::string::*;

verus! {

/// The input of the operation `search`.
pub struct SearchInput {
    pub query: String,
    /// The largest number of files to return; 25 where absent.
    pub limit: Option<u32>,
    /// The number of context lines round each match; where absent, 2 for
    /// the content report and 0 for the others.
    pub context_lines: Option<u32>,
    /// `content`, `files_with_matches` or `count`.
    pub output_mode: Option<String>,
}

/// The input of the operation `list_repos`.
pub struct ListReposInput {
    /// A filter on the repositories; empty where absent.
    pub query: Option<String>,
}

/// The options of a search request.
pub struct SearchOpts {
    pub max_doc_display_count: u32,
    pub num_context_lines: u32,
    pub chunk_matches: bool,
    pub whole: bool,
}

/// The body of a search request.
pub struct SearchRequest {
    pub q: String,
    pub opts: Option<SearchOpts>,
}

/// The body of a listing request.
pub struct ListRequest {
    pub q: String,
}

/// The report that a search is answered with.
#[derive(Clone, Copy, Debug, PartialEq, Eq, Structural)]
pub enum OutputMode {
    Content,
    FilesWithMatches,
    Count,
}

/// Why a remote call gave no result.
pub enum RemoteError {
    /// The service could not be reached at `url`.
    Unreachable { url: String, cause: String },
    /// The service answered with a status that is no success.
    Status { status: String, body: String },
    /// The answer was not of the expected shape.
    Malformed { cause: String },
}

/// The mode that a name stands for: a name that is neither `content` nor
/// `count`, and an absent one, stand for the report of the matching files.
pub open spec fn mode_of(name: Option<Seq<char>>) -> OutputMode {
    match name {
        Some(n) => if n == "content"@ {
            OutputMode::Content
        } else if n == "count"@ {
            OutputMode::Count
        } else {
            OutputMode::FilesWithMatches
        },
        None => OutputMode::FilesWithMatches,
    }
}

/// The view of an optional string.
pub open spec fn name_view(name: Option<String>) -> Option<Seq<char>> {
    match name {
        Some(n) => Some(n@),
        None => None,
    }
}

/// The options that are sent for the given inputs.
pub open spec fn planned_opts(
    limit: Option<u32>,
    context_lines: Option<u32>,
    mode: OutputMode,
) -> SearchOpts {
    SearchOpts {
        max_doc_display_count: match limit {
            Some(l) => l,
            None => 25,
        },
        num_context_lines: match context_lines {
            Some(c) => c,
            None => if mode == OutputMode::Content {
                2
            } else {
                0
            },
        },
        chunk_matches: mode == OutputMode::Content,
        whole: false,
    }
}

/// The text that an error is reported with.
pub open spec fn error_text(error: RemoteError) -> Seq<char> {
    match error {
        RemoteError::Unreachable { url, cause } => "Cannot reach "@ + url@ + ": "@ + cause@,
        RemoteError::Status { status, body } => "Zoekt returned "@ + status@ + ": "@ + body@,
        RemoteError::Malformed { cause } => "Failed to parse response: "@ + cause@,
    }
}

/// The report of a result in the given mode.
pub open spec fn report(mode: OutputMode, result: SearchResult) -> Seq<char> {
    match mode {
        OutputMode::Content => content_report(result),
        OutputMode::Count => count_report(result),
        OutputMode::FilesWithMatches => files_report(result),
    }
}

/// The mode that the input of a search asks for.
pub fn output_mode(name: &Option<String>) -> (mode: OutputMode)
    ensures
        mode == mode_of(name_view(*name)),
{
    match name {
        Some(n) => {
            let content = String::from_str("content");
            let count = String::from_str("count");
            if *n == content {
                OutputMode::Content
            } else if *n == count {
                OutputMode::Count
            } else {
                OutputMode::FilesWithMatches
            }
        },
        None => OutputMode::FilesWithMatches,
    }
}

/// The request that is sent for the input of a search.
pub fn search_request(input: SearchInput) -> (req: SearchRequest)
    ensures
        req.q@ == input.query@,
        req.opts == Some(
            planned_opts(input.limit, input.context_lines, mode_of(name_view(input.output_mode))),
        ),
{
    let mode = output_mode(&input.output_mode);
    let is_content = match mode {
        OutputMode::Content => true,
        _ => false,
    };
    let context: u32 = match input.context_lines {
        Some(c) => c,
        None => if is_content {
            2
        } else {
            0
        },
    };
    let limit: u32 = match input.limit {
        Some(l) => l,
        None => 25,
    };
    SearchRequest {
        q: input.query,
        opts: Some(
            SearchOpts {
                max_doc_display_count: limit,
                num_context_lines: context,
                chunk_matches: is_content,
                whole: false,
            },
        ),
    }
}

/// The request that is sent for the input of a listing.
pub fn list_request(input: ListReposInput) -> (req: ListRequest)
    ensures
        req.q@ == match input.query {
            Some(q) => q@,
            None => Seq::<char>::empty(),
        },
{
    match input.query {
        Some(q) => ListRequest { q },
        None => ListRequest { q: String::new() },
    }
}

impl RemoteError {
    /// The text that the error is reported with.
    pub fn message(&self) -> (text: String)
        ensures
            text@ == error_text(*self),
    {
        let mut out = String::new();
        match self {
            RemoteError::Unreachable { url, cause } => {
                out.append("Cannot reach ");
                out.append(url.as_str());
                out.append(": ");
                out.append(cause.as_str());
                assert(out@ =~= error_text(*self));
            },
            RemoteError::Status { status, body } => {
                out.append("Zoekt returned ");
                out.append(status.as_str());
                out.append(": ");
                out.append(body.as_str());
                assert(out@ =~= error_text(*self));
            },
            RemoteError::Malformed { cause } => {
                out.append("Failed to parse response: ");
                out.append(cause.as_str());
                assert(out@ =~= error_text(*self));
            },
        }
        out
    }
}

/// The text that a search returns: the report of the result in the given
/// mode, or the text of the error. A failure is text like any other.
pub fn search_text(mode: OutputMode, outcome: &Result<SearchResult, RemoteError>) -> (text: String)
    ensures
        text@ == match *outcome {
            Ok(result) => report(mode, result),
            Err(error) => error_text(error),
        },
{
    match outcome {
        Ok(result) => match mode {
            OutputMode::Content => format_content(result),
            OutputMode::Count => format_count(result),
            OutputMode::FilesWithMatches => format_files(result),
        },
        Err(error) => error.message(),
    }
}

/// The text that a listing returns: the listing, or the text of the error.
pub fn list_text(outcome: &Result<ListResponse, RemoteError>) -> (text: String)
    ensures
        text@ == match *outcome {
            Ok(resp) => repos_report(resp),
            Err(error) => error_text(error),
        },
{
    match outcome {
        Ok(resp) => format_repos(resp),
        Err(error) => error.message(),
    }
}

/// A search without a mode is the search for the matching files: the same
/// options are sent, and the same report is made of every result.
pub proof fn lemma_default_mode(
    limit: Option<u32>,
    context_lines: Option<u32>,
    result: SearchResult,
)
    ensures
        mode_of(None) == mode_of(Some("files_with_matches"@)),
        mode_of(None) == OutputMode::FilesWithMatches,
        planned_opts(limit, context_lines, mode_of(None)) == planned_opts(
            limit,
            context_lines,
            mode_of(Some("files_with_matches"@)),
        ),
        report(mode_of(None), result) == report(mode_of(Some("files_with_matches"@)), result),
        report(mode_of(None), result) == files_report(result),
{
    reveal_strlit("files_with_matches");
    reveal_strlit("content");
    reveal_strlit("count");
    assert("files_with_matches"@.len() == 18);
    assert("content"@.len() == 7);
    assert("count"@.len() == 5);
}

} // verus!
