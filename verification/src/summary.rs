//! The two short reports: the names of the matching files, and the number
//! of matches in each.

use crate::content::{push_summary_line, summary_line};
use crate::model::{files_of, ChunkMatch, FileMatch, Matches, SearchResult};
use crate::text::{decimal, push_decimal};
use vstd::prelude::*;
use vstd::string::*;

verus! {

/// The names of a sequence of files.
pub open spec fn names_of(files: Seq<FileMatch>) -> Seq<Seq<char>> {
    Seq::new(files.len(), |i: int| files[i].file_name@)
}

/// One name per line.
pub open spec fn name_lines(names: Seq<Seq<char>>) -> Seq<char>
    decreases names.len(),
{
    if names.len() == 0 {
        Seq::empty()
    } else {
        name_lines(names.drop_last()) + names.last() + "\n"@
    }
}

/// The report of the matching files: how many there are, then the name of
/// each file that the service returned, in its order.
pub open spec fn files_report(result: SearchResult) -> Seq<char> {
    "Found "@ + decimal(result.file_count as nat) + " files\n"@ + name_lines(
        names_of(files_of(result)),
    )
}

/// Renders the report of the matching files.
pub fn format_files(result: &SearchResult) -> (out: String)
    ensures
        out@ == files_report(*result),
{
    let mut out = String::new();
    out.append("Found ");
    push_decimal(&mut out, result.file_count as u128);
    out.append(" files\n");
    let ghost head = out@;
    let ghost names = names_of(files_of(*result));
    assert(head =~= "Found "@ + decimal(result.file_count as nat) + " files\n"@);
    match &result.files {
        Some(files) => {
            let mut i: usize = 0;
            assert(out@ =~= head + name_lines(names.take(0)));
            while i < files.len()
                invariant
                    i <= files@.len(),
                    names == names_of(files@),
                    out@ == head + name_lines(names.take(i as int)),
                decreases files@.len() - i,
            {
                out.append(files[i].file_name.as_str());
                out.append("\n");
                proof {
                    assert(names.take(i + 1).drop_last() =~= names.take(i as int));
                    assert(names.take(i + 1).last() == files@[i as int].file_name@);
                    assert(out@ =~= head + name_lines(names.take(i + 1)));
                }
                i += 1;
            }
            assert(names.take(i as int) =~= names);
        },
        None => {
            assert(out@ =~= head + name_lines(names));
        },
    }
    out
}

/// The report of the matching files shows nothing of a result but its file
/// count and the names of its files: two results that agree on these have
/// the same report, whatever their languages, matches and match counts.
pub proof fn lemma_files_report_shows_names_only(a: SearchResult, b: SearchResult)
    requires
        a.file_count == b.file_count,
        names_of(files_of(a)) == names_of(files_of(b)),
    ensures
        files_report(a) == files_report(b),
{
}

/// The number of ranges in a sequence of chunks.
pub open spec fn range_total(chunks: Seq<ChunkMatch>) -> nat
    decreases chunks.len(),
{
    if chunks.len() == 0 {
        0
    } else {
        range_total(chunks.drop_last()) + chunks.last().ranges@.len()
    }
}

/// The number of matches of a file: its ranges over all chunks, or its
/// line matches, or none.
pub open spec fn match_total(matches: Matches) -> nat {
    match matches {
        Matches::Chunks(chunks) => range_total(chunks@),
        Matches::Lines(ms) => ms@.len(),
        Matches::Absent => 0,
    }
}

/// One line of the count report.
pub open spec fn count_line(file: FileMatch) -> Seq<char> {
    file.file_name@ + ":"@ + decimal(match_total(file.matches)) + "\n"@
}

/// The count lines of a sequence of files.
pub open spec fn count_lines(files: Seq<FileMatch>) -> Seq<char>
    decreases files.len(),
{
    if files.len() == 0 {
        Seq::empty()
    } else {
        count_lines(files.drop_last()) + count_line(files.last())
    }
}

/// The count report of a result.
pub open spec fn count_report(result: SearchResult) -> Seq<char> {
    summary_line(result) + count_lines(files_of(result))
}

/// Counts the ranges of a sequence of chunks.
pub fn count_ranges(chunks: &Vec<ChunkMatch>) -> (total: u128)
    ensures
        total == range_total(chunks@),
{
    let mut total: u128 = 0;
    let mut i: usize = 0;
    assert(chunks@.take(0) =~= Seq::<ChunkMatch>::empty());
    while i < chunks.len()
        invariant
            i <= chunks@.len(),
            total == range_total(chunks@.take(i as int)),
            total <= i * 0x1_0000_0000_0000_0000,
        decreases chunks@.len() - i,
    {
        proof {
            assert(chunks@.take(i + 1).drop_last() =~= chunks@.take(i as int));
            assert((i + 1) * 0x1_0000_0000_0000_0000 <= 0x1_0000_0000_0000_0000
                * 0x1_0000_0000_0000_0000) by (nonlinear_arith)
                requires
                    i + 1 <= 0x1_0000_0000_0000_0000,
            ;
            assert((i + 1) * 0x1_0000_0000_0000_0000 == i * 0x1_0000_0000_0000_0000
                + 0x1_0000_0000_0000_0000) by (nonlinear_arith);
        }
        total = total + chunks[i].ranges.len() as u128;
        i += 1;
    }
    assert(chunks@.take(i as int) =~= chunks@);
    total
}

/// Counts the matches of a file.
pub fn count_matches(matches: &Matches) -> (total: u128)
    ensures
        total == match_total(*matches),
{
    match matches {
        Matches::Chunks(chunks) => count_ranges(chunks),
        Matches::Lines(ms) => ms.len() as u128,
        Matches::Absent => 0,
    }
}

/// Renders the count report: the summary line, then each file with the
/// number of its matches.
pub fn format_count(result: &SearchResult) -> (out: String)
    ensures
        out@ == count_report(*result),
{
    let mut out = String::new();
    push_summary_line(&mut out, result);
    match &result.files {
        Some(files) => {
            let mut i: usize = 0;
            assert(out@ =~= summary_line(*result) + count_lines(files@.take(0)));
            while i < files.len()
                invariant
                    i <= files@.len(),
                    out@ == summary_line(*result) + count_lines(files@.take(i as int)),
                decreases files@.len() - i,
            {
                let count = count_matches(&files[i].matches);
                out.append(files[i].file_name.as_str());
                out.append(":");
                push_decimal(&mut out, count);
                out.append("\n");
                proof {
                    assert(files@.take(i + 1).drop_last() =~= files@.take(i as int));
                    assert(out@ =~= summary_line(*result) + count_lines(files@.take(i + 1)));
                }
                i += 1;
            }
            assert(files@.take(i as int) =~= files@);
        },
        None => {
            assert(out@ =~= count_report(*result));
        },
    }
    out
}

} // verus!
