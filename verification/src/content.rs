//! The content report: every returned line of every file, numbered, with
//! the matching lines marked.

use crate::decode::{decode_b64, decoded_text};
use crate::model::{files_of, ChunkMatch, FileMatch, LineMatch, Matches, Range, SearchResult, SymbolInfo};
use crate::text::{
    chars_of, decimal, line_views, lines, push_chars, push_decimal, split_lines, trim_end,
    trimmed_len,
};
use vstd::prelude::*;
use vstd::string::*;

verus! {

/// The first line of the content and count reports.
pub open spec fn summary_line(result: SearchResult) -> Seq<char> {
    decimal(result.match_count as nat) + " matches in "@ + decimal(result.file_count as nat)
        + " files\n"@
}

/// The language of a file in brackets, or nothing where it has none.
pub open spec fn language_note(language: Seq<char>) -> Seq<char> {
    if language.len() == 0 {
        Seq::empty()
    } else {
        " ("@ + language + ")"@
    }
}

/// The header of a file's section, with the blank line before it.
pub open spec fn file_header(file: FileMatch) -> Seq<char> {
    "\n--- "@ + file.file_name@ + language_note(file.language@) + " ---\n"@
}

/// The kind of a symbol in square brackets, or nothing where it has none.
pub open spec fn kind_note(kind: Seq<char>) -> Seq<char> {
    if kind.len() == 0 {
        Seq::empty()
    } else {
        " ["@ + kind + "]"@
    }
}

/// The parent of a symbol, or nothing where it has none.
pub open spec fn parent_note(parent: Seq<char>) -> Seq<char> {
    if parent.len() == 0 {
        Seq::empty()
    } else {
        " in "@ + parent
    }
}

/// The line that announces a symbol.
pub open spec fn symbol_line(sym: SymbolInfo) -> Seq<char> {
    "symbol: "@ + sym.sym@ + kind_note(sym.kind@) + parent_note(sym.parent@) + "\n"@
}

/// The lines of the symbols that are present, in order.
pub open spec fn symbol_lines(syms: Seq<Option<SymbolInfo>>) -> Seq<char>
    decreases syms.len(),
{
    if syms.len() == 0 {
        Seq::empty()
    } else {
        symbol_lines(syms.drop_last()) + match syms.last() {
            Some(sym) => symbol_line(sym),
            None => Seq::empty(),
        }
    }
}

/// The symbol slots of a chunk, none where the list is absent.
pub open spec fn symbols_of(chunk: ChunkMatch) -> Seq<Option<SymbolInfo>> {
    match chunk.symbol_info {
        Some(syms) => syms@,
        None => Seq::empty(),
    }
}

/// Whether line `n` lies within some range, its first and last line
/// included.
pub open spec fn in_some_range(ranges: Seq<Range>, n: int) -> bool {
    exists|k: int|
        0 <= k < ranges.len() && (#[trigger] ranges[k]).start.line_number <= n
            <= ranges[k].end.line_number
}

/// The mark in front of a line: `>` for a matching line, a space otherwise.
pub open spec fn marker(is_match: bool) -> Seq<char> {
    if is_match {
        ">"@
    } else {
        " "@
    }
}

/// One line of a chunk with its mark and number.
pub open spec fn chunk_line(ranges: Seq<Range>, n: int, text: Seq<char>) -> Seq<char> {
    marker(in_some_range(ranges, n)) + decimal(n as nat) + ":"@ + text + "\n"@
}

/// The lines of a chunk; the first one has the number `start`.
pub open spec fn chunk_lines(ranges: Seq<Range>, start: int, lines: Seq<Seq<char>>) -> Seq<char>
    decreases lines.len(),
{
    if lines.len() == 0 {
        Seq::empty()
    } else {
        chunk_lines(ranges, start, lines.drop_last()) + chunk_line(
            ranges,
            start + lines.len() - 1,
            lines.last(),
        )
    }
}

/// What the report shows of one chunk: its symbols, then its lines.
pub open spec fn chunk_text(chunk: ChunkMatch) -> Seq<char> {
    symbol_lines(symbols_of(chunk)) + chunk_lines(
        chunk.ranges@,
        chunk.content_start.line_number as int,
        lines(decoded_text(chunk.content@)),
    )
}

/// What the report shows of a sequence of chunks.
pub open spec fn chunks_text(chunks: Seq<ChunkMatch>) -> Seq<char>
    decreases chunks.len(),
{
    if chunks.len() == 0 {
        Seq::empty()
    } else {
        chunks_text(chunks.drop_last()) + chunk_text(chunks.last())
    }
}

/// A line number that does not go below zero.
pub open spec fn clamped(n: int) -> nat {
    if n < 0 {
        0
    } else {
        n as nat
    }
}

/// One context line with its number.
pub open spec fn context_line(n: int, text: Seq<char>) -> Seq<char> {
    " "@ + decimal(clamped(n)) + ":"@ + text + "\n"@
}

/// Context lines; the first one has the number `first`, where that is not
/// negative.
pub open spec fn context_lines(first: int, lines: Seq<Seq<char>>) -> Seq<char>
    decreases lines.len(),
{
    if lines.len() == 0 {
        Seq::empty()
    } else {
        context_lines(first, lines.drop_last()) + context_line(
            first + lines.len() - 1,
            lines.last(),
        )
    }
}

/// The lines of an optional context payload.
pub open spec fn context_of(payload: Option<String>) -> Seq<Seq<char>> {
    match payload {
        Some(p) => lines(decoded_text(p@)),
        None => Seq::empty(),
    }
}

/// The matching line itself, without the white space at its end.
pub open spec fn matched_line(m: LineMatch) -> Seq<char> {
    ">"@ + decimal(m.line_number as nat) + ": "@ + trim_end(decoded_text(m.line@)) + "\n"@
}

/// What the report shows of one line match: the lines before it, numbered
/// backwards from the match so that the last of them is the line just
/// before it, the match, and the lines after it.
pub open spec fn line_match_text(m: LineMatch) -> Seq<char> {
    context_lines(m.line_number - context_of(m.before).len(), context_of(m.before))
        + matched_line(m) + context_lines(m.line_number + 1, context_of(m.after))
}

/// What the report shows of a sequence of line matches.
pub open spec fn line_matches_text(ms: Seq<LineMatch>) -> Seq<char>
    decreases ms.len(),
{
    if ms.len() == 0 {
        Seq::empty()
    } else {
        line_matches_text(ms.drop_last()) + line_match_text(ms.last())
    }
}

/// The body of a file's section.
pub open spec fn matches_text(matches: Matches) -> Seq<char> {
    match matches {
        Matches::Chunks(chunks) => chunks_text(chunks@),
        Matches::Lines(ms) => line_matches_text(ms@),
        Matches::Absent => Seq::empty(),
    }
}

/// The section of one file.
pub open spec fn file_text(file: FileMatch) -> Seq<char> {
    file_header(file) + matches_text(file.matches)
}

/// The sections of a sequence of files.
pub open spec fn files_text(files: Seq<FileMatch>) -> Seq<char>
    decreases files.len(),
{
    if files.len() == 0 {
        Seq::empty()
    } else {
        files_text(files.drop_last()) + file_text(files.last())
    }
}

/// The content report of a result.
pub open spec fn content_report(result: SearchResult) -> Seq<char> {
    summary_line(result) + files_text(files_of(result))
}

/// Appends the first line of the content and count reports.
pub fn push_summary_line(out: &mut String, result: &SearchResult)
    ensures
        final(out)@ == old(out)@ + summary_line(*result),
{
    push_decimal(out, result.match_count as u128);
    out.append(" matches in ");
    push_decimal(out, result.file_count as u128);
    out.append(" files\n");
    assert(out@ =~= old(out)@ + summary_line(*result));
}

fn push_file_header(out: &mut String, file: &FileMatch)
    ensures
        final(out)@ == old(out)@ + file_header(*file),
{
    out.append("\n--- ");
    out.append(file.file_name.as_str());
    if !file.language.as_str().is_empty() {
        out.append(" (");
        out.append(file.language.as_str());
        out.append(")");
    }
    out.append(" ---\n");
    assert(out@ =~= old(out)@ + file_header(*file));
}

fn push_symbol_line(out: &mut String, sym: &SymbolInfo)
    ensures
        final(out)@ == old(out)@ + symbol_line(*sym),
{
    out.append("symbol: ");
    out.append(sym.sym.as_str());
    if !sym.kind.as_str().is_empty() {
        out.append(" [");
        out.append(sym.kind.as_str());
        out.append("]");
    }
    if !sym.parent.as_str().is_empty() {
        out.append(" in ");
        out.append(sym.parent.as_str());
    }
    out.append("\n");
    assert(out@ =~= old(out)@ + symbol_line(*sym));
}

fn push_symbol_lines(out: &mut String, syms: &Vec<Option<SymbolInfo>>)
    ensures
        final(out)@ == old(out)@ + symbol_lines(syms@),
{
    let mut i: usize = 0;
    assert(out@ =~= old(out)@ + symbol_lines(syms@.take(0)));
    while i < syms.len()
        invariant
            i <= syms@.len(),
            out@ == old(out)@ + symbol_lines(syms@.take(i as int)),
        decreases syms@.len() - i,
    {
        let ghost before = out@;
        match &syms[i] {
            Some(sym) => {
                push_symbol_line(out, sym);
            },
            None => {},
        }
        proof {
            assert(syms@.take(i + 1).drop_last() =~= syms@.take(i as int));
            assert(out@ =~= old(out)@ + symbol_lines(syms@.take(i + 1)));
        }
        i += 1;
    }
    assert(syms@.take(i as int) =~= syms@);
}

/// Whether line `n` lies within some range of `ranges`.
pub fn line_in_ranges(ranges: &Vec<Range>, n: u128) -> (b: bool)
    ensures
        b == in_some_range(ranges@, n as int),
{
    let mut k: usize = 0;
    while k < ranges.len()
        invariant
            k <= ranges@.len(),
            forall|j: int|
                0 <= j < k ==> !((#[trigger] ranges@[j]).start.line_number <= n
                    <= ranges@[j].end.line_number),
        decreases ranges@.len() - k,
    {
        if ranges[k].start.line_number as u128 <= n && n <= ranges[k].end.line_number as u128 {
            return true;
        }
        k += 1;
    }
    false
}

fn push_chunk_lines(out: &mut String, ranges: &Vec<Range>, start: u32, ls: &Vec<Vec<char>>)
    ensures
        final(out)@ == old(out)@ + chunk_lines(ranges@, start as int, line_views(ls@)),
{
    let ghost all = line_views(ls@);
    let mut i: usize = 0;
    assert(out@ =~= old(out)@ + chunk_lines(ranges@, start as int, all.take(0)));
    while i < ls.len()
        invariant
            i <= ls@.len(),
            all == line_views(ls@),
            out@ == old(out)@ + chunk_lines(ranges@, start as int, all.take(i as int)),
        decreases ls@.len() - i,
    {
        let n: u128 = start as u128 + i as u128;
        let hit = line_in_ranges(ranges, n);
        if hit {
            out.append(">");
        } else {
            out.append(" ");
        }
        push_decimal(out, n);
        out.append(":");
        push_chars(out, &ls[i], 0, ls[i].len());
        out.append("\n");
        proof {
            assert(ls@[i as int]@.subrange(0, ls@[i as int]@.len() as int) =~= ls@[i as int]@);
            assert(all.take(i + 1).drop_last() =~= all.take(i as int));
            assert(all.take(i + 1).last() == ls@[i as int]@);
            assert(out@ =~= old(out)@ + chunk_lines(ranges@, start as int, all.take(i + 1)));
        }
        i += 1;
    }
    assert(all.take(i as int) =~= all);
}

fn push_chunk(out: &mut String, chunk: &ChunkMatch)
    ensures
        final(out)@ == old(out)@ + chunk_text(*chunk),
{
    let content = decode_b64(chunk.content.as_str());
    match &chunk.symbol_info {
        Some(syms) => {
            push_symbol_lines(out, syms);
        },
        None => {},
    }
    let chars = chars_of(content.as_str());
    let ls = split_lines(&chars);
    push_chunk_lines(out, &chunk.ranges, chunk.content_start.line_number, &ls);
    assert(out@ =~= old(out)@ + chunk_text(*chunk));
}

fn push_chunks(out: &mut String, chunks: &Vec<ChunkMatch>)
    ensures
        final(out)@ == old(out)@ + chunks_text(chunks@),
{
    let mut i: usize = 0;
    assert(out@ =~= old(out)@ + chunks_text(chunks@.take(0)));
    while i < chunks.len()
        invariant
            i <= chunks@.len(),
            out@ == old(out)@ + chunks_text(chunks@.take(i as int)),
        decreases chunks@.len() - i,
    {
        push_chunk(out, &chunks[i]);
        proof {
            assert(chunks@.take(i + 1).drop_last() =~= chunks@.take(i as int));
            assert(out@ =~= old(out)@ + chunks_text(chunks@.take(i + 1)));
        }
        i += 1;
    }
    assert(chunks@.take(i as int) =~= chunks@);
}

/// Splits an optional context payload into its lines.
fn context_lines_of(payload: &Option<String>) -> (ls: Vec<Vec<char>>)
    ensures
        line_views(ls@) == context_of(*payload),
{
    match payload {
        Some(p) => {
            let text = decode_b64(p.as_str());
            let chars = chars_of(text.as_str());
            split_lines(&chars)
        },
        None => {
            let ls: Vec<Vec<char>> = Vec::new();
            assert(line_views(ls@) =~= Seq::<Seq<char>>::empty());
            ls
        },
    }
}

/// Appends context lines, numbered from `line_number + 1` on where `after`
/// is set, else backwards from `line_number`.
fn push_context_lines(out: &mut String, line_number: u32, after: bool, ls: &Vec<Vec<char>>)
    ensures
        final(out)@ == old(out)@ + context_lines(
            if after {
                line_number + 1
            } else {
                line_number - ls@.len()
            },
            line_views(ls@),
        ),
{
    let ghost all = line_views(ls@);
    let ghost first: int = if after {
        line_number + 1
    } else {
        line_number - ls@.len()
    };
    let mut i: usize = 0;
    assert(out@ =~= old(out)@ + context_lines(first, all.take(0)));
    while i < ls.len()
        invariant
            i <= ls@.len(),
            all == line_views(ls@),
            first == if after {
                line_number + 1
            } else {
                line_number - ls@.len()
            },
            out@ == old(out)@ + context_lines(first, all.take(i as int)),
        decreases ls@.len() - i,
    {
        let n: u128 = if after {
            line_number as u128 + 1 + i as u128
        } else {
            let back: usize = ls.len() - i;
            if back as u128 > line_number as u128 {
                0
            } else {
                line_number as u128 - back as u128
            }
        };
        assert(n == clamped(first + i));
        out.append(" ");
        push_decimal(out, n);
        out.append(":");
        push_chars(out, &ls[i], 0, ls[i].len());
        out.append("\n");
        proof {
            assert(ls@[i as int]@.subrange(0, ls@[i as int]@.len() as int) =~= ls@[i as int]@);
            assert(all.take(i + 1).drop_last() =~= all.take(i as int));
            assert(all.take(i + 1).last() == ls@[i as int]@);
            assert(out@ =~= old(out)@ + context_lines(first, all.take(i + 1)));
        }
        i += 1;
    }
    assert(all.take(i as int) =~= all);
}

fn push_line_match(out: &mut String, m: &LineMatch)
    ensures
        final(out)@ == old(out)@ + line_match_text(*m),
{
    let decoded = decode_b64(m.line.as_str());
    let before = context_lines_of(&m.before);
    push_context_lines(out, m.line_number, false, &before);
    out.append(">");
    push_decimal(out, m.line_number as u128);
    out.append(": ");
    let chars = chars_of(decoded.as_str());
    let keep = trimmed_len(&chars);
    push_chars(out, &chars, 0, keep);
    out.append("\n");
    let after = context_lines_of(&m.after);
    push_context_lines(out, m.line_number, true, &after);
    proof {
        assert(chars@.subrange(0, keep as int) =~= chars@.take(keep as int));
        assert(out@ =~= old(out)@ + line_match_text(*m));
    }
}

fn push_line_matches(out: &mut String, ms: &Vec<LineMatch>)
    ensures
        final(out)@ == old(out)@ + line_matches_text(ms@),
{
    let mut i: usize = 0;
    assert(out@ =~= old(out)@ + line_matches_text(ms@.take(0)));
    while i < ms.len()
        invariant
            i <= ms@.len(),
            out@ == old(out)@ + line_matches_text(ms@.take(i as int)),
        decreases ms@.len() - i,
    {
        push_line_match(out, &ms[i]);
        proof {
            assert(ms@.take(i + 1).drop_last() =~= ms@.take(i as int));
            assert(out@ =~= old(out)@ + line_matches_text(ms@.take(i + 1)));
        }
        i += 1;
    }
    assert(ms@.take(i as int) =~= ms@);
}

fn push_file(out: &mut String, file: &FileMatch)
    ensures
        final(out)@ == old(out)@ + file_text(*file),
{
    push_file_header(out, file);
    match &file.matches {
        Matches::Chunks(chunks) => {
            push_chunks(out, chunks);
        },
        Matches::Lines(ms) => {
            push_line_matches(out, ms);
        },
        Matches::Absent => {},
    }
    assert(out@ =~= old(out)@ + file_text(*file));
}

/// Renders the content report: the summary line, then for each file, in
/// order, its header and every line that the service returned of it, each
/// with its number and a mark that tells matching lines from context.
pub fn format_content(result: &SearchResult) -> (out: String)
    ensures
        out@ == content_report(*result),
{
    let mut out = String::new();
    push_summary_line(&mut out, result);
    match &result.files {
        Some(files) => {
            let mut i: usize = 0;
            assert(out@ =~= summary_line(*result) + files_text(files@.take(0)));
            while i < files.len()
                invariant
                    i <= files@.len(),
                    out@ == summary_line(*result) + files_text(files@.take(i as int)),
                decreases files@.len() - i,
            {
                push_file(&mut out, &files[i]);
                proof {
                    assert(files@.take(i + 1).drop_last() =~= files@.take(i as int));
                    assert(out@ =~= summary_line(*result) + files_text(files@.take(i + 1)));
                }
                i += 1;
            }
            assert(files@.take(i as int) =~= files@);
        },
        None => {
            assert(out@ =~= content_report(*result));
        },
    }
    out
}

} // verus!
