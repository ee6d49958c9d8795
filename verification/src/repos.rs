//! The listing of the indexed repositories.

use crate::model::{repos_of, BranchInfo, ListResponse, RepoEntry};
use crate::text::{chars_of, decimal, prefix, push_chars, push_decimal};
use vstd::prelude::*;
use vstd::string::*;

verus! {

/// A size in tenths of a megabyte, rounded to the nearest tenth; a size
/// exactly between two tenths goes to the even one.
pub open spec fn tenths_of_megabytes(bytes: nat) -> nat {
    let whole = (bytes * 10) / 1_048_576;
    let rest = (bytes * 10) % 1_048_576;
    if rest > 524_288 || (rest == 524_288 && whole % 2 == 1) {
        whole + 1
    } else {
        whole
    }
}

/// A size in megabytes with one digit after the point.
pub open spec fn megabytes(bytes: nat) -> Seq<char> {
    decimal(tenths_of_megabytes(bytes) / 10) + "."@ + decimal(tenths_of_megabytes(bytes) % 10)
}

/// The note on a repository that has symbols.
pub open spec fn symbols_note(has_symbols: bool) -> Seq<char> {
    if has_symbols {
        " [symbols]"@
    } else {
        Seq::empty()
    }
}

/// The line of a repository.
pub open spec fn repo_line(entry: RepoEntry) -> Seq<char> {
    "  "@ + entry.repository.name@ + " — "@ + decimal(entry.stats.documents as nat) + " files, "@
        + megabytes(entry.stats.content_bytes as nat) + " MB content, "@ + megabytes(
        entry.stats.index_bytes as nat,
    ) + " MB index"@ + symbols_note(entry.repository.has_symbols) + "\n"@
}

/// The line of a branch, with the first ten characters of its version.
pub open spec fn branch_line(branch: BranchInfo) -> Seq<char> {
    "    branch: "@ + branch.name@ + " ("@ + prefix(branch.version@, 10) + ")\n"@
}

/// The lines of a sequence of branches.
pub open spec fn branch_lines(branches: Seq<BranchInfo>) -> Seq<char>
    decreases branches.len(),
{
    if branches.len() == 0 {
        Seq::empty()
    } else {
        branch_lines(branches.drop_last()) + branch_line(branches.last())
    }
}

/// What the listing shows of one repository.
pub open spec fn repo_text(entry: RepoEntry) -> Seq<char> {
    repo_line(entry) + branch_lines(entry.repository.branches@)
}

/// What the listing shows of a sequence of repositories.
pub open spec fn repos_text(repos: Seq<RepoEntry>) -> Seq<char>
    decreases repos.len(),
{
    if repos.len() == 0 {
        Seq::empty()
    } else {
        repos_text(repos.drop_last()) + repo_text(repos.last())
    }
}

/// The listing of the repositories of an answer.
pub open spec fn repos_report(resp: ListResponse) -> Seq<char> {
    decimal(repos_of(resp).len()) + " repositories indexed\n"@ + repos_text(repos_of(resp))
}

/// Appends a size in megabytes with one digit after the point.
pub fn push_megabytes(out: &mut String, bytes: u64)
    ensures
        final(out)@ == old(out)@ + megabytes(bytes as nat),
{
    let scaled: u128 = bytes as u128 * 10;
    let whole: u128 = scaled / 1_048_576;
    let rest: u128 = scaled % 1_048_576;
    let tenths: u128 = if rest > 524_288 || (rest == 524_288 && whole % 2 == 1) {
        whole + 1
    } else {
        whole
    };
    assert(tenths == tenths_of_megabytes(bytes as nat));
    push_decimal(out, tenths / 10);
    out.append(".");
    push_decimal(out, tenths % 10);
    assert(out@ =~= old(out)@ + megabytes(bytes as nat));
}

fn push_repo_line(out: &mut String, entry: &RepoEntry)
    ensures
        final(out)@ == old(out)@ + repo_line(*entry),
{
    out.append("  ");
    out.append(entry.repository.name.as_str());
    out.append(" — ");
    push_decimal(out, entry.stats.documents as u128);
    out.append(" files, ");
    push_megabytes(out, entry.stats.content_bytes);
    out.append(" MB content, ");
    push_megabytes(out, entry.stats.index_bytes);
    out.append(" MB index");
    if entry.repository.has_symbols {
        out.append(" [symbols]");
    }
    out.append("\n");
    assert(out@ =~= old(out)@ + repo_line(*entry));
}

fn push_branch_line(out: &mut String, branch: &BranchInfo)
    ensures
        final(out)@ == old(out)@ + branch_line(*branch),
{
    out.append("    branch: ");
    out.append(branch.name.as_str());
    out.append(" (");
    let chars = chars_of(branch.version.as_str());
    let keep: usize = if chars.len() > 10 {
        10
    } else {
        chars.len()
    };
    push_chars(out, &chars, 0, keep);
    out.append(")\n");
    proof {
        assert(chars@.subrange(0, keep as int) =~= prefix(branch.version@, 10));
        assert(out@ =~= old(out)@ + branch_line(*branch));
    }
}

fn push_repo(out: &mut String, entry: &RepoEntry)
    ensures
        final(out)@ == old(out)@ + repo_text(*entry),
{
    push_repo_line(out, entry);
    let ghost head = out@;
    let branches = &entry.repository.branches;
    let mut i: usize = 0;
    assert(out@ =~= head + branch_lines(branches@.take(0)));
    while i < branches.len()
        invariant
            i <= branches@.len(),
            out@ == head + branch_lines(branches@.take(i as int)),
        decreases branches@.len() - i,
    {
        push_branch_line(out, &branches[i]);
        proof {
            assert(branches@.take(i + 1).drop_last() =~= branches@.take(i as int));
            assert(out@ =~= head + branch_lines(branches@.take(i + 1)));
        }
        i += 1;
    }
    proof {
        assert(branches@.take(i as int) =~= branches@);
        assert(out@ =~= old(out)@ + repo_text(*entry));
    }
}

/// Renders the listing: the number of repositories, then each repository
/// with its size figures, followed by its branches.
pub fn format_repos(resp: &ListResponse) -> (out: String)
    ensures
        out@ == repos_report(*resp),
{
    let mut out = String::new();
    match &resp.list.repos {
        Some(repos) => {
            push_decimal(&mut out, repos.len() as u128);
            out.append(" repositories indexed\n");
            let ghost head = out@;
            let mut i: usize = 0;
            assert(out@ =~= head + repos_text(repos@.take(0)));
            while i < repos.len()
                invariant
                    i <= repos@.len(),
                    out@ == head + repos_text(repos@.take(i as int)),
                decreases repos@.len() - i,
            {
                push_repo(&mut out, &repos[i]);
                proof {
                    assert(repos@.take(i + 1).drop_last() =~= repos@.take(i as int));
                    assert(out@ =~= head + repos_text(repos@.take(i + 1)));
                }
                i += 1;
            }
            proof {
                assert(repos@.take(i as int) =~= repos@);
                assert(out@ =~= repos_report(*resp));
            }
        },
        None => {
            push_decimal(&mut out, 0);
            out.append(" repositories indexed\n");
            assert(out@ =~= repos_report(*resp));
        },
    }
    out
}

} // verus!
