//! Text primitives shared by the renderers: decimal numbers, line splitting,
//! trailing-whitespace trimming and character prefixes.

use vstd::prelude::*;
use vstd::std_specs::iter::IteratorSpec;
use vstd::string::*;

verus! {

/// The character of a single decimal digit.
pub open spec fn digit_char(d: nat) -> char {
    (48 + d) as char
}

/// The decimal notation of `n`, without sign, padding or leading zeros.
pub open spec fn decimal(n: nat) -> Seq<char>
    decreases n,
{
    if n < 10 {
        seq![digit_char(n)]
    } else {
        decimal(n / 10).push(digit_char(n % 10))
    }
}

/// `String::push` appends one character to the end of the string.
pub assume_specification[ String::push ](s: &mut String, c: char)
    ensures
        final(s)@ == old(s)@.push(c),
;

/// Appends the decimal notation of `n` to `out`.
pub fn push_decimal(out: &mut String, n: u128)
    ensures
        final(out)@ == old(out)@ + decimal(n as nat),
    decreases n,
{
    if n >= 10 {
        push_decimal(out, n / 10);
    }
    let d: u8 = (n % 10) as u8;
    let c: char = (48u8 + d) as char;
    out.push(c);
    proof {
        assert(c == digit_char((n % 10) as nat));
        assert(final(out)@ =~= old(out)@ + decimal(n as nat));
    }
}

/// The characters of a string, as a vector.
pub fn chars_of(s: &str) -> (v: Vec<char>)
    ensures
        v@ == s@,
{
    let mut it = s.chars();
    let mut v: Vec<char> = Vec::new();
    loop
        invariant
            v@ + it.remaining() == s@,
            it.obeys_prophetic_iter_laws(),
            it.decrease() is Some,
        ensures
            v@ == s@,
        decreases it.decrease()->0,
    {
        let ghost before = it;
        match it.next() {
            Some(c) => {
                proof {
                    assert(v@.push(c) + it.remaining() =~= v@ + before.remaining());
                }
                v.push(c);
            },
            None => {
                proof {
                    assert(it.remaining().len() == 0);
                    assert(v@ =~= v@ + it.remaining());
                }
                break;
            },
        }
    }
    v
}

/// Appends the characters `v[from..to]` to `out`.
pub fn push_chars(out: &mut String, v: &Vec<char>, from: usize, to: usize)
    requires
        from <= to <= v@.len(),
    ensures
        final(out)@ == old(out)@ + v@.subrange(from as int, to as int),
{
    let mut i: usize = from;
    while i < to
        invariant
            from <= i <= to <= v@.len(),
            out@ == old(out)@ + v@.subrange(from as int, i as int),
        decreases to - i,
    {
        proof {
            assert(v@.subrange(from as int, i + 1) =~= v@.subrange(from as int, i as int).push(
                v@[i as int],
            ));
            assert((old(out)@ + v@.subrange(from as int, i as int)).push(v@[i as int]) =~= old(
                out,
            )@ + v@.subrange(from as int, i + 1));
        }
        out.push(v[i]);
        i += 1;
    }
}

/// The number of characters from position `from` up to, and without, the
/// next line feed, or up to the end of `s` where none follows.
pub open spec fn line_len(s: Seq<char>, from: int) -> nat
    decreases s.len() - from,
{
    if from < 0 || from >= s.len() || s[from] == '\n' {
        0
    } else {
        1 + line_len(s, from + 1)
    }
}

/// The line that starts at position `from`: it ends before the next line
/// feed, and a carriage return directly before that line feed is left out.
/// A last line without a line feed keeps a carriage return at its end.
pub open spec fn line_at(s: Seq<char>, from: int) -> Seq<char> {
    let end = from + line_len(s, from);
    if end < s.len() && from < end && s[end - 1] == '\r' {
        s.subrange(from, end - 1)
    } else {
        s.subrange(from, end)
    }
}

/// The lines of `s` from position `from` on.
pub open spec fn lines_from(s: Seq<char>, from: int) -> Seq<Seq<char>>
    decreases s.len() - from,
{
    if from < 0 || from >= s.len() {
        Seq::empty()
    } else {
        let next = from + line_len(s, from) + 1;
        if next <= s.len() {
            seq![line_at(s, from)] + lines_from(s, next)
        } else {
            seq![line_at(s, from)]
        }
    }
}

/// The lines of a text. Each line feed ends a line; the text after the last
/// line feed is a line of its own unless it is empty.
pub open spec fn lines(s: Seq<char>) -> Seq<Seq<char>> {
    lines_from(s, 0)
}

/// The views of a vector of character vectors.
pub open spec fn line_views(v: Seq<Vec<char>>) -> Seq<Seq<char>> {
    Seq::new(v.len(), |i: int| v[i]@)
}

/// The position at which the line that starts at `from` ends.
fn find_line_end(v: &Vec<char>, from: usize) -> (end: usize)
    requires
        from <= v@.len(),
    ensures
        end == from + line_len(v@, from as int),
        end <= v@.len(),
{
    let mut j: usize = from;
    while j < v.len() && v[j] != '\n'
        invariant
            from <= j <= v@.len(),
            from + line_len(v@, from as int) == j + line_len(v@, j as int),
        decreases v@.len() - j,
    {
        j += 1;
    }
    j
}

/// Splits a text into its lines.
pub fn split_lines(v: &Vec<char>) -> (out: Vec<Vec<char>>)
    ensures
        line_views(out@) == lines(v@),
{
    let mut out: Vec<Vec<char>> = Vec::new();
    let mut pos: usize = 0;
    proof {
        assert(line_views(out@) + lines_from(v@, 0) =~= lines(v@));
    }
    while pos < v.len()
        invariant
            pos <= v@.len(),
            line_views(out@) + lines_from(v@, pos as int) == lines(v@),
        decreases v@.len() - pos,
    {
        let end = find_line_end(v, pos);
        let stop: usize = if end < v.len() && pos < end && v[end - 1] == '\r' {
            end - 1
        } else {
            end
        };
        let mut line: Vec<char> = Vec::new();
        let mut k: usize = pos;
        while k < stop
            invariant
                pos <= k <= stop <= v@.len(),
                line@ == v@.subrange(pos as int, k as int),
            decreases stop - k,
        {
            line.push(v[k]);
            proof {
                assert(line@ =~= v@.subrange(pos as int, k + 1));
            }
            k += 1;
        }
        proof {
            assert(line@ == line_at(v@, pos as int));
            assert(line_views(out@.push(line)) =~= line_views(out@) + seq![line@]);
            let rest = if end < v@.len() {
                lines_from(v@, end + 1)
            } else {
                Seq::<Seq<char>>::empty()
            };
            assert(lines_from(v@, pos as int) =~= seq![line@] + rest);
            assert(line_views(out@.push(line)) + rest =~= line_views(out@) + lines_from(
                v@,
                pos as int,
            ));
            assert(lines_from(v@, v@.len() as int) =~= Seq::<Seq<char>>::empty());
        }
        out.push(line);
        if end < v.len() {
            pos = end + 1;
        } else {
            pos = end;
        }
    }
    proof {
        assert(line_views(out@) + lines_from(v@, pos as int) =~= line_views(out@));
    }
    out
}

/// Whether `c` is white space: a character with the Unicode property
/// `White_Space`.
pub open spec fn is_space(c: char) -> bool {
    let n = c as u32;
    (0x09 <= n <= 0x0d) || n == 0x20 || n == 0x85 || n == 0xa0 || n == 0x1680 || (0x2000 <= n
        <= 0x200a) || n == 0x2028 || n == 0x2029 || n == 0x202f || n == 0x205f || n == 0x3000
}

/// `s` without the white space at its end.
pub open spec fn trim_end(s: Seq<char>) -> Seq<char>
    decreases s.len(),
{
    if s.len() > 0 && is_space(s.last()) {
        trim_end(s.drop_last())
    } else {
        s
    }
}

/// Whether `c` is white space.
pub fn char_is_space(c: char) -> (b: bool)
    ensures
        b == is_space(c),
{
    let n: u32 = c as u32;
    (0x09 <= n && n <= 0x0d) || n == 0x20 || n == 0x85 || n == 0xa0 || n == 0x1680 || (0x2000 <= n
        && n <= 0x200a) || n == 0x2028 || n == 0x2029 || n == 0x202f || n == 0x205f || n == 0x3000
}

/// The length of `v` without the white space at its end.
pub fn trimmed_len(v: &Vec<char>) -> (n: usize)
    ensures
        n <= v@.len(),
        v@.take(n as int) == trim_end(v@),
{
    let mut n: usize = v.len();
    proof {
        assert(v@.take(n as int) =~= v@);
    }
    while n > 0 && char_is_space(v[n - 1])
        invariant
            n <= v@.len(),
            trim_end(v@.take(n as int)) == trim_end(v@),
        decreases n,
    {
        proof {
            assert(v@.take(n as int).drop_last() =~= v@.take(n - 1));
        }
        n -= 1;
    }
    n
}

/// The first `n` characters of `s`, or all of `s` where it has no more.
pub open spec fn prefix(s: Seq<char>, n: nat) -> Seq<char> {
    if s.len() > n {
        s.take(n as int)
    } else {
        s
    }
}

} // verus!
