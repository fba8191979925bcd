//! Small text-building helpers shared by the user-facing messages.

use vstd::prelude::*;

verus! {

/// Lines joined by newlines.
pub open spec fn joined_lines(lines: Seq<Seq<char>>) -> Seq<char>
    decreases lines.len(),
{
    if lines.len() == 0 {
        seq![]
    } else if lines.len() == 1 {
        lines[0]
    } else {
        joined_lines(lines.drop_last()) + seq!['\n'] + lines.last()
    }
}

/// Where line `k` starts in the joined text.
pub open spec fn line_offset(lines: Seq<Seq<char>>, k: int) -> int
    decreases lines.len(),
{
    if lines.len() <= 1 || k >= lines.len() - 1 {
        if lines.len() <= 1 {
            0
        } else {
            joined_lines(lines.drop_last()).len() + 1int
        }
    } else {
        line_offset(lines.drop_last(), k)
    }
}

/// Each line stands in the joined text as a contiguous piece, at its offset.
pub proof fn law_line_in_joined(lines: Seq<Seq<char>>, k: int)
    requires
        0 <= k < lines.len(),
    ensures
        0 <= line_offset(lines, k),
        line_offset(lines, k) + lines[k].len() <= joined_lines(lines).len(),
        joined_lines(lines).subrange(line_offset(lines, k), line_offset(lines, k) + lines[k].len()) == lines[k],
    decreases lines.len(),
{
    if lines.len() == 1 {
        assert(joined_lines(lines) == lines[0]);
        assert(lines[0].subrange(0, lines[0].len() as int) =~= lines[0]);
    } else {
        let init = lines.drop_last();
        let j = joined_lines(init);
        assert(joined_lines(lines) == j + seq!['\n'] + lines.last());
        if k == lines.len() - 1 {
            assert((j + seq!['\n'] + lines.last()).subrange(j.len() + 1int, j.len() + 1int + lines[k].len()) =~= lines[k]);
        } else {
            law_line_in_joined(init, k);
            let o = line_offset(init, k);
            assert(init[k] == lines[k]);
            assert((j + seq!['\n'] + lines.last()).subrange(o, o + lines[k].len()) =~= j.subrange(o, o + lines[k].len()));
        }
    }
}

/// The texts of a list of strings.
pub open spec fn texts(lines: Seq<String>) -> Seq<Seq<char>> {
    lines.map_values(|l: String| l@)
}

/// Joins lines with newlines.
pub fn join_lines(lines: &Vec<String>) -> (out: String)
    ensures
        out@ == joined_lines(texts(lines@)),
{
    let mut out = String::new();
    let ghost all = texts(lines@);
    let mut i: usize = 0;
    while i < lines.len()
        invariant
            i <= lines.len(),
            all == texts(lines@),
            out@ == joined_lines(all.take(i as int)),
        decreases lines.len() - i,
    {
        assert(all.take(i + 1).drop_last() =~= all.take(i as int));
        if i != 0 {
            out.append("\n");
            proof {
                reveal_strlit("\n");
            }
        }
        out.append(lines[i].as_str());
        i = i + 1;
    }
    assert(all.take(lines.len() as int) =~= all);
    out
}

/// The decimal digits of a number.
pub open spec fn decimal(n: nat) -> Seq<char>
    decreases n,
{
    if n < 10 {
        seq![digit_char(n)]
    } else {
        decimal(n / 10) + seq![digit_char(n % 10)]
    }
}

/// The character of a decimal digit.
pub open spec fn digit_char(d: nat) -> char {
    if d == 0 { '0' }
    else if d == 1 { '1' }
    else if d == 2 { '2' }
    else if d == 3 { '3' }
    else if d == 4 { '4' }
    else if d == 5 { '5' }
    else if d == 6 { '6' }
    else if d == 7 { '7' }
    else if d == 8 { '8' }
    else { '9' }
}

fn digit_text(d: usize) -> (s: &'static str)
    requires
        d < 10,
    ensures
        s@ == seq![digit_char(d as nat)],
{
    proof {
        reveal_strlit("0");
        reveal_strlit("1");
        reveal_strlit("2");
        reveal_strlit("3");
        reveal_strlit("4");
        reveal_strlit("5");
        reveal_strlit("6");
        reveal_strlit("7");
        reveal_strlit("8");
        reveal_strlit("9");
    }
    if d == 0 { "0" }
    else if d == 1 { "1" }
    else if d == 2 { "2" }
    else if d == 3 { "3" }
    else if d == 4 { "4" }
    else if d == 5 { "5" }
    else if d == 6 { "6" }
    else if d == 7 { "7" }
    else if d == 8 { "8" }
    else { "9" }
}

/// Writes a number in decimal.
pub fn decimal_text(n: usize) -> (s: String)
    ensures
        s@ == decimal(n as nat),
    decreases n,
{
    if n < 10 {
        String::from_str(digit_text(n))
    } else {
        let mut s = decimal_text(n / 10);
        s.append(digit_text(n % 10));
        s
    }
}

} // verus!
