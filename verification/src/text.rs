//! Conversions between whole-file content and the document's lines, and
//! the small pieces of text the renderer composes.
//!
//! Content is split into lines at every line-break character, so a
//! trailing line break shows up as an explicit empty final line and is
//! emitted again when the lines are joined: loading and saving leave the
//! content exactly as it was.

use vstd::prelude::*;
use vstd::std_specs::iter::IteratorSpec;
use crate::state::line_ok;

verus! {

/// The lines of `content`, split at every `'\n'`. Never empty: content
/// without a line break is one line.
pub open spec fn split_lines(content: Seq<char>) -> Seq<Seq<char>>
    decreases content.len(),
{
    if content.len() == 0 {
        seq![Seq::<char>::empty()]
    } else {
        let rest = split_lines(content.drop_last());
        if content.last() == '\n' {
            rest.push(Seq::<char>::empty())
        } else {
            rest.update(rest.len() - 1, rest.last().push(content.last()))
        }
    }
}

/// The document loaded from `content`: empty content gives an empty
/// document, anything else splits at line breaks.
pub open spec fn content_lines(content: Seq<char>) -> Seq<Seq<char>> {
    if content.len() == 0 {
        Seq::<Seq<char>>::empty()
    } else {
        split_lines(content)
    }
}

/// The lines joined with a single `'\n'` between them; no line break is
/// added after the last line.
pub open spec fn joined_lines(lines: Seq<Seq<char>>) -> Seq<char>
    decreases lines.len(),
{
    if lines.len() == 0 {
        Seq::<char>::empty()
    } else if lines.len() == 1 {
        lines[0]
    } else {
        joined_lines(lines.drop_last()) + seq!['\n'] + lines.last()
    }
}

/// The view of each line of a document.
pub open spec fn lines_view(lines: Seq<Vec<char>>) -> Seq<Seq<char>> {
    lines.map(|i: int, line: Vec<char>| line@)
}

pub proof fn lemma_split_lines_len(content: Seq<char>)
    ensures
        split_lines(content).len() >= 1,
    decreases content.len(),
{
    if content.len() > 0 {
        lemma_split_lines_len(content.drop_last());
    }
}

/// Joining the loaded lines gives back the content unchanged; in
/// particular a trailing line break survives a load and save round trip.
pub proof fn lemma_join_split_roundtrip(content: Seq<char>)
    ensures
        joined_lines(content_lines(content)) == content,
    decreases content.len(),
{
    if content.len() == 0 {
    } else if content.len() == 1 {
        let rest = split_lines(content.drop_last());
        assert(rest == seq![Seq::<char>::empty()]);
        if content.last() == '\n' {
            let whole = rest.push(Seq::<char>::empty());
            assert(whole.len() == 2);
            assert(whole.drop_last() =~= rest);
            assert(joined_lines(rest) == rest[0]);
            assert(joined_lines(whole) == joined_lines(rest) + seq!['\n'] + whole.last());
            assert(joined_lines(whole) =~= content);
        } else {
            assert(split_lines(content) == seq![Seq::<char>::empty().push(content.last())]);
            assert(joined_lines(split_lines(content)) =~= content);
        }
    } else {
        lemma_join_split_roundtrip(content.drop_last());
        lemma_split_lines_len(content.drop_last());
        let rest = split_lines(content.drop_last());
        if content.last() == '\n' {
            let whole = rest.push(Seq::<char>::empty());
            assert(whole.drop_last() =~= rest);
            assert(joined_lines(whole) =~= content);
        } else {
            let whole = rest.update(rest.len() - 1, rest.last().push(content.last()));
            if rest.len() == 1 {
                assert(joined_lines(rest) == rest[0]);
                assert(joined_lines(rest) == content.drop_last());
                assert(whole[0] == rest[0].push(content.last()));
                assert(joined_lines(whole) == whole[0]);
                assert(content.drop_last().push(content.last()) =~= content);
                assert(joined_lines(whole) == content);
            } else {
                assert(whole.drop_last() =~= rest.drop_last());
                assert(whole.last() == rest.last().push(content.last()));
                assert(joined_lines(whole) == joined_lines(whole.drop_last()) + seq!['\n']
                    + whole.last());
                assert(joined_lines(rest) == joined_lines(rest.drop_last()) + seq!['\n']
                    + rest.last());
                assert(joined_lines(rest) == content.drop_last());
                assert(joined_lines(whole) =~= content.drop_last() + seq![content.last()]);
                assert(content.drop_last() + seq![content.last()] =~= content);
            }
        }
    }
}

/// Splits whole-file content into the document's lines.
pub fn lines_of_content(content: &Vec<char>) -> (r: Vec<Vec<char>>)
    ensures
        lines_view(r@) == content_lines(content@),
        forall|i: int| 0 <= i < r@.len() ==> line_ok(#[trigger] r@[i]@),
{
    let mut r: Vec<Vec<char>> = Vec::new();
    if content.len() == 0 {
        assert(lines_view(r@) =~= content_lines(content@));
        return r;
    }
    let first: Vec<char> = Vec::new();
    r.push(first);
    let mut i: usize = 0;
    while i < content.len()
        invariant
            i <= content@.len(),
            r@.len() >= 1,
            lines_view(r@) == split_lines(content@.take(i as int)),
            forall|j: int| 0 <= j < r@.len() ==> line_ok(#[trigger] r@[j]@),
        decreases content@.len() - i,
    {
        proof {
            assert(content@.take(i as int + 1).drop_last() =~= content@.take(i as int));
            assert(content@.take(i as int + 1).last() == content@[i as int]);
        }
        let c = content[i];
        if c == '\n' {
            let next: Vec<char> = Vec::new();
            r.push(next);
            proof {
                assert(lines_view(r@) =~= split_lines(content@.take(i as int + 1)));
            }
        } else {
            let last_index = r.len() - 1;
            r[last_index].push(c);
            proof {
                let prev = split_lines(content@.take(i as int));
                assert(lines_view(r@) =~= prev.update(
                    prev.len() - 1,
                    prev.last().push(content@[i as int]),
                ));
            }
        }
        i = i + 1;
    }
    proof {
        assert(content@.take(content@.len() as int) =~= content@);
    }
    r
}

/// Joins the document's lines with a single line break between them.
pub fn join_lines(lines: &Vec<Vec<char>>) -> (r: Vec<char>)
    ensures
        r@ == joined_lines(lines_view(lines@)),
{
    let mut r: Vec<char> = Vec::new();
    let mut i: usize = 0;
    while i < lines.len()
        invariant
            i <= lines@.len(),
            r@ == joined_lines(lines_view(lines@).take(i as int)),
        decreases lines@.len() - i,
    {
        if i > 0 {
            r.push('\n');
        }
        let line = &lines[i];
        let mut j: usize = 0;
        while j < line.len()
            invariant
                j <= line@.len(),
                i < lines@.len(),
                line@ == lines@[i as int]@,
                i > 0 ==> r@ == joined_lines(lines_view(lines@).take(i as int)) + seq!['\n']
                    + line@.take(j as int),
                i == 0 ==> r@ == line@.take(j as int),
            decreases line@.len() - j,
        {
            r.push(line[j]);
            proof {
                assert(line@.take(j as int + 1) =~= line@.take(j as int).push(line@[j as int]));
            }
            j = j + 1;
        }
        proof {
            let view = lines_view(lines@);
            let next = view.take(i as int + 1);
            assert(line@.take(line@.len() as int) =~= line@);
            assert(next.last() == view[i as int]);
            if i == 0 {
                assert(next.len() == 1);
                assert(joined_lines(next) == next[0]);
                assert(r@ == joined_lines(next));
            } else {
                assert(next.drop_last() =~= view.take(i as int));
                assert(joined_lines(next) == joined_lines(view.take(i as int)) + seq!['\n']
                    + view[i as int]);
            }
        }
        i = i + 1;
    }
    proof {
        assert(lines_view(lines@).take(lines@.len() as int) =~= lines_view(lines@));
    }
    r
}

/// Collects the characters of a string slice, in order.
pub fn str_chars(s: &str) -> (r: Vec<char>)
    ensures
        r@ == s@,
{
    let mut chars = s.chars();
    let mut r: Vec<char> = Vec::new();
    loop
        invariant
            chars.obeys_prophetic_iter_laws(),
            chars.decrease() is Some,
            r@ + chars.remaining() == s@,
        ensures
            r@ == s@,
        decreases chars.decrease()->0,
    {
        match chars.next() {
            Some(c) => {
                r.push(c);
            },
            None => {
                proof {
                    assert(chars.remaining().len() == 0);
                    assert(r@ =~= s@);
                }
                break;
            },
        }
    }
    r
}

/// A fresh copy of a piece of text.
pub fn copy_chars(text: &Vec<char>) -> (r: Vec<char>)
    ensures
        r@ == text@,
{
    let mut r: Vec<char> = Vec::new();
    let mut i: usize = 0;
    while i < text.len()
        invariant
            i <= text@.len(),
            r@ == text@.take(i as int),
        decreases text@.len() - i,
    {
        r.push(text[i]);
        proof {
            assert(text@.take(i as int + 1) =~= text@.take(i as int).push(text@[i as int]));
        }
        i = i + 1;
    }
    proof {
        assert(text@.take(text@.len() as int) =~= text@);
    }
    r
}

/// The decimal digits of `n`, most significant first, no sign and no
/// leading zero (except for zero itself).
pub open spec fn decimal_digits(n: nat) -> Seq<char>
    decreases n,
{
    if n < 10 {
        seq![digit_char(n)]
    } else {
        decimal_digits(n / 10).push(digit_char(n % 10))
    }
}

pub open spec fn digit_char(d: nat) -> char {
    if d == 0 {
        '0'
    } else if d == 1 {
        '1'
    } else if d == 2 {
        '2'
    } else if d == 3 {
        '3'
    } else if d == 4 {
        '4'
    } else if d == 5 {
        '5'
    } else if d == 6 {
        '6'
    } else if d == 7 {
        '7'
    } else if d == 8 {
        '8'
    } else {
        '9'
    }
}

fn digit_of(d: usize) -> (c: char)
    requires
        d < 10,
    ensures
        c == digit_char(d as nat),
{
    match d {
        0 => '0',
        1 => '1',
        2 => '2',
        3 => '3',
        4 => '4',
        5 => '5',
        6 => '6',
        7 => '7',
        8 => '8',
        _ => '9',
    }
}

fn push_decimal(n: usize, out: &mut Vec<char>)
    ensures
        final(out)@ == old(out)@ + decimal_digits(n as nat),
    decreases n,
{
    if n >= 10 {
        push_decimal(n / 10, out);
    }
    let d = digit_of(n % 10);
    out.push(d);
    proof {
        assert(final(out)@ =~= old(out)@ + decimal_digits(n as nat));
    }
}

/// Renders `n` in decimal.
pub fn decimal_chars(n: usize) -> (r: Vec<char>)
    ensures
        r@ == decimal_digits(n as nat),
{
    let mut r: Vec<char> = Vec::new();
    push_decimal(n, &mut r);
    proof {
        assert(r@ =~= decimal_digits(n as nat));
    }
    r
}

} // verus!
