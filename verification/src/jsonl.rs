//! Files of lines: how a text is read as lines and lines are written as a text.

use vstd::prelude::*;
use vstd::string::*;

use crate::text;
use crate::text::{add_text, blank, characters};

verus! {

/// Where the first line of a text ends: at its newline, or at the end of the text.
pub open spec fn first_line_len(s: Seq<char>) -> nat
    decreases s.len(),
{
    if s.len() == 0 || s[0] == '\n' {
        0
    } else {
        1 + first_line_len(s.drop_first())
    }
}

/// A line ended by a newline, without the carriage return before it.
pub open spec fn without_return(line: Seq<char>) -> Seq<char> {
    if line.len() > 0 && line.last() == '\r' {
        line.drop_last()
    } else {
        line
    }
}

/// The lines of a text. A line ends with a newline, or a carriage return and a
/// newline; the last one may end with the text.
pub open spec fn lines_of(s: Seq<char>) -> Seq<Seq<char>>
    decreases s.len(),
{
    let n = first_line_len(s);
    if s.len() == 0 {
        Seq::empty()
    } else if n >= s.len() {
        seq![s]
    } else {
        seq![without_return(s.take(n as int))] + lines_of(s.skip(n as int + 1))
    }
}

/// The text of some lines: each one with a newline behind it.
pub open spec fn text_of(lines: Seq<Seq<char>>) -> Seq<char>
    decreases lines.len(),
{
    if lines.len() == 0 {
        Seq::empty()
    } else {
        lines[0].push('\n') + text_of(lines.drop_first())
    }
}

/// The lines that hold something besides white space.
pub open spec fn filled(lines: Seq<Seq<char>>) -> Seq<Seq<char>> {
    lines.filter(|l: Seq<char>| !text::is_blank(l))
}

proof fn lemma_first_line(s: Seq<char>, n: int)
    requires
        0 <= n <= s.len(),
        forall|i: int| 0 <= i < n ==> s[i] != '\n',
        n == s.len() || s[n] == '\n',
    ensures
        first_line_len(s) == n,
    decreases s.len(),
{
    if n > 0 {
        assert forall|i: int| 0 <= i < n - 1 implies s.drop_first()[i] != '\n' by {
            assert(s.drop_first()[i] == s[i + 1]);
        }
        lemma_first_line(s.drop_first(), n - 1);
    }
}

/// Reads the lines of a text.
pub fn lines(s: &str) -> (v: Vec<String>)
    ensures
        text::texts(v@) == lines_of(s@),
{
    let chars = characters(s);
    let mut v: Vec<String> = Vec::new();
    let mut start: usize = 0;
    assert(s@.skip(0) =~= s@);
    assert(text::texts(v@) + lines_of(s@) =~= lines_of(s@));
    while start < chars.len()
        invariant
            chars@ == s@,
            start <= chars.len(),
            text::texts(v@) + lines_of(s@.skip(start as int)) == lines_of(s@),
        decreases chars.len() - start,
    {
        let mut end: usize = start;
        while end < chars.len() && chars[end] != '\n'
            invariant
                chars@ == s@,
                start <= end <= chars.len(),
                forall|i: int| start <= i < end ==> s@[i] != '\n',
            decreases chars.len() - end,
        {
            end += 1;
        }
        let ghost rest = s@.skip(start as int);
        let ghost n = end - start;
        proof {
            assert forall|i: int| 0 <= i < n implies rest[i] != '\n' by {
                assert(rest[i] == s@[start + i]);
            }
            lemma_first_line(rest, n);
        }
        let ghost before = text::texts(v@);
        if end == chars.len() {
            add_text(&mut v, s.substring_char(start, end));
            assert(s@.subrange(start as int, end as int) =~= rest);
            assert(text::texts(v@) =~= before + seq![rest]);
            assert(text::texts(v@) == lines_of(s@));
            return v;
        }
        let stop: usize = if end > start && chars[end - 1] == '\r' {
            end - 1
        } else {
            end
        };
        add_text(&mut v, s.substring_char(start, stop));
        proof {
            let line = rest.take(n);
            assert(line =~= s@.subrange(start as int, end as int));
            assert(without_return(line) =~= s@.subrange(start as int, stop as int));
            assert(rest.skip(n + 1) =~= s@.skip(end + 1));
            assert(before + lines_of(rest) =~= before.push(without_return(line)) + lines_of(
                s@.skip(end + 1),
            ));
        }
        start = end + 1;
    }
    assert(s@.skip(start as int).len() == 0);
    assert(text::texts(v@) + lines_of(s@.skip(start as int)) =~= text::texts(v@));
    v
}

proof fn lemma_text_of_push(lines: Seq<Seq<char>>, line: Seq<char>)
    ensures
        text_of(lines.push(line)) == text_of(lines) + line.push('\n'),
    decreases lines.len(),
{
    if lines.len() == 0 {
        assert(lines.push(line).drop_first() =~= lines);
        assert(text_of(lines.push(line)) =~= text_of(lines) + line.push('\n'));
    } else {
        lemma_text_of_push(lines.drop_first(), line);
        assert(lines.push(line).drop_first() =~= lines.drop_first().push(line));
        assert(text_of(lines.push(line)) =~= text_of(lines) + line.push('\n'));
    }
}

/// Writes lines as a text.
pub fn body(lines: &Vec<String>) -> (r: String)
    ensures
        r@ == text_of(text::texts(lines@)),
{
    let mut r: String = String::new();
    let mut i: usize = 0;
    assert(text::texts(lines@).take(0) =~= Seq::<Seq<char>>::empty());
    while i < lines.len()
        invariant
            i <= lines.len(),
            r@ == text_of(text::texts(lines@).take(i as int)),
        decreases lines.len() - i,
    {
        let ghost before = r@;
        proof {
            lemma_text_of_push(text::texts(lines@).take(i as int), lines@[i as int]@);
            assert(text::texts(lines@).take(i + 1) =~= text::texts(lines@).take(i as int).push(
                lines@[i as int]@,
            ));
            reveal_strlit("\n");
        }
        r.append(lines[i].as_str());
        r.append("\n");
        assert(r@ =~= before + lines@[i as int]@.push('\n'));
        i += 1;
    }
    assert(text::texts(lines@).take(i as int) =~= text::texts(lines@));
    r
}

/// The lines that hold something besides white space, in their order.
pub fn nonblank(lines: &Vec<String>) -> (v: Vec<String>)
    ensures
        text::texts(v@) == filled(text::texts(lines@)),
{
    let mut v: Vec<String> = Vec::new();
    let ghost all = text::texts(lines@);
    let ghost keep = |l: Seq<char>| !text::is_blank(l);
    let mut i: usize = 0;
    proof {
        reveal(Seq::filter);
        assert(all.take(0).filter(keep) =~= Seq::<Seq<char>>::empty());
        assert(text::texts(v@) =~= Seq::<Seq<char>>::empty());
    }
    while i < lines.len()
        invariant
            i <= lines.len(),
            all == text::texts(lines@),
            keep == (|l: Seq<char>| !text::is_blank(l)),
            text::texts(v@) == all.take(i as int).filter(keep),
        decreases lines.len() - i,
    {
        proof {
            reveal(Seq::filter);
            assert(all.take(i + 1).drop_last() =~= all.take(i as int));
        }
        if !blank(lines[i].as_str()) {
            add_text(&mut v, lines[i].as_str());
        }
        i += 1;
    }
    assert(all.take(i as int) =~= all);
    v
}

/// The first `max` of some lines, and all of them where there is no maximum.
pub open spec fn at_most(lines: Seq<Seq<char>>, max: Option<usize>) -> Seq<Seq<char>> {
    match max {
        Some(n) => if n < lines.len() {
            lines.take(n as int)
        } else {
            lines
        },
        None => lines,
    }
}

/// The first `max` of the lines that hold something besides white space.
pub fn capped(lines: &Vec<String>, max: Option<usize>) -> (v: Vec<String>)
    ensures
        text::texts(v@) == at_most(filled(text::texts(lines@)), max),
{
    let mut v = nonblank(lines);
    let ghost all = text::texts(v@);
    match max {
        Some(n) => if n < v.len() {
            v.truncate(n);
            assert(text::texts(v@) =~= all.take(n as int));
        },
        None => {},
    }
    v
}

proof fn lemma_lines_are_few(s: Seq<char>)
    ensures
        lines_of(s).len() <= s.len(),
    decreases s.len(),
{
    if s.len() > 0 {
        let n = first_line_len(s);
        if n < s.len() {
            lemma_lines_are_few(s.skip(n as int + 1));
        }
    }
}

/// How many examples a file of lines holds: its lines that are not blank.
pub fn count(s: &str) -> (n: i64)
    requires
        s@.len() <= i64::MAX,
    ensures
        n == filled(lines_of(s@)).len(),
{
    let v = nonblank(&lines(s));
    proof {
        lemma_lines_are_few(s@);
        lines_of(s@).lemma_filter_len(|l: Seq<char>| !text::is_blank(l));
        assert(text::texts(v@).len() == v@.len());
    }
    v.len() as i64
}

/// A text that stays one line where it is written as one.
pub open spec fn is_line(l: Seq<char>) -> bool {
    &&& forall|i: int| 0 <= i < l.len() ==> l[i] != '\n'
    &&& l.len() > 0 ==> l.last() != '\r'
}

/// Lines as they are read back: each without a carriage return at its end.
pub open spec fn without_returns(lines: Seq<Seq<char>>) -> Seq<Seq<char>> {
    Seq::new(lines.len(), |i: int| without_return(lines[i]))
}

/// Lines without newlines are read back line by line.
pub proof fn lemma_lines_stay_apart(lines: Seq<Seq<char>>)
    requires
        forall|i: int| 0 <= i < lines.len() ==> !(#[trigger] lines[i]).contains('\n'),
    ensures
        lines_of(text_of(lines)) == without_returns(lines),
    decreases lines.len(),
{
    let s = text_of(lines);
    if lines.len() > 0 {
        let n = lines[0].len();
        let rest = lines.drop_first();
        assert(s == lines[0].push('\n') + text_of(rest));
        assert forall|i: int| 0 <= i < n implies s[i] != '\n' by {
            assert(s[i] == lines[0][i]);
            assert(lines[0].contains(lines[0][i]));
        }
        assert(s[n as int] == '\n');
        lemma_first_line(s, n as int);
        assert(s.take(n as int) =~= lines[0]);
        assert(s.skip(n as int + 1) =~= text_of(rest));
        assert forall|i: int| 0 <= i < rest.len() implies !(#[trigger] rest[i]).contains('\n') by {
            assert(rest[i] == lines[i + 1]);
        }
        lemma_lines_stay_apart(rest);
        assert(lines_of(s) =~= without_returns(lines));
    } else {
        assert(lines_of(s) =~= without_returns(lines));
    }
}

/// What is read back is what was written: the lines of a text made of lines are
/// those lines.
pub proof fn lemma_lines_read_back(lines: Seq<Seq<char>>)
    requires
        forall|i: int| 0 <= i < lines.len() ==> is_line(#[trigger] lines[i]),
    ensures
        lines_of(text_of(lines)) == lines,
{
    assert forall|i: int| 0 <= i < lines.len() implies !(#[trigger] lines[i]).contains('\n') by {
        assert(is_line(lines[i]));
    }
    lemma_lines_stay_apart(lines);
    assert forall|i: int| 0 <= i < lines.len() implies without_returns(lines)[i] == lines[i] by {
        assert(is_line(lines[i]));
    }
    assert(without_returns(lines) =~= lines);
}

/// Examples that are written as lines are read back as those examples, so a file is
/// counted as holding as many as were written.
pub proof fn lemma_examples_read_back(lines: Seq<Seq<char>>)
    requires
        forall|i: int|
            0 <= i < lines.len() ==> is_line(#[trigger] lines[i]) && !text::is_blank(lines[i]),
    ensures
        filled(lines_of(text_of(lines))) == lines,
{
    assert forall|i: int| 0 <= i < lines.len() implies is_line(#[trigger] lines[i]) by {}
    lemma_lines_read_back(lines);
    lemma_filter_keeps_all(lines, |l: Seq<char>| !text::is_blank(l));
}

/// A filter keeps a list whose items it keeps.
pub(crate) proof fn lemma_filter_keeps_all(s: Seq<Seq<char>>, keep: spec_fn(Seq<char>) -> bool)
    requires
        forall|i: int| 0 <= i < s.len() ==> #[trigger] keep(s[i]),
    ensures
        s.filter(keep) == s,
    decreases s.len(),
{
    reveal(Seq::filter);
    if s.len() > 0 {
        lemma_filter_keeps_all(s.drop_last(), keep);
        assert(keep(s[s.len() - 1]));
        assert(s.drop_last().push(s.last()) =~= s);
    } else {
        assert(s.filter(keep) =~= s);
    }
}

proof fn lemma_first_line_has_no_newline(s: Seq<char>)
    ensures
        first_line_len(s) <= s.len(),
        forall|i: int| 0 <= i < first_line_len(s) ==> s[i] != '\n',
    decreases s.len(),
{
    if s.len() > 0 && s[0] != '\n' {
        lemma_first_line_has_no_newline(s.drop_first());
        assert forall|i: int| 0 <= i < first_line_len(s) implies s[i] != '\n' by {
            if i > 0 {
                assert(s[i] == s.drop_first()[i - 1]);
            }
        }
    }
}

/// The examples that a cap leaves are counted again where they are written to a
/// file of their own: none of them is lost or split.
pub proof fn lemma_kept_examples_are_counted(s: Seq<char>, max: Option<usize>)
    ensures
        filled(lines_of(text_of(at_most(filled(lines_of(s)), max)))).len() == at_most(
            filled(lines_of(s)),
            max,
        ).len(),
{
    let keep = |l: Seq<char>| !text::is_blank(l);
    let kept = at_most(filled(lines_of(s)), max);
    lemma_lines_hold_no_newline(s);
    assert forall|i: int| 0 <= i < kept.len() implies !text::is_blank(#[trigger] kept[i])
        && !kept[i].contains('\n') by {
        let l = filled(lines_of(s))[i];
        assert(kept[i] == l);
        lines_of(s).lemma_filter_pred(keep, i);
        lines_of(s).lemma_filter_contains_rev(keep, l);
        let k = choose|k: int| 0 <= k < lines_of(s).len() && lines_of(s)[k] == l;
        if l.contains('\n') {
            let j = choose|j: int| 0 <= j < l.len() && l[j] == '\n';
            assert(lines_of(s)[k][j] != '\n');
        }
    }
    lemma_lines_stay_apart(kept);
    let read = without_returns(kept);
    assert forall|i: int| 0 <= i < read.len() implies #[trigger] keep(read[i]) by {
        let l = kept[i];
        let c = choose|c: int| 0 <= c < l.len() && !text::is_white(#[trigger] l[c]);
        assert(text::is_white('\r'));
        assert(read[i] == without_return(l));
        assert(read[i][c] == l[c]);
    }
    lemma_filter_keeps_all(read, keep);
}

/// No line of a text holds a newline.
pub proof fn lemma_lines_hold_no_newline(s: Seq<char>)
    ensures
        forall|k: int, i: int|
            0 <= k < lines_of(s).len() && 0 <= i < (#[trigger] lines_of(s)[k]).len() ==> (
            #[trigger] lines_of(s)[k][i]) != '\n',
    decreases s.len(),
{
    if s.len() > 0 {
        let n = first_line_len(s);
        lemma_first_line_has_no_newline(s);
        if n < s.len() {
            let rest = s.skip(n as int + 1);
            lemma_lines_hold_no_newline(rest);
            assert forall|k: int, i: int|
                0 <= k < lines_of(s).len() && 0 <= i < (#[trigger] lines_of(s)[k]).len() implies (
            #[trigger] lines_of(s)[k][i]) != '\n' by {
                if k > 0 {
                    assert(lines_of(s)[k] == lines_of(rest)[k - 1]);
                }
            }
        }
    }
}

/// A line ends at its newline, and without the carriage return before it; what follows is
/// read by itself. A text without a newline is one line, as it stands.
pub proof fn lemma_a_line_ends_at_its_newline(line: Seq<char>, rest: Seq<char>)
    requires
        !line.contains('\n'),
    ensures
        lines_of(line.push('\r').push('\n') + rest) == seq![line] + lines_of(rest),
        line.len() == 0 || line.last() != '\r' ==> lines_of(line.push('\n') + rest) == seq![line]
            + lines_of(rest),
        line.len() > 0 ==> lines_of(line) == seq![line],
        lines_of(Seq::empty()).len() == 0,
{
    assert forall|i: int| 0 <= i < line.len() implies line[i] != '\n' by {
        assert(line.contains(line[i]));
    }
    let n = line.len() as int;
    let s = line.push('\r').push('\n') + rest;
    lemma_first_line(s, n + 1);
    assert(s.take(n + 1) =~= line.push('\r'));
    assert(line.push('\r').drop_last() =~= line);
    assert(s.skip(n + 2) =~= rest);
    let t = line.push('\n') + rest;
    lemma_first_line(t, n);
    assert(t.take(n) =~= line);
    assert(t.skip(n + 1) =~= rest);
    lemma_first_line(line, n);
}

/// A text of lines is the text of the first ones and then that of the others, and a line
/// is written with a newline behind it.
pub proof fn lemma_a_text_is_written_line_by_line(
    a: Seq<Seq<char>>,
    b: Seq<Seq<char>>,
    line: Seq<char>,
)
    ensures
        text_of(a + b) == text_of(a) + text_of(b),
        text_of(seq![line]) == line.push('\n'),
    decreases a.len(),
{
    let none = Seq::<Seq<char>>::empty();
    assert(seq![line].drop_first() =~= none);
    assert(text_of(none) =~= Seq::<char>::empty());
    assert(text_of(seq![line]) =~= line.push('\n'));
    if a.len() == 0 {
        assert(a + b =~= b);
        assert(text_of(a) + text_of(b) =~= text_of(b));
    } else {
        lemma_a_text_is_written_line_by_line(a.drop_first(), b, line);
        assert((a + b).drop_first() =~= a.drop_first() + b);
        assert(text_of(a + b) =~= text_of(a) + text_of(b));
    }
}

/// Only blank lines are left out, and the others keep their order: every line is judged by
/// itself.
pub proof fn lemma_only_blank_lines_are_left_out(
    a: Seq<Seq<char>>,
    b: Seq<Seq<char>>,
    line: Seq<char>,
)
    ensures
        filled(a + b) == filled(a) + filled(b),
        text::trimmed(line).len() == 0 ==> filled(seq![line]) == Seq::<Seq<char>>::empty(),
        text::trimmed(line).len() > 0 ==> filled(seq![line]) == seq![line],
{
    let keep = |l: Seq<char>| !text::is_blank(l);
    Seq::filter_distributes_over_add(a, b, keep);
    text::lemma_trimming_drops_white_space_alone(line);
    reveal(Seq::filter);
    let one = seq![line];
    assert(one.drop_last() =~= Seq::<Seq<char>>::empty());
    assert(Seq::<Seq<char>>::empty().filter(keep) =~= Seq::<Seq<char>>::empty());
    assert(one.filter(keep) =~= if keep(line) {
        one
    } else {
        Seq::empty()
    });
}

/// A cap leaves the first lines, as many as it says, and all of them where there are no
/// more or there is no cap.
pub proof fn lemma_a_cap_leaves_the_first_lines(lines: Seq<Seq<char>>, max: Option<usize>)
    ensures
        at_most(lines, max).len() <= lines.len(),
        at_most(lines, max) == lines.take(at_most(lines, max).len() as int),
        max is None ==> at_most(lines, max) == lines,
        max matches Some(n) ==> at_most(lines, max).len() == vstd::math::min(
            n as int,
            lines.len() as int,
        ),
{
    assert(lines.take(lines.len() as int) =~= lines);
}

} // verus!
