//! Experience transition logs are JSON lines files: one record per line,
//! blank lines ignored. This module picks the record lines out of a file's text.

use vstd::prelude::*;
use crate::text_fields::chars_of;

verus! {

/// Whether `c` is white space in the Unicode sense (the characters that
/// `str::trim` removes).
pub open spec fn is_white(c: char) -> bool {
    ||| '\u{9}' <= c <= '\u{d}'
    ||| c == ' '
    ||| c == '\u{85}'
    ||| c == '\u{a0}'
    ||| c == '\u{1680}'
    ||| '\u{2000}' <= c <= '\u{200a}'
    ||| c == '\u{2028}'
    ||| c == '\u{2029}'
    ||| c == '\u{202f}'
    ||| c == '\u{205f}'
    ||| c == '\u{3000}'
}

/// The pieces of `s` between line feeds, in order (always at least one).
pub open spec fn split_lines(s: Seq<char>) -> Seq<Seq<char>>
    decreases s.len(),
{
    if s.len() == 0 {
        seq![Seq::<char>::empty()]
    } else {
        let rest = split_lines(s.drop_last());
        if s.last() == '\n' {
            rest.push(Seq::<char>::empty())
        } else {
            rest.update(rest.len() - 1, rest.last().push(s.last()))
        }
    }
}

/// A line without the carriage return that may end it.
pub open spec fn strip_cr(l: Seq<char>) -> Seq<char> {
    if l.len() > 0 && l.last() == '\r' {
        l.drop_last()
    } else {
        l
    }
}

/// Whether a line holds anything but white space.
pub open spec fn has_content(l: Seq<char>) -> bool {
    exists|k: int| 0 <= k < l.len() && !is_white(#[trigger] l[k])
}

/// The lines among `ps`, each ended by a line feed, that hold a record,
/// carriage returns before the line feed removed, in order.
pub open spec fn keep_records(ps: Seq<Seq<char>>) -> Seq<Seq<char>>
    decreases ps.len(),
{
    if ps.len() == 0 {
        Seq::empty()
    } else {
        let r = keep_records(ps.drop_last());
        let l = strip_cr(ps.last());
        if has_content(l) {
            r.push(l)
        } else {
            r
        }
    }
}

/// The record lines of a JSON lines text: those of its lines that hold
/// anything but white space. A carriage return is part of a line ending only
/// before a line feed; the last line needs no line ending.
pub open spec fn record_lines(s: Seq<char>) -> Seq<Seq<char>> {
    let ps = split_lines(s);
    let r = keep_records(ps.drop_last());
    if has_content(ps.last()) {
        r.push(ps.last())
    } else {
        r
    }
}

proof fn lemma_split_lines_nonempty(s: Seq<char>)
    ensures
        split_lines(s).len() >= 1,
    decreases s.len(),
{
    if s.len() > 0 {
        lemma_split_lines_nonempty(s.drop_last());
    }
}

fn is_white_char(c: char) -> (r: bool)
    ensures
        r == is_white(c),
{
    ('\u{9}' <= c && c <= '\u{d}') || c == ' ' || c == '\u{85}' || c == '\u{a0}' || c == '\u{1680}'
        || ('\u{2000}' <= c && c <= '\u{200a}') || c == '\u{2028}' || c == '\u{2029}' || c
        == '\u{202f}' || c == '\u{205f}' || c == '\u{3000}'
}

/// Whether `line[a..b]` holds anything but white space.
fn span_has_content(line: &Vec<char>, a: usize, b: usize) -> (r: bool)
    requires
        a <= b <= line.len(),
    ensures
        r == has_content(line@.subrange(a as int, b as int)),
{
    let ghost l = line@.subrange(a as int, b as int);
    let mut k: usize = a;
    while k < b
        invariant
            a <= k <= b <= line.len(),
            l == line@.subrange(a as int, b as int),
            forall|j: int| 0 <= j < k - a ==> is_white(#[trigger] l[j]),
        decreases b - k,
    {
        if !is_white_char(line[k]) {
            assert(l[k - a] == line@[k as int]);
            return true;
        }
        k += 1;
    }
    assert(!has_content(l)) by {
        assert forall|j: int| 0 <= j < l.len() implies is_white(#[trigger] l[j]) by {}
    }
    false
}

/// The record lines of the text of a transitions log, in file order: the lines
/// that hold anything but white space, without their line endings.
pub fn transition_record_lines(contents: &str) -> (r: Vec<String>)
    ensures
        r@.len() == record_lines(contents@).len(),
        forall|i: int| 0 <= i < r@.len() ==> #[trigger] r@[i]@ == record_lines(contents@)[i],
{
    let line = chars_of(contents);
    let n = line.len();
    let ghost s = contents@;
    let mut out: Vec<String> = Vec::new();
    let mut start: usize = 0;
    let mut i: usize = 0;
    while i < n
        invariant
            n == line.len(),
            line@ == s,
            s == contents@,
            start <= i <= n,
            split_lines(s.take(i as int)).len() >= 1,
            split_lines(s.take(i as int)).last() == s.subrange(start as int, i as int),
            out@.len() == keep_records(split_lines(s.take(i as int)).drop_last()).len(),
            forall|j: int|
                0 <= j < out@.len() ==> #[trigger] out@[j]@ == keep_records(
                    split_lines(s.take(i as int)).drop_last(),
                )[j],
        decreases n - i,
    {
        let ghost prev = split_lines(s.take(i as int));
        assert(s.take(i + 1).drop_last() =~= s.take(i as int));
        assert(s.take(i + 1).last() == s[i as int]);
        if line[i] == '\n' {
            let ghost piece = s.subrange(start as int, i as int);
            let end: usize = if i > start && line[i - 1] == '\r' {
                i - 1
            } else {
                i
            };
            assert(s.subrange(start as int, end as int) =~= strip_cr(piece));
            proof {
                assert(split_lines(s.take(i + 1)) == prev.push(Seq::<char>::empty()));
                assert(split_lines(s.take(i + 1)).drop_last() =~= prev);
            }
            if span_has_content(&line, start, end) {
                let text = contents.substring_char(start, end);
                out.push(text.to_owned());
            }
            start = i + 1;
            proof {
                assert(s.subrange(start as int, i + 1) =~= Seq::<char>::empty());
            }
        } else {
            proof {
                let next = prev.update(prev.len() - 1, prev.last().push(s[i as int]));
                assert(split_lines(s.take(i + 1)) == next);
                assert(next.drop_last() =~= prev.drop_last());
                assert(next.last() =~= s.subrange(start as int, i + 1));
            }
        }
        i += 1;
    }
    proof {
        lemma_split_lines_nonempty(s);
        assert(s.take(n as int) =~= s);
    }
    if span_has_content(&line, start, n) {
        let text = contents.substring_char(start, n);
        out.push(text.to_owned());
    }
    out
}

proof fn lemma_pieces_have_no_line_feed(s: Seq<char>)
    ensures
        split_lines(s).len() >= 1,
        forall|i: int, k: int|
            0 <= i < split_lines(s).len() && 0 <= k < split_lines(s)[i].len() ==> #[trigger] split_lines(
                s,
            )[i][k] != '\n',
    decreases s.len(),
{
    if s.len() > 0 {
        lemma_pieces_have_no_line_feed(s.drop_last());
        let rest = split_lines(s.drop_last());
        if s.last() != '\n' {
            let last = rest.last().push(s.last());
            assert forall|i: int, k: int|
                0 <= i < split_lines(s).len() && 0 <= k < split_lines(s)[i].len() implies #[trigger] split_lines(
                s,
            )[i][k] != '\n' by {
                if i == rest.len() - 1 {
                    assert(split_lines(s)[i] == last);
                    if k < rest.last().len() {
                        assert(last[k] == rest[i][k]);
                    }
                } else {
                    assert(split_lines(s)[i] == rest[i]);
                }
            }
        }
    }
}

proof fn lemma_kept_lines_come_from_pieces(ps: Seq<Seq<char>>)
    requires
        forall|i: int, k: int| 0 <= i < ps.len() && 0 <= k < ps[i].len() ==> #[trigger] ps[i][k] != '\n',
    ensures
        forall|j: int, k: int|
            0 <= j < keep_records(ps).len() && 0 <= k < keep_records(ps)[j].len() ==> #[trigger] keep_records(
                ps,
            )[j][k] != '\n',
        forall|j: int| 0 <= j < keep_records(ps).len() ==> has_content(#[trigger] keep_records(ps)[j]),
    decreases ps.len(),
{
    if ps.len() > 0 {
        let rest = ps.drop_last();
        assert forall|i: int, k: int| 0 <= i < rest.len() && 0 <= k < rest[i].len() implies #[trigger] rest[i][k]
            != '\n' by {
            assert(rest[i] == ps[i]);
        }
        lemma_kept_lines_come_from_pieces(rest);
        let l = strip_cr(ps.last());
        assert forall|k: int| 0 <= k < l.len() implies l[k] != '\n' by {
            assert(l[k] == ps[ps.len() - 1][k]);
        }
        let r = keep_records(rest);
        let kr = keep_records(ps);
        assert forall|j: int, k: int| 0 <= j < kr.len() && 0 <= k < kr[j].len() implies #[trigger] kr[j][k]
            != '\n' by {
            if j < r.len() {
                assert(kr[j] == r[j]);
            } else {
                assert(kr[j] == l);
            }
        }
        assert forall|j: int| 0 <= j < kr.len() implies has_content(#[trigger] kr[j]) by {
            if j < r.len() {
                assert(kr[j] == r[j]);
            } else {
                assert(kr[j] == l);
            }
        }
    }
}

proof fn lemma_single_piece(s: Seq<char>)
    requires
        forall|k: int| 0 <= k < s.len() ==> s[k] != '\n',
    ensures
        split_lines(s) == seq![s],
    decreases s.len(),
{
    if s.len() > 0 {
        let t = s.drop_last();
        lemma_single_piece(t);
        assert(t.push(s.last()) =~= s);
        assert(seq![t].update(0, t.push(s.last())) =~= seq![s]);
    } else {
        assert(s =~= Seq::<char>::empty());
    }
}

/// Whether some character of `l` is not white space.
pub open spec fn some_char_not_white(l: Seq<char>) -> bool {
    exists|k: int| 0 <= k < l.len() && !is_white(#[trigger] l[k])
}

proof fn lemma_record_line_has_content(s: Seq<char>, j: int)
    requires
        0 <= j < record_lines(s).len(),
    ensures
        some_char_not_white(record_lines(s)[j]),
{
    lemma_pieces_have_no_line_feed(s);
    let ps = split_lines(s);
    let init = ps.drop_last();
    assert forall|i: int, k: int| 0 <= i < init.len() && 0 <= k < init[i].len() implies #[trigger] init[i][k]
        != '\n' by {
        assert(init[i] == ps[i]);
    }
    lemma_kept_lines_come_from_pieces(init);
    let r = keep_records(init);
    let line = record_lines(s)[j];
    if j < r.len() {
        assert(line == r[j]);
        assert(has_content(r[j]));
    } else {
        assert(line == ps.last());
    }
    assert(has_content(line));
    let k = choose|k: int| 0 <= k < line.len() && !is_white(#[trigger] line[k]);
    assert(!is_white(record_lines(s)[j][k]));
}

/// Every record line holds something but white space and no line feed; a
/// text without line feeds is a single record exactly when it holds anything
/// but white space, and then that record is the whole text (a lone carriage
/// return at its end included).
pub proof fn lemma_record_lines_are_nonblank_lines(s: Seq<char>)
    ensures
        forall|j: int, k: int|
            0 <= j < record_lines(s).len() && 0 <= k < record_lines(s)[j].len() ==> #[trigger] record_lines(
                s,
            )[j][k] != '\n',
        forall|j: int| 0 <= j < record_lines(s).len() ==> some_char_not_white(#[trigger] record_lines(s)[j]),
        (forall|k: int| 0 <= k < s.len() ==> s[k] != '\n') ==> {
            &&& (exists|k: int| 0 <= k < s.len() && !is_white(#[trigger] s[k])) ==> record_lines(s)
                == seq![s]
            &&& (forall|k: int| 0 <= k < s.len() ==> is_white(#[trigger] s[k])) ==> record_lines(s).len()
                == 0
        },
{
    lemma_pieces_have_no_line_feed(s);
    let ps = split_lines(s);
    let init = ps.drop_last();
    assert forall|i: int, k: int| 0 <= i < init.len() && 0 <= k < init[i].len() implies #[trigger] init[i][k]
        != '\n' by {
        assert(init[i] == ps[i]);
    }
    lemma_kept_lines_come_from_pieces(init);
    let r = keep_records(init);
    assert forall|j: int, k: int|
        0 <= j < record_lines(s).len() && 0 <= k < record_lines(s)[j].len() implies #[trigger] record_lines(
        s,
    )[j][k] != '\n' by {
        if j < r.len() {
            assert(record_lines(s)[j] == r[j]);
        } else {
            assert(record_lines(s)[j] == ps.last());
            assert(ps.last()[k] == ps[ps.len() - 1][k]);
        }
    }
    assert forall|j: int| 0 <= j < record_lines(s).len() implies some_char_not_white(
        #[trigger] record_lines(s)[j],
    ) by {
        lemma_record_line_has_content(s, j);
    }
    if forall|k: int| 0 <= k < s.len() ==> s[k] != '\n' {
        lemma_single_piece(s);
        assert(init =~= Seq::<Seq<char>>::empty());
        assert(r =~= Seq::<Seq<char>>::empty());
        if exists|k: int| 0 <= k < s.len() && !is_white(#[trigger] s[k]) {
            assert(has_content(s));
            assert(record_lines(s) =~= seq![s]);
        }
        if forall|k: int| 0 <= k < s.len() ==> is_white(#[trigger] s[k]) {
            assert(!has_content(s));
        }
    }
}

} // verus!
