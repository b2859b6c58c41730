//! The corpus of fingerprints: a text of one entry per line, each entry a name
//! and a fingerprint with `----` between them.

use crate::error::Error;
use crate::text::{chars_of, string_of};
use vstd::prelude::*;

verus! {

/// What stands between the name and the fingerprint of an entry.
pub open spec fn separator() -> Seq<char> {
    seq!['-', '-', '-', '-']
}

/// The four characters of `text` from index `i` on are the separator.
pub open spec fn separator_at(text: Seq<char>, i: int) -> bool {
    &&& 0 <= i
    &&& i + 4 <= text.len()
    &&& text[i] == '-'
    &&& text[i + 1] == '-'
    &&& text[i + 2] == '-'
    &&& text[i + 3] == '-'
}

/// The separator occurs somewhere in `text`.
pub open spec fn has_separator(text: Seq<char>) -> bool {
    exists|i: int| separator_at(text, i)
}

/// The text of the entry for `name` and `fingerprint`.
pub open spec fn entry_text(name: Seq<char>, fingerprint: Seq<char>) -> Seq<char> {
    name + separator() + fingerprint
}

/// The first separator of `line` begins at `i`, and no other begins behind it:
/// cut at its separators, the line falls into exactly two parts.
pub open spec fn is_split_point(line: Seq<char>, i: int) -> bool {
    &&& separator_at(line, i)
    &&& forall|j: int| 0 <= j < i ==> !separator_at(line, j)
    &&& forall|j: int| i + 4 <= j ==> !separator_at(line, j)
}

/// `line` falls into exactly two parts, a label and a fingerprint.
pub open spec fn well_formed_entry(line: Seq<char>) -> bool {
    exists|i: int| is_split_point(line, i)
}

/// Where the separator of a well-formed entry begins.
pub open spec fn split_point(line: Seq<char>) -> int {
    choose|i: int| is_split_point(line, i)
}

/// What stands before the separator of a well-formed entry.
pub open spec fn entry_label(line: Seq<char>) -> Seq<char> {
    line.take(split_point(line))
}

/// What stands behind the separator of a well-formed entry.
pub open spec fn entry_fingerprint(line: Seq<char>) -> Seq<char> {
    line.skip(split_point(line) + 4)
}

/// `name` without its space characters.
pub open spec fn title_text(name: Seq<char>) -> Seq<char> {
    name.filter(|c: char| c != ' ')
}

/// The index of the first line feed of `text`, or its length where it holds
/// none.
pub open spec fn line_end(text: Seq<char>) -> int
    decreases text.len(),
{
    if text.len() == 0 || text[0] == '\n' {
        0
    } else {
        1 + line_end(text.skip(1))
    }
}

/// `line` without the carriage return at its end, if it has one.
pub open spec fn without_carriage_return(line: Seq<char>) -> Seq<char> {
    if line.len() > 0 && line.last() == '\r' {
        line.drop_last()
    } else {
        line
    }
}

/// The lines of `text`. A line ends at a line feed, or at a carriage return
/// and a line feed, neither of which belongs to it; what stands behind the
/// last line feed is a line of its own unless it is empty.
pub open spec fn lines_of(text: Seq<char>) -> Seq<Seq<char>>
    decreases text.len(),
{
    let end = line_end(text);
    if text.len() == 0 {
        Seq::empty()
    } else if 0 <= end < text.len() {
        seq![without_carriage_return(text.take(end))] + lines_of(text.skip(end + 1))
    } else {
        seq![text]
    }
}

/// A label and the fingerprint stored with it.
#[derive(Clone, Debug, PartialEq, Eq)]
pub struct CorpusEntry {
    pub label: String,
    pub fingerprint: String,
}

/// A line has at most one split point.
pub proof fn split_point_unique(line: Seq<char>, i: int, j: int)
    requires
        is_split_point(line, i),
        is_split_point(line, j),
    ensures
        i == j,
{
}

/// A well-formed entry is its label, the separator and its fingerprint, one
/// behind the other.
pub proof fn entry_is_joined(line: Seq<char>)
    requires
        well_formed_entry(line),
    ensures
        line == entry_text(entry_label(line), entry_fingerprint(line)),
        !has_separator(entry_fingerprint(line)),
{
    let i = split_point(line);
    assert(line =~= entry_text(entry_label(line), entry_fingerprint(line)));
    let rest = entry_fingerprint(line);
    assert forall|j: int| !separator_at(rest, j) by {
        if separator_at(rest, j) {
            assert(separator_at(line, i + 4 + j));
        }
    }
}

/// An entry written for a name and a fingerprint is read back as that name
/// and that fingerprint, provided that the name neither holds the separator
/// nor ends in a hyphen, and that the fingerprint holds no hyphen.
pub proof fn entry_round_trip(name: Seq<char>, fingerprint: Seq<char>)
    requires
        !has_separator(name),
        name.len() > 0 ==> name.last() != '-',
        forall|k: int| 0 <= k < fingerprint.len() ==> fingerprint[k] != '-',
    ensures
        well_formed_entry(entry_text(name, fingerprint)),
        entry_label(entry_text(name, fingerprint)) == name,
        entry_fingerprint(entry_text(name, fingerprint)) == fingerprint,
{
    let line = entry_text(name, fingerprint);
    let n = name.len() as int;
    assert(separator_at(line, n));
    assert forall|j: int| 0 <= j < n implies !separator_at(line, j) by {
        if separator_at(line, j) {
            if j + 4 <= n {
                assert(separator_at(name, j));
            } else {
                assert(line[n - 1] == '-');
                assert(name.last() == line[n - 1]);
            }
        }
    }
    assert forall|j: int| n + 4 <= j implies !separator_at(line, j) by {
        if separator_at(line, j) {
            assert(line[j] == fingerprint[j - n - 4]);
        }
    }
    assert(is_split_point(line, n));
    split_point_unique(line, n, split_point(line));
    assert(line.take(n) =~= name);
    assert(line.skip(n + 4) =~= fingerprint);
}

/// The first index from `from` on at which the separator begins.
fn find_separator(chars: &Vec<char>, from: usize) -> (found: Option<usize>)
    ensures
        match found {
            Some(i) => {
                &&& from <= i
                &&& separator_at(chars@, i as int)
                &&& forall|j: int| from <= j < i ==> !separator_at(chars@, j)
            },
            None => forall|j: int| from <= j ==> !separator_at(chars@, j),
        },
{
    let n = chars.len();
    if n < 4 || from > n - 4 {
        return None;
    }
    let mut i: usize = from;
    while i <= n - 4
        invariant
            n == chars.len(),
            n >= 4,
            from <= i <= n - 3,
            forall|j: int| from <= j < i ==> !separator_at(chars@, j),
        decreases n - i,
    {
        if chars[i] == '-' && chars[i + 1] == '-' && chars[i + 2] == '-' && chars[i + 3] == '-' {
            return Some(i);
        }
        i += 1;
    }
    None
}

/// Reads one line of the corpus. The line is an entry where the separator
/// occurs in it exactly once; what stands before it is the label, what stands
/// behind it the fingerprint.
pub fn parse_entry(line: &str) -> (entry: Result<CorpusEntry, Error>)
    ensures
        match entry {
            Ok(e) => {
                &&& well_formed_entry(line@)
                &&& e.label@ == entry_label(line@)
                &&& e.fingerprint@ == entry_fingerprint(line@)
            },
            Err(e) => e == Error::Parse && !well_formed_entry(line@),
        },
{
    let chars = chars_of(line);
    match find_separator(&chars, 0) {
        None => Err(Error::Parse),
        Some(i) => {
            match find_separator(&chars, i + 4) {
                Some(j) => {
                    assert forall|k: int| !is_split_point(chars@, k) by {
                        if is_split_point(chars@, k) {
                            assert(k == i);
                        }
                    }
                    Err(Error::Parse)
                },
                None => {
                    proof {
                        assert(is_split_point(chars@, i as int));
                        split_point_unique(chars@, i as int, split_point(chars@));
                    }
                    Ok(
                        CorpusEntry {
                            label: string_of(&chars, 0, i),
                            fingerprint: string_of(&chars, i + 4, chars.len()),
                        },
                    )
                },
            }
        },
    }
}

/// Where the first line feed of a text stands: behind a stretch without one.
proof fn line_end_found(text: Seq<char>, end: int)
    requires
        0 <= end <= text.len(),
        forall|k: int| 0 <= k < end ==> text[k] != '\n',
        end < text.len() ==> text[end] == '\n',
    ensures
        line_end(text) == end,
    decreases end,
{
    if end > 0 {
        let rest = text.skip(1);
        assert forall|k: int| 0 <= k < end - 1 implies rest[k] != '\n' by {
            assert(rest[k] == text[k + 1]);
        }
        line_end_found(rest, end - 1);
    }
}

/// `line_end` gives the first line feed: none stands before it, and one
/// stands at it unless the text has none.
pub proof fn line_end_is_first(text: Seq<char>)
    ensures
        0 <= line_end(text) <= text.len(),
        forall|k: int| 0 <= k < line_end(text) ==> text[k] != '\n',
        line_end(text) < text.len() ==> text[line_end(text)] == '\n',
    decreases text.len(),
{
    if !(text.len() == 0 || text[0] == '\n') {
        let rest = text.skip(1);
        line_end_is_first(rest);
        assert forall|k: int| 0 <= k < line_end(text) implies text[k] != '\n' by {
            if k > 0 {
                assert(text[k] == rest[k - 1]);
            }
        }
    }
}

/// Behind a text whose last line is closed by a line feed, more text adds
/// lines and changes none.
pub proof fn lines_of_joined(head: Seq<char>, tail: Seq<char>)
    requires
        head.len() > 0 ==> head.last() == '\n',
    ensures
        lines_of(head + tail) == lines_of(head) + lines_of(tail),
    decreases head.len(),
{
    if head.len() == 0 {
        assert(head + tail =~= tail);
        assert(lines_of(head) + lines_of(tail) =~= lines_of(tail));
    } else {
        let whole = head + tail;
        let end = line_end(head);
        line_end_is_first(head);
        assert(end < head.len()) by {
            if end == head.len() {
                assert(head[head.len() - 1] != '\n');
            }
        }
        assert forall|k: int| 0 <= k < end implies whole[k] != '\n' by {
            assert(whole[k] == head[k]);
        }
        assert(whole[end] == head[end]);
        line_end_found(whole, end);
        let rest = head.skip(end + 1);
        assert(whole.take(end) =~= head.take(end));
        assert(whole.skip(end + 1) =~= rest + tail);
        assert(rest.len() > 0 ==> rest.last() == head.last());
        lines_of_joined(rest, tail);
        assert(lines_of(whole) =~= lines_of(head) + lines_of(tail));
    }
}

/// Reading a corpus after an entry was appended to it gives the lines that
/// were there before and, behind them, the entry as it was written: its
/// name, the separator and its fingerprint. This holds where every earlier
/// line is closed by a line feed, where neither the name nor the fingerprint
/// holds a line feed, and where the fingerprint does not end in a carriage
/// return.
pub proof fn append_then_read(corpus: Seq<char>, name: Seq<char>, fingerprint: Seq<char>)
    requires
        corpus.len() > 0 ==> corpus.last() == '\n',
        forall|k: int| 0 <= k < name.len() ==> name[k] != '\n',
        forall|k: int| 0 <= k < fingerprint.len() ==> fingerprint[k] != '\n',
        fingerprint.len() > 0 ==> fingerprint.last() != '\r',
    ensures
        lines_of(corpus + entry_text(name, fingerprint).push('\n')) == lines_of(corpus).push(
            entry_text(name, fingerprint),
        ),
{
    let entry = entry_text(name, fingerprint);
    let line = entry.push('\n');
    let end = entry.len() as int;
    assert forall|k: int| 0 <= k < end implies line[k] != '\n' by {
        if k < name.len() {
            assert(line[k] == name[k]);
        } else if k < name.len() + 4 {
            assert(line[k] == separator()[k - name.len()]);
        } else {
            assert(line[k] == fingerprint[k - name.len() - 4]);
        }
    }
    line_end_found(line, end);
    assert(line.take(end) =~= entry);
    assert(entry.last() != '\r') by {
        if fingerprint.len() > 0 {
            assert(entry.last() == fingerprint.last());
        } else {
            assert(entry.last() == separator()[3]);
        }
    }
    assert(line.skip(end + 1) =~= Seq::<char>::empty());
    assert(lines_of(Seq::<char>::empty()) =~= Seq::<Seq<char>>::empty());
    assert(without_carriage_return(entry) == entry);
    assert(lines_of(line) =~= seq![entry]);
    lines_of_joined(corpus, line);
    assert(lines_of(corpus) + seq![entry] =~= lines_of(corpus).push(entry));
}

/// The lines of a text, as `lines_of` gives them.
pub fn corpus_lines(text: &str) -> (lines: Vec<String>)
    ensures
        lines.deep_view() == lines_of(text@),
{
    let chars = chars_of(text);
    let n = chars.len();
    let mut lines: Vec<String> = Vec::new();
    let mut start: usize = 0;
    let mut i: usize = 0;
    proof {
        assert(chars@.skip(0) =~= chars@);
        assert(lines.deep_view() =~= Seq::<Seq<char>>::empty());
    }
    while i < n
        invariant
            n == chars.len(),
            start <= i <= n,
            forall|k: int| start <= k < i ==> chars@[k] != '\n',
            lines_of(chars@) == lines.deep_view() + lines_of(chars@.skip(start as int)),
        decreases n - i,
    {
        if chars[i] == '\n' {
            let end = if i > start && chars[i - 1] == '\r' {
                i - 1
            } else {
                i
            };
            let line = string_of(&chars, start, end);
            proof {
                let rest = chars@.skip(start as int);
                let len = i - start;
                line_end_found(rest, len);
                assert(rest.take(len) =~= chars@.subrange(start as int, i as int));
                assert(line@ =~= without_carriage_return(rest.take(len)));
                assert(rest.skip(len + 1) =~= chars@.skip(i + 1));
                assert(lines.deep_view().push(line@) =~= lines.deep_view() + seq![line@]);
            }
            let ghost before = lines.deep_view();
            lines.push(line);
            proof {
                assert(lines.deep_view() =~= before.push(line@));
            }
            start = i + 1;
        }
        i += 1;
    }
    if start < n {
        let line = string_of(&chars, start, n);
        proof {
            let rest = chars@.skip(start as int);
            line_end_found(rest, n - start);
            assert(line@ =~= rest);
            assert(lines.deep_view().push(line@) =~= lines.deep_view() + seq![line@]);
        }
        let ghost before = lines.deep_view();
        lines.push(line);
        proof {
            assert(lines.deep_view() =~= before.push(line@));
        }
    } else {
        proof {
            assert(chars@.skip(start as int).len() == 0);
            assert(lines.deep_view() + Seq::<Seq<char>>::empty() =~= lines.deep_view());
        }
    }
    lines
}

/// The line that stores `fingerprint` under `name`: the name as it stands,
/// the separator, the fingerprint and a line feed.
pub fn entry_line(name: &str, fingerprint: &str) -> (line: String)
    ensures
        line@ == entry_text(name@, fingerprint@).push('\n'),
{
    let mut line = name.to_owned();
    line.push('-');
    line.push('-');
    line.push('-');
    line.push('-');
    line.append(fingerprint);
    line.push('\n');
    proof {
        assert(line@ =~= entry_text(name@, fingerprint@).push('\n'));
    }
    line
}

/// The title under which an entry is announced: the name without its spaces.
pub fn normalized_title(name: &str) -> (title: String)
    ensures
        title@ == title_text(name@),
{
    let chars = chars_of(name);
    let ghost keep = |c: char| c != ' ';
    let mut title = String::new();
    let mut i: usize = 0;
    proof {
        reveal(Seq::filter);
        assert(chars@.take(0) =~= Seq::<char>::empty());
    }
    while i < chars.len()
        invariant
            i <= chars.len(),
            keep == (|c: char| c != ' '),
            title@ == chars@.take(i as int).filter(keep),
        decreases chars.len() - i,
    {
        let c = chars[i];
        proof {
            reveal(Seq::filter);
            let next = chars@.take(i + 1);
            assert(next.drop_last() =~= chars@.take(i as int));
            assert(next.last() == c);
        }
        if c != ' ' {
            title.push(c);
        }
        i += 1;
    }
    proof {
        assert(chars@.take(i as int) =~= chars@);
    }
    title
}

} // verus!
