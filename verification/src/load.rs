//! Loading the architecture table: the text is cut into lines and each
//! line is parsed into an entry, in the order of the text.

use crate::arch::{Arch, ArchView};
use crate::error::{Error, ErrorView};
use crate::parse::{parse_arch_line, spec_parse_arch_line};
use vstd::prelude::*;
use vstd::string::StrSliceExecFns;

verus! {

/// The position of the first line feed of `s`, or the length of `s` if it
/// has none.
pub open spec fn first_newline(s: Seq<char>) -> nat
    decreases s.len(),
{
    if s.len() == 0 || s[0] == '\n' {
        0
    } else {
        1 + first_newline(s.drop_first())
    }
}

/// `line` without the carriage return at its end, if it has one.
pub open spec fn strip_cr(line: Seq<char>) -> Seq<char> {
    if line.len() > 0 && line.last() == '\r' {
        line.drop_last()
    } else {
        line
    }
}

/// The lines of `s`. A line ends at a line feed, or at a carriage return
/// directly before a line feed; neither belongs to the line. What follows
/// the last line feed is a line too, unless it is empty.
pub open spec fn spec_lines(s: Seq<char>) -> Seq<Seq<char>>
    decreases s.len(),
{
    let n = first_newline(s) as int;
    if s.len() == 0 {
        Seq::empty()
    } else if n < s.len() {
        seq![strip_cr(s.take(n))] + spec_lines(s.skip(n + 1))
    } else {
        seq![s]
    }
}

/// Whether `lines[i]` is the first line that does not parse.
pub open spec fn is_first_bad_line(lines: Seq<Seq<char>>, i: int) -> bool {
    &&& 0 <= i < lines.len()
    &&& spec_parse_arch_line(lines[i]).is_none()
    &&& forall|j: int| 0 <= j < i ==> spec_parse_arch_line(#[trigger] lines[j]).is_some()
}

/// The entries that `lines` hold, in their order; or, if a line does not
/// parse, the parse error of the first such line.
pub open spec fn spec_parse_lines(lines: Seq<Seq<char>>) -> Result<Seq<ArchView>, ErrorView> {
    if exists|i: int| is_first_bad_line(lines, i) {
        let bad = choose|i: int| is_first_bad_line(lines, i);
        Err(ErrorView::BadParse { line: lines[bad] })
    } else {
        Ok(lines.map_values(|line: Seq<char>| spec_parse_arch_line(line).unwrap()))
    }
}

/// The architecture database that the text `s` holds, or the parse error of
/// its first malformed line.
pub open spec fn spec_load_arch_info(s: Seq<char>) -> Result<Seq<ArchView>, ErrorView> {
    spec_parse_lines(spec_lines(s))
}

/// `n` is the position of the first line feed of `s` if no line feed stands
/// before `n` and one stands at `n`, or `s` ends there.
pub proof fn lemma_first_newline(s: Seq<char>, n: int)
    requires
        0 <= n <= s.len(),
        forall|i: int| 0 <= i < n ==> #[trigger] s[i] != '\n',
        n < s.len() ==> s[n] == '\n',
    ensures
        first_newline(s) == n,
    decreases n,
{
    if n > 0 {
        lemma_first_newline(s.drop_first(), n - 1);
    }
}

/// An empty text holds no line, and loads to an empty database.
pub proof fn lemma_load_empty()
    ensures
        spec_lines(Seq::empty()) == Seq::<Seq<char>>::empty(),
        spec_load_arch_info(Seq::empty()) == Ok::<Seq<ArchView>, ErrorView>(Seq::empty()),
{
    let lines = Seq::<Seq<char>>::empty();
    assert(lines.map_values(|line: Seq<char>| spec_parse_arch_line(line).unwrap())
        == Seq::<ArchView>::empty());
}

/// A table that has a malformed line does not load: the error holds the
/// first such line, whatever comes after it.
pub proof fn lemma_first_bad_line_ends_load(lines: Seq<Seq<char>>, i: int)
    requires
        is_first_bad_line(lines, i),
    ensures
        spec_parse_lines(lines) == Err::<Seq<ArchView>, ErrorView>(
            ErrorView::BadParse { line: lines[i] },
        ),
{
    let bad = choose|k: int| is_first_bad_line(lines, k);
    assert(bad == i);
}

/// A table whose lines all parse loads to one entry for each line, in the
/// order of the lines.
pub proof fn lemma_load_keeps_order(lines: Seq<Seq<char>>)
    requires
        forall|i: int| 0 <= i < lines.len() ==> spec_parse_arch_line(#[trigger] lines[i]).is_some(),
    ensures
        spec_parse_lines(lines) matches Ok(arch_db) && arch_db.len() == lines.len() && forall|
            i: int,
        |
            0 <= i < lines.len() ==> spec_parse_arch_line(lines[i]) == Some(#[trigger] arch_db[i]),
{
    assert forall|k: int| !is_first_bad_line(lines, k) by {
        if 0 <= k < lines.len() {
            assert(spec_parse_arch_line(lines[k]).is_some());
        }
    }
}

/// Cut the text of the architecture table into its lines.
pub fn raw_arch_info<'a>(text: &'a str) -> (lines: Vec<&'a str>)
    ensures
        lines.deep_view() == spec_lines(text@),
{
    let len: usize = text.unicode_len();
    let mut lines: Vec<&'a str> = Vec::new();
    // Where the line that is being read starts, and whether the character
    // just read belongs to it and is a carriage return.
    let mut start: usize = 0;
    let mut after_cr: bool = false;
    let mut i: usize = 0;
    assert(text@.skip(0) == text@);
    for c in chars: text.chars()
        invariant
            chars.seq() == text@,
            i == chars.index(),
            start <= i <= len == text@.len(),
            after_cr == (i > start && text@[i - 1] == '\r'),
            forall|k: int| start <= k < i ==> #[trigger] text@[k] != '\n',
            spec_lines(text@) == lines.deep_view() + spec_lines(text@.skip(start as int)),
    {
        if c == '\n' {
            let end: usize = if after_cr {
                i - 1
            } else {
                i
            };
            let line = text.substring_char(start, end);
            proof {
                let tail = text@.skip(start as int);
                let n = i - start;
                lemma_first_newline(tail, n);
                assert(tail.take(n) == text@.subrange(start as int, i as int));
                assert(strip_cr(tail.take(n)) == line@);
                assert(tail.skip(n + 1) == text@.skip(i + 1));
                assert(lines.deep_view().push(line@) + spec_lines(text@.skip(i + 1))
                    == lines.deep_view() + (seq![line@] + spec_lines(text@.skip(i + 1))));
            }
            let ghost before = lines.deep_view();
            lines.push(line);
            assert(lines.deep_view() == before.push(line@));
            start = i + 1;
            after_cr = false;
        } else {
            after_cr = c == '\r';
        }
        i += 1;
    }
    if start < len {
        let line = text.substring_char(start, len);
        proof {
            let tail = text@.skip(start as int);
            lemma_first_newline(tail, len - start);
            assert(line@ == tail);
            assert(lines.deep_view().push(line@) == lines.deep_view() + seq![tail]);
        }
        let ghost before = lines.deep_view();
        lines.push(line);
        assert(lines.deep_view() == before.push(line@));
    } else {
        assert(lines.deep_view() + Seq::<Seq<char>>::empty() == lines.deep_view());
    }
    lines
}

/// Parse the lines of the architecture table, in their order. The first
/// line that does not parse ends the load with its error.
pub fn parse_lines<'a>(lines: &Vec<&'a str>) -> (loaded: Result<Vec<Arch<'a>>, Error>)
    ensures
        match loaded {
            Ok(arch_db) => spec_parse_lines(lines.deep_view()) == Ok::<Seq<ArchView>, ErrorView>(
                arch_db.deep_view(),
            ),
            Err(e) => spec_parse_lines(lines.deep_view()) == Err::<Seq<ArchView>, ErrorView>(e@),
        },
{
    let ghost texts = lines.deep_view();
    let mut arch_db: Vec<Arch<'a>> = Vec::new();
    let mut i: usize = 0;
    while i < lines.len()
        invariant
            i <= lines.len(),
            texts == lines.deep_view(),
            arch_db.len() == i,
            forall|j: int|
                0 <= j < i ==> spec_parse_arch_line(#[trigger] texts[j]) == Some(arch_db[j]@),
        decreases lines.len() - i,
    {
        assert(texts[i as int] == lines[i as int]@);
        match parse_arch_line(lines[i]) {
            Ok(arch) => {
                arch_db.push(arch);
            },
            Err(e) => {
                proof {
                    lemma_first_bad_line_ends_load(texts, i as int);
                }
                return Err(e);
            },
        }
        i += 1;
    }
    proof {
        lemma_load_keeps_order(texts);
        assert(arch_db.deep_view() == spec_parse_lines(texts)->Ok_0);
    }
    Ok(arch_db)
}

/// Load the architecture table from its text and parse it.
///
/// An empty text gives an empty database. A malformed line ends the load:
/// the error is that of the first such line, and no entry is returned.
pub fn load_arch_info<'a>(text: &'a str) -> (loaded: Result<Vec<Arch<'a>>, Error>)
    ensures
        match loaded {
            Ok(arch_db) => spec_load_arch_info(text@) == Ok::<Seq<ArchView>, ErrorView>(
                arch_db.deep_view(),
            ),
            Err(e) => spec_load_arch_info(text@) == Err::<Seq<ArchView>, ErrorView>(e@),
        },
{
    let lines = raw_arch_info(text);
    parse_lines(&lines)
}

} // verus!
