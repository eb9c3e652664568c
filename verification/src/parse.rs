//! The line format of the architecture table.
//!
//! A line is a name, the separator `"| "` and one marker for each column:
//!
//! ```text
//! <spaces><name><spaces>| <NUM_FIELDS characters><anything>
//! ```
//!
//! The name is a run of ASCII letters and digits. A marker is read by its
//! position alone: a blank or a `?` leaves the flag of its column unset, and
//! any other character sets it.

use crate::arch::{Arch, ArchView};
use crate::error::{Error, ErrorView};
use crate::feat::NUM_FIELDS;
use crate::info::ArchInfo;
use vstd::prelude::*;
use vstd::string::StrSliceExecFns;

verus! {

/// Whether `c` is white space: a space, a tab, a carriage return or a line feed.
pub open spec fn is_space(c: char) -> bool {
    c == ' ' || c == '\t' || c == '\r' || c == '\n'
}

/// Whether `c` is an ASCII letter or digit.
pub open spec fn is_alphanumeric(c: char) -> bool {
    ('a' <= c && c <= 'z') || ('A' <= c && c <= 'Z') || ('0' <= c && c <= '9')
}

/// Whether the marker `c` sets the flag of its column.
pub open spec fn is_set_marker(c: char) -> bool {
    c != ' ' && c != '?'
}

/// The length of the longest prefix of `s` that is white space.
pub open spec fn leading_spaces(s: Seq<char>) -> nat
    decreases s.len(),
{
    if s.len() > 0 && is_space(s[0]) {
        1 + leading_spaces(s.drop_first())
    } else {
        0
    }
}

/// The length of the longest prefix of `s` made of ASCII letters and digits.
pub open spec fn leading_alphanumerics(s: Seq<char>) -> nat
    decreases s.len(),
{
    if s.len() > 0 && is_alphanumeric(s[0]) {
        1 + leading_alphanumerics(s.drop_first())
    } else {
        0
    }
}

/// `s` without its leading white space.
pub open spec fn spec_ws(s: Seq<char>) -> Seq<char> {
    s.skip(leading_spaces(s) as int)
}

/// What is left of `s` behind the separator `"| "`, if `s` starts with it.
pub open spec fn spec_separator(s: Seq<char>) -> Option<Seq<char>> {
    if s.len() >= 2 && s[0] == '|' && s[1] == ' ' {
        Some(s.skip(2))
    } else {
        None
    }
}

/// The name at the start of `s`, white space around it dropped, with what
/// follows it: `(rest, name)`. There is none if no letter or digit follows
/// the leading white space.
pub open spec fn spec_parse_arch_name(s: Seq<char>) -> Option<(Seq<char>, Seq<char>)> {
    let trimmed = spec_ws(s);
    let n = leading_alphanumerics(trimmed) as int;
    if n == 0 {
        None
    } else {
        Some((spec_ws(trimmed.skip(n)), trimmed.take(n)))
    }
}

/// The flags that the first `NUM_FIELDS` characters of `s` mark, with what
/// follows them: `(rest, flags)`. There are none if `s` is shorter.
pub open spec fn spec_parse_arch_info(s: Seq<char>) -> Option<(Seq<char>, Seq<bool>)> {
    if s.len() < NUM_FIELDS {
        None
    } else {
        Some((s.skip(NUM_FIELDS as int), Seq::new(NUM_FIELDS as nat, |i: int| is_set_marker(s[i]))))
    }
}

/// The entry that the line `s` holds, if it has the shape of one.
pub open spec fn spec_parse_arch_line(s: Seq<char>) -> Option<ArchView> {
    match spec_parse_arch_name(s) {
        None => None,
        Some((after_name, name)) => match spec_separator(after_name) {
            None => None,
            Some(markers) => match spec_parse_arch_info(markers) {
                None => None,
                Some((_, info)) => Some(ArchView { name, info }),
            },
        },
    }
}

/// `n` is the length of the longest white-space prefix of `s` if the first
/// `n` characters are white space and the next one, if any, is not.
pub proof fn lemma_leading_spaces(s: Seq<char>, n: int)
    requires
        0 <= n <= s.len(),
        forall|i: int| 0 <= i < n ==> is_space(#[trigger] s[i]),
        n < s.len() ==> !is_space(s[n]),
    ensures
        leading_spaces(s) == n,
    decreases n,
{
    if n > 0 {
        lemma_leading_spaces(s.drop_first(), n - 1);
    }
}

/// `n` is the length of the longest prefix of letters and digits of `s` if
/// the first `n` characters are letters or digits and the next one, if any,
/// is not.
pub proof fn lemma_leading_alphanumerics(s: Seq<char>, n: int)
    requires
        0 <= n <= s.len(),
        forall|i: int| 0 <= i < n ==> is_alphanumeric(#[trigger] s[i]),
        n < s.len() ==> !is_alphanumeric(s[n]),
    ensures
        leading_alphanumerics(s) == n,
    decreases n,
{
    if n > 0 {
        lemma_leading_alphanumerics(s.drop_first(), n - 1);
    }
}

/// The first `leading_spaces(s)` characters of `s` are white space, and the
/// next one, if any, is not.
pub proof fn lemma_leading_spaces_maximal(s: Seq<char>)
    ensures
        leading_spaces(s) <= s.len(),
        forall|i: int| 0 <= i < leading_spaces(s) ==> is_space(#[trigger] s[i]),
        leading_spaces(s) < s.len() ==> !is_space(s[leading_spaces(s) as int]),
    decreases s.len(),
{
    if s.len() > 0 && is_space(s[0]) {
        let tail = s.drop_first();
        lemma_leading_spaces_maximal(tail);
        assert forall|i: int| 0 <= i < leading_spaces(s) implies is_space(#[trigger] s[i]) by {
            if i > 0 {
                assert(s[i] == tail[i - 1]);
            }
        }
        assert(leading_spaces(tail) < tail.len() ==> s[leading_spaces(s) as int] == tail[leading_spaces(tail) as int]);
    }
}

/// The first `leading_alphanumerics(s)` characters of `s` are letters or
/// digits, and the next one, if any, is not.
pub proof fn lemma_leading_alphanumerics_maximal(s: Seq<char>)
    ensures
        leading_alphanumerics(s) <= s.len(),
        forall|i: int| 0 <= i < leading_alphanumerics(s) ==> is_alphanumeric(#[trigger] s[i]),
        leading_alphanumerics(s) < s.len() ==> !is_alphanumeric(
            s[leading_alphanumerics(s) as int],
        ),
    decreases s.len(),
{
    if s.len() > 0 && is_alphanumeric(s[0]) {
        let tail = s.drop_first();
        lemma_leading_alphanumerics_maximal(tail);
        assert forall|i: int| 0 <= i < leading_alphanumerics(s) implies is_alphanumeric(
            #[trigger] s[i],
        ) by {
            if i > 0 {
                assert(s[i] == tail[i - 1]);
            }
        }
        assert(leading_alphanumerics(tail) < tail.len() ==> s[leading_alphanumerics(s) as int] == tail[leading_alphanumerics(tail) as int]);
    }
}

/// Whether the four parts can make up an entry: white space, a name of
/// letters and digits, white space again, and one marker for each column.
pub open spec fn is_entry_shape(
    lead: Seq<char>,
    name: Seq<char>,
    gap: Seq<char>,
    markers: Seq<char>,
) -> bool {
    &&& forall|i: int| 0 <= i < lead.len() ==> is_space(#[trigger] lead[i])
    &&& name.len() > 0
    &&& forall|i: int| 0 <= i < name.len() ==> is_alphanumeric(#[trigger] name[i])
    &&& forall|i: int| 0 <= i < gap.len() ==> is_space(#[trigger] gap[i])
    &&& markers.len() == NUM_FIELDS
}

/// The line made of the parts of an entry, the separator in its place, and
/// `rest` behind the markers.
pub open spec fn entry_line(
    lead: Seq<char>,
    name: Seq<char>,
    gap: Seq<char>,
    markers: Seq<char>,
    rest: Seq<char>,
) -> Seq<char> {
    lead + name + gap + seq!['|', ' '] + markers + rest
}

/// The flags that the markers stand for, column by column.
pub open spec fn marked(markers: Seq<char>) -> Seq<bool> {
    Seq::new(markers.len(), |i: int| is_set_marker(markers[i]))
}

/// A well-formed line parses to its name and to exactly the flags that its
/// markers stand for: unset for a blank or a `?`, set for any other
/// character, in all the columns. What follows the markers is ignored.
pub proof fn lemma_parse_entry_line(
    lead: Seq<char>,
    name: Seq<char>,
    gap: Seq<char>,
    markers: Seq<char>,
    rest: Seq<char>,
)
    requires
        is_entry_shape(lead, name, gap, markers),
    ensures
        spec_parse_arch_line(entry_line(lead, name, gap, markers, rest)) == Some(
            ArchView { name, info: marked(markers) },
        ),
{
    let sep = seq!['|', ' '];
    let line = entry_line(lead, name, gap, markers, rest);
    let after_lead = name + gap + sep + markers + rest;
    let after_name = gap + sep + markers + rest;
    let after_gap = sep + markers + rest;
    let after_sep = markers + rest;

    assert(line == lead + after_lead);
    assert(is_alphanumeric(name[0]) && after_lead[0] == name[0]);
    lemma_leading_spaces(line, lead.len() as int);
    assert(line.skip(lead.len() as int) == after_lead);

    assert(after_lead == name + after_name);
    assert(after_name[0] == (if gap.len() > 0 {
        gap[0]
    } else {
        '|'
    }));
    lemma_leading_alphanumerics(after_lead, name.len() as int);
    assert(after_lead.take(name.len() as int) == name);
    assert(after_lead.skip(name.len() as int) == after_name);

    assert(after_name == gap + after_gap);
    assert(after_gap[0] == '|');
    lemma_leading_spaces(after_name, gap.len() as int);
    assert(after_name.skip(gap.len() as int) == after_gap);

    assert(after_gap[1] == ' ');
    assert(after_gap.skip(2) == after_sep);
    assert(Seq::new(NUM_FIELDS as nat, |i: int| is_set_marker(after_sep[i])) == marked(markers));
}

/// A line that parses is well-formed: it is made of the parts of an entry.
pub proof fn lemma_parsed_line_shape(line: Seq<char>)
    requires
        spec_parse_arch_line(line).is_some(),
    ensures
        exists|lead: Seq<char>, gap: Seq<char>, markers: Seq<char>, rest: Seq<char>|
            is_entry_shape(lead, spec_parse_arch_line(line).unwrap().name, gap, markers) && line
                == #[trigger] entry_line(
                lead,
                spec_parse_arch_line(line).unwrap().name,
                gap,
                markers,
                rest,
            ),
{
    let a = leading_spaces(line) as int;
    lemma_leading_spaces_maximal(line);
    let after_lead = line.skip(a);
    let b = leading_alphanumerics(after_lead) as int;
    lemma_leading_alphanumerics_maximal(after_lead);
    let after_name = after_lead.skip(b);
    let c = leading_spaces(after_name) as int;
    lemma_leading_spaces_maximal(after_name);
    let after_gap = after_name.skip(c);
    let after_sep = after_gap.skip(2);

    let lead = line.take(a);
    let name = after_lead.take(b);
    let gap = after_name.take(c);
    let markers = after_sep.take(NUM_FIELDS as int);
    let rest = after_sep.skip(NUM_FIELDS as int);
    assert(name == spec_parse_arch_line(line).unwrap().name);
    assert(after_gap == seq!['|', ' '] + after_sep);
    assert(line == entry_line(lead, name, gap, markers, rest));
    assert(is_entry_shape(lead, name, gap, markers));
}

/// Whether `c` is white space.
fn char_is_space(c: char) -> (space: bool)
    ensures
        space == is_space(c),
{
    c == ' ' || c == '\t' || c == '\r' || c == '\n'
}

/// Whether `c` is an ASCII letter or digit.
fn char_is_alphanumeric(c: char) -> (alphanumeric: bool)
    ensures
        alphanumeric == is_alphanumeric(c),
{
    ('a' <= c && c <= 'z') || ('A' <= c && c <= 'Z') || ('0' <= c && c <= '9')
}

/// Consume the white space at the start of `input`.
pub fn ws<'a>(input: &'a str) -> (rest: &'a str)
    ensures
        rest@ == spec_ws(input@),
{
    let len: usize = input.unicode_len();
    let mut n: usize = 0;
    while n < len && char_is_space(input.get_char(n))
        invariant
            n <= len == input@.len(),
            forall|i: int| 0 <= i < n ==> is_space(#[trigger] input@[i]),
        decreases len - n,
    {
        n += 1;
    }
    proof {
        lemma_leading_spaces(input@, n as int);
    }
    input.substring_char(n, len)
}

/// Parse the architecture name, ignoring white space around it.
pub fn parse_arch_name<'a>(input: &'a str) -> (parsed: Option<(&'a str, &'a str)>)
    ensures
        match parsed {
            Some((rest, name)) => spec_parse_arch_name(input@) == Some((rest@, name@)),
            None => spec_parse_arch_name(input@).is_none(),
        },
{
    let trimmed = ws(input);
    let len: usize = trimmed.unicode_len();
    let mut n: usize = 0;
    while n < len && char_is_alphanumeric(trimmed.get_char(n))
        invariant
            n <= len == trimmed@.len(),
            forall|i: int| 0 <= i < n ==> is_alphanumeric(#[trigger] trimmed@[i]),
        decreases len - n,
    {
        n += 1;
    }
    proof {
        lemma_leading_alphanumerics(trimmed@, n as int);
    }
    if n == 0 {
        return None;
    }
    let name = trimmed.substring_char(0, n);
    let rest = ws(trimmed.substring_char(n, len));
    Some((rest, name))
}

/// Consume the separator between the name and the markers.
pub fn separator<'a>(input: &'a str) -> (rest: Option<&'a str>)
    ensures
        match rest {
            Some(rest) => spec_separator(input@) == Some(rest@),
            None => spec_separator(input@).is_none(),
        },
{
    let len: usize = input.unicode_len();
    if len >= 2 && input.get_char(0) == '|' && input.get_char(1) == ' ' {
        Some(input.substring_char(2, len))
    } else {
        None
    }
}

/// Parse information about the architecture: one marker for each column.
pub fn parse_arch_info<'a>(input: &'a str) -> (parsed: Option<(&'a str, ArchInfo)>)
    ensures
        match parsed {
            Some((rest, info)) => spec_parse_arch_info(input@) == Some((rest@, info@)),
            None => spec_parse_arch_info(input@).is_none(),
        },
{
    let len: usize = input.unicode_len();
    if len < NUM_FIELDS {
        return None;
    }
    // Start from no flag set, and visit the markers by position.
    let mut info = ArchInfo::new();
    let mut idx: usize = 0;
    while idx < NUM_FIELDS
        invariant
            idx <= NUM_FIELDS <= len == input@.len(),
            info@ == Seq::new(NUM_FIELDS as nat, |i: int| i < idx && is_set_marker(input@[i])),
        decreases NUM_FIELDS - idx,
    {
        // For parsing purposes only the position matters, not the glyph.
        let c: char = input.get_char(idx);
        info = info.set(idx, c != ' ' && c != '?');
        idx += 1;
    }
    Some((input.substring_char(NUM_FIELDS, len), info))
}

/// Parse a single line of the architecture table into an entry.
///
/// A line without the shape of an entry is refused with `BadParse`, which
/// holds the line.
pub fn parse_arch_line<'a>(input: &'a str) -> (parsed: Result<Arch<'a>, Error>)
    ensures
        match parsed {
            Ok(arch) => spec_parse_arch_line(input@) == Some(arch@),
            Err(e) => spec_parse_arch_line(input@).is_none() && e@ == (ErrorView::BadParse {
                line: input@,
            }),
        },
{
    let (after_name, name) = match parse_arch_name(input) {
        Some(parsed) => parsed,
        None => { return Err(Error::bad_parse(input)); },
    };
    let markers = match separator(after_name) {
        Some(rest) => rest,
        None => { return Err(Error::bad_parse(input)); },
    };
    match parse_arch_info(markers) {
        Some((_, info)) => Ok(Arch { name, info }),
        None => Err(Error::bad_parse(input)),
    }
}

} // verus!
