//! Mapping a compiler diagnostic on the assembled fragment source back to the
//! segment and the line within it where the error stands.
use vstd::prelude::*;

use crate::text::{chars_of, decimal, push_decimal};

verus! {

/// Whether `c` belongs to one of Unicode's numeric general categories.
pub uninterp spec fn numeric_char(c: char) -> bool;

/// Relies on `char::is_numeric`: true exactly for the characters of the
/// numeric general categories (Nd, Nl, No); among ASCII these are `0` to `9`.
#[verifier::external_body]
fn is_numeric(c: char) -> (r: bool)
    ensures
        r == numeric_char(c),
        (c as u32) < 128 ==> (r == ('0' <= c && c <= '9')),
{
    c.is_numeric()
}

/// `i` is the position of the first `c` in `s`.
pub open spec fn is_first(s: Seq<char>, c: char, i: int) -> bool {
    &&& 0 <= i < s.len()
    &&& s[i] == c
    &&& forall|j: int| 0 <= j < i ==> s[j] != c
}

pub open spec fn first_space(s: Seq<char>) -> int {
    choose|i: int| is_first(s, ' ', i)
}

/// The marker that follows the location of an error diagnostic.
pub open spec fn error_marker() -> Seq<char> {
    " : error"@
}

/// `s` reads `<location> : error` followed by nothing or by a space and the
/// message, where the location holds no space.
pub open spec fn has_error_shape(s: Seq<char>) -> bool {
    &&& exists|i: int| is_first(s, ' ', i)
    &&& first_space(s) + 8 <= s.len()
    &&& s.subrange(first_space(s), first_space(s) + 8) == error_marker()
    &&& (s.len() == first_space(s) + 8 || s[first_space(s) + 8] == ' ')
}

/// The location part of a diagnostic of the error shape.
pub open spec fn location(s: Seq<char>) -> Seq<char> {
    s.take(first_space(s))
}

/// The message part of a diagnostic of the error shape.
pub open spec fn message(s: Seq<char>) -> Seq<char> {
    if s.len() > first_space(s) + 8 {
        s.subrange(first_space(s) + 9, s.len() as int)
    } else {
        Seq::empty()
    }
}

/// The characters taken as the line number: after the first `(`, the numeric
/// characters up to the first character that is neither numeric nor `(`
/// (a further `(` is skipped).
pub open spec fn line_digits(cs: Seq<char>, collecting: bool) -> Seq<char>
    decreases cs.len(),
{
    if cs.len() == 0 {
        Seq::empty()
    } else if cs[0] == '(' {
        line_digits(cs.drop_first(), true)
    } else if !collecting {
        line_digits(cs.drop_first(), false)
    } else if numeric_char(cs[0]) {
        seq![cs[0]] + line_digits(cs.drop_first(), true)
    } else {
        Seq::empty()
    }
}

pub open spec fn is_digit(c: char) -> bool {
    '0' <= c && c <= '9'
}

/// The value of a sequence of decimal digits.
pub open spec fn digits_value(ds: Seq<char>) -> nat
    decreases ds.len(),
{
    if ds.len() == 0 {
        0
    } else {
        digits_value(ds.drop_last()) * 10 + ((ds.last() as u32 - '0' as u32) as nat)
    }
}

/// The number that `ds` spells as a `usize`: one or more ASCII digits whose
/// value fits.
pub open spec fn parse_line(ds: Seq<char>) -> Option<nat> {
    if ds.len() > 0 && (forall|i: int| 0 <= i < ds.len() ==> is_digit(#[trigger] ds[i]))
        && digits_value(ds) <= usize::MAX {
        Some(digits_value(ds))
    } else {
        None
    }
}

/// The segment (by position) that holds global line `line`, and the line within
/// it: the first segment whose lines, added to those before it, reach `line`.
pub open spec fn locate(counts: Seq<nat>, line: int) -> Option<(int, int)>
    decreases counts.len(),
{
    if counts.len() == 0 {
        None
    } else if line <= counts[0] {
        Some((0, line))
    } else {
        match locate(counts.drop_first(), line - counts[0]) {
            Some(found) => Some((found.0 + 1, found.1)),
            None => None,
        }
    }
}

pub open spec fn line_counts(sections: Seq<(usize, String)>) -> Seq<nat> {
    sections.map_values(|p: (usize, String)| p.0 as nat)
}

/// The diagnostic restated with the segment's name and local line.
pub open spec fn remapped_text(name: Seq<char>, local: nat, msg: Seq<char>) -> Seq<char> {
    "\n\tFile: "@ + name + "\n\tLine:"@ + decimal(local) + "\n\tError: "@ + msg
}

/// The result of remapping diagnostic `s` over the sections of the assembled
/// source: the restated diagnostic where every step succeeds, `s` otherwise.
pub open spec fn remap(s: Seq<char>, sections: Seq<(usize, String)>) -> Seq<char> {
    if sections.len() == 0 || !has_error_shape(s) {
        s
    } else {
        match parse_line(line_digits(location(s), false)) {
            None => s,
            Some(line) => match locate(line_counts(sections), line as int) {
                None => s,
                Some(found) => remapped_text(
                    sections[found.0].1@,
                    found.1 as nat,
                    message(s),
                ),
            },
        }
    }
}

proof fn lemma_first_unique(s: Seq<char>, c: char, i: int, j: int)
    requires
        is_first(s, c, i),
        is_first(s, c, j),
    ensures
        i == j,
{
}

proof fn lemma_digits_value_grows(ds: Seq<char>, k: int)
    requires
        0 <= k <= ds.len(),
        forall|i: int| 0 <= i < ds.len() ==> is_digit(#[trigger] ds[i]),
    ensures
        digits_value(ds.take(k)) <= digits_value(ds),
    decreases ds.len(),
{
    if k < ds.len() {
        assert(ds.drop_last().take(k) == ds.take(k));
        lemma_digits_value_grows(ds.drop_last(), k);
    } else {
        assert(ds.take(k) == ds);
    }
}

/// The line number spelled by `ds`, if it spells one.
fn parse_digits(ds: &Vec<char>) -> (r: Option<usize>)
    ensures
        r matches Some(n) ==> parse_line(ds@) == Some(n as nat),
        r is None ==> parse_line(ds@) is None,
{
    if ds.len() == 0 {
        return None;
    }
    let mut value: usize = 0;
    let mut i: usize = 0;
    while i < ds.len()
        invariant
            0 <= i <= ds.len(),
            value == digits_value(ds@.take(i as int)),
            forall|j: int| 0 <= j < i ==> is_digit(#[trigger] ds@[j]),
        decreases ds.len() - i,
    {
        let c = ds[i];
        assert(ds@.take(i + 1).drop_last() == ds@.take(i as int));
        if !(c >= '0' && c <= '9') {
            return None;
        }
        let d = (c as u32 - '0' as u32) as usize;
        match value.checked_mul(10) {
            None => {
                proof {
                    lemma_digits_value_grows(ds@.take(i as int + 1), i as int);
                    assert(ds@.take(i as int + 1).take(i as int) == ds@.take(i as int));
                    lemma_digits_value_tail(ds@, i as int + 1);
                }
                return None;
            },
            Some(m) => match m.checked_add(d) {
                None => {
                    proof {
                        lemma_digits_value_tail(ds@, i as int + 1);
                    }
                    return None;
                },
                Some(v) => {
                    value = v;
                },
            },
        }
        i = i + 1;
    }
    assert(ds@.take(ds.len() as int) == ds@);
    Some(value)
}

/// A digit-only prefix that is too large makes the whole too large, once the
/// rest is shown to be digits as well (or not, in which case parsing fails).
proof fn lemma_digits_value_tail(ds: Seq<char>, k: int)
    requires
        0 <= k <= ds.len(),
        digits_value(ds.take(k)) > usize::MAX,
    ensures
        parse_line(ds) is None,
{
    if forall|i: int| 0 <= i < ds.len() ==> is_digit(#[trigger] ds[i]) {
        lemma_digits_value_grows(ds, k);
    }
}

/// Remaps a compiler diagnostic of the shape `<n>(<line>) : error <message>`,
/// whose line counts from the start of the assembled source, to the name of
/// the section holding that line and the line within it. `sections` lists
/// each section's line count and name, in source order. A diagnostic of
/// another shape, without a line number, with a line beyond the sections, or
/// with no sections at all, comes back unchanged.
pub fn fix_error(string: String, sections: &[(usize, String)]) -> (r: String)
    ensures
        r@ == remap(string@, sections@),
{
    if sections.len() == 0 {
        return string;
    }
    let cs = chars_of(string.as_str());
    let n = cs.len();
    // the first space
    let mut sp: usize = 0;
    while sp < n && cs[sp] != ' '
        invariant
            n == cs@.len(),
            cs@ == string@,
            sp <= n,
            forall|j: int| 0 <= j < sp ==> cs@[j] != ' ',
        decreases n - sp,
    {
        sp = sp + 1;
    }
    if sp == n {
        return string;
    }
    proof {
        assert(is_first(string@, ' ', sp as int));
        lemma_first_unique(string@, ' ', sp as int, first_space(string@));
    }
    proof {
        reveal_strlit(" : error");
    }
    if !(n - sp >= 8 && cs[sp + 1] == ':' && cs[sp + 2] == ' ' && cs[sp + 3] == 'e'
        && cs[sp + 4] == 'r' && cs[sp + 5] == 'r' && cs[sp + 6] == 'o' && cs[sp + 7] == 'r'
        && (sp + 8 == n || cs[sp + 8] == ' ')) {
        proof {
            if has_error_shape(string@) {
                let m = string@.subrange(sp as int, sp + 8);
                assert(m[1] == error_marker()[1]);
                assert(m[2] == error_marker()[2]);
                assert(m[3] == error_marker()[3]);
                assert(m[4] == error_marker()[4]);
                assert(m[5] == error_marker()[5]);
                assert(m[6] == error_marker()[6]);
                assert(m[7] == error_marker()[7]);
            }
        }
        return string;
    }
    assert(string@.subrange(sp as int, sp + 8) == error_marker());
    // the line number within the location part
    let mut ds: Vec<char> = Vec::new();
    let mut collecting = false;
    let mut stopped = false;
    let mut i: usize = 0;
    let ghost loc = string@.take(sp as int);
    assert(loc.subrange(0, sp as int) == loc);
    assert(ds@ + line_digits(loc, false) == line_digits(loc, false));
    while i < sp && !stopped
        invariant
            i <= sp < n,
            n == cs@.len(),
            cs@ == string@,
            loc == string@.take(sp as int),
            stopped ==> ds@ == line_digits(loc, false),
            !stopped ==> ds@ + line_digits(loc.subrange(i as int, sp as int), collecting)
                == line_digits(loc, false),
        decreases sp - i,
    {
        let c = cs[i];
        let ghost rest = loc.subrange(i as int, sp as int);
        assert(rest.drop_first() == loc.subrange(i + 1, sp as int));
        if c == '(' {
            collecting = true;
        } else if collecting {
            if is_numeric(c) {
                let ghost before = ds@;
                ds.push(c);
                assert(before + (seq![c] + line_digits(loc.subrange(i + 1, sp as int), true))
                    == ds@ + line_digits(loc.subrange(i + 1, sp as int), true));
            } else {
                assert(ds@ + Seq::<char>::empty() == ds@);
                stopped = true;
            }
        }
        i = i + 1;
    }
    proof {
        if !stopped {
            assert(loc.subrange(i as int, sp as int).len() == 0);
            assert(ds@ + Seq::<char>::empty() == ds@);
        }
    }
    assert(ds@ == line_digits(location(string@), false));
    let line = match parse_digits(&ds) {
        None => {
            return string;
        },
        Some(line) => line,
    };
    // the section that holds it
    let mut start: usize = 0;
    let mut k: usize = 0;
    let ghost counts = line_counts(sections@);
    assert(counts.subrange(0, counts.len() as int) == counts);
    while k < sections.len() && line - start > sections[k].0
        invariant
            k <= sections.len(),
            counts == line_counts(sections@),
            start <= line,
            locate(counts, line as int) == match locate(
                counts.subrange(k as int, counts.len() as int),
                line - start,
            ) {
                Some(f) => Some((f.0 + k, f.1)),
                None => None::<(int, int)>,
            },
        decreases sections.len() - k,
    {
        let lines = sections[k].0;
        assert(counts[k as int] == lines);
        assert(counts.subrange(k as int, counts.len() as int).drop_first() == counts.subrange(
            k + 1,
            counts.len() as int,
        ));
        start = start + lines;
        k = k + 1;
    }
    if k == sections.len() {
        assert(counts.subrange(k as int, counts.len() as int).len() == 0);
        return string;
    }
    let local = line - start;
    assert(counts[k as int] == sections@[k as int].0);
    assert(locate(counts, line as int) == Some((k as int, local as int)));
    let ghost msg = message(string@);
    let mut r = String::from_str("\n\tFile: ");
    r.append(sections[k].1.as_str());
    r.append("\n\tLine:");
    push_decimal(&mut r, local);
    r.append("\n\tError: ");
    let ghost head = r@;
    if n - sp > 8 {
        let tail = string.as_str().substring_char(sp + 9, n);
        r.append(tail);
        assert(tail@ == msg);
    } else {
        proof {
            assert(msg == Seq::<char>::empty());
            assert(head + msg == head);
        }
    }
    assert(head == "\n\tFile: "@ + sections@[k as int].1@ + "\n\tLine:"@ + decimal(local as nat)
        + "\n\tError: "@);
    assert(r@ == remapped_text(sections@[k as int].1@, local as nat, msg));
    r
}

} // verus!
