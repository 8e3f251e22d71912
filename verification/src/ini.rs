//! Minimal INI lookup.
//!
//! The text is read line by line (lines end at `'\n'`; a `'\r'` before it is
//! whitespace and disappears when the line is trimmed). Each line is trimmed.
//! Blank lines and lines starting with `#` or `;` are comments. A line that
//! starts with `[` and ends with `]` opens the section named by the trimmed
//! text between the brackets. Inside the requested section, the first line
//! that holds a `=` and whose trimmed part before the first `=` names the key
//! gives the value: the trimmed part after that `=`. Section and key names are
//! compared up to ASCII case.

use vstd::prelude::*;
use crate::text::{
    chars_of, eq_ignore_ascii_case, is_white_space, lemma_trim_end_concat, lemma_trim_end_take,
    lemma_trim_fixed, lemma_trim_idempotent, lemma_trim_start_concat, lemma_trim_within,
    range_eq_ignore_case, string_of_range, trim, trim_bounds, trim_end, trim_start,
};

verus! {

/// Index of the first `c` in `s`, or `s.len()` when there is none.
pub open spec fn first_index(s: Seq<char>, c: char) -> int
    decreases s.len(),
{
    if s.len() == 0 {
        0
    } else if s[0] == c {
        0
    } else {
        1 + first_index(s.drop_first(), c)
    }
}

pub proof fn lemma_first_index_bounds(s: Seq<char>, c: char)
    ensures
        0 <= first_index(s, c) <= s.len(),
        first_index(s, c) < s.len() ==> s[first_index(s, c)] == c,
        forall|j: int| 0 <= j < first_index(s, c) ==> s[j] != c,
    decreases s.len(),
{
    if s.len() > 0 && s[0] != c {
        lemma_first_index_bounds(s.drop_first(), c);
        assert forall|j: int| 0 <= j < first_index(s, c) implies s[j] != c by {
            if j > 0 {
                assert(s[j] == s.drop_first()[j - 1]);
            }
        }
    }
}

pub proof fn lemma_first_index_is(s: Seq<char>, c: char, k: int)
    requires
        0 <= k <= s.len(),
        k < s.len() ==> s[k] == c,
        forall|j: int| 0 <= j < k ==> s[j] != c,
    ensures
        first_index(s, c) == k,
    decreases s.len(),
{
    if s.len() > 0 && k > 0 {
        assert forall|j: int| 0 <= j < k - 1 implies s.drop_first()[j] != c by {
            assert(s.drop_first()[j] == s[j + 1]);
        }
        lemma_first_index_is(s.drop_first(), c, k - 1);
    }
}

/// A blank or comment line (already trimmed).
pub open spec fn is_comment_line(line: Seq<char>) -> bool {
    line.len() == 0 || line[0] == '#' || line[0] == ';'
}

/// A section header line `[name]` (already trimmed).
pub open spec fn is_header_line(line: Seq<char>) -> bool {
    line.len() > 0 && line[0] == '[' && line.last() == ']'
}

/// The trimmed name inside a header line.
pub open spec fn header_name(line: Seq<char>) -> Seq<char> {
    trim(line.subrange(1, line.len() - 1))
}

/// The value the line gives for `key`, if it is a `key = value` line for it.
pub open spec fn line_value(line: Seq<char>, key: Seq<char>) -> Option<Seq<char>> {
    let q = first_index(line, '=');
    if q < line.len() && eq_ignore_ascii_case(trim(line.take(q)), key) {
        Some(trim(line.skip(q + 1)))
    } else {
        None
    }
}

/// Whether the requested section is open after the (trimmed) line.
pub open spec fn section_open_after(line: Seq<char>, section: Seq<char>, in_section: bool) -> bool {
    if !is_comment_line(line) && is_header_line(line) {
        eq_ignore_ascii_case(header_name(line), section)
    } else {
        in_section
    }
}

/// The value the (trimmed) line gives when the requested section is open
/// (`in_section`).
pub open spec fn line_found(line: Seq<char>, key: Seq<char>, in_section: bool) -> Option<Seq<char>> {
    if !is_comment_line(line) && !is_header_line(line) && in_section {
        line_value(line, key)
    } else {
        None
    }
}

/// Scans `s` line by line; `in_section` says whether the requested section is
/// open at the start of `s`.
pub open spec fn ini_scan(s: Seq<char>, section: Seq<char>, key: Seq<char>, in_section: bool) -> Option<
    Seq<char>,
>
    decreases s.len(),
{
    let e = first_index(s, '\n');
    let line = trim(s.take(e));
    let found = line_found(line, key, in_section);
    if found is Some {
        found
    } else if 0 <= e < s.len() {
        ini_scan(s.skip(e + 1), section, key, section_open_after(line, section, in_section))
    } else {
        None
    }
}

/// The value of `key` in `[section]` of `contents`, as described above.
pub open spec fn ini_value(contents: Seq<char>, section: Seq<char>, key: Seq<char>) -> Option<
    Seq<char>,
> {
    ini_scan(contents, section, key, false)
}

/// Position of the first `c` in `v[lo..hi]`, or `hi`.
fn find_char(v: &Vec<char>, lo: usize, hi: usize, c: char) -> (res: usize)
    requires
        lo <= hi <= v@.len(),
    ensures
        lo <= res <= hi,
        res - lo == first_index(v@.subrange(lo as int, hi as int), c),
{
    let mut i = lo;
    while i < hi && v[i] != c
        invariant
            lo <= i <= hi <= v@.len(),
            forall|j: int| lo <= j < i ==> v@[j] != c,
        decreases hi - i,
    {
        i += 1;
    }
    proof {
        let s = v@.subrange(lo as int, hi as int);
        assert forall|j: int| 0 <= j < i - lo implies s[j] != c by {
            assert(s[j] == v@[lo + j]);
        }
        lemma_first_index_is(s, c, i - lo);
    }
    i
}

/// Looks up `key` in `[section]` of `contents` (see the module documentation).
pub fn ini_get(contents: &str, section: &str, key: &str) -> (res: Option<String>)
    ensures
        res.is_some() == ini_value(contents@, section@, key@).is_some(),
        res matches Some(v) ==> v@ == ini_value(contents@, section@, key@)->0,
{
    let v = chars_of(contents);
    let sec = chars_of(section);
    let k = chars_of(key);
    let n = v.len();
    let mut pos: usize = 0;
    let mut in_section = false;
    assert(v@.skip(0) == v@);
    loop
        invariant
            pos <= n == v@.len(),
            sec@ == section@,
            k@ == key@,
            v@ == contents@,
            ini_value(contents@, section@, key@) == ini_scan(v@.skip(pos as int), sec@, k@, in_section),
        decreases n + 1 - pos,
    {
        let ghost s = v@.skip(pos as int);
        let e = find_char(&v, pos, n, '\n');
        proof {
            assert(v@.subrange(pos as int, n as int) == s);
            lemma_first_index_bounds(s, '\n');
            assert(s.take(e - pos) == v@.subrange(pos as int, e as int));
        }
        let ghost line = trim(s.take(e - pos));
        let (a, b) = trim_bounds(&v, pos, e);
        assert(v@.subrange(a as int, b as int) == line);
        let comment = a == b || v[a] == '#' || v[a] == ';';
        let header = !comment && v[a] == '[' && v[b - 1] == ']';
        proof {
            if a < b {
                assert(line[0] == v@[a as int]);
                assert(line.last() == v@[b - 1]);
            }
        }
        assert(comment == is_comment_line(line));
        assert(header == is_header_line(line));
        let mut next_in_section = in_section;
        if header {
            let (na, nb) = trim_bounds(&v, a + 1, b - 1);
            assert(line.subrange(1, line.len() - 1) == v@.subrange(a + 1, b - 1));
            assert(v@.subrange(na as int, nb as int) == header_name(line));
            next_in_section = range_eq_ignore_case(&v, na, nb, &sec);
        } else if !comment && in_section {
            let q = find_char(&v, a, b, '=');
            proof {
                lemma_first_index_bounds(line, '=');
            }
            if q < b {
                let (ka, kb) = trim_bounds(&v, a, q);
                assert(line.take(q - a) == v@.subrange(a as int, q as int));
                if range_eq_ignore_case(&v, ka, kb, &k) {
                    let (va, vb) = trim_bounds(&v, q + 1, b);
                    assert(line.skip(q - a + 1) == v@.subrange(q + 1, b as int));
                    let value = string_of_range(&v, va, vb);
                    return Some(value);
                }
            }
        }
        if e == n {
            return None;
        }
        assert(s.skip(e - pos + 1) == v@.skip(e + 1));
        pos = e + 1;
        in_section = next_in_section;
    }
}

/// Scanning a text that starts with a full line.
pub proof fn lemma_scan_line(line: Seq<char>, rest: Seq<char>, section: Seq<char>, key: Seq<char>, in_section: bool)
    requires
        forall|j: int| 0 <= j < line.len() ==> line[j] != '\n',
    ensures
        ({
            let t = trim(line);
            ini_scan(line + seq!['\n'] + rest, section, key, in_section) == (if line_found(
                t,
                key,
                in_section,
            ) is Some {
                line_found(t, key, in_section)
            } else {
                ini_scan(rest, section, key, section_open_after(t, section, in_section))
            })
        }),
{
    let s = line + seq!['\n'] + rest;
    lemma_first_index_is(s, '\n', line.len() as int);
    assert(s.take(line.len() as int) == line);
    assert(s.skip(line.len() as int + 1) == rest);
}

/// Scanning an empty text finds nothing.
pub proof fn lemma_scan_empty(section: Seq<char>, key: Seq<char>, in_section: bool)
    ensures
        ini_scan(seq![], section, key, in_section) is None,
{
    let s: Seq<char> = seq![];
    assert(s.take(0) == s);
}

/// A `[name]` line opens the section `name` (compared up to ASCII case).
pub proof fn lemma_header_line(name: Seq<char>, section: Seq<char>, key: Seq<char>, in_section: bool)
    requires
        name.len() > 0,
        !is_white_space(name[0]),
        !is_white_space(name.last()),
    ensures
        ({
            let t = trim(seq!['['] + name + seq![']']);
            &&& line_found(t, key, in_section) is None
            &&& section_open_after(t, section, in_section) == eq_ignore_ascii_case(name, section)
        }),
{
    let line = seq!['['] + name + seq![']'];
    lemma_trim_fixed(line);
    lemma_trim_fixed(name);
    assert(line.subrange(1, line.len() - 1) == name);
}

/// A `k = v` line, read for `key`: the trimmed `v` when `k` names `key`.
pub proof fn lemma_kv_line(k: Seq<char>, v: Seq<char>, key: Seq<char>)
    requires
        k.len() > 0,
        !is_white_space(k[0]),
        !is_white_space(k.last()),
        k[0] != '#' && k[0] != ';' && k[0] != '[',
        forall|j: int| 0 <= j < k.len() ==> k[j] != '=',
    ensures
        ({
            let t = trim(k + seq![' ', '=', ' '] + v);
            &&& !is_comment_line(t)
            &&& !is_header_line(t)
            &&& line_value(t, key) == (if eq_ignore_ascii_case(k, key) {
                Some(trim(v))
            } else {
                None::<Seq<char>>
            })
        }),
{
    let sp: Seq<char> = seq![' '];
    let empty: Seq<char> = seq![];
    assert(is_white_space(sp[0]));
    assert(sp.drop_last() == empty && sp.drop_first() == empty);
    assert(trim_end(empty) == empty && trim_start(empty) == empty);
    assert(trim_end(sp) == empty);
    assert(trim_start(sp) == empty);
    let x = k + seq![' ', '='];
    let y = sp + v;
    let line = k + seq![' ', '=', ' '] + v;
    assert(line == x + y);
    lemma_trim_fixed(x);
    lemma_trim_end_concat(x, y);
    let y2 = trim_end(y);
    assert(trim_end(line) == x + y2) by {
        if y2.len() == 0 {
            assert(x + y2 == x);
        }
    }
    lemma_trim_start_concat(x, y2);
    let t = x + y2;
    assert(trim(line) == t);
    assert(t[0] == k[0]);
    let q = k.len() as int + 1;
    assert forall|j: int| 0 <= j < q implies t[j] != '=' by {
        if j < k.len() {
            assert(t[j] == k[j]);
        }
    }
    assert(t[q] == '=');
    lemma_first_index_is(t, '=', q);
    assert(t.take(q) == k + seq![' ']);
    lemma_trim_end_concat(k, sp);
    lemma_trim_fixed(k);
    assert(trim(t.take(q)) == k);
    assert(t.skip(q + 1) == y2);
    let b = lemma_trim_end_take(y);
    assert(trim_end(y2) == y2) by {
        if b > 0 {
            assert(y2.last() == y[b - 1]);
        }
    }
    lemma_trim_end_concat(sp, v);
    if trim_end(v).len() > 0 {
        lemma_trim_start_concat(sp, trim_end(v));
        assert(trim(y2) == trim(v));
    } else {
        assert(y2 == empty);
        assert(trim(y2) == trim(v));
    }
}

/// What a lookup finds is trimmed and lies within one line.
pub proof fn lemma_scan_result(s: Seq<char>, section: Seq<char>, key: Seq<char>, in_section: bool)
    ensures
        ini_scan(s, section, key, in_section) matches Some(v) ==> trim(v) == v && (forall|j: int|
            0 <= j < v.len() ==> v[j] != '\n'),
    decreases s.len(),
{
    let e = first_index(s, '\n');
    lemma_first_index_bounds(s, '\n');
    let raw = s.take(e);
    lemma_trim_within(raw, '\n');
    let line = trim(raw);
    let found = line_found(line, key, in_section);
    if found is Some {
        let q = first_index(line, '=');
        lemma_first_index_bounds(line, '=');
        let part = line.skip(q + 1);
        assert forall|j: int| 0 <= j < part.len() implies part[j] != '\n' by {
            assert(part[j] == line[q + 1 + j]);
        }
        lemma_trim_within(part, '\n');
        lemma_trim_idempotent(part);
    } else if 0 <= e < s.len() {
        lemma_scan_result(s.skip(e + 1), section, key, section_open_after(line, section, in_section));
    }
}

/// A name that can stand as a key or a section name in a line of its own:
/// non-empty, no surrounding whitespace, not starting like a comment or a
/// header, and holding no `=` or line break.
pub open spec fn is_plain_name(k: Seq<char>) -> bool {
    &&& k.len() > 0
    &&& !is_white_space(k[0])
    &&& !is_white_space(k.last())
    &&& k[0] != '#' && k[0] != ';' && k[0] != '['
    &&& forall|j: int| 0 <= j < k.len() ==> k[j] != '=' && k[j] != '\n'
}

/// Scanning past a `k = v` line.
pub proof fn lemma_scan_kv(k: Seq<char>, v: Seq<char>, rest: Seq<char>, section: Seq<char>, key: Seq<char>, in_section: bool)
    requires
        is_plain_name(k),
        forall|j: int| 0 <= j < v.len() ==> v[j] != '\n',
    ensures
        ini_scan(k + seq![' ', '=', ' '] + v + seq!['\n'] + rest, section, key, in_section) == (if in_section
            && eq_ignore_ascii_case(k, key) {
            Some(trim(v))
        } else {
            ini_scan(rest, section, key, in_section)
        }),
{
    let line = k + seq![' ', '=', ' '] + v;
    assert forall|j: int| 0 <= j < line.len() implies line[j] != '\n' by {
        if j < k.len() {
            assert(line[j] == k[j]);
        } else if j >= k.len() + 3 {
            assert(line[j] == v[j - k.len() - 3]);
        }
    }
    lemma_kv_line(k, v, key);
    lemma_scan_line(line, rest, section, key, in_section);
}

/// Scanning past a `[name]` line.
pub proof fn lemma_scan_header(name: Seq<char>, rest: Seq<char>, section: Seq<char>, key: Seq<char>, in_section: bool)
    requires
        is_plain_name(name),
        forall|j: int| 0 <= j < name.len() ==> name[j] != ']',
    ensures
        ini_scan(seq!['['] + name + seq![']'] + seq!['\n'] + rest, section, key, in_section) == ini_scan(
            rest,
            section,
            key,
            eq_ignore_ascii_case(name, section),
        ),
{
    let line = seq!['['] + name + seq![']'];
    assert forall|j: int| 0 <= j < line.len() implies line[j] != '\n' by {
        if 0 < j < line.len() - 1 {
            assert(line[j] == name[j - 1]);
        }
    }
    lemma_header_line(name, section, key, in_section);
    lemma_scan_line(line, rest, section, key, in_section);
}

/// Scanning past a blank line.
pub proof fn lemma_scan_blank(rest: Seq<char>, section: Seq<char>, key: Seq<char>, in_section: bool)
    ensures
        ini_scan(seq!['\n'] + rest, section, key, in_section) == ini_scan(rest, section, key, in_section),
{
    let empty: Seq<char> = seq![];
    assert(empty + seq!['\n'] + rest == seq!['\n'] + rest);
    assert(trim_end(empty) == empty && trim_start(empty) == empty);
    lemma_scan_line(empty, rest, section, key, in_section);
}

} // verus!
