use vstd::prelude::*;

use crate::error::GenerateError;
use crate::strutil::{chars_to_string, str_chars};

verus! {

/// One `$name: Type` parameter declaration extracted from a comment line.
pub struct QueryVariable {
    pub name: String,
    pub type_: String,
}

pub open spec fn view_qvar(v: QueryVariable) -> (Seq<char>, Seq<char>) {
    (v.name@, v.type_@)
}

pub open spec fn view_qvars(s: Seq<QueryVariable>) -> Seq<(Seq<char>, Seq<char>)> {
    s.map_values(|v: QueryVariable| view_qvar(v))
}

/// The character classes the annotation scanner runs over.
#[derive(Clone, Copy)]
pub enum ScanClass {
    /// Whitespace inside a line.
    Spaces,
    /// The `/` characters of a line-comment marker.
    Slashes,
    /// The `#` characters of a comment marker.
    Hashes,
    /// Characters a parameter name is made of.
    WordChars,
    /// Anything but whitespace: the characters of a type token.
    NonSpaces,
    /// Anything but a line break.
    NonNewlines,
}

/// Whether a character is alphanumeric under the Unicode character
/// tables, as the standard library classifies it.
pub uninterp spec fn unicode_alphanumeric(c: char) -> bool;

/// Relies on `char::is_alphanumeric`: a fixed Unicode property of the
/// character alone, the same in every process and on every machine.
#[verifier::external_body]
fn char_is_alphanumeric(c: char) -> (r: bool)
    ensures
        r == unicode_alphanumeric(c),
{
    c.is_alphanumeric()
}

/// The Unicode `White_Space` characters, written out: this is the
/// whitespace class the annotation grammar skips over.
pub open spec fn is_ann_space(c: char) -> bool {
    c == ' ' || c == '\t' || c == '\n' || c == '\x0b' || c == '\x0c' || c == '\r' || c == '\u{85}'
        || c == '\u{a0}' || c == '\u{1680}' || ('\u{2000}' <= c && c <= '\u{200a}')
        || c == '\u{2028}' || c == '\u{2029}' || c == '\u{202f}' || c == '\u{205f}'
        || c == '\u{3000}'
}

/// The characters a parameter name is made of.  Within the ASCII range
/// these are exactly the letters, the digits and the underscore; beyond
/// it, the Unicode letters and digits.  (Combining marks and connector
/// punctuation other than the underscore are not part of this class.)
pub open spec fn is_word_char(c: char) -> bool {
    if c <= '\x7f' {
        ('a' <= c && c <= 'z') || ('A' <= c && c <= 'Z') || ('0' <= c && c <= '9') || c == '_'
    } else {
        unicode_alphanumeric(c)
    }
}

pub open spec fn class_holds(k: ScanClass, c: char) -> bool {
    match k {
        ScanClass::Spaces => is_ann_space(c),
        ScanClass::Slashes => c == '/',
        ScanClass::Hashes => c == '#',
        ScanClass::WordChars => is_word_char(c),
        ScanClass::NonSpaces => !is_ann_space(c),
        ScanClass::NonNewlines => c != '\n',
    }
}

/// The first position at or after `i` whose character leaves the class,
/// or the length of the line if every later character stays in it.
pub open spec fn skip_class_at(s: Seq<char>, i: int, k: ScanClass) -> int
    decreases s.len() - i,
{
    if 0 <= i < s.len() && class_holds(k, s[i]) {
        skip_class_at(s, i + 1, k)
    } else {
        i
    }
}

pub proof fn lemma_skip_class_bounds(s: Seq<char>, i: int, k: ScanClass)
    requires
        0 <= i <= s.len(),
    ensures
        i <= skip_class_at(s, i, k) <= s.len(),
    decreases s.len() - i,
{
    if i < s.len() && class_holds(k, s[i]) {
        lemma_skip_class_bounds(s, i + 1, k);
    }
}

fn is_space_char(c: char) -> (r: bool)
    ensures
        r == is_ann_space(c),
{
    c == ' ' || c == '\t' || c == '\n' || c == '\x0b' || c == '\x0c' || c == '\r' || c == '\u{85}'
        || c == '\u{a0}' || c == '\u{1680}' || ('\u{2000}' <= c && c <= '\u{200a}')
        || c == '\u{2028}' || c == '\u{2029}' || c == '\u{202f}' || c == '\u{205f}'
        || c == '\u{3000}'
}

fn char_in_class(k: ScanClass, c: char) -> (r: bool)
    ensures
        r == class_holds(k, c),
{
    match k {
        ScanClass::Spaces => is_space_char(c),
        ScanClass::Slashes => c == '/',
        ScanClass::Hashes => c == '#',
        ScanClass::WordChars => {
            if c <= '\x7f' {
                ('a' <= c && c <= 'z') || ('A' <= c && c <= 'Z') || ('0' <= c && c <= '9') || c
                    == '_'
            } else {
                char_is_alphanumeric(c)
            }
        },
        ScanClass::NonSpaces => !is_space_char(c),
        ScanClass::NonNewlines => c != '\n',
    }
}

fn skip_class(s: &Vec<char>, from: usize, k: ScanClass) -> (r: usize)
    requires
        from <= s@.len(),
    ensures
        r == skip_class_at(s@, from as int, k),
        from <= r <= s@.len(),
{
    let n = s.len();
    let mut i: usize = from;
    while i < n && char_in_class(k, s[i])
        invariant
            n == s@.len(),
            from <= i <= n,
            skip_class_at(s@, from as int, k) == skip_class_at(s@, i as int, k),
        decreases n - i,
    {
        i = i + 1;
    }
    i
}

/// The characters of `v` from `a` (inclusive) to `b` (exclusive).
pub fn subrange_chars(v: &Vec<char>, a: usize, b: usize) -> (r: Vec<char>)
    requires
        a <= b <= v@.len(),
    ensures
        r@ == v@.subrange(a as int, b as int),
{
    let mut r: Vec<char> = Vec::new();
    let mut i: usize = a;
    while i < b
        invariant
            a <= i <= b <= v@.len(),
            r@ =~= v@.subrange(a as int, i as int),
        decreases b - i,
    {
        r.push(v[i]);
        proof {
            assert(v@.subrange(a as int, i as int + 1) =~= v@.subrange(a as int, i as int).push(
                v@[i as int],
            ));
        }
        i = i + 1;
    }
    r
}

/// What a single line yields: the name and type of an annotation of the
/// shape "two or more slashes, or one or more hashes, then `$name`, a
/// colon, and one whitespace-free type token, spaces allowed in between
/// and nothing else on the line" — or nothing, for every other line.
pub open spec fn spec_line_annotation(line: Seq<char>) -> Option<(Seq<char>, Seq<char>)> {
    let i0 = skip_class_at(line, 0, ScanClass::Spaces);
    if i0 < line.len() && (line[i0] == '/' || line[i0] == '#') {
        let marker_end = if line[i0] == '/' {
            skip_class_at(line, i0, ScanClass::Slashes)
        } else {
            skip_class_at(line, i0, ScanClass::Hashes)
        };
        if line[i0] == '#' || marker_end - i0 >= 2 {
            let i2 = skip_class_at(line, marker_end, ScanClass::Spaces);
            if i2 < line.len() && line[i2] == '$' {
                let name_end = skip_class_at(line, i2 + 1, ScanClass::WordChars);
                if name_end > i2 + 1 {
                    let i5 = skip_class_at(line, name_end, ScanClass::Spaces);
                    if i5 < line.len() && line[i5] == ':' {
                        let ty_start = skip_class_at(line, i5 + 1, ScanClass::Spaces);
                        let ty_end = skip_class_at(line, ty_start, ScanClass::NonSpaces);
                        if ty_end > ty_start && skip_class_at(line, ty_end, ScanClass::Spaces)
                            == line.len() {
                            Some(
                                (line.subrange(i2 + 1, name_end), line.subrange(ty_start, ty_end)),
                            )
                        } else {
                            None
                        }
                    } else {
                        None
                    }
                } else {
                    None
                }
            } else {
                None
            }
        } else {
            None
        }
    } else {
        None
    }
}

fn parse_annotation_line(line: &Vec<char>) -> (r: Option<QueryVariable>)
    ensures
        match spec_line_annotation(line@) {
            Some(p) => r is Some && view_qvar(r->0) == p,
            None => r is None,
        },
{
    let n = line.len();
    let i0 = skip_class(line, 0, ScanClass::Spaces);
    if !(i0 < n && (line[i0] == '/' || line[i0] == '#')) {
        return None;
    }
    let marker_end = if line[i0] == '/' {
        skip_class(line, i0, ScanClass::Slashes)
    } else {
        skip_class(line, i0, ScanClass::Hashes)
    };
    if !(line[i0] == '#' || marker_end - i0 >= 2) {
        return None;
    }
    let i2 = skip_class(line, marker_end, ScanClass::Spaces);
    if !(i2 < n && line[i2] == '$') {
        return None;
    }
    let name_end = skip_class(line, i2 + 1, ScanClass::WordChars);
    if !(name_end > i2 + 1) {
        return None;
    }
    let i5 = skip_class(line, name_end, ScanClass::Spaces);
    if !(i5 < n && line[i5] == ':') {
        return None;
    }
    let ty_start = skip_class(line, i5 + 1, ScanClass::Spaces);
    let ty_end = skip_class(line, ty_start, ScanClass::NonSpaces);
    if !(ty_end > ty_start && skip_class(line, ty_end, ScanClass::Spaces) == n) {
        return None;
    }
    let name_chars = subrange_chars(line, i2 + 1, name_end);
    let ty_chars = subrange_chars(line, ty_start, ty_end);
    Some(QueryVariable { name: chars_to_string(&name_chars), type_: chars_to_string(&ty_chars) })
}

/// A line with its trailing carriage return removed, as the line iterator
/// of the standard library does.
pub open spec fn strip_cr(l: Seq<char>) -> Seq<char> {
    if l.len() > 0 && l.last() == '\r' {
        l.drop_last()
    } else {
        l
    }
}

pub open spec fn opt_pair_seq(o: Option<(Seq<char>, Seq<char>)>) -> Seq<(Seq<char>, Seq<char>)> {
    match o {
        Some(p) => seq![p],
        None => Seq::empty(),
    }
}

/// Every annotation in a text, line by line, in file order.
pub open spec fn spec_annotations(s: Seq<char>) -> Seq<(Seq<char>, Seq<char>)>
    decreases s.len(),
{
    if s.len() == 0 {
        Seq::empty()
    } else {
        let i = skip_class_at(s, 0, ScanClass::NonNewlines);
        if 0 <= i < s.len() {
            opt_pair_seq(spec_line_annotation(strip_cr(s.subrange(0, i)))) + spec_annotations(
                s.subrange(i + 1, s.len() as int),
            )
        } else {
            opt_pair_seq(spec_line_annotation(strip_cr(s)))
        }
    }
}

fn annotations_of_chars(s: &Vec<char>) -> (r: Vec<QueryVariable>)
    ensures
        view_qvars(r@) == spec_annotations(s@),
    decreases s@.len(),
{
    let mut out: Vec<QueryVariable> = Vec::new();
    let n = s.len();
    if n == 0 {
        proof {
            assert(view_qvars(out@) =~= spec_annotations(s@));
        }
        return out;
    }
    let i = skip_class(s, 0, ScanClass::NonNewlines);
    let mut line = subrange_chars(s, 0, i);
    if line.len() > 0 && line[line.len() - 1] == '\r' {
        line.pop();
        proof {
            assert(line@ =~= strip_cr(s@.subrange(0, i as int)));
        }
    }
    proof {
        assert(line@ == strip_cr(s@.subrange(0, i as int)));
    }
    match parse_annotation_line(&line) {
        Some(v) => {
            out.push(v);
        },
        None => {},
    }
    if i < n {
        let rest = subrange_chars(s, i + 1, n);
        let mut rest_out = annotations_of_chars(&rest);
        let ghost head = out@;
        let ghost restv = rest_out@;
        out.append(&mut rest_out);
        proof {
            assert(view_qvars(out@) =~= view_qvars(head) + view_qvars(restv));
            assert(view_qvars(out@) =~= spec_annotations(s@));
        }
    } else {
        proof {
            assert(s@.subrange(0, i as int) =~= s@);
            assert(view_qvars(out@) =~= spec_annotations(s@));
        }
    }
    out
}

/// Scan raw definition-file text for comment lines of the shape
/// `// $name: Type` or `# $name: Type` and return the declared
/// parameters in file order, duplicates kept.
pub fn extract_query_variables(input: &str) -> (r: Result<Vec<QueryVariable>, GenerateError>)
    ensures
        r is Ok,
        view_qvars(r->Ok_0@) == spec_annotations(input@),
{
    let chars = str_chars(input);
    Ok(annotations_of_chars(&chars))
}

} // verus!
