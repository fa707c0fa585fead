//! Rendering of populated records as a JSON array, specified character by
//! character.  The renderer emits exactly the text a standard JSON serializer
//! produces for `{"name": .., "icon": .., "exec": ..}` objects: string
//! escaping covers the quote, the backslash and every control character, and
//! everything else passes through unchanged.

use vstd::prelude::*;
use vstd::string::StrSliceExecFns;

use crate::record::{EwwAppEntry, EwwAppEntryV};

verus! {

/// The lowercase hexadecimal digit for a value below sixteen.
pub open spec fn hex_digit(n: int) -> char {
    if n == 0 { '0' }
    else if n == 1 { '1' }
    else if n == 2 { '2' }
    else if n == 3 { '3' }
    else if n == 4 { '4' }
    else if n == 5 { '5' }
    else if n == 6 { '6' }
    else if n == 7 { '7' }
    else if n == 8 { '8' }
    else if n == 9 { '9' }
    else if n == 10 { 'a' }
    else if n == 11 { 'b' }
    else if n == 12 { 'c' }
    else if n == 13 { 'd' }
    else if n == 14 { 'e' }
    else { 'f' }
}

/// How one character appears inside a JSON string literal: the quote and the
/// backslash are escaped, the five control characters with short forms use
/// them, every other control character becomes a `\u00..` escape, and all
/// remaining characters stand for themselves.
pub open spec fn spec_escape_char(c: char) -> Seq<char> {
    if c == '"' { seq!['\\', '"'] }
    else if c == '\\' { seq!['\\', '\\'] }
    else if c == '\u{08}' { seq!['\\', 'b'] }
    else if c == '\t' { seq!['\\', 't'] }
    else if c == '\n' { seq!['\\', 'n'] }
    else if c == '\u{0C}' { seq!['\\', 'f'] }
    else if c == '\r' { seq!['\\', 'r'] }
    else if (c as u32) < 0x20 {
        seq!['\\', 'u', '0', '0', hex_digit((c as u32) as int / 16), hex_digit((c as u32) as int % 16)]
    }
    else { seq![c] }
}

/// The escaped form of a whole character sequence.
pub open spec fn spec_escape(s: Seq<char>) -> Seq<char>
    decreases s.len(),
{
    if s.len() == 0 {
        Seq::empty()
    } else {
        spec_escape(s.drop_last()) + spec_escape_char(s.last())
    }
}

/// A JSON string literal: the escaped text between two quotes.
pub open spec fn spec_json_string(s: Seq<char>) -> Seq<char> {
    seq!['"'] + spec_escape(s) + seq!['"']
}

/// The JSON object for one populated record, fields in the order
/// `name`, `icon`, `exec`.
pub open spec fn spec_entry_json(e: EwwAppEntryV) -> Seq<char> {
    "{\"name\":"@ + spec_json_string(e.name)
        + ",\"icon\":"@ + spec_json_string(e.icon)
        + ",\"exec\":"@ + spec_json_string(e.exec_cmd)
        + "}"@
}

/// The comma-separated object list inside the array brackets.
pub open spec fn spec_entries_body(es: Seq<EwwAppEntryV>) -> Seq<char>
    decreases es.len(),
{
    if es.len() == 0 {
        Seq::empty()
    } else {
        spec_entries_body(es.drop_last())
            + (if es.len() == 1 { Seq::<char>::empty() } else { seq![','] })
            + spec_entry_json(es.last())
    }
}

/// The JSON array for a whole list of populated records.
pub open spec fn spec_entries_json(es: Seq<EwwAppEntryV>) -> Seq<char> {
    seq!['['] + spec_entries_body(es) + seq![']']
}

/// A character that JSON string escaping leaves unchanged: not the quote,
/// not the backslash, not a control character.
pub open spec fn plain_char(c: char) -> bool {
    c != '"' && c != '\\' && (c as u32) >= 0x20
}

/// Escaping leaves a sequence of plain characters unchanged.
pub proof fn lemma_escape_plain(s: Seq<char>)
    requires
        forall|i: int| 0 <= i < s.len() ==> plain_char(#[trigger] s[i]),
    ensures
        spec_escape(s) == s,
    decreases s.len(),
{
    if s.len() == 0 {
        assert(spec_escape(s) =~= s);
    } else {
        lemma_escape_plain(s.drop_last());
        assert(plain_char(s.last()));
        assert(spec_escape_char(s.last()) =~= seq![s.last()]);
        assert(spec_escape(s) =~= s.drop_last() + seq![s.last()]);
        assert(spec_escape(s) =~= s);
    }
}

proof fn lemma_escape_snoc(s: Seq<char>, i: int)
    requires
        0 <= i < s.len(),
    ensures
        spec_escape(s.take(i + 1)) == spec_escape(s.take(i)) + spec_escape_char(s[i]),
{
    assert(s.take(i + 1).drop_last() =~= s.take(i));
    assert(s.take(i + 1).last() == s[i]);
}

proof fn lemma_entries_body_snoc(es: Seq<EwwAppEntryV>, j: int)
    requires
        0 <= j < es.len(),
    ensures
        spec_entries_body(es.take(j + 1)) == spec_entries_body(es.take(j))
            + (if j == 0 { Seq::<char>::empty() } else { seq![','] })
            + spec_entry_json(es[j]),
{
    assert(es.take(j + 1).drop_last() =~= es.take(j));
    assert(es.take(j + 1).last() == es[j]);
}

/// Relies on `String: FromIterator<char>` through `Iterator::collect`: the
/// collected string holds exactly the characters of the vector, in order.
#[verifier::external_body]
fn string_from_chars(v: Vec<char>) -> (r: String)
    ensures
        r@ == v@,
{
    v.into_iter().collect()
}

fn hex_char(n: u32) -> (c: char)
    requires
        n < 16,
    ensures
        c == hex_digit(n as int),
{
    if n == 0 { '0' }
    else if n == 1 { '1' }
    else if n == 2 { '2' }
    else if n == 3 { '3' }
    else if n == 4 { '4' }
    else if n == 5 { '5' }
    else if n == 6 { '6' }
    else if n == 7 { '7' }
    else if n == 8 { '8' }
    else if n == 9 { '9' }
    else if n == 10 { 'a' }
    else if n == 11 { 'b' }
    else if n == 12 { 'c' }
    else if n == 13 { 'd' }
    else if n == 14 { 'e' }
    else { 'f' }
}

fn push_escaped_char(c: char, out: &mut Vec<char>)
    ensures
        final(out)@ == old(out)@ + spec_escape_char(c),
{
    if c == '"' {
        out.push('\\');
        out.push('"');
    } else if c == '\\' {
        out.push('\\');
        out.push('\\');
    } else if c == '\u{08}' {
        out.push('\\');
        out.push('b');
    } else if c == '\t' {
        out.push('\\');
        out.push('t');
    } else if c == '\n' {
        out.push('\\');
        out.push('n');
    } else if c == '\u{0C}' {
        out.push('\\');
        out.push('f');
    } else if c == '\r' {
        out.push('\\');
        out.push('r');
    } else if (c as u32) < 0x20 {
        let n = c as u32;
        out.push('\\');
        out.push('u');
        out.push('0');
        out.push('0');
        out.push(hex_char(n / 16));
        out.push(hex_char(n % 16));
    } else {
        out.push(c);
    }
    assert(out@ =~= old(out)@ + spec_escape_char(c));
}

fn push_str_chars(s: &str, out: &mut Vec<char>)
    ensures
        final(out)@ == old(out)@ + s@,
{
    let len = s.unicode_len();
    let mut i: usize = 0;
    while i < len
        invariant
            len == s@.len(),
            i <= len,
            out@ == old(out)@ + s@.take(i as int),
        decreases len - i,
    {
        let c = s.get_char(i);
        out.push(c);
        assert(out@ =~= old(out)@ + s@.take(i + 1));
        i += 1;
    }
    assert(s@.take(len as int) =~= s@);
}

fn push_json_string(s: &str, out: &mut Vec<char>)
    ensures
        final(out)@ == old(out)@ + spec_json_string(s@),
{
    out.push('"');
    let len = s.unicode_len();
    let mut i: usize = 0;
    while i < len
        invariant
            len == s@.len(),
            i <= len,
            out@ == old(out)@ + seq!['"'] + spec_escape(s@.take(i as int)),
        decreases len - i,
    {
        let c = s.get_char(i);
        push_escaped_char(c, out);
        proof {
            lemma_escape_snoc(s@, i as int);
        }
        assert(out@ =~= old(out)@ + seq!['"'] + spec_escape(s@.take(i + 1)));
        i += 1;
    }
    assert(s@.take(len as int) =~= s@);
    out.push('"');
    assert(out@ =~= old(out)@ + spec_json_string(s@));
}

fn push_entry_json(e: &EwwAppEntry, out: &mut Vec<char>)
    ensures
        final(out)@ == old(out)@ + spec_entry_json(e@),
{
    push_str_chars("{\"name\":", out);
    push_json_string(e.name.as_str(), out);
    push_str_chars(",\"icon\":", out);
    push_json_string(e.icon.as_str(), out);
    push_str_chars(",\"exec\":", out);
    push_json_string(e.exec_cmd.as_str(), out);
    push_str_chars("}", out);
    assert(out@ =~= old(out)@ + spec_entry_json(e@));
}

/// The quoted, escaped JSON form of one string.
pub fn json_string(s: &String) -> (r: String)
    ensures
        r@ == spec_json_string(s@),
{
    let mut out: Vec<char> = Vec::new();
    push_json_string(s.as_str(), &mut out);
    assert(out@ =~= spec_json_string(s@));
    string_from_chars(out)
}

/// The JSON array for a list of populated records: exactly the text the
/// list operation prints and the cache file stores.
pub fn entries_to_json(entries: &Vec<EwwAppEntry>) -> (r: String)
    ensures
        r@ == spec_entries_json(entries.deep_view()),
{
    let ghost dv = entries.deep_view();
    let mut out: Vec<char> = Vec::new();
    out.push('[');
    let n = entries.len();
    let mut i: usize = 0;
    while i < n
        invariant
            n == entries@.len(),
            dv == entries.deep_view(),
            dv.len() == n,
            i <= n,
            out@ == seq!['['] + spec_entries_body(dv.take(i as int)),
        decreases n - i,
    {
        if i > 0 {
            out.push(',');
        }
        push_entry_json(&entries[i], &mut out);
        proof {
            lemma_entries_body_snoc(dv, i as int);
            assert(dv[i as int] == entries@[i as int].deep_view());
        }
        assert(out@ =~= seq!['['] + spec_entries_body(dv.take(i + 1)));
        i += 1;
    }
    assert(dv.take(n as int) =~= dv);
    out.push(']');
    assert(out@ =~= spec_entries_json(dv));
    string_from_chars(out)
}

} // verus!
