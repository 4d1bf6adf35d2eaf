//! The target of the canonical encoding: a mathematical model of a JSON
//! document, and the one text shape each document renders to.
//!
//! `JsonV` is a ghost value: the wire encoder maps an expression tree to a
//! `JsonV` first (see `codec`), and every contract about the wire bytes goes
//! through `jsonv_text`, the canonical rendering of a `JsonV`.

use vstd::prelude::*;
use vstd::string::StrSliceExecFns;

verus! {

/// A JSON document as a mathematical value. Object entries keep their order:
/// rendering is deterministic, so one document has exactly one text.
pub enum JsonV {
    Null,
    Bool(bool),
    Int(int),
    Str(Seq<char>),
    Arr(Seq<JsonV>),
    Obj(Seq<(Seq<char>, JsonV)>),
}

/// The decimal digit character for `d` in `0..=9`.
pub open spec fn dec_digit(d: int) -> char {
    (('0' as u8) + d) as char
}

/// The lower-case hexadecimal digit character for `d` in `0..=15`.
pub open spec fn hex_digit(d: int) -> char {
    if d < 10 {
        (('0' as u8) + d) as char
    } else {
        (('a' as u8) + (d - 10)) as char
    }
}

/// The decimal digits of a non-negative integer, most significant first.
pub open spec fn dec_text(n: int) -> Seq<char>
    recommends
        n >= 0,
    decreases n,
{
    if n < 10 {
        seq![dec_digit(n)]
    } else {
        dec_text(n / 10) + seq![dec_digit(n % 10)]
    }
}

/// The canonical text of a JSON integer: an optional minus sign followed by
/// the decimal digits, no leading zeros.
pub open spec fn int_text(n: int) -> Seq<char> {
    if n < 0 {
        seq!['-'] + dec_text(-n)
    } else {
        dec_text(n)
    }
}

/// How one character appears inside a JSON string literal: the quote and the
/// backslash are escaped, control characters get their short escape or a
/// `\u00..` form, and every other character stands as itself.
pub open spec fn esc_char(c: char) -> Seq<char> {
    if c == '"' {
        seq!['\\', '"']
    } else if c == '\\' {
        seq!['\\', '\\']
    } else if c == '\u{08}' {
        seq!['\\', 'b']
    } else if c == '\u{0C}' {
        seq!['\\', 'f']
    } else if c == '\n' {
        seq!['\\', 'n']
    } else if c == '\r' {
        seq!['\\', 'r']
    } else if c == '\t' {
        seq!['\\', 't']
    } else if (c as u32) < 0x20 {
        seq!['\\', 'u', '0', '0', hex_digit((c as int) / 16), hex_digit((c as int) % 16)]
    } else {
        seq![c]
    }
}

/// A character sequence escaped for the inside of a JSON string literal.
pub open spec fn esc_text(s: Seq<char>) -> Seq<char>
    decreases s,
{
    if s.len() == 0 {
        Seq::empty()
    } else {
        esc_text(s.drop_last()) + esc_char(s.last())
    }
}

/// A JSON string literal: the escaped characters between two quotes.
pub open spec fn str_text(s: Seq<char>) -> Seq<char> {
    seq!['"'] + esc_text(s) + seq!['"']
}

/// The canonical text of a JSON document.
pub open spec fn jsonv_text(j: JsonV) -> Seq<char>
    decreases j,
{
    match j {
        JsonV::Null => "null"@,
        JsonV::Bool(b) => if b {
            "true"@
        } else {
            "false"@
        },
        JsonV::Int(n) => int_text(n),
        JsonV::Str(s) => str_text(s),
        JsonV::Arr(items) => seq!['['] + arr_text(items) + seq![']'],
        JsonV::Obj(entries) => seq!['{'] + obj_text(entries) + seq!['}'],
    }
}

/// The comma-separated items of a JSON array, without the brackets.
pub open spec fn arr_text(items: Seq<JsonV>) -> Seq<char>
    decreases items,
{
    if items.len() == 0 {
        Seq::empty()
    } else if items.len() == 1 {
        jsonv_text(items.last())
    } else {
        arr_text(items.drop_last()) + seq![','] + jsonv_text(items.last())
    }
}

/// The comma-separated `"key":value` entries of a JSON object, without the
/// braces.
pub open spec fn obj_text(entries: Seq<(Seq<char>, JsonV)>) -> Seq<char>
    decreases entries,
{
    if entries.len() == 0 {
        Seq::empty()
    } else if entries.len() == 1 {
        entry_text(entries.last())
    } else {
        obj_text(entries.drop_last()) + seq![','] + entry_text(entries.last())
    }
}

/// One `"key":value` entry of a JSON object.
pub open spec fn entry_text(entry: (Seq<char>, JsonV)) -> Seq<char>
    decreases entry,
{
    str_text(entry.0) + seq![':'] + jsonv_text(entry.1)
}

/// The text of a one-entry object body, written out.
pub proof fn lemma_obj_text1(e0: (Seq<char>, JsonV))
    ensures
        obj_text(seq![e0]) == entry_text(e0),
{
    assert(seq![e0].last() == e0);
}

/// The text of a two-entry object body, written out.
pub proof fn lemma_obj_text2(e0: (Seq<char>, JsonV), e1: (Seq<char>, JsonV))
    ensures
        obj_text(seq![e0, e1]) == entry_text(e0) + seq![','] + entry_text(e1),
{
    let s = seq![e0, e1];
    assert(s.drop_last() =~= seq![e0]);
    assert(s.last() == e1);
    lemma_obj_text1(e0);
}

/// The text of a three-entry object body, written out.
pub proof fn lemma_obj_text3(
    e0: (Seq<char>, JsonV),
    e1: (Seq<char>, JsonV),
    e2: (Seq<char>, JsonV),
)
    ensures
        obj_text(seq![e0, e1, e2]) == entry_text(e0) + seq![','] + entry_text(e1) + seq![',']
            + entry_text(e2),
{
    let s = seq![e0, e1, e2];
    assert(s.drop_last() =~= seq![e0, e1]);
    assert(s.last() == e2);
    lemma_obj_text2(e0, e1);
}

/// Appending one item to an array body appends its text, after a comma
/// unless the item is the first.
pub proof fn lemma_arr_text_push(items: Seq<JsonV>, j: JsonV)
    ensures
        arr_text(items.push(j)) == if items.len() == 0 {
            jsonv_text(j)
        } else {
            arr_text(items) + seq![','] + jsonv_text(j)
        },
{
    let s = items.push(j);
    assert(s.drop_last() =~= items);
    assert(s.last() == j);
}

/// Appending one entry to an object body appends its text, after a comma
/// unless the entry is the first.
pub proof fn lemma_obj_text_push(entries: Seq<(Seq<char>, JsonV)>, e: (Seq<char>, JsonV))
    ensures
        obj_text(entries.push(e)) == if entries.len() == 0 {
            entry_text(e)
        } else {
            obj_text(entries) + seq![','] + entry_text(e)
        },
{
    let s = entries.push(e);
    assert(s.drop_last() =~= entries);
    assert(s.last() == e);
}

/// Appends the characters of `s` to `out`.
pub fn push_lit(out: &mut Vec<char>, s: &str)
    ensures
        final(out)@ == old(out)@ + s@,
{
    let n: usize = s.unicode_len();
    let mut i: usize = 0;
    while i < n
        invariant
            i <= n,
            n == s@.len(),
            out@ == old(out)@ + s@.take(i as int),
        decreases n - i,
    {
        out.push(s.get_char(i));
        i = i + 1;
        proof {
            assert(s@.take(i as int) =~= s@.take(i - 1) + seq![s@[i - 1]]);
        }
    }
    proof {
        assert(s@.take(n as int) =~= s@);
    }
}

/// The decimal digit character for `d`, executable form.
fn dec_digit_exec(d: u8) -> (r: char)
    requires
        d < 10,
    ensures
        r == dec_digit(d as int),
{
    (('0' as u8) + d) as char
}

/// The lower-case hexadecimal digit character for `d`, executable form.
fn hex_digit_exec(d: u8) -> (r: char)
    requires
        d < 16,
    ensures
        r == hex_digit(d as int),
{
    if d < 10 {
        (('0' as u8) + d) as char
    } else {
        (('a' as u8) + (d - 10)) as char
    }
}

/// Appends the decimal digits of `n` to `out`.
pub fn push_dec(out: &mut Vec<char>, n: u64)
    ensures
        final(out)@ == old(out)@ + dec_text(n as int),
    decreases n,
{
    if n < 10 {
        out.push(dec_digit_exec(n as u8));
        proof {
            assert(out@ =~= old(out)@ + dec_text(n as int));
        }
    } else {
        push_dec(out, n / 10);
        out.push(dec_digit_exec((n % 10) as u8));
        proof {
            assert(out@ =~= old(out)@ + dec_text(n as int));
        }
    }
}

/// Appends the canonical decimal text of `n` to `out`.
pub fn push_int(out: &mut Vec<char>, n: i64)
    ensures
        final(out)@ == old(out)@ + int_text(n as int),
{
    if n >= 0 {
        push_dec(out, n as u64);
    } else {
        out.push('-');
        let m: u64 = ((-(n + 1)) as u64) + 1;
        assert(m as int == -(n as int));
        push_dec(out, m);
        proof {
            assert(out@ =~= old(out)@ + int_text(n as int));
        }
    }
}

/// Appends the escaped form of one character to `out`.
fn push_esc_char(out: &mut Vec<char>, c: char)
    ensures
        final(out)@ == old(out)@ + esc_char(c),
{
    if c == '"' {
        out.push('\\');
        out.push('"');
    } else if c == '\\' {
        out.push('\\');
        out.push('\\');
    } else if c == '\u{08}' {
        out.push('\\');
        out.push('b');
    } else if c == '\u{0C}' {
        out.push('\\');
        out.push('f');
    } else if c == '\n' {
        out.push('\\');
        out.push('n');
    } else if c == '\r' {
        out.push('\\');
        out.push('r');
    } else if c == '\t' {
        out.push('\\');
        out.push('t');
    } else if (c as u32) < 0x20 {
        let v: u32 = c as u32;
        out.push('\\');
        out.push('u');
        out.push('0');
        out.push('0');
        out.push(hex_digit_exec((v / 16) as u8));
        out.push(hex_digit_exec((v % 16) as u8));
    } else {
        out.push(c);
    }
    proof {
        assert(out@ =~= old(out)@ + esc_char(c));
    }
}

/// Appends a whole JSON string literal — quotes included — for `s` to `out`.
pub fn push_str_literal(out: &mut Vec<char>, s: &str)
    ensures
        final(out)@ == old(out)@ + str_text(s@),
{
    out.push('"');
    let n: usize = s.unicode_len();
    let mut i: usize = 0;
    while i < n
        invariant
            i <= n,
            n == s@.len(),
            out@ == old(out)@ + seq!['"'] + esc_text(s@.take(i as int)),
        decreases n - i,
    {
        push_esc_char(out, s.get_char(i));
        i = i + 1;
        proof {
            let t: Seq<char> = s@.take(i as int);
            assert(t.drop_last() =~= s@.take(i - 1));
            assert(t.last() == s@[i - 1]);
            assert(out@ =~= old(out)@ + seq!['"'] + esc_text(t));
        }
    }
    out.push('"');
    proof {
        assert(s@.take(n as int) =~= s@);
        assert(out@ =~= old(out)@ + str_text(s@));
    }
}

} // verus!
