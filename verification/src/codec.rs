//! The canonical encoding: every expression tree maps to one `JsonV`
//! document, and `encode` produces that document's text.
//!
//! The crux of the format is disambiguation: the wire grammar reserves
//! top-level object keys for query forms, so a caller-supplied plain
//! mapping is wrapped as `{"object": …}` — recursively — while query
//! records encode unwrapped under their fixed keys.

use vstd::prelude::*;
use crate::base64::{base64_text, push_base64};
use crate::expr::{Expr, Reference, Value};
use crate::expr::{NANOS_PER_SEC, TS_MAX_SECS, TS_MIN_SECS};
use crate::json::{dec_digit, esc_char, esc_text};
use crate::json::{arr_text, jsonv_text, obj_text, JsonV};
use crate::json::{push_int, push_lit, push_str_literal};
use crate::query::datetime::epoch_unit_text;
use crate::query::Query;

verus! {

/// The RFC 3339 text of the UTC instant `secs` seconds and `nanos`
/// nanoseconds after the Unix epoch, as chrono writes it: date, `T`, time,
/// subseconds only when nonzero, and the suffix `Z`.
pub uninterp spec fn rfc3339_utc(secs: int, nanos: int) -> Seq<char>;

/// Relies on chrono's `DateTime::from_timestamp`, which accepts every
/// instant in the required range, and `DateTime::to_rfc3339_opts`, whose
/// text depends on the instant alone.
#[verifier::external_body]
fn format_rfc3339(secs: i64, nanos: u32) -> (r: String)
    requires
        TS_MIN_SECS <= secs <= TS_MAX_SECS,
        nanos < NANOS_PER_SEC,
    ensures
        r@ == rfc3339_utc(secs as int, nanos as int),
{
    let dt = chrono::DateTime::from_timestamp(secs, nanos).unwrap();
    dt.to_rfc3339_opts(chrono::SecondsFormat::AutoSi, true)
}

/// The fixed-width `YYYY-MM-DD` text of a calendar date.
pub open spec fn date_text(y: int, m: int, d: int) -> Seq<char> {
    seq![
        dec_digit(y / 1000),
        dec_digit(y / 100 % 10),
        dec_digit(y / 10 % 10),
        dec_digit(y % 10),
        '-',
        dec_digit(m / 10),
        dec_digit(m % 10),
        '-',
        dec_digit(d / 10),
        dec_digit(d % 10),
    ]
}

/// A character that stands as itself inside a JSON string literal.
pub open spec fn clean_char(c: char) -> bool {
    esc_char(c) == seq![c]
}

/// Escaping is the identity on a sequence of clean characters.
proof fn lemma_esc_text_clean(s: Seq<char>)
    requires
        forall|i: int| 0 <= i < s.len() ==> clean_char(#[trigger] s[i]),
    ensures
        esc_text(s) == s,
    decreases s.len(),
{
    if s.len() == 0 {
        assert(esc_text(s) =~= s);
    } else {
        lemma_esc_text_clean(s.drop_last());
        assert(clean_char(s.last()));
        assert(esc_text(s) =~= s.drop_last() + seq![s.last()]);
        assert(esc_text(s) =~= s);
    }
}

/// Decimal digits and the dash are clean, so a date text needs no escapes.
proof fn lemma_date_text_clean(y: int, m: int, d: int)
    requires
        0 <= y <= 9999,
        0 <= m <= 99,
        0 <= d <= 99,
    ensures
        esc_text(date_text(y, m, d)) == date_text(y, m, d),
{
    let s = date_text(y, m, d);
    assert forall|i: int| 0 <= i < s.len() implies clean_char(#[trigger] s[i]) by {
        assert(0 <= y / 1000 <= 9);
        assert(0 <= y / 100 % 10 <= 9);
        assert(0 <= y / 10 % 10 <= 9);
        assert(0 <= y % 10 <= 9);
        assert(0 <= m / 10 <= 9);
        assert(0 <= m % 10 <= 9);
        assert(0 <= d / 10 <= 9);
        assert(0 <= d % 10 <= 9);
        assert(clean_char('-'));
    }
    lemma_esc_text_clean(s);
}

/// Every character of a base64 text is clean, so a blob needs no escapes.
proof fn lemma_base64_text_clean(b: Seq<u8>)
    ensures
        esc_text(base64_text(b)) == base64_text(b),
    decreases b.len(),
{
    let s = base64_text(b);
    assert forall|i: int| 0 <= i < s.len() implies clean_char(#[trigger] s[i]) by {
        lemma_base64_chars_clean(b, i);
    }
    lemma_esc_text_clean(s);
}

/// Each character base64 places is from its alphabet or padding, none of
/// which JSON escapes.
proof fn lemma_base64_chars_clean(b: Seq<u8>, i: int)
    requires
        0 <= i < base64_text(b).len(),
    ensures
        clean_char(base64_text(b)[i]),
    decreases b.len(),
{
    if b.len() == 0 {
    } else if b.len() <= 2 {
    } else {
        if i >= 4 {
            lemma_base64_chars_clean(b.skip(3), i - 4);
        }
    }
}

/// The canonical JSON document of a reference: `@ref` wrapping the id and
/// the optional class and database scopes, recursively.
pub open spec fn ref_jsonv(r: Reference) -> JsonV
    decreases r, 1int,
{
    JsonV::Obj(seq![("@ref"@, JsonV::Obj(ref_body_jsonv(r)))])
}

/// The entries under `@ref`: the class scope, then the database scope —
/// each only when present — then the id.
pub open spec fn ref_body_jsonv(r: Reference) -> Seq<(Seq<char>, JsonV)>
    decreases r, 0int,
{
    (match r.class {
        Some(c) => seq![("class"@, ref_jsonv(*c))],
        None => Seq::empty(),
    }) + (match r.database {
        Some(d) => seq![("database"@, ref_jsonv(*d))],
        None => Seq::empty(),
    }) + seq![("id"@, JsonV::Str(r.id@))]
}

/// The canonical JSON document of a scalar value.
pub open spec fn value_jsonv(v: Value) -> JsonV {
    match v {
        Value::Null => JsonV::Null,
        Value::Bool(b) => JsonV::Bool(b),
        Value::Int(n) => JsonV::Int(n as int),
        Value::Str(s) => JsonV::Str(s@),
        Value::Bytes(b) => JsonV::Obj(seq![("@bytes"@, JsonV::Str(base64_text(b@)))]),
        Value::Timestamp(t) => JsonV::Obj(
            seq![("@ts"@, JsonV::Str(rfc3339_utc(t.spec_secs(), t.spec_nanos())))],
        ),
        Value::Date(d) => JsonV::Obj(
            seq![("@date"@, JsonV::Str(date_text(d.spec_year(), d.spec_month(), d.spec_day())))],
        ),
        Value::Ref(r) => ref_jsonv(r),
    }
}

/// Appends the text of a reference's canonical document to `out`.
#[verifier::rlimit(60)]
fn render_ref(r: &Reference, out: &mut Vec<char>)
    ensures
        final(out)@ == old(out)@ + jsonv_text(ref_jsonv(*r)),
    decreases *r,
{
    out.push('{');
    push_str_literal(out, "@ref");
    out.push(':');
    out.push('{');
    match &r.class {
        Some(c) => {
            push_str_literal(out, "class");
            out.push(':');
            render_ref(c, out);
            out.push(',');
        },
        None => {},
    }
    match &r.database {
        Some(d) => {
            push_str_literal(out, "database");
            out.push(':');
            render_ref(d, out);
            out.push(',');
        },
        None => {},
    }
    push_str_literal(out, "id");
    out.push(':');
    push_str_literal(out, r.id.as_str());
    out.push('}');
    out.push('}');
    proof {
        let body = ref_body_jsonv(*r);
        let inner = JsonV::Obj(body);
        let e_id = ("id"@, JsonV::Str(r.id@));
        match (&r.class, &r.database) {
            (Some(c), Some(d)) => {
                let e0 = ("class"@, ref_jsonv(**c));
                let e1 = ("database"@, ref_jsonv(**d));
                assert(body =~= seq![e0, e1, e_id]);
                crate::json::lemma_obj_text3(e0, e1, e_id);
            },
            (Some(c), None) => {
                let e0 = ("class"@, ref_jsonv(**c));
                assert(body =~= seq![e0, e_id]);
                crate::json::lemma_obj_text2(e0, e_id);
            },
            (None, Some(d)) => {
                let e1 = ("database"@, ref_jsonv(**d));
                assert(body =~= seq![e1, e_id]);
                crate::json::lemma_obj_text2(e1, e_id);
            },
            (None, None) => {
                assert(body =~= seq![e_id]);
                crate::json::lemma_obj_text1(e_id);
            },
        }
        crate::json::lemma_obj_text1(("@ref"@, inner));
        assert(final(out)@ =~= old(out)@ + jsonv_text(ref_jsonv(*r)));
    }
}

/// Appends the text of a scalar value's canonical document to `out`.
#[verifier::rlimit(60)]
fn render_value(v: &Value, out: &mut Vec<char>)
    ensures
        final(out)@ == old(out)@ + jsonv_text(value_jsonv(*v)),
{
    match v {
        Value::Null => {
            push_lit(out, "null");
        },
        Value::Bool(b) => {
            if *b {
                push_lit(out, "true");
            } else {
                push_lit(out, "false");
            }
        },
        Value::Int(n) => {
            push_int(out, *n);
        },
        Value::Str(s) => {
            push_str_literal(out, s.as_str());
        },
        Value::Bytes(b) => {
            out.push('{');
            push_str_literal(out, "@bytes");
            out.push(':');
            out.push('"');
            push_base64(out, b);
            out.push('"');
            out.push('}');
            proof {
                lemma_base64_text_clean(b@);
                crate::json::lemma_obj_text1(("@bytes"@, JsonV::Str(base64_text(b@))));
                assert(final(out)@ =~= old(out)@ + jsonv_text(value_jsonv(*v)));
            }
        },
        Value::Timestamp(t) => {
            let text = format_rfc3339(t.secs(), t.nanos());
            out.push('{');
            push_str_literal(out, "@ts");
            out.push(':');
            push_str_literal(out, text.as_str());
            out.push('}');
            proof {
                crate::json::lemma_obj_text1(
                    ("@ts"@, JsonV::Str(rfc3339_utc(t.spec_secs(), t.spec_nanos()))),
                );
                assert(final(out)@ =~= old(out)@ + jsonv_text(value_jsonv(*v)));
            }
        },
        Value::Date(d) => {
            let y: i32 = d.year();
            let m: u8 = d.month();
            let dd: u8 = d.day();
            out.push('{');
            push_str_literal(out, "@date");
            out.push(':');
            out.push('"');
            out.push(dec_digit_exec_i32(y / 1000));
            out.push(dec_digit_exec_i32(y / 100 % 10));
            out.push(dec_digit_exec_i32(y / 10 % 10));
            out.push(dec_digit_exec_i32(y % 10));
            out.push('-');
            out.push(dec_digit_exec_u8(m / 10));
            out.push(dec_digit_exec_u8(m % 10));
            out.push('-');
            out.push(dec_digit_exec_u8(dd / 10));
            out.push(dec_digit_exec_u8(dd % 10));
            out.push('"');
            out.push('}');
            proof {
                lemma_date_text_clean(y as int, m as int, dd as int);
                crate::json::lemma_obj_text1(
                    ("@date"@, JsonV::Str(date_text(y as int, m as int, dd as int))),
                );
                assert(date_text(y as int, m as int, dd as int) =~= seq![
                    dec_digit(y as int / 1000),
                    dec_digit(y as int / 100 % 10),
                    dec_digit(y as int / 10 % 10),
                    dec_digit(y as int % 10),
                    '-',
                    dec_digit(m as int / 10),
                    dec_digit(m as int % 10),
                    '-',
                    dec_digit(dd as int / 10),
                    dec_digit(dd as int % 10),
                ]);
                assert(final(out)@ =~= old(out)@ + jsonv_text(value_jsonv(*v)));
            }
        },
        Value::Ref(r) => {
            render_ref(r, out);
        },
    }
}

/// The decimal digit character of a small non-negative `i32`.
fn dec_digit_exec_i32(d: i32) -> (r: char)
    requires
        0 <= d < 10,
    ensures
        r == dec_digit(d as int),
{
    (('0' as u8) + (d as u8)) as char
}

/// The decimal digit character of a small `u8`.
fn dec_digit_exec_u8(d: u8) -> (r: char)
    requires
        d < 10,
    ensures
        r == dec_digit(d as int),
{
    (('0' as u8) + d) as char
}

/// The canonical JSON document of an expression. A plain object is wrapped
/// as `{"object": …}` so that its keys can never be read as a query form;
/// arrays and query calls stand unwrapped.
pub open spec fn expr_jsonv(e: Expr) -> JsonV
    decreases e,
{
    match e {
        Expr::Val(v) => value_jsonv(v),
        Expr::Obj(m) => JsonV::Obj(seq![("object"@, JsonV::Obj(entries_jsonv(m@)))]),
        Expr::Arr(v) => JsonV::Arr(exprs_jsonv(v@)),
        Expr::Call(q) => query_jsonv(*q),
    }
}

/// The documents of a sequence of expressions, in order.
pub open spec fn exprs_jsonv(s: Seq<Expr>) -> Seq<JsonV>
    decreases s,
{
    if s.len() == 0 {
        Seq::empty()
    } else {
        exprs_jsonv(s.drop_last()).push(expr_jsonv(s.last()))
    }
}

/// The entries of a plain mapping, each value encoded, order kept.
pub open spec fn entries_jsonv(s: Seq<(String, Expr)>) -> Seq<(Seq<char>, JsonV)>
    decreases s,
{
    if s.len() == 0 {
        Seq::empty()
    } else {
        entries_jsonv(s.drop_last()).push((s.last().0@, expr_jsonv(s.last().1)))
    }
}

/// The canonical JSON document of a query call: the record's fixed key —
/// and its optional keys only when set — over the encoded fields.
pub open spec fn query_jsonv(q: Query) -> JsonV
    decreases q,
{
    match q {
        Query::Date(x) => JsonV::Obj(seq![("date"@, expr_jsonv(x.date))]),
        Query::Epoch(x) => JsonV::Obj(
            seq![("epoch"@, expr_jsonv(x.epoch)), ("unit"@, JsonV::Str(epoch_unit_text(x.unit)))],
        ),
        Query::Time(x) => JsonV::Obj(seq![("time"@, expr_jsonv(x.time))]),
        Query::Var(x) => JsonV::Obj(seq![("var"@, expr_jsonv(x.var))]),
        Query::And(x) => JsonV::Obj(seq![("and"@, JsonV::Arr(exprs_jsonv(x.and@)))]),
        Query::Or(x) => JsonV::Obj(seq![("or"@, JsonV::Arr(exprs_jsonv(x.or@)))]),
        Query::Not(x) => JsonV::Obj(seq![("not"@, expr_jsonv(x.not))]),
        Query::Lt(x) => JsonV::Obj(seq![("lt"@, JsonV::Arr(exprs_jsonv(x.lt@)))]),
        Query::Lte(x) => JsonV::Obj(seq![("lte"@, JsonV::Arr(exprs_jsonv(x.lte@)))]),
        Query::Gt(x) => JsonV::Obj(seq![("gt"@, JsonV::Arr(exprs_jsonv(x.gt@)))]),
        Query::Gte(x) => JsonV::Obj(seq![("gte"@, JsonV::Arr(exprs_jsonv(x.gte@)))]),
        Query::Contains(x) => JsonV::Obj(
            seq![
                ("contains"@, JsonV::Arr(exprs_jsonv(x.contains@))),
                ("in"@, expr_jsonv(x.in_)),
            ],
        ),
        Query::Equals(x) => JsonV::Obj(seq![("equals"@, JsonV::Arr(exprs_jsonv(x.equals@)))]),
        Query::Exists(x) => match x.timestamp {
            None => JsonV::Obj(seq![("exists"@, expr_jsonv(x.exists))]),
            Some(ts) => JsonV::Obj(seq![("exists"@, expr_jsonv(x.exists)), ("ts"@, expr_jsonv(ts))]),
        },
    }
}

/// The canonical text of a whole expression tree: what `encode` returns.
pub open spec fn expr_text(e: Expr) -> Seq<char> {
    jsonv_text(expr_jsonv(e))
}

/// The size ceiling a byte blob must respect to encode.
pub const MAX_BLOB_LEN: usize = 1048576;

/// Whether a scalar value is within the encoder's limits.
pub open spec fn value_ok(v: Value) -> bool {
    match v {
        Value::Bytes(b) => b@.len() <= MAX_BLOB_LEN as int,
        _ => true,
    }
}

/// Whether every blob in the tree is within the size ceiling: exactly when
/// this holds, `encode` succeeds.
pub open spec fn expr_ok(e: Expr) -> bool
    decreases e,
{
    match e {
        Expr::Val(v) => value_ok(v),
        Expr::Obj(m) => entries_ok(m@),
        Expr::Arr(v) => exprs_ok(v@),
        Expr::Call(q) => query_ok(*q),
    }
}

/// `expr_ok` over a sequence of expressions.
pub open spec fn exprs_ok(s: Seq<Expr>) -> bool
    decreases s,
{
    if s.len() == 0 {
        true
    } else {
        exprs_ok(s.drop_last()) && expr_ok(s.last())
    }
}

/// `expr_ok` over the values of a plain mapping.
pub open spec fn entries_ok(s: Seq<(String, Expr)>) -> bool
    decreases s,
{
    if s.len() == 0 {
        true
    } else {
        entries_ok(s.drop_last()) && expr_ok(s.last().1)
    }
}

/// `expr_ok` over the fields of a query record.
pub open spec fn query_ok(q: Query) -> bool
    decreases q,
{
    match q {
        Query::Date(x) => expr_ok(x.date),
        Query::Epoch(x) => expr_ok(x.epoch),
        Query::Time(x) => expr_ok(x.time),
        Query::Var(x) => expr_ok(x.var),
        Query::And(x) => exprs_ok(x.and@),
        Query::Or(x) => exprs_ok(x.or@),
        Query::Not(x) => expr_ok(x.not),
        Query::Lt(x) => exprs_ok(x.lt@),
        Query::Lte(x) => exprs_ok(x.lte@),
        Query::Gt(x) => exprs_ok(x.gt@),
        Query::Gte(x) => exprs_ok(x.gte@),
        Query::Contains(x) => exprs_ok(x.contains@) && expr_ok(x.in_),
        Query::Equals(x) => exprs_ok(x.equals@),
        Query::Exists(x) => expr_ok(x.exists) && match x.timestamp {
            Some(t) => expr_ok(t),
            None => true,
        },
    }
}

/// Appends the text of a JSON array holding the documents of `v` to `out`.
fn render_exprs(v: &Vec<Expr>, out: &mut Vec<char>)
    ensures
        final(out)@ == old(out)@ + jsonv_text(JsonV::Arr(exprs_jsonv(v@))),
    decreases v@,
{
    out.push('[');
    let n: usize = v.len();
    let mut i: usize = 0;
    proof {
        assert(v@.take(0) =~= Seq::<Expr>::empty());
    }
    while i < n
        invariant
            i <= n,
            n == v@.len(),
            out@ == old(out)@ + seq!['['] + arr_text(exprs_jsonv(v@.take(i as int))),
        decreases n - i,
    {
        if i > 0 {
            out.push(',');
        }
        render_expr(&v[i], out);
        i = i + 1;
        proof {
            let prev: Seq<Expr> = v@.take(i - 1);
            let cur: Seq<Expr> = v@.take(i as int);
            assert(cur.drop_last() =~= prev);
            assert(cur.last() == v@[i - 1]);
            assert(exprs_jsonv(cur) == exprs_jsonv(prev).push(expr_jsonv(v@[i - 1])));
            lemma_exprs_jsonv_len(prev);
            crate::json::lemma_arr_text_push(exprs_jsonv(prev), expr_jsonv(v@[i - 1]));
            assert(out@ =~= old(out)@ + seq!['['] + arr_text(exprs_jsonv(cur)));
        }
    }
    out.push(']');
    proof {
        assert(v@.take(n as int) =~= v@);
        assert(final(out)@ =~= old(out)@ + jsonv_text(JsonV::Arr(exprs_jsonv(v@))));
    }
}

/// The documents of a sequence keep its length.
proof fn lemma_exprs_jsonv_len(s: Seq<Expr>)
    ensures
        exprs_jsonv(s).len() == s.len(),
    decreases s,
{
    if s.len() > 0 {
        lemma_exprs_jsonv_len(s.drop_last());
    }
}

/// The entries keep their length too.
proof fn lemma_entries_jsonv_len(s: Seq<(String, Expr)>)
    ensures
        entries_jsonv(s).len() == s.len(),
    decreases s,
{
    if s.len() > 0 {
        lemma_entries_jsonv_len(s.drop_last());
    }
}

/// Appends the text of a plain mapping's encoded entries — braces included
/// but without the `object` wrapping — to `out`.
fn render_entries(m: &Vec<(String, Expr)>, out: &mut Vec<char>)
    ensures
        final(out)@ == old(out)@ + jsonv_text(JsonV::Obj(entries_jsonv(m@))),
    decreases m@,
{
    out.push('{');
    let n: usize = m.len();
    let mut i: usize = 0;
    proof {
        assert(m@.take(0) =~= Seq::<(String, Expr)>::empty());
    }
    while i < n
        invariant
            i <= n,
            n == m@.len(),
            out@ == old(out)@ + seq!['{'] + obj_text(entries_jsonv(m@.take(i as int))),
        decreases n - i,
    {
        if i > 0 {
            out.push(',');
        }
        let pair = &m[i];
        push_str_literal(out, pair.0.as_str());
        out.push(':');
        render_expr(&pair.1, out);
        i = i + 1;
        proof {
            let prev: Seq<(String, Expr)> = m@.take(i - 1);
            let cur: Seq<(String, Expr)> = m@.take(i as int);
            assert(cur.drop_last() =~= prev);
            assert(cur.last() == m@[i - 1]);
            assert(entries_jsonv(cur) == entries_jsonv(prev).push(
                (m@[i - 1].0@, expr_jsonv(m@[i - 1].1)),
            ));
            lemma_entries_jsonv_len(prev);
            crate::json::lemma_obj_text_push(
                entries_jsonv(prev),
                (m@[i - 1].0@, expr_jsonv(m@[i - 1].1)),
            );
            assert(out@ =~= old(out)@ + seq!['{'] + obj_text(entries_jsonv(cur)));
        }
    }
    out.push('}');
    proof {
        assert(m@.take(n as int) =~= m@);
        assert(final(out)@ =~= old(out)@ + jsonv_text(JsonV::Obj(entries_jsonv(m@))));
    }
}

/// Appends the text of a query call's canonical document to `out`.
#[verifier::rlimit(60)]
fn render_query(q: &Query, out: &mut Vec<char>)
    ensures
        final(out)@ == old(out)@ + jsonv_text(query_jsonv(*q)),
    decreases *q,
{
    out.push('{');
    match q {
        Query::Date(x) => {
            push_str_literal(out, "date");
            out.push(':');
            render_expr(&x.date, out);
            proof {
                crate::json::lemma_obj_text1(("date"@, expr_jsonv(x.date)));
            }
        },
        Query::Epoch(x) => {
            push_str_literal(out, "epoch");
            out.push(':');
            render_expr(&x.epoch, out);
            out.push(',');
            push_str_literal(out, "unit");
            out.push(':');
            match x.unit {
                crate::query::datetime::EpochUnit::Second => push_str_literal(out, "second"),
                crate::query::datetime::EpochUnit::Millisecond => push_str_literal(
                    out,
                    "millisecond",
                ),
                crate::query::datetime::EpochUnit::Microsecond => push_str_literal(
                    out,
                    "microsecond",
                ),
                crate::query::datetime::EpochUnit::Nanosecond => push_str_literal(
                    out,
                    "nanosecond",
                ),
            }
            proof {
                crate::json::lemma_obj_text2(
                    ("epoch"@, expr_jsonv(x.epoch)),
                    ("unit"@, JsonV::Str(epoch_unit_text(x.unit))),
                );
            }
        },
        Query::Time(x) => {
            push_str_literal(out, "time");
            out.push(':');
            render_expr(&x.time, out);
            proof {
                crate::json::lemma_obj_text1(("time"@, expr_jsonv(x.time)));
            }
        },
        Query::Var(x) => {
            push_str_literal(out, "var");
            out.push(':');
            render_expr(&x.var, out);
            proof {
                crate::json::lemma_obj_text1(("var"@, expr_jsonv(x.var)));
            }
        },
        Query::And(x) => {
            push_str_literal(out, "and");
            out.push(':');
            render_exprs(&x.and, out);
            proof {
                crate::json::lemma_obj_text1(("and"@, JsonV::Arr(exprs_jsonv(x.and@))));
            }
        },
        Query::Or(x) => {
            push_str_literal(out, "or");
            out.push(':');
            render_exprs(&x.or, out);
            proof {
                crate::json::lemma_obj_text1(("or"@, JsonV::Arr(exprs_jsonv(x.or@))));
            }
        },
        Query::Not(x) => {
            push_str_literal(out, "not");
            out.push(':');
            render_expr(&x.not, out);
            proof {
                crate::json::lemma_obj_text1(("not"@, expr_jsonv(x.not)));
            }
        },
        Query::Lt(x) => {
            push_str_literal(out, "lt");
            out.push(':');
            render_exprs(&x.lt, out);
            proof {
                crate::json::lemma_obj_text1(("lt"@, JsonV::Arr(exprs_jsonv(x.lt@))));
            }
        },
        Query::Lte(x) => {
            push_str_literal(out, "lte");
            out.push(':');
            render_exprs(&x.lte, out);
            proof {
                crate::json::lemma_obj_text1(("lte"@, JsonV::Arr(exprs_jsonv(x.lte@))));
            }
        },
        Query::Gt(x) => {
            push_str_literal(out, "gt");
            out.push(':');
            render_exprs(&x.gt, out);
            proof {
                crate::json::lemma_obj_text1(("gt"@, JsonV::Arr(exprs_jsonv(x.gt@))));
            }
        },
        Query::Gte(x) => {
            push_str_literal(out, "gte");
            out.push(':');
            render_exprs(&x.gte, out);
            proof {
                crate::json::lemma_obj_text1(("gte"@, JsonV::Arr(exprs_jsonv(x.gte@))));
            }
        },
        Query::Contains(x) => {
            push_str_literal(out, "contains");
            out.push(':');
            render_exprs(&x.contains, out);
            out.push(',');
            push_str_literal(out, "in");
            out.push(':');
            render_expr(&x.in_, out);
            proof {
                crate::json::lemma_obj_text2(
                    ("contains"@, JsonV::Arr(exprs_jsonv(x.contains@))),
                    ("in"@, expr_jsonv(x.in_)),
                );
            }
        },
        Query::Equals(x) => {
            push_str_literal(out, "equals");
            out.push(':');
            render_exprs(&x.equals, out);
            proof {
                crate::json::lemma_obj_text1(("equals"@, JsonV::Arr(exprs_jsonv(x.equals@))));
            }
        },
        Query::Exists(x) => {
            push_str_literal(out, "exists");
            out.push(':');
            render_expr(&x.exists, out);
            match &x.timestamp {
                Some(ts) => {
                    out.push(',');
                    push_str_literal(out, "ts");
                    out.push(':');
                    render_expr(ts, out);
                    proof {
                        crate::json::lemma_obj_text2(
                            ("exists"@, expr_jsonv(x.exists)),
                            ("ts"@, expr_jsonv(*ts)),
                        );
                    }
                },
                None => {
                    proof {
                        crate::json::lemma_obj_text1(("exists"@, expr_jsonv(x.exists)));
                    }
                },
            }
        },
    }
    out.push('}');
    proof {
        assert(final(out)@ =~= old(out)@ + jsonv_text(query_jsonv(*q)));
    }
}

/// Appends the text of an expression's canonical document to `out`.
fn render_expr(e: &Expr, out: &mut Vec<char>)
    ensures
        final(out)@ == old(out)@ + jsonv_text(expr_jsonv(*e)),
    decreases *e,
{
    match e {
        Expr::Val(v) => {
            render_value(v, out);
        },
        Expr::Obj(m) => {
            out.push('{');
            push_str_literal(out, "object");
            out.push(':');
            render_entries(m, out);
            out.push('}');
            proof {
                crate::json::lemma_obj_text1(("object"@, JsonV::Obj(entries_jsonv(m@))));
                assert(final(out)@ =~= old(out)@ + jsonv_text(expr_jsonv(*e)));
            }
        },
        Expr::Arr(v) => {
            render_exprs(v, out);
        },
        Expr::Call(q) => {
            render_query(q, out);
        },
    }
}

/// One step of a path into an expression tree: an object or record key,
/// or an array index.
#[derive(Debug, PartialEq, Eq)]
pub enum PathSeg {
    Key(String),
    Index(usize),
}

/// Whether `path` leads from the root of `e` to a byte blob over the size
/// ceiling: the shape of the path an `EncodeError` carries.
pub open spec fn oversized_at(e: Expr, path: Seq<PathSeg>) -> bool
    decreases path.len(), 2int,
{
    if path.len() == 0 {
        e matches Expr::Val(Value::Bytes(b)) && b@.len() > MAX_BLOB_LEN as int
    } else {
        match e {
            Expr::Obj(m) => path[0] matches PathSeg::Key(k) && exists|j: int|
                0 <= j < m@.len() && (#[trigger] m@[j]).0@ == k@ && oversized_at(
                    m@[j].1,
                    path.skip(1),
                ),
            Expr::Arr(v) => items_oversized_at(v@, path),
            Expr::Call(q) => query_oversized_at(*q, path),
            _ => false,
        }
    }
}

/// The path steps into an element of a JSON array: its index, then on into
/// the element.
pub open spec fn items_oversized_at(s: Seq<Expr>, path: Seq<PathSeg>) -> bool
    decreases path.len(), 0int,
{
    &&& path.len() >= 1
    &&& path[0] matches PathSeg::Index(i) && (i as int) < s.len() && oversized_at(
        s[i as int],
        path.skip(1),
    )
}

/// The path steps into a query record: the field's wire key, then on into
/// the field.
pub open spec fn query_oversized_at(q: Query, path: Seq<PathSeg>) -> bool
    decreases path.len(), 1int,
{
    if path.len() == 0 {
        false
    } else {
        match q {
            Query::Date(x) => path[0] matches PathSeg::Key(k) && k@ == "date"@ && oversized_at(
                x.date,
                path.skip(1),
            ),
            Query::Epoch(x) => path[0] matches PathSeg::Key(k) && k@ == "epoch"@ && oversized_at(
                x.epoch,
                path.skip(1),
            ),
            Query::Time(x) => path[0] matches PathSeg::Key(k) && k@ == "time"@ && oversized_at(
                x.time,
                path.skip(1),
            ),
            Query::Var(x) => path[0] matches PathSeg::Key(k) && k@ == "var"@ && oversized_at(
                x.var,
                path.skip(1),
            ),
            Query::And(x) => path[0] matches PathSeg::Key(k) && k@ == "and"@
                && items_oversized_at(x.and@, path.skip(1)),
            Query::Or(x) => path[0] matches PathSeg::Key(k) && k@ == "or"@ && items_oversized_at(
                x.or@,
                path.skip(1),
            ),
            Query::Not(x) => path[0] matches PathSeg::Key(k) && k@ == "not"@ && oversized_at(
                x.not,
                path.skip(1),
            ),
            Query::Lt(x) => path[0] matches PathSeg::Key(k) && k@ == "lt"@ && items_oversized_at(
                x.lt@,
                path.skip(1),
            ),
            Query::Lte(x) => path[0] matches PathSeg::Key(k) && k@ == "lte"@ && items_oversized_at(
                x.lte@,
                path.skip(1),
            ),
            Query::Gt(x) => path[0] matches PathSeg::Key(k) && k@ == "gt"@ && items_oversized_at(
                x.gt@,
                path.skip(1),
            ),
            Query::Gte(x) => path[0] matches PathSeg::Key(k) && k@ == "gte"@ && items_oversized_at(
                x.gte@,
                path.skip(1),
            ),
            Query::Contains(x) => path[0] matches PathSeg::Key(k) && ((k@ == "contains"@
                && items_oversized_at(x.contains@, path.skip(1))) || (k@ == "in"@ && oversized_at(
                x.in_,
                path.skip(1),
            ))),
            Query::Equals(x) => path[0] matches PathSeg::Key(k) && k@ == "equals"@
                && items_oversized_at(x.equals@, path.skip(1)),
            Query::Exists(x) => path[0] matches PathSeg::Key(k) && ((k@ == "exists"@
                && oversized_at(x.exists, path.skip(1))) || (k@ == "ts"@
                && (x.timestamp matches Some(t) && oversized_at(t, path.skip(1))))),
        }
    }
}

/// Searches the tree for a blob over the size ceiling; yields the path to
/// one exactly when the tree holds any.
#[verifier::loop_isolation(false)]
fn find_oversized(e: &Expr) -> (r: Option<Vec<PathSeg>>)
    ensures
        r is None <==> expr_ok(*e),
        r matches Some(p) ==> oversized_at(*e, p@),
    decreases *e,
{
    match e {
        Expr::Val(v) => match v {
            Value::Bytes(b) => if b.len() <= MAX_BLOB_LEN {
                None
            } else {
                let p: Vec<PathSeg> = Vec::new();
                proof {
                    assert(oversized_at(*e, p@));
                }
                Some(p)
            },
            _ => None,
        },
        Expr::Obj(m) => {
            let n: usize = m.len();
            let mut i: usize = 0;
            proof {
                assert(m@.take(0) =~= Seq::<(String, Expr)>::empty());
            }
            while i < n
                invariant
                    i <= n,
                    n == m@.len(),
                    entries_ok(m@.take(i as int)),
                decreases n - i,
            {
                proof {
                    assert(decreases_to!(*e => *m));
                    assert(decreases_to!(*m => m@));
                    assert(decreases_to!(m@ => m@[i as int]));
                    assert(decreases_to!(m@[i as int] => m@[i as int].1));
                }
                let found = find_oversized(&m[i].1);
                proof {
                    let prev: Seq<(String, Expr)> = m@.take(i as int);
                    let cur: Seq<(String, Expr)> = m@.take(i + 1);
                    assert(cur.drop_last() =~= prev);
                    assert(cur.last() == m@[i as int]);
                }
                match found {
                    Some(mut p) => {
                        proof {
                            lemma_entries_ok_whole(m@, i as int);
                        }
                        let ghost p0: Seq<PathSeg> = p@;
                        p.insert(0, PathSeg::Key(m[i].0.clone()));
                        proof {
                            assert(p@.skip(1) =~= p0);
                            assert(p@[0] matches PathSeg::Key(k) && k@ == m@[i as int].0@);
                            assert(oversized_at(*e, p@));
                        }
                        return Some(p);
                    },
                    None => {},
                }
                i = i + 1;
            }
            proof {
                assert(m@.take(n as int) =~= m@);
            }
            None
        },
        Expr::Arr(v) => {
            proof {
                assert(decreases_to!(*e => *v));
                assert(decreases_to!(*v => v@));
            }
            match find_oversized_items(v) {
                Some(p) => {
                    proof {
                        assert(oversized_at(*e, p@));
                    }
                    Some(p)
                },
                None => None,
            }
        },
        Expr::Call(q) => find_oversized_query(q),
    }
}

/// `find_oversized` over a vector of expressions, the index prepended.
#[verifier::loop_isolation(false)]
fn find_oversized_items(v: &Vec<Expr>) -> (r: Option<Vec<PathSeg>>)
    ensures
        r is None <==> exprs_ok(v@),
        r matches Some(p) ==> items_oversized_at(v@, p@),
    decreases v@,
{
    let n: usize = v.len();
    let mut i: usize = 0;
    proof {
        assert(v@.take(0) =~= Seq::<Expr>::empty());
    }
    while i < n
        invariant
            i <= n,
            n == v@.len(),
            exprs_ok(v@.take(i as int)),
        decreases n - i,
    {
        proof {
            assert(decreases_to!(v@ => v@[i as int]));
        }
        let found = find_oversized(&v[i]);
        proof {
            let prev: Seq<Expr> = v@.take(i as int);
            let cur: Seq<Expr> = v@.take(i + 1);
            assert(cur.drop_last() =~= prev);
            assert(cur.last() == v@[i as int]);
        }
        match found {
            Some(mut p) => {
                proof {
                    lemma_exprs_ok_whole(v@, i as int);
                }
                let ghost p0: Seq<PathSeg> = p@;
                p.insert(0, PathSeg::Index(i));
                proof {
                    assert(p@.skip(1) =~= p0);
                    assert(items_oversized_at(v@, p@));
                }
                return Some(p);
            },
            None => {},
        }
        i = i + 1;
    }
    proof {
        assert(v@.take(n as int) =~= v@);
    }
    None
}

/// If one expression of a sequence breaks the ceiling, the sequence does.
proof fn lemma_exprs_ok_whole(s: Seq<Expr>, i: int)
    requires
        0 <= i < s.len(),
        !expr_ok(s[i]),
    ensures
        !exprs_ok(s),
    decreases s,
{
    if s.len() > 0 {
        if i < s.len() - 1 {
            lemma_exprs_ok_whole(s.drop_last(), i);
        }
    }
}

/// If one entry's value breaks the ceiling, the mapping does.
proof fn lemma_entries_ok_whole(s: Seq<(String, Expr)>, i: int)
    requires
        0 <= i < s.len(),
        !expr_ok(s[i].1),
    ensures
        !entries_ok(s),
    decreases s,
{
    if s.len() > 0 {
        if i < s.len() - 1 {
            lemma_entries_ok_whole(s.drop_last(), i);
        }
    }
}

/// `find_oversized` over the fields of a query record, the field's wire
/// key prepended.
fn find_oversized_query(q: &Query) -> (r: Option<Vec<PathSeg>>)
    ensures
        r is None <==> query_ok(*q),
        r matches Some(p) ==> query_oversized_at(*q, p@),
    decreases *q,
{
    match q {
        Query::Date(x) => match find_oversized(&x.date) {
            Some(mut p) => {
                let ghost p0: Seq<PathSeg> = p@;
                p.insert(0, PathSeg::Key("date".to_owned()));
                proof {
                    assert(p@.skip(1) =~= p0);
                }
                Some(p)
            },
            None => None,
        },
        Query::Epoch(x) => match find_oversized(&x.epoch) {
            Some(mut p) => {
                let ghost p0: Seq<PathSeg> = p@;
                p.insert(0, PathSeg::Key("epoch".to_owned()));
                proof {
                    assert(p@.skip(1) =~= p0);
                }
                Some(p)
            },
            None => None,
        },
        Query::Time(x) => match find_oversized(&x.time) {
            Some(mut p) => {
                let ghost p0: Seq<PathSeg> = p@;
                p.insert(0, PathSeg::Key("time".to_owned()));
                proof {
                    assert(p@.skip(1) =~= p0);
                }
                Some(p)
            },
            None => None,
        },
        Query::Var(x) => match find_oversized(&x.var) {
            Some(mut p) => {
                let ghost p0: Seq<PathSeg> = p@;
                p.insert(0, PathSeg::Key("var".to_owned()));
                proof {
                    assert(p@.skip(1) =~= p0);
                }
                Some(p)
            },
            None => None,
        },
        Query::And(x) => match find_oversized_items(&x.and) {
            Some(mut p) => {
                let ghost p0: Seq<PathSeg> = p@;
                p.insert(0, PathSeg::Key("and".to_owned()));
                proof {
                    assert(p@.skip(1) =~= p0);
                }
                Some(p)
            },
            None => None,
        },
        Query::Or(x) => match find_oversized_items(&x.or) {
            Some(mut p) => {
                let ghost p0: Seq<PathSeg> = p@;
                p.insert(0, PathSeg::Key("or".to_owned()));
                proof {
                    assert(p@.skip(1) =~= p0);
                }
                Some(p)
            },
            None => None,
        },
        Query::Not(x) => match find_oversized(&x.not) {
            Some(mut p) => {
                let ghost p0: Seq<PathSeg> = p@;
                p.insert(0, PathSeg::Key("not".to_owned()));
                proof {
                    assert(p@.skip(1) =~= p0);
                }
                Some(p)
            },
            None => None,
        },
        Query::Lt(x) => match find_oversized_items(&x.lt) {
            Some(mut p) => {
                let ghost p0: Seq<PathSeg> = p@;
                p.insert(0, PathSeg::Key("lt".to_owned()));
                proof {
                    assert(p@.skip(1) =~= p0);
                }
                Some(p)
            },
            None => None,
        },
        Query::Lte(x) => match find_oversized_items(&x.lte) {
            Some(mut p) => {
                let ghost p0: Seq<PathSeg> = p@;
                p.insert(0, PathSeg::Key("lte".to_owned()));
                proof {
                    assert(p@.skip(1) =~= p0);
                }
                Some(p)
            },
            None => None,
        },
        Query::Gt(x) => match find_oversized_items(&x.gt) {
            Some(mut p) => {
                let ghost p0: Seq<PathSeg> = p@;
                p.insert(0, PathSeg::Key("gt".to_owned()));
                proof {
                    assert(p@.skip(1) =~= p0);
                }
                Some(p)
            },
            None => None,
        },
        Query::Gte(x) => match find_oversized_items(&x.gte) {
            Some(mut p) => {
                let ghost p0: Seq<PathSeg> = p@;
                p.insert(0, PathSeg::Key("gte".to_owned()));
                proof {
                    assert(p@.skip(1) =~= p0);
                }
                Some(p)
            },
            None => None,
        },
        Query::Contains(x) => {
            match find_oversized_items(&x.contains) {
                Some(mut p) => {
                    let ghost p0: Seq<PathSeg> = p@;
                    p.insert(0, PathSeg::Key("contains".to_owned()));
                    proof {
                        assert(p@.skip(1) =~= p0);
                    }
                    return Some(p);
                },
                None => {},
            }
            match find_oversized(&x.in_) {
                Some(mut p) => {
                    let ghost p0: Seq<PathSeg> = p@;
                    p.insert(0, PathSeg::Key("in".to_owned()));
                    proof {
                        assert(p@.skip(1) =~= p0);
                    }
                    Some(p)
                },
                None => None,
            }
        },
        Query::Equals(x) => match find_oversized_items(&x.equals) {
            Some(mut p) => {
                let ghost p0: Seq<PathSeg> = p@;
                p.insert(0, PathSeg::Key("equals".to_owned()));
                proof {
                    assert(p@.skip(1) =~= p0);
                }
                Some(p)
            },
            None => None,
        },
        Query::Exists(x) => {
            match find_oversized(&x.exists) {
                Some(mut p) => {
                    let ghost p0: Seq<PathSeg> = p@;
                    p.insert(0, PathSeg::Key("exists".to_owned()));
                    proof {
                        assert(p@.skip(1) =~= p0);
                    }
                    return Some(p);
                },
                None => {},
            }
            match &x.timestamp {
                Some(t) => match find_oversized(t) {
                    Some(mut p) => {
                        let ghost p0: Seq<PathSeg> = p@;
                        p.insert(0, PathSeg::Key("ts".to_owned()));
                        proof {
                            assert(p@.skip(1) =~= p0);
                        }
                        Some(p)
                    },
                    None => None,
                },
                None => None,
            }
        },
    }
}

/// The reason an encoding is refused.
#[derive(Debug, PartialEq, Eq)]
pub enum EncodeError {
    /// A byte blob in the tree exceeds the size ceiling; the path leads
    /// from the root of the tree to the blob at fault.
    OversizedBinary(Vec<PathSeg>),
}

/// Relies on `String: FromIterator<char>`: collecting characters yields
/// the string of exactly those characters.
#[verifier::external_body]
fn chars_to_string(v: Vec<char>) -> (r: String)
    ensures
        r@ == v@,
{
    v.into_iter().collect()
}

/// Encodes a whole expression tree into its canonical JSON text. Succeeds
/// on exactly the trees whose byte blobs respect the size ceiling; a tree
/// with an oversized blob is refused whole — never clamped or truncated —
/// with one error naming the path to an offending blob.
pub fn encode(e: &Expr) -> (r: Result<String, EncodeError>)
    ensures
        r is Ok <==> expr_ok(*e),
        r matches Ok(s) ==> s@ == expr_text(*e),
        r matches Err(err) ==> err matches EncodeError::OversizedBinary(p) && oversized_at(
            *e,
            p@,
        ),
{
    match find_oversized(e) {
        Some(p) => Err(EncodeError::OversizedBinary(p)),
        None => {
            let mut out: Vec<char> = Vec::new();
            render_expr(e, &mut out);
            proof {
                assert(out@ =~= expr_text(*e));
            }
            Ok(chars_to_string(out))
        },
    }
}

} // verus!
