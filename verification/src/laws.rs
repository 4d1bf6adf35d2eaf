//! The laws of the canonical encoding, stated over the `JsonV` documents
//! that `codec` assigns to trees and proved for every input.

use vstd::prelude::*;
use crate::base64::{b64_char, base64_text};
use crate::codec::{date_text, entries_jsonv, expr_jsonv, exprs_jsonv, query_jsonv};
use crate::codec::{ref_body_jsonv, ref_jsonv, value_jsonv};
use crate::expr::{ref_eqv, CalendarDate, Reference, Value};
use crate::json::dec_digit;
use vstd::arithmetic::div_mod::{lemma_div_denominator, lemma_fundamental_div_mod};
use crate::expr::Expr;
use crate::json::JsonV;
use crate::query::datetime::{epoch_unit_text, EpochUnit};
use crate::query::logical::{And, Equals, Exists, Gt, Gte, Lt, Lte, Or};
use crate::query::Query;

verus! {

/// Each entry of a plain mapping keeps its key and carries its encoded
/// value, in order.
pub proof fn lemma_entries_jsonv_index(s: Seq<(String, Expr)>, i: int)
    requires
        0 <= i < s.len(),
    ensures
        entries_jsonv(s).len() == s.len(),
        entries_jsonv(s)[i] == (s[i].0@, expr_jsonv(s[i].1)),
    decreases s,
{
    if s.len() == 1 {
        assert(entries_jsonv(s.drop_last()).len() == 0);
    } else if i < s.len() - 1 {
        lemma_entries_jsonv_index(s.drop_last(), i);
    } else {
        lemma_entries_jsonv_index(s.drop_last(), i - 1);
    }
}

/// Each element of a sequence carries its encoded document, in order.
pub proof fn lemma_exprs_jsonv_index(s: Seq<Expr>, i: int)
    requires
        0 <= i < s.len(),
    ensures
        exprs_jsonv(s).len() == s.len(),
        exprs_jsonv(s)[i] == expr_jsonv(s[i]),
    decreases s,
{
    if s.len() == 1 {
        assert(exprs_jsonv(s.drop_last()).len() == 0);
    } else if i < s.len() - 1 {
        lemma_exprs_jsonv_index(s.drop_last(), i);
    } else {
        lemma_exprs_jsonv_index(s.drop_last(), i - 1);
    }
}

/// Law: a plain mapping — whatever keys it holds, reserved ones included —
/// encodes as an object with the single top-level key `object`; every one
/// of its own keys stands only inside that wrapping, with its value
/// encoded under the same rules.
pub proof fn lemma_obj_wrapped(m: Vec<(String, Expr)>)
    ensures
        expr_jsonv(Expr::Obj(m)) == JsonV::Obj(
            seq![("object"@, JsonV::Obj(entries_jsonv(m@)))],
        ),
        entries_jsonv(m@).len() == m@.len(),
        forall|i: int|
            0 <= i < m@.len() ==> entries_jsonv(m@)[i] == (m@[i].0@, expr_jsonv(#[trigger] m@[i].1)),
{
    assert forall|i: int| 0 <= i < m@.len() implies entries_jsonv(m@)[i] == (
        m@[i].0@,
        expr_jsonv(#[trigger] m@[i].1),
    ) by {
        lemma_entries_jsonv_index(m@, i);
    }
    if m@.len() > 0 {
        lemma_entries_jsonv_index(m@, 0);
    } else {
        assert(entries_jsonv(m@).len() == 0);
    }
}

/// Law: an array encodes as a plain JSON array — never wrapped — with each
/// element encoded independently, so a plain object inside an array is
/// wrapped exactly where it stands and nowhere above.
pub proof fn lemma_arr_unwrapped(v: Vec<Expr>)
    ensures
        expr_jsonv(Expr::Arr(v)) == JsonV::Arr(exprs_jsonv(v@)),
        exprs_jsonv(v@).len() == v@.len(),
        forall|i: int| 0 <= i < v@.len() ==> exprs_jsonv(v@)[i] == expr_jsonv(#[trigger] v@[i]),
{
    assert forall|i: int| 0 <= i < v@.len() implies exprs_jsonv(v@)[i] == expr_jsonv(
        #[trigger] v@[i],
    ) by {
        lemma_exprs_jsonv_index(v@, i);
    }
    if v@.len() > 0 {
        lemma_exprs_jsonv_index(v@, 0);
    } else {
        assert(exprs_jsonv(v@).len() == 0);
    }
}

/// Law: an `And` call encodes from its argument list alone, so the binary
/// constructor and the list conversion agree whenever they build the same
/// list.
pub proof fn lemma_and_paths_agree(a: And, b: And)
    requires
        a.and@ == b.and@,
    ensures
        query_jsonv(Query::And(a)) == query_jsonv(Query::And(b)),
{
}

/// Law: an `Or` call encodes from its argument list alone.
pub proof fn lemma_or_paths_agree(a: Or, b: Or)
    requires
        a.or@ == b.or@,
    ensures
        query_jsonv(Query::Or(a)) == query_jsonv(Query::Or(b)),
{
}

/// Law: an `Equals` call encodes from its argument list alone.
pub proof fn lemma_equals_paths_agree(a: Equals, b: Equals)
    requires
        a.equals@ == b.equals@,
    ensures
        query_jsonv(Query::Equals(a)) == query_jsonv(Query::Equals(b)),
{
}

/// Law: an `Lt` call encodes from its argument list alone.
pub proof fn lemma_lt_paths_agree(a: Lt, b: Lt)
    requires
        a.lt@ == b.lt@,
    ensures
        query_jsonv(Query::Lt(a)) == query_jsonv(Query::Lt(b)),
{
}

/// Law: an `Lte` call encodes from its argument list alone.
pub proof fn lemma_lte_paths_agree(a: Lte, b: Lte)
    requires
        a.lte@ == b.lte@,
    ensures
        query_jsonv(Query::Lte(a)) == query_jsonv(Query::Lte(b)),
{
}

/// Law: a `Gt` call encodes from its argument list alone.
pub proof fn lemma_gt_paths_agree(a: Gt, b: Gt)
    requires
        a.gt@ == b.gt@,
    ensures
        query_jsonv(Query::Gt(a)) == query_jsonv(Query::Gt(b)),
{
}

/// Law: a `Gte` call encodes from its argument list alone.
pub proof fn lemma_gte_paths_agree(a: Gte, b: Gte)
    requires
        a.gte@ == b.gte@,
    ensures
        query_jsonv(Query::Gte(a)) == query_jsonv(Query::Gte(b)),
{
}

/// Law: an `Exists` call without a timestamp encodes with the single key
/// `exists` — no `ts` key at all — and setting the timestamp adds exactly
/// the `ts` entry, changing nothing else.
pub proof fn lemma_exists_optional_ts(x: Exists)
    ensures
        x.timestamp is None ==> query_jsonv(Query::Exists(x)) == JsonV::Obj(
            seq![("exists"@, expr_jsonv(x.exists))],
        ),
        x.timestamp matches Some(t) ==> query_jsonv(Query::Exists(x)) == JsonV::Obj(
            seq![("exists"@, expr_jsonv(x.exists)), ("ts"@, expr_jsonv(t))],
        ),
{
}

/// The base64 alphabet maps distinct six-bit values to distinct characters.
proof fn lemma_b64_char_injective(x: int, y: int)
    requires
        0 <= x < 64,
        0 <= y < 64,
        b64_char(x) == b64_char(y),
    ensures
        x == y,
{
}

/// No alphabet character is the padding character.
proof fn lemma_b64_char_not_pad(x: int)
    requires
        0 <= x < 64,
    ensures
        b64_char(x) != '=',
{
}

/// The length of a base64 text: four characters for every started group of
/// three bytes.
proof fn lemma_base64_len(b: Seq<u8>)
    ensures
        base64_text(b).len() == 4 * ((b.len() + 2) / 3),
    decreases b.len(),
{
    if b.len() >= 3 {
        lemma_base64_len(b.skip(3));
    }
}

/// Law, byte layer: base64 is injective — equal texts come from equal
/// blobs.
pub proof fn lemma_base64_injective(a: Seq<u8>, b: Seq<u8>)
    requires
        base64_text(a) == base64_text(b),
    ensures
        a == b,
    decreases a.len(),
{
    lemma_base64_len(a);
    lemma_base64_len(b);
    let ta = base64_text(a);
    let tb = base64_text(b);
    if a.len() == 0 {
        assert(tb.len() == 0);
        assert(b.len() == 0);
        assert(a =~= b);
    } else if a.len() == 1 {
        assert(b.len() >= 1);
        if b.len() == 1 {
            lemma_b64_char_injective(a[0] as int / 4, b[0] as int / 4);
            lemma_b64_char_injective((a[0] as int % 4) * 16, (b[0] as int % 4) * 16);
            assert(a[0] == b[0]);
            assert(a =~= b);
        } else if b.len() == 2 {
            assert(ta[2] == '=');
            lemma_b64_char_not_pad((b[1] as int % 16) * 4);
            assert(false);
        } else {
            assert(tb[3] == b64_char(b[2] as int % 64));
            lemma_b64_char_not_pad(b[2] as int % 64);
            assert(ta[3] == '=');
            assert(false);
        }
    } else if a.len() == 2 {
        assert(b.len() >= 1);
        if b.len() == 1 {
            lemma_base64_injective(b, a);
        } else if b.len() == 2 {
            let a0 = a[0] as int;
            let a1 = a[1] as int;
            let b0 = b[0] as int;
            let b1 = b[1] as int;
            lemma_b64_char_injective(a0 / 4, b0 / 4);
            lemma_b64_char_injective((a0 % 4) * 16 + a1 / 16, (b0 % 4) * 16 + b1 / 16);
            lemma_b64_char_injective((a1 % 16) * 4, (b1 % 16) * 4);
            assert((a0 % 4) * 16 + a1 / 16 == (b0 % 4) * 16 + b1 / 16);
            assert(a0 % 4 == ((a0 % 4) * 16 + a1 / 16) / 16 && a1 / 16 == ((a0 % 4) * 16 + a1 / 16)
                % 16);
            assert(a0 == b0 && a1 == b1);
            assert(a =~= b);
        } else {
            assert(tb[3] == b64_char(b[2] as int % 64));
            lemma_b64_char_not_pad(b[2] as int % 64);
            assert(ta[3] == '=');
            assert(false);
        }
    } else {
        if b.len() <= 2 {
            lemma_base64_injective(b, a);
        } else {
            let a0 = a[0] as int;
            let a1 = a[1] as int;
            let a2 = a[2] as int;
            let b0 = b[0] as int;
            let b1 = b[1] as int;
            let b2 = b[2] as int;
            let ra = base64_text(a.skip(3));
            let rb = base64_text(b.skip(3));
            assert(ta[0] == b64_char(a0 / 4) && tb[0] == b64_char(b0 / 4));
            assert(ta[1] == b64_char((a0 % 4) * 16 + a1 / 16));
            assert(ta[2] == b64_char((a1 % 16) * 4 + a2 / 64));
            assert(ta[3] == b64_char(a2 % 64));
            lemma_b64_char_injective(a0 / 4, b0 / 4);
            lemma_b64_char_injective((a0 % 4) * 16 + a1 / 16, (b0 % 4) * 16 + b1 / 16);
            lemma_b64_char_injective((a1 % 16) * 4 + a2 / 64, (b1 % 16) * 4 + b2 / 64);
            lemma_b64_char_injective(a2 % 64, b2 % 64);
            assert(a0 % 4 == ((a0 % 4) * 16 + a1 / 16) / 16 && a1 / 16 == ((a0 % 4) * 16 + a1 / 16)
                % 16);
            assert(a1 % 16 == ((a1 % 16) * 4 + a2 / 64) / 4 && a2 / 64 == ((a1 % 16) * 4 + a2 / 64)
                % 4);
            assert(a0 == b0 && a1 == b1 && a2 == b2);
            assert forall|i: int| 0 <= i < ra.len() implies ra[i] == rb[i] by {
                assert(ra[i] == ta[i + 4]);
                assert(rb[i] == tb[i + 4]);
            }
            lemma_base64_len(a.skip(3));
            lemma_base64_len(b.skip(3));
            assert(ra =~= rb);
            lemma_base64_injective(a.skip(3), b.skip(3));
            assert(a =~= seq![a[0], a[1], a[2]] + a.skip(3));
            assert(b =~= seq![b[0], b[1], b[2]] + b.skip(3));
            assert(a =~= b);
        }
    }
}

/// Distinct decimal digits have distinct characters.
proof fn lemma_dec_digit_injective(x: int, y: int)
    requires
        0 <= x <= 9,
        0 <= y <= 9,
        dec_digit(x) == dec_digit(y),
    ensures
        x == y,
{
}

/// Law, date layer: within the ranges a `CalendarDate` admits, the
/// fixed-width date text is injective.
#[verifier::rlimit(100)]
pub proof fn lemma_date_text_injective(y1: int, m1: int, d1: int, y2: int, m2: int, d2: int)
    requires
        0 <= y1 <= 9999,
        0 <= y2 <= 9999,
        0 <= m1 <= 99,
        0 <= m2 <= 99,
        0 <= d1 <= 99,
        0 <= d2 <= 99,
        date_text(y1, m1, d1) == date_text(y2, m2, d2),
    ensures
        y1 == y2,
        m1 == m2,
        d1 == d2,
{
    let s1 = date_text(y1, m1, d1);
    let s2 = date_text(y2, m2, d2);
    assert(s1[0] == s2[0] && s1[1] == s2[1] && s1[2] == s2[2] && s1[3] == s2[3]);
    assert(s1[5] == s2[5] && s1[6] == s2[6] && s1[8] == s2[8] && s1[9] == s2[9]);
    lemma_dec_digit_injective(y1 / 1000, y2 / 1000);
    lemma_dec_digit_injective(y1 / 100 % 10, y2 / 100 % 10);
    lemma_dec_digit_injective(y1 / 10 % 10, y2 / 10 % 10);
    lemma_dec_digit_injective(y1 % 10, y2 % 10);
    lemma_dec_digit_injective(m1 / 10, m2 / 10);
    lemma_dec_digit_injective(m1 % 10, m2 % 10);
    lemma_dec_digit_injective(d1 / 10, d2 / 10);
    lemma_dec_digit_injective(d1 % 10, d2 % 10);
    lemma_div_denominator(y1, 10, 10);
    lemma_div_denominator(y2, 10, 10);
    lemma_div_denominator(y1, 100, 10);
    lemma_div_denominator(y2, 100, 10);
    lemma_fundamental_div_mod(y1 / 100, 10);
    lemma_fundamental_div_mod(y2 / 100, 10);
    assert(y1 / 100 == y2 / 100);
    lemma_fundamental_div_mod(y1 / 10, 10);
    lemma_fundamental_div_mod(y2 / 10, 10);
    assert(y1 / 10 == y2 / 10);
    lemma_fundamental_div_mod(y1, 10);
    lemma_fundamental_div_mod(y2, 10);
    lemma_fundamental_div_mod(m1, 10);
    lemma_fundamental_div_mod(m2, 10);
    lemma_fundamental_div_mod(d1, 10);
    lemma_fundamental_div_mod(d2, 10);
}

/// Law, reference layer: two references with the same canonical document
/// are the same reference.
#[verifier::rlimit(100)]
pub proof fn lemma_ref_jsonv_injective(a: Reference, b: Reference)
    requires
        ref_jsonv(a) == ref_jsonv(b),
    ensures
        ref_eqv(a, b),
    decreases a,
{
    reveal_strlit("class");
    reveal_strlit("database");
    reveal_strlit("id");
    reveal_strlit("@ref");
    assert("class"@.len() == 5 && "database"@.len() == 8 && "id"@.len() == 2);
    let ba = ref_body_jsonv(a);
    let bb = ref_body_jsonv(b);
    assert(seq![("@ref"@, JsonV::Obj(ba))][0] == seq![("@ref"@, JsonV::Obj(bb))][0]);
    assert(ba == bb);
    let ea = ("id"@, JsonV::Str(a.id@));
    let eb = ("id"@, JsonV::Str(b.id@));
    match (a.class, a.database) {
        (Option::Some(x1), Option::Some(x2)) => {
            assert(ba =~= seq![("class"@, ref_jsonv(*x1)), ("database"@, ref_jsonv(*x2)), ea]);
            match (b.class, b.database) {
                (Option::Some(y1), Option::Some(y2)) => {
                    assert(bb =~= seq![
                        ("class"@, ref_jsonv(*y1)),
                        ("database"@, ref_jsonv(*y2)),
                        eb,
                    ]);
                    assert(ba[0] == bb[0] && ba[1] == bb[1] && ba[2] == bb[2]);
                    lemma_ref_jsonv_injective(*x1, *y1);
                    lemma_ref_jsonv_injective(*x2, *y2);
                },
                (Option::Some(y1), Option::None) => {
                    assert(bb =~= seq![("class"@, ref_jsonv(*y1)), eb]);
                    assert(false);
                },
                (Option::None, Option::Some(y2)) => {
                    assert(bb =~= seq![("database"@, ref_jsonv(*y2)), eb]);
                    assert(false);
                },
                (Option::None, Option::None) => {
                    assert(bb =~= seq![eb]);
                    assert(false);
                },
            }
        },
        (Option::Some(x1), Option::None) => {
            assert(ba =~= seq![("class"@, ref_jsonv(*x1)), ea]);
            match (b.class, b.database) {
                (Option::Some(y1), Option::Some(y2)) => {
                    assert(bb =~= seq![
                        ("class"@, ref_jsonv(*y1)),
                        ("database"@, ref_jsonv(*y2)),
                        eb,
                    ]);
                    assert(false);
                },
                (Option::Some(y1), Option::None) => {
                    assert(bb =~= seq![("class"@, ref_jsonv(*y1)), eb]);
                    assert(ba[0] == bb[0] && ba[1] == bb[1]);
                    lemma_ref_jsonv_injective(*x1, *y1);
                },
                (Option::None, Option::Some(y2)) => {
                    assert(bb =~= seq![("database"@, ref_jsonv(*y2)), eb]);
                    assert(ba[0].0 == bb[0].0);
                    assert(false);
                },
                (Option::None, Option::None) => {
                    assert(bb =~= seq![eb]);
                    assert(false);
                },
            }
        },
        (Option::None, Option::Some(x2)) => {
            assert(ba =~= seq![("database"@, ref_jsonv(*x2)), ea]);
            match (b.class, b.database) {
                (Option::Some(y1), Option::Some(y2)) => {
                    assert(bb =~= seq![
                        ("class"@, ref_jsonv(*y1)),
                        ("database"@, ref_jsonv(*y2)),
                        eb,
                    ]);
                    assert(false);
                },
                (Option::Some(y1), Option::None) => {
                    assert(bb =~= seq![("class"@, ref_jsonv(*y1)), eb]);
                    assert(ba[0].0 == bb[0].0);
                    assert(false);
                },
                (Option::None, Option::Some(y2)) => {
                    assert(bb =~= seq![("database"@, ref_jsonv(*y2)), eb]);
                    assert(ba[0] == bb[0] && ba[1] == bb[1]);
                    lemma_ref_jsonv_injective(*x2, *y2);
                },
                (Option::None, Option::None) => {
                    assert(bb =~= seq![eb]);
                    assert(false);
                },
            }
        },
        (Option::None, Option::None) => {
            assert(ba =~= seq![ea]);
            match (b.class, b.database) {
                (Option::Some(y1), Option::Some(y2)) => {
                    assert(bb =~= seq![
                        ("class"@, ref_jsonv(*y1)),
                        ("database"@, ref_jsonv(*y2)),
                        eb,
                    ]);
                    assert(false);
                },
                (Option::Some(y1), Option::None) => {
                    assert(bb =~= seq![("class"@, ref_jsonv(*y1)), eb]);
                    assert(false);
                },
                (Option::None, Option::Some(y2)) => {
                    assert(bb =~= seq![("database"@, ref_jsonv(*y2)), eb]);
                    assert(false);
                },
                (Option::None, Option::None) => {
                    assert(bb =~= seq![eb]);
                    assert(ba[0] == bb[0]);
                },
            }
        },
    }
    assert(ba.last() == bb.last());
    assert(a.id@ == b.id@);
}

/// A value whose document provably determines it: not a timestamp — an
/// instant's text comes from chrono, which these proofs do not model — and,
/// for a date, within the calendar ranges (a ghost date outside them could
/// share a text with another).
pub open spec fn value_distinctive(v: Value) -> bool {
    match v {
        Value::Timestamp(_) => false,
        Value::Date(d) => d.wf(),
        _ => true,
    }
}

/// `value_distinctive` over a whole tree.
pub open spec fn expr_distinctive(e: Expr) -> bool
    decreases e,
{
    match e {
        Expr::Val(v) => value_distinctive(v),
        Expr::Obj(m) => entries_distinctive(m@),
        Expr::Arr(v) => exprs_distinctive(v@),
        Expr::Call(q) => query_distinctive(*q),
    }
}

/// `expr_distinctive` over a sequence.
pub open spec fn exprs_distinctive(s: Seq<Expr>) -> bool
    decreases s,
{
    if s.len() == 0 {
        true
    } else {
        exprs_distinctive(s.drop_last()) && expr_distinctive(s.last())
    }
}

/// `expr_distinctive` over a mapping's values.
pub open spec fn entries_distinctive(s: Seq<(String, Expr)>) -> bool
    decreases s,
{
    if s.len() == 0 {
        true
    } else {
        entries_distinctive(s.drop_last()) && expr_distinctive(s.last().1)
    }
}

/// `expr_distinctive` over a query record's fields.
pub open spec fn query_distinctive(q: Query) -> bool
    decreases q,
{
    match q {
        Query::Date(x) => expr_distinctive(x.date),
        Query::Epoch(x) => expr_distinctive(x.epoch),
        Query::Time(x) => expr_distinctive(x.time),
        Query::Var(x) => expr_distinctive(x.var),
        Query::And(x) => exprs_distinctive(x.and@),
        Query::Or(x) => exprs_distinctive(x.or@),
        Query::Not(x) => expr_distinctive(x.not),
        Query::Lt(x) => exprs_distinctive(x.lt@),
        Query::Lte(x) => exprs_distinctive(x.lte@),
        Query::Gt(x) => exprs_distinctive(x.gt@),
        Query::Gte(x) => exprs_distinctive(x.gte@),
        Query::Contains(x) => exprs_distinctive(x.contains@) && expr_distinctive(x.in_),
        Query::Equals(x) => exprs_distinctive(x.equals@),
        Query::Exists(x) => expr_distinctive(x.exists) && match x.timestamp {
            Some(t) => expr_distinctive(t),
            None => true,
        },
    }
}

/// Equality of two values up to character-for-character string and byte
/// contents.
pub open spec fn value_eqv(a: Value, b: Value) -> bool {
    match (a, b) {
        (Value::Null, Value::Null) => true,
        (Value::Bool(x), Value::Bool(y)) => x == y,
        (Value::Int(x), Value::Int(y)) => x == y,
        (Value::Str(x), Value::Str(y)) => x@ == y@,
        (Value::Bytes(x), Value::Bytes(y)) => x@ == y@,
        (Value::Timestamp(x), Value::Timestamp(y)) => x == y,
        (Value::Date(x), Value::Date(y)) => x == y,
        (Value::Ref(x), Value::Ref(y)) => ref_eqv(x, y),
        _ => false,
    }
}

/// Equality of two trees up to character-for-character string and byte
/// contents.
pub open spec fn expr_eqv(a: Expr, b: Expr) -> bool
    decreases a,
{
    match (a, b) {
        (Expr::Val(x), Expr::Val(y)) => value_eqv(x, y),
        (Expr::Obj(x), Expr::Obj(y)) => entries_eqv(x@, y@),
        (Expr::Arr(x), Expr::Arr(y)) => exprs_eqv(x@, y@),
        (Expr::Call(x), Expr::Call(y)) => query_eqv(*x, *y),
        _ => false,
    }
}

/// `expr_eqv`, element by element.
pub open spec fn exprs_eqv(s1: Seq<Expr>, s2: Seq<Expr>) -> bool
    decreases s1,
{
    if s1.len() != s2.len() {
        false
    } else if s1.len() == 0 {
        true
    } else {
        exprs_eqv(s1.drop_last(), s2.drop_last()) && expr_eqv(s1.last(), s2.last())
    }
}

/// `expr_eqv`, entry by entry, keys compared character for character.
pub open spec fn entries_eqv(s1: Seq<(String, Expr)>, s2: Seq<(String, Expr)>) -> bool
    decreases s1,
{
    if s1.len() != s2.len() {
        false
    } else if s1.len() == 0 {
        true
    } else {
        entries_eqv(s1.drop_last(), s2.drop_last()) && s1.last().0@ == s2.last().0@ && expr_eqv(
            s1.last().1,
            s2.last().1,
        )
    }
}

/// Equality of two query calls up to character-for-character string and
/// byte contents; calls of different kinds are never equivalent.
pub open spec fn query_eqv(a: Query, b: Query) -> bool
    decreases a,
{
    match (a, b) {
        (Query::Date(x), Query::Date(y)) => expr_eqv(x.date, y.date),
        (Query::Epoch(x), Query::Epoch(y)) => expr_eqv(x.epoch, y.epoch) && x.unit == y.unit,
        (Query::Time(x), Query::Time(y)) => expr_eqv(x.time, y.time),
        (Query::Var(x), Query::Var(y)) => expr_eqv(x.var, y.var),
        (Query::And(x), Query::And(y)) => exprs_eqv(x.and@, y.and@),
        (Query::Or(x), Query::Or(y)) => exprs_eqv(x.or@, y.or@),
        (Query::Not(x), Query::Not(y)) => expr_eqv(x.not, y.not),
        (Query::Lt(x), Query::Lt(y)) => exprs_eqv(x.lt@, y.lt@),
        (Query::Lte(x), Query::Lte(y)) => exprs_eqv(x.lte@, y.lte@),
        (Query::Gt(x), Query::Gt(y)) => exprs_eqv(x.gt@, y.gt@),
        (Query::Gte(x), Query::Gte(y)) => exprs_eqv(x.gte@, y.gte@),
        (Query::Contains(x), Query::Contains(y)) => exprs_eqv(x.contains@, y.contains@)
            && expr_eqv(x.in_, y.in_),
        (Query::Equals(x), Query::Equals(y)) => exprs_eqv(x.equals@, y.equals@),
        (Query::Exists(x), Query::Exists(y)) => expr_eqv(x.exists, y.exists) && match (
            x.timestamp,
            y.timestamp,
        ) {
            (Option::None, Option::None) => true,
            (Option::Some(s), Option::Some(t)) => expr_eqv(s, t),
            _ => false,
        },
        _ => false,
    }
}

/// The fixed top-level key a query call encodes under.
pub open spec fn query_key(q: Query) -> Seq<char> {
    match q {
        Query::Date(_) => "date"@,
        Query::Epoch(_) => "epoch"@,
        Query::Time(_) => "time"@,
        Query::Var(_) => "var"@,
        Query::And(_) => "and"@,
        Query::Or(_) => "or"@,
        Query::Not(_) => "not"@,
        Query::Lt(_) => "lt"@,
        Query::Lte(_) => "lte"@,
        Query::Gt(_) => "gt"@,
        Query::Gte(_) => "gte"@,
        Query::Contains(_) => "contains"@,
        Query::Equals(_) => "equals"@,
        Query::Exists(_) => "exists"@,
    }
}

/// Reveals every key the query grammar reserves, with its length.
proof fn reveal_query_keys()
    ensures
        "date"@.len() == 4,
        "epoch"@.len() == 5,
        "time"@.len() == 4,
        "var"@.len() == 3,
        "and"@.len() == 3,
        "or"@.len() == 2,
        "not"@.len() == 3,
        "lt"@.len() == 2,
        "lte"@.len() == 3,
        "gt"@.len() == 2,
        "gte"@.len() == 3,
        "contains"@.len() == 8,
        "equals"@.len() == 6,
        "exists"@.len() == 6,
        "ts"@.len() == 2,
        "in"@.len() == 2,
        "unit"@.len() == 4,
        "object"@.len() == 6,
        "date"@[0] == 'd' && "time"@[0] == 't',
        "var"@[0] == 'v' && "and"@[0] == 'a' && "not"@[0] == 'n' && "lte"@[0] == 'l'
            && "gte"@[0] == 'g',
        "or"@[0] == 'o' && "lt"@[0] == 'l' && "gt"@[0] == 'g',
        "equals"@[0] == 'e' && "exists"@[0] == 'e' && "equals"@[1] == 'q' && "exists"@[1] == 'x',
        "object"@[0] == 'o' && "equals"@[0] == 'e' && "exists"@[0] == 'e',
        "epoch"@[0] == 'e' && "contains"@[0] == 'c',
{
    reveal_strlit("date");
    reveal_strlit("epoch");
    reveal_strlit("time");
    reveal_strlit("var");
    reveal_strlit("and");
    reveal_strlit("or");
    reveal_strlit("not");
    reveal_strlit("lt");
    reveal_strlit("lte");
    reveal_strlit("gt");
    reveal_strlit("gte");
    reveal_strlit("contains");
    reveal_strlit("equals");
    reveal_strlit("exists");
    reveal_strlit("ts");
    reveal_strlit("in");
    reveal_strlit("unit");
    reveal_strlit("object");
}

/// Every query document is an object with at least one entry, whose first
/// key is the call's fixed key; no fixed key begins with the `@` sigil of
/// the value forms, and none is the wrapping key `object`.
proof fn lemma_query_doc_shape(q: Query)
    ensures
        query_jsonv(q) matches JsonV::Obj(es) && es.len() >= 1 && es[0].0 == query_key(q),
        query_key(q).len() >= 1,
        query_key(q)[0] != '@',
        query_key(q) != "object"@,
{
    reveal_query_keys();
    match q {
        Query::Exists(x) => {
            match x.timestamp {
                Option::None => {},
                Option::Some(_) => {},
            }
        },
        _ => {},
    }
}

/// Distinct epoch units have distinct wire names.
proof fn lemma_epoch_unit_injective(u1: EpochUnit, u2: EpochUnit)
    requires
        epoch_unit_text(u1) == epoch_unit_text(u2),
    ensures
        u1 == u2,
{
    reveal_strlit("second");
    reveal_strlit("millisecond");
    reveal_strlit("microsecond");
    reveal_strlit("nanosecond");
    assert("second"@.len() == 6 && "millisecond"@.len() == 11 && "microsecond"@.len() == 11
        && "nanosecond"@.len() == 10);
    assert("millisecond"@[2] == 'l' && "microsecond"@[2] == 'c');
}

/// A value's document, when it is an object at all, is a one-entry object
/// whose key begins with the `@` sigil.
proof fn lemma_value_doc_sigil(v: Value)
    requires
        value_distinctive(v),
    ensures
        value_jsonv(v) matches JsonV::Obj(es) ==> es.len() == 1 && es[0].0.len() >= 1
            && es[0].0[0] == '@',
{
    reveal_strlit("@bytes");
    reveal_strlit("@date");
    reveal_strlit("@ref");
    assert("@bytes"@.len() == 6 && "@date"@.len() == 5 && "@ref"@.len() == 4);
    assert("@bytes"@[0] == '@' && "@date"@[0] == '@' && "@ref"@[0] == '@');
}

/// Law, value layer: two distinctive values with the same document are the
/// same value up to string and byte contents.
#[verifier::rlimit(100)]
pub proof fn lemma_value_jsonv_injective(a: Value, b: Value)
    requires
        value_distinctive(a),
        value_distinctive(b),
        value_jsonv(a) == value_jsonv(b),
    ensures
        value_eqv(a, b),
{
    reveal_strlit("@bytes");
    reveal_strlit("@date");
    reveal_strlit("@ref");
    assert("@bytes"@.len() == 6 && "@date"@.len() == 5 && "@ref"@.len() == 4);
    match (a, b) {
        (Value::Bytes(x), Value::Bytes(y)) => {
            assert(seq![("@bytes"@, JsonV::Str(base64_text(x@)))][0].1 == seq![
                ("@bytes"@, JsonV::Str(base64_text(y@))),
            ][0].1);
            lemma_base64_injective(x@, y@);
        },
        (Value::Date(x), Value::Date(y)) => {
            CalendarDate::lemma_wf_ranges(x);
            CalendarDate::lemma_wf_ranges(y);
            let ta = date_text(x.spec_year(), x.spec_month(), x.spec_day());
            let tb = date_text(y.spec_year(), y.spec_month(), y.spec_day());
            assert(seq![("@date"@, JsonV::Str(ta))][0].1 == seq![("@date"@, JsonV::Str(tb))][0].1);
            lemma_date_text_injective(
                x.spec_year(),
                x.spec_month(),
                x.spec_day(),
                y.spec_year(),
                y.spec_month(),
                y.spec_day(),
            );
            CalendarDate::lemma_fields_determine(x, y);
        },
        (Value::Ref(x), Value::Ref(y)) => {
            lemma_ref_jsonv_injective(x, y);
        },
        (Value::Null, Value::Null) => {},
        (Value::Bool(_), Value::Bool(_)) => {},
        (Value::Int(_), Value::Int(_)) => {},
        (Value::Str(_), Value::Str(_)) => {},
        (Value::Bytes(x), Value::Date(y)) => {
            let sa = seq![("@bytes"@, JsonV::Str(base64_text(x@)))];
            let sb = seq![
                ("@date"@, JsonV::Str(date_text(y.spec_year(), y.spec_month(), y.spec_day()))),
            ];
            assert(sa[0].0 == sb[0].0);
            assert(false);
        },
        (Value::Date(x), Value::Bytes(y)) => {
            let sa = seq![
                ("@date"@, JsonV::Str(date_text(x.spec_year(), x.spec_month(), x.spec_day()))),
            ];
            let sb = seq![("@bytes"@, JsonV::Str(base64_text(y@)))];
            assert(sa[0].0 == sb[0].0);
            assert(false);
        },
        (Value::Bytes(x), Value::Ref(y)) => {
            let sa = seq![("@bytes"@, JsonV::Str(base64_text(x@)))];
            let sb = seq![("@ref"@, JsonV::Obj(ref_body_jsonv(y)))];
            assert(sa[0].0 == sb[0].0);
            assert(false);
        },
        (Value::Ref(x), Value::Bytes(y)) => {
            let sa = seq![("@ref"@, JsonV::Obj(ref_body_jsonv(x)))];
            let sb = seq![("@bytes"@, JsonV::Str(base64_text(y@)))];
            assert(sa[0].0 == sb[0].0);
            assert(false);
        },
        (Value::Date(x), Value::Ref(y)) => {
            let sa = seq![
                ("@date"@, JsonV::Str(date_text(x.spec_year(), x.spec_month(), x.spec_day()))),
            ];
            let sb = seq![("@ref"@, JsonV::Obj(ref_body_jsonv(y)))];
            assert(sa[0].0 == sb[0].0);
            assert(false);
        },
        (Value::Ref(x), Value::Date(y)) => {
            let sa = seq![("@ref"@, JsonV::Obj(ref_body_jsonv(x)))];
            let sb = seq![
                ("@date"@, JsonV::Str(date_text(y.spec_year(), y.spec_month(), y.spec_day()))),
            ];
            assert(sa[0].0 == sb[0].0);
            assert(false);
        },
        _ => {
            assert(false);
        },
    }
}

/// Law, sequence layer: element-for-element injectivity.
pub proof fn lemma_exprs_jsonv_injective(s1: Seq<Expr>, s2: Seq<Expr>)
    requires
        exprs_distinctive(s1),
        exprs_distinctive(s2),
        exprs_jsonv(s1) == exprs_jsonv(s2),
    ensures
        exprs_eqv(s1, s2),
    decreases s1,
{
    if s1.len() == 0 {
        if s2.len() > 0 {
            lemma_exprs_jsonv_index(s2, 0);
            assert(false);
        }
    } else if s2.len() == 0 {
        lemma_exprs_jsonv_index(s1, 0);
        assert(false);
    } else {
        lemma_exprs_jsonv_index(s1, 0);
        lemma_exprs_jsonv_index(s2, 0);
        assert(s1.len() == s2.len());
        let p1 = exprs_jsonv(s1.drop_last());
        let p2 = exprs_jsonv(s2.drop_last());
        if s1.len() == 1 {
            assert(p1.len() == 0 && p2.len() == 0);
        } else {
            lemma_exprs_jsonv_index(s1.drop_last(), 0);
            lemma_exprs_jsonv_index(s2.drop_last(), 0);
        }
        assert(expr_jsonv(s1.last()) == exprs_jsonv(s1)[s1.len() - 1]);
        assert(expr_jsonv(s2.last()) == exprs_jsonv(s2)[s2.len() - 1]);
        lemma_expr_jsonv_injective(s1.last(), s2.last());
        assert forall|i: int| 0 <= i < p1.len() implies p1[i] == p2[i] by {
            assert(p1[i] == exprs_jsonv(s1)[i]);
            assert(p2[i] == exprs_jsonv(s2)[i]);
        }
        assert(p1 =~= p2);
        lemma_exprs_jsonv_injective(s1.drop_last(), s2.drop_last());
    }
}

/// Law, mapping layer: entry-for-entry injectivity, keys included.
pub proof fn lemma_entries_jsonv_injective(s1: Seq<(String, Expr)>, s2: Seq<(String, Expr)>)
    requires
        entries_distinctive(s1),
        entries_distinctive(s2),
        entries_jsonv(s1) == entries_jsonv(s2),
    ensures
        entries_eqv(s1, s2),
    decreases s1,
{
    if s1.len() == 0 {
        if s2.len() > 0 {
            lemma_entries_jsonv_index(s2, 0);
            assert(false);
        }
    } else if s2.len() == 0 {
        lemma_entries_jsonv_index(s1, 0);
        assert(false);
    } else {
        lemma_entries_jsonv_index(s1, 0);
        lemma_entries_jsonv_index(s2, 0);
        assert(s1.len() == s2.len());
        let p1 = entries_jsonv(s1.drop_last());
        let p2 = entries_jsonv(s2.drop_last());
        if s1.len() == 1 {
            assert(p1.len() == 0 && p2.len() == 0);
        } else {
            lemma_entries_jsonv_index(s1.drop_last(), 0);
            lemma_entries_jsonv_index(s2.drop_last(), 0);
        }
        assert((s1.last().0@, expr_jsonv(s1.last().1)) == entries_jsonv(s1)[s1.len() - 1]);
        assert((s2.last().0@, expr_jsonv(s2.last().1)) == entries_jsonv(s2)[s2.len() - 1]);
        assert(s1.last().0@ == s2.last().0@);
        lemma_expr_jsonv_injective(s1.last().1, s2.last().1);
        assert forall|i: int| 0 <= i < p1.len() implies p1[i] == p2[i] by {
            assert(p1[i] == entries_jsonv(s1)[i]);
            assert(p2[i] == entries_jsonv(s2)[i]);
        }
        assert(p1 =~= p2);
        lemma_entries_jsonv_injective(s1.drop_last(), s2.drop_last());
    }
}

/// Law, call layer: for any two query calls — in particular two of the same
/// kind — equal documents mean the same kind and, field for field, the same
/// arguments.
#[verifier::rlimit(100)]
pub proof fn lemma_query_jsonv_injective(a: Query, b: Query)
    requires
        query_distinctive(a),
        query_distinctive(b),
        query_jsonv(a) == query_jsonv(b),
    ensures
        query_eqv(a, b),
    decreases a,
{
    reveal_query_keys();
    lemma_query_doc_shape(a);
    lemma_query_doc_shape(b);
    assert(query_key(a) == query_key(b));
    match (a, b) {
        (Query::Date(x), Query::Date(y)) => {
            assert(seq![("date"@, expr_jsonv(x.date))][0].1 == seq![
                ("date"@, expr_jsonv(y.date)),
            ][0].1);
            lemma_expr_jsonv_injective(x.date, y.date);
        },
        (Query::Epoch(x), Query::Epoch(y)) => {
            let ea = seq![
                ("epoch"@, expr_jsonv(x.epoch)),
                ("unit"@, JsonV::Str(epoch_unit_text(x.unit))),
            ];
            let eb = seq![
                ("epoch"@, expr_jsonv(y.epoch)),
                ("unit"@, JsonV::Str(epoch_unit_text(y.unit))),
            ];
            assert(ea[0].1 == eb[0].1 && ea[1].1 == eb[1].1);
            lemma_expr_jsonv_injective(x.epoch, y.epoch);
            lemma_epoch_unit_injective(x.unit, y.unit);
        },
        (Query::Time(x), Query::Time(y)) => {
            assert(seq![("time"@, expr_jsonv(x.time))][0].1 == seq![
                ("time"@, expr_jsonv(y.time)),
            ][0].1);
            lemma_expr_jsonv_injective(x.time, y.time);
        },
        (Query::Var(x), Query::Var(y)) => {
            assert(seq![("var"@, expr_jsonv(x.var))][0].1 == seq![("var"@, expr_jsonv(y.var))][0].1);
            lemma_expr_jsonv_injective(x.var, y.var);
        },
        (Query::And(x), Query::And(y)) => {
            assert(seq![("and"@, JsonV::Arr(exprs_jsonv(x.and@)))][0].1 == seq![
                ("and"@, JsonV::Arr(exprs_jsonv(y.and@))),
            ][0].1);
            lemma_exprs_jsonv_injective(x.and@, y.and@);
        },
        (Query::Or(x), Query::Or(y)) => {
            assert(seq![("or"@, JsonV::Arr(exprs_jsonv(x.or@)))][0].1 == seq![
                ("or"@, JsonV::Arr(exprs_jsonv(y.or@))),
            ][0].1);
            lemma_exprs_jsonv_injective(x.or@, y.or@);
        },
        (Query::Not(x), Query::Not(y)) => {
            assert(seq![("not"@, expr_jsonv(x.not))][0].1 == seq![("not"@, expr_jsonv(y.not))][0].1);
            lemma_expr_jsonv_injective(x.not, y.not);
        },
        (Query::Lt(x), Query::Lt(y)) => {
            assert(seq![("lt"@, JsonV::Arr(exprs_jsonv(x.lt@)))][0].1 == seq![
                ("lt"@, JsonV::Arr(exprs_jsonv(y.lt@))),
            ][0].1);
            lemma_exprs_jsonv_injective(x.lt@, y.lt@);
        },
        (Query::Lte(x), Query::Lte(y)) => {
            assert(seq![("lte"@, JsonV::Arr(exprs_jsonv(x.lte@)))][0].1 == seq![
                ("lte"@, JsonV::Arr(exprs_jsonv(y.lte@))),
            ][0].1);
            lemma_exprs_jsonv_injective(x.lte@, y.lte@);
        },
        (Query::Gt(x), Query::Gt(y)) => {
            assert(seq![("gt"@, JsonV::Arr(exprs_jsonv(x.gt@)))][0].1 == seq![
                ("gt"@, JsonV::Arr(exprs_jsonv(y.gt@))),
            ][0].1);
            lemma_exprs_jsonv_injective(x.gt@, y.gt@);
        },
        (Query::Gte(x), Query::Gte(y)) => {
            assert(seq![("gte"@, JsonV::Arr(exprs_jsonv(x.gte@)))][0].1 == seq![
                ("gte"@, JsonV::Arr(exprs_jsonv(y.gte@))),
            ][0].1);
            lemma_exprs_jsonv_injective(x.gte@, y.gte@);
        },
        (Query::Contains(x), Query::Contains(y)) => {
            let ea = seq![
                ("contains"@, JsonV::Arr(exprs_jsonv(x.contains@))),
                ("in"@, expr_jsonv(x.in_)),
            ];
            let eb = seq![
                ("contains"@, JsonV::Arr(exprs_jsonv(y.contains@))),
                ("in"@, expr_jsonv(y.in_)),
            ];
            assert(ea[0].1 == eb[0].1 && ea[1].1 == eb[1].1);
            lemma_exprs_jsonv_injective(x.contains@, y.contains@);
            lemma_expr_jsonv_injective(x.in_, y.in_);
        },
        (Query::Equals(x), Query::Equals(y)) => {
            assert(seq![("equals"@, JsonV::Arr(exprs_jsonv(x.equals@)))][0].1 == seq![
                ("equals"@, JsonV::Arr(exprs_jsonv(y.equals@))),
            ][0].1);
            lemma_exprs_jsonv_injective(x.equals@, y.equals@);
        },
        (Query::Exists(x), Query::Exists(y)) => {
            match (x.timestamp, y.timestamp) {
                (Option::None, Option::None) => {
                    assert(seq![("exists"@, expr_jsonv(x.exists))][0].1 == seq![
                        ("exists"@, expr_jsonv(y.exists)),
                    ][0].1);
                    lemma_expr_jsonv_injective(x.exists, y.exists);
                },
                (Option::Some(s), Option::Some(t)) => {
                    let ea = seq![("exists"@, expr_jsonv(x.exists)), ("ts"@, expr_jsonv(s))];
                    let eb = seq![("exists"@, expr_jsonv(y.exists)), ("ts"@, expr_jsonv(t))];
                    assert(ea[0].1 == eb[0].1 && ea[1].1 == eb[1].1);
                    lemma_expr_jsonv_injective(x.exists, y.exists);
                    lemma_expr_jsonv_injective(s, t);
                },
                (Option::None, Option::Some(t)) => {
                    assert(seq![("exists"@, expr_jsonv(x.exists))].len() == 1);
                    assert(seq![("exists"@, expr_jsonv(y.exists)), ("ts"@, expr_jsonv(t))].len()
                        == 2);
                    assert(false);
                },
                (Option::Some(s), Option::None) => {
                    assert(seq![("exists"@, expr_jsonv(x.exists)), ("ts"@, expr_jsonv(s))].len()
                        == 2);
                    assert(seq![("exists"@, expr_jsonv(y.exists))].len() == 1);
                    assert(false);
                },
            }
        },
        _ => {
            assert(false);
        },
    }
}

/// Law, tree layer: two distinctive trees with the same canonical document
/// are the same tree up to string and byte contents. The wrapping rule is
/// what makes this hold: a plain mapping can never read as a query call or
/// a value form.
pub proof fn lemma_expr_jsonv_injective(a: Expr, b: Expr)
    requires
        expr_distinctive(a),
        expr_distinctive(b),
        expr_jsonv(a) == expr_jsonv(b),
    ensures
        expr_eqv(a, b),
    decreases a,
{
    reveal_query_keys();
    match (a, b) {
        (Expr::Val(x), Expr::Val(y)) => {
            lemma_value_jsonv_injective(x, y);
        },
        (Expr::Obj(x), Expr::Obj(y)) => {
            assert(seq![("object"@, JsonV::Obj(entries_jsonv(x@)))][0].1 == seq![
                ("object"@, JsonV::Obj(entries_jsonv(y@))),
            ][0].1);
            lemma_entries_jsonv_injective(x@, y@);
        },
        (Expr::Arr(x), Expr::Arr(y)) => {
            lemma_exprs_jsonv_injective(x@, y@);
        },
        (Expr::Call(x), Expr::Call(y)) => {
            lemma_query_jsonv_injective(*x, *y);
        },
        (Expr::Val(x), Expr::Obj(_)) => {
            lemma_value_doc_sigil(x);
            assert(false);
        },
        (Expr::Obj(_), Expr::Val(y)) => {
            lemma_value_doc_sigil(y);
            assert(false);
        },
        (Expr::Val(x), Expr::Call(y)) => {
            lemma_value_doc_sigil(x);
            lemma_query_doc_shape(*y);
            assert(false);
        },
        (Expr::Call(x), Expr::Val(y)) => {
            lemma_value_doc_sigil(y);
            lemma_query_doc_shape(*x);
            assert(false);
        },
        (Expr::Obj(_), Expr::Call(y)) => {
            lemma_query_doc_shape(*y);
            assert(false);
        },
        (Expr::Call(x), Expr::Obj(_)) => {
            lemma_query_doc_shape(*x);
            assert(false);
        },
        (Expr::Val(_), Expr::Arr(_)) => {
            assert(false);
        },
        (Expr::Arr(_), Expr::Val(_)) => {
            assert(false);
        },
        (Expr::Obj(_), Expr::Arr(_)) => {
            assert(false);
        },
        (Expr::Arr(_), Expr::Obj(_)) => {
            assert(false);
        },
        (Expr::Arr(_), Expr::Call(y)) => {
            lemma_query_doc_shape(*y);
            assert(false);
        },
        (Expr::Call(x), Expr::Arr(_)) => {
            lemma_query_doc_shape(*x);
            assert(false);
        },
    }
}

} // verus!
