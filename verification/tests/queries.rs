use fql::codec::encode;
use fql::expr::{Expr, Reference, Timestamp};
use fql::query::basic::Var;
use fql::query::datetime::{Date, Epoch, EpochUnit, Time};
use fql::query::logical::{And, Equals, Exists, Gt, Gte, Lt, Lte, Not, Or};
use fql::query::Query;

fn encoded(query: Query) -> serde_json::Value {
    let text = encode(&Expr::query(query)).unwrap();
    serde_json::from_str(&text).unwrap()
}

fn json(text: &str) -> serde_json::Value {
    serde_json::from_str(text).unwrap()
}

#[test]
fn test_date() {
    let fun = Date::new(Expr::string("1970-01-01"));

    let query = Query::from(fun);
    let serialized = encoded(query);

    let expected = json(r#"{"date": "1970-01-01"}"#);

    assert_eq!(expected, serialized);
}

#[test]
fn test_epoch() {
    let fun = Epoch::new(Expr::from(5i64), EpochUnit::Second);

    let query = Query::from(fun);
    let serialized = encoded(query);

    let expected = json(r#"{"epoch": 5, "unit": "second"}"#);

    assert_eq!(expected, serialized);
}

#[test]
fn test_time() {
    let fun = Time::new(Expr::string("1970-01-01T00:00:00+00:00"));

    let query = Query::from(fun);
    let serialized = encoded(query);

    let expected = json(r#"{"time": "1970-01-01T00:00:00+00:00"}"#);

    assert_eq!(expected, serialized);
}

#[test]
fn test_and() {
    let aaaand = And::from(vec![Expr::from(true), Expr::from(true), Expr::from(false)]);
    let query = Query::from(aaaand);
    let serialized = encoded(query);

    assert_eq!(json(r#"{"and": [true, true, false]}"#), serialized);
}

#[test]
fn test_or() {
    let oooor = Or::new(Expr::query(Query::from(Var::new("x"))), Expr::from(false));
    let query = Query::from(oooor);
    let serialized = encoded(query);

    assert_eq!(json(r#"{"or": [{"var": "x"}, false]}"#), serialized);
}

#[test]
fn test_not() {
    let noooot = Not::new(Expr::from(false));
    let query = Query::from(noooot);
    let serialized = encoded(query);

    assert_eq!(json(r#"{"not": false}"#), serialized);
}

#[test]
fn test_equals() {
    let equals = Equals::new(Expr::string("musti"), Expr::string("naukio"));
    let query = Query::from(equals);
    let serialized = encoded(query);

    assert_eq!(json(r#"{"equals": ["musti", "naukio"]}"#), serialized);
}

#[test]
fn test_exists() {
    let mut exists = Exists::new(Reference::instance("Musti"));
    exists.timestamp(Timestamp::new(60, 0).unwrap());

    let query = Query::from(exists);
    let serialized = encoded(query);

    let expected = json(
        r#"{
            "exists": {
                "@ref": {
                    "id": "Musti"
                }
            },
            "ts": {
                "@ts": "1970-01-01T00:01:00Z"
            }
        }"#,
    );

    assert_eq!(expected, serialized);
}

#[test]
fn test_lt() {
    let lt = Lt::new(Expr::from(1i64), Expr::from(2i64));
    let query = Query::from(lt);
    let serialized = encoded(query);

    assert_eq!(json(r#"{"lt": [1, 2]}"#), serialized);
}

#[test]
fn test_lte() {
    let lte = Lte::new(Expr::from(2i64), Expr::from(3i64));
    let query = Query::from(lte);
    let serialized = encoded(query);

    assert_eq!(json(r#"{"lte": [2, 3]}"#), serialized);
}

#[test]
fn test_gt() {
    let gt = Gt::new(Expr::from(1i64), Expr::from(2i64));
    let query = Query::from(gt);
    let serialized = encoded(query);

    assert_eq!(json(r#"{"gt": [1, 2]}"#), serialized);
}

#[test]
fn test_gte() {
    let gte = Gte::from(vec![Expr::from(1i64), Expr::from(2i64), Expr::from(3i64)]);
    let query = Query::from(gte);
    let serialized = encoded(query);

    assert_eq!(json(r#"{"gte": [1, 2, 3]}"#), serialized);
}
