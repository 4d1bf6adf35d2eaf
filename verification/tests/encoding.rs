use fql::codec::{encode, EncodeError, PathSeg, MAX_BLOB_LEN};
use fql::expr::{CalendarDate, Expr, Reference, Timestamp, Value};
use fql::query::datetime::{Epoch, EpochUnit};
use fql::query::logical::{And, Contains, Equals, Exists, Gt, Gte, Lt, Lte, Or};
use fql::query::Query;

fn text_of(e: &Expr) -> String {
    encode(e).unwrap()
}

#[test]
fn scalar_values_encode_canonically() {
    assert_eq!(text_of(&Expr::null()), "null");
    assert_eq!(text_of(&Expr::from(true)), "true");
    assert_eq!(text_of(&Expr::from(false)), "false");
    assert_eq!(text_of(&Expr::from(0i64)), "0");
    assert_eq!(text_of(&Expr::from(42i64)), "42");
    assert_eq!(text_of(&Expr::from(-7i64)), "-7");
    assert_eq!(text_of(&Expr::from(i64::MAX)), "9223372036854775807");
    assert_eq!(text_of(&Expr::from(i64::MIN)), "-9223372036854775808");
    assert_eq!(text_of(&Expr::string("musti")), "\"musti\"");
}

#[test]
fn strings_escape_quotes_backslashes_and_controls() {
    assert_eq!(text_of(&Expr::string("a\"b")), "\"a\\\"b\"");
    assert_eq!(text_of(&Expr::string("a\\b")), "\"a\\\\b\"");
    assert_eq!(text_of(&Expr::string("a\nb\tc\rd")), "\"a\\nb\\tc\\rd\"");
    assert_eq!(text_of(&Expr::string("a\u{08}b\u{0C}c")), "\"a\\bb\\fc\"");
    assert_eq!(text_of(&Expr::string("a\u{01}b\u{1F}c")), "\"a\\u0001b\\u001fc\"");
    // the escaped text still parses back to the original string
    let parsed: serde_json::Value =
        serde_json::from_str(&text_of(&Expr::string("q\"w\\e\n\u{02}"))).unwrap();
    assert_eq!(parsed, serde_json::Value::String("q\"w\\e\n\u{02}".to_string()));
}

#[test]
fn reserved_key_in_plain_object_is_wrapped() {
    // a caller-supplied mapping whose key collides with the query form "get"
    let m = vec![("get".to_string(), Expr::string("data"))];
    assert_eq!(text_of(&Expr::Obj(m)), "{\"object\":{\"get\":\"data\"}}");
}

#[test]
fn empty_object_and_array() {
    assert_eq!(text_of(&Expr::Obj(vec![])), "{\"object\":{}}");
    assert_eq!(text_of(&Expr::Arr(vec![])), "[]");
}

#[test]
fn object_keeps_entry_order() {
    let m = vec![
        ("b".to_string(), Expr::from(1i64)),
        ("a".to_string(), Expr::from(2i64)),
    ];
    assert_eq!(text_of(&Expr::Obj(m)), "{\"object\":{\"b\":1,\"a\":2}}");
}

#[test]
fn array_wraps_only_the_inner_object() {
    // an array holding a plain object holding a reserved key: the array is
    // not wrapped, the object is
    let inner = Expr::Obj(vec![("var".to_string(), Expr::from(1i64))]);
    let tree = Expr::Arr(vec![Expr::from(0i64), inner]);
    assert_eq!(text_of(&tree), "[0,{\"object\":{\"var\":1}}]");
}

#[test]
fn nested_objects_wrap_recursively() {
    let inner = Expr::Obj(vec![("get".to_string(), Expr::from(true))]);
    let outer = Expr::Obj(vec![("data".to_string(), inner)]);
    assert_eq!(
        text_of(&outer),
        "{\"object\":{\"data\":{\"object\":{\"get\":true}}}}"
    );
}

#[test]
fn binary_and_variadic_constructors_agree() {
    let binary = encode(&Expr::query(Query::from(And::new(
        Expr::from(true),
        Expr::from(false),
    ))))
    .unwrap();
    let variadic = encode(&Expr::query(Query::from(And::from(vec![
        Expr::from(true),
        Expr::from(false),
    ]))))
    .unwrap();
    assert_eq!(binary, "{\"and\":[true,false]}");
    assert_eq!(binary, variadic);

    let binary = encode(&Expr::query(Query::from(Or::new(
        Expr::from(1i64),
        Expr::from(2i64),
    ))))
    .unwrap();
    let variadic = encode(&Expr::query(Query::from(Or::from(vec![
        Expr::from(1i64),
        Expr::from(2i64),
    ]))))
    .unwrap();
    assert_eq!(binary, variadic);

    let binary = encode(&Expr::query(Query::from(Equals::new(
        Expr::string("a"),
        Expr::string("b"),
    ))))
    .unwrap();
    let variadic = encode(&Expr::query(Query::from(Equals::from(vec![
        Expr::string("a"),
        Expr::string("b"),
    ]))))
    .unwrap();
    assert_eq!(binary, variadic);

    let binary =
        encode(&Expr::query(Query::from(Lt::new(Expr::from(1i64), Expr::from(2i64))))).unwrap();
    let variadic = encode(&Expr::query(Query::from(Lt::from(vec![
        Expr::from(1i64),
        Expr::from(2i64),
    ]))))
    .unwrap();
    assert_eq!(binary, variadic);

    let binary =
        encode(&Expr::query(Query::from(Lte::new(Expr::from(1i64), Expr::from(2i64))))).unwrap();
    let variadic = encode(&Expr::query(Query::from(Lte::from(vec![
        Expr::from(1i64),
        Expr::from(2i64),
    ]))))
    .unwrap();
    assert_eq!(binary, variadic);

    let binary =
        encode(&Expr::query(Query::from(Gt::new(Expr::from(1i64), Expr::from(2i64))))).unwrap();
    let variadic = encode(&Expr::query(Query::from(Gt::from(vec![
        Expr::from(1i64),
        Expr::from(2i64),
    ]))))
    .unwrap();
    assert_eq!(binary, variadic);

    let binary =
        encode(&Expr::query(Query::from(Gte::new(Expr::from(1i64), Expr::from(2i64))))).unwrap();
    let variadic = encode(&Expr::query(Query::from(Gte::from(vec![
        Expr::from(1i64),
        Expr::from(2i64),
    ]))))
    .unwrap();
    assert_eq!(binary, variadic);
}

#[test]
fn reference_round_trip_and_rescoping() {
    let reference = Reference::instance("musti").in_class(Reference::instance("cats"));
    assert_eq!(
        text_of(&Expr::from(reference)),
        "{\"@ref\":{\"class\":{\"@ref\":{\"id\":\"cats\"}},\"id\":\"musti\"}}"
    );

    // re-scoping under a second class replaces the scope, never nests it
    let rescoped = Reference::instance("musti")
        .in_class(Reference::instance("cats"))
        .in_class(Reference::instance("dogs"));
    assert_eq!(
        text_of(&Expr::from(rescoped)),
        "{\"@ref\":{\"class\":{\"@ref\":{\"id\":\"dogs\"}},\"id\":\"musti\"}}"
    );
}

#[test]
fn reference_constructors_scope_under_builtin_collections() {
    assert_eq!(
        text_of(&Expr::from(Reference::class("cats"))),
        "{\"@ref\":{\"class\":{\"@ref\":{\"id\":\"classes\"}},\"id\":\"cats\"}}"
    );
    assert_eq!(
        text_of(&Expr::from(Reference::database("prod"))),
        "{\"@ref\":{\"class\":{\"@ref\":{\"id\":\"databases\"}},\"id\":\"prod\"}}"
    );
    assert_eq!(
        text_of(&Expr::from(Reference::index("by_name"))),
        "{\"@ref\":{\"class\":{\"@ref\":{\"id\":\"indexes\"}},\"id\":\"by_name\"}}"
    );
    assert_eq!(
        text_of(&Expr::from(Reference::function("fib"))),
        "{\"@ref\":{\"class\":{\"@ref\":{\"id\":\"functions\"}},\"id\":\"fib\"}}"
    );
    assert_eq!(
        text_of(&Expr::from(Reference::key("abc"))),
        "{\"@ref\":{\"class\":{\"@ref\":{\"id\":\"keys\"}},\"id\":\"abc\"}}"
    );
}

#[test]
fn reference_database_scope_encodes() {
    let reference = Reference::class("cats").in_database(Reference::instance("child"));
    assert_eq!(
        text_of(&Expr::from(reference)),
        "{\"@ref\":{\"class\":{\"@ref\":{\"id\":\"classes\"}},\
         \"database\":{\"@ref\":{\"id\":\"child\"}},\"id\":\"cats\"}}"
    );
}

#[test]
fn timestamp_at_epoch_plus_sixty_seconds() {
    let ts = Timestamp::new(60, 0).unwrap();
    assert_eq!(
        text_of(&Expr::from(ts)),
        "{\"@ts\":\"1970-01-01T00:01:00Z\"}"
    );
}

#[test]
fn timestamp_keeps_subsecond_precision() {
    let ts = Timestamp::new(0, 1_000_000).unwrap();
    assert_eq!(
        text_of(&Expr::from(ts)),
        "{\"@ts\":\"1970-01-01T00:00:00.001Z\"}"
    );
}

#[test]
fn timestamp_out_of_range_is_refused() {
    assert!(Timestamp::new(0, 1_000_000_000).is_none());
    assert!(Timestamp::new(i64::MAX, 0).is_none());
    assert!(Timestamp::new(i64::MIN, 0).is_none());
    assert!(Timestamp::new(253402300800, 0).is_none());
    assert!(Timestamp::new(253402300799, 999_999_999).is_some());
}

#[test]
fn date_encodes_fixed_width() {
    let d = CalendarDate::new(2023, 1, 5).unwrap();
    assert_eq!(text_of(&Expr::from(d)), "{\"@date\":\"2023-01-05\"}");
    let d = CalendarDate::new(70, 12, 31).unwrap();
    assert_eq!(text_of(&Expr::from(d)), "{\"@date\":\"0070-12-31\"}");
}

#[test]
fn date_out_of_range_is_refused() {
    assert!(CalendarDate::new(2023, 0, 5).is_none());
    assert!(CalendarDate::new(2023, 13, 5).is_none());
    assert!(CalendarDate::new(2023, 1, 0).is_none());
    assert!(CalendarDate::new(2023, 1, 32).is_none());
    assert!(CalendarDate::new(-1, 1, 1).is_none());
    assert!(CalendarDate::new(10000, 1, 1).is_none());
}

#[test]
fn bytes_encode_as_base64() {
    assert_eq!(
        text_of(&Expr::Val(Value::Bytes(vec![1, 2, 3]))),
        "{\"@bytes\":\"AQID\"}"
    );
    assert_eq!(
        text_of(&Expr::Val(Value::Bytes(vec![0]))),
        "{\"@bytes\":\"AA==\"}"
    );
    assert_eq!(
        text_of(&Expr::Val(Value::Bytes(vec![255, 255]))),
        "{\"@bytes\":\"//8=\"}"
    );
    assert_eq!(
        text_of(&Expr::Val(Value::Bytes(vec![]))),
        "{\"@bytes\":\"\"}"
    );
    assert_eq!(
        text_of(&Expr::Val(Value::Bytes(b"hello world".to_vec()))),
        "{\"@bytes\":\"aGVsbG8gd29ybGQ=\"}"
    );
}

#[test]
fn oversized_bytes_fail_closed() {
    let blob = vec![0u8; MAX_BLOB_LEN + 1];
    assert_eq!(
        encode(&Expr::Val(Value::Bytes(blob))),
        Err(EncodeError::OversizedBinary(vec![]))
    );
    // nested deep inside a tree, the whole encoding is refused, and the
    // error names the path to the blob at fault
    let nested = Expr::Arr(vec![Expr::from(1i64), Expr::Obj(vec![(
        "blob".to_string(),
        Expr::Val(Value::Bytes(vec![0u8; MAX_BLOB_LEN + 1])),
    )])]);
    assert_eq!(
        encode(&nested),
        Err(EncodeError::OversizedBinary(vec![
            PathSeg::Index(1),
            PathSeg::Key("blob".to_string()),
        ]))
    );
    // inside a query record, the path starts at the record's wire key
    let in_query = Expr::query(Query::from(And::new(
        Expr::from(true),
        Expr::Val(Value::Bytes(vec![0u8; MAX_BLOB_LEN + 1])),
    )));
    assert_eq!(
        encode(&in_query),
        Err(EncodeError::OversizedBinary(vec![
            PathSeg::Key("and".to_string()),
            PathSeg::Index(1),
        ]))
    );
    // at the ceiling itself, encoding succeeds
    let fitting = vec![0u8; MAX_BLOB_LEN];
    assert!(encode(&Expr::Val(Value::Bytes(fitting))).is_ok());
}

#[test]
fn reference_equality_is_structural() {
    let a = Reference::instance("musti").in_class(Reference::instance("cats"));
    let b = Reference::instance("musti").in_class(Reference::instance("cats"));
    assert!(a == b);
    let c = Reference::instance("musti").in_class(Reference::instance("dogs"));
    assert!(a != c);
    assert!(Reference::instance("musti") != a);
}

#[test]
fn epoch_units_have_wire_names() {
    for (unit, name) in [
        (EpochUnit::Second, "second"),
        (EpochUnit::Millisecond, "millisecond"),
        (EpochUnit::Microsecond, "microsecond"),
        (EpochUnit::Nanosecond, "nanosecond"),
    ] {
        let q = Query::from(Epoch::new(Expr::from(5i64), unit));
        assert_eq!(
            text_of(&Expr::query(q)),
            format!("{{\"epoch\":5,\"unit\":\"{}\"}}", name)
        );
    }
}

#[test]
fn contains_renames_the_in_field() {
    let q = Query::from(Contains::new(
        vec![Expr::string("favorites"), Expr::string("foods")],
        Expr::string("crunchings"),
    ));
    assert_eq!(
        text_of(&Expr::query(q)),
        "{\"contains\":[\"favorites\",\"foods\"],\"in\":\"crunchings\"}"
    );
}

#[test]
fn exists_omits_unset_timestamp() {
    let exists = Exists::new(Reference::instance("musti"));
    let without = text_of(&Expr::query(Query::from(exists)));
    assert_eq!(without, "{\"exists\":{\"@ref\":{\"id\":\"musti\"}}}");

    let mut exists = Exists::new(Reference::instance("musti"));
    exists.timestamp(Timestamp::new(60, 0).unwrap());
    let with = text_of(&Expr::query(Query::from(exists)));
    assert_eq!(
        with,
        "{\"exists\":{\"@ref\":{\"id\":\"musti\"}},\"ts\":{\"@ts\":\"1970-01-01T00:01:00Z\"}}"
    );
}

#[test]
fn distinct_arguments_encode_distinctly() {
    let a = text_of(&Expr::query(Query::from(And::from(vec![Expr::from(true)]))));
    let b = text_of(&Expr::query(Query::from(And::from(vec![Expr::from(false)]))));
    assert_ne!(a, b);
    let c = text_of(&Expr::query(Query::from(And::from(vec![]))));
    assert_eq!(c, "{\"and\":[]}");
    assert_ne!(a, c);
}

#[test]
fn nested_query_calls_encode_in_place() {
    let inner = Query::from(Lt::new(Expr::from(1i64), Expr::from(2i64)));
    let outer = Query::from(And::new(Expr::query(inner), Expr::from(true)));
    assert_eq!(
        text_of(&Expr::query(outer)),
        "{\"and\":[{\"lt\":[1,2]},true]}"
    );
}
