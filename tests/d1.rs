use worker_d1::codec::{decode_member, round_trip, Codec, CodecError};
use worker_d1::database::D1Database;
use worker_d1::error::Error;
use worker_d1::result::{decode_rows, D1Result};
use worker_d1::statement::D1PreparedStatement;
use worker_d1::value::{DynamicValue, Field};

fn text(s: &str) -> DynamicValue {
    DynamicValue::Text(s.to_string())
}

fn record(fields: Vec<(&str, DynamicValue)>) -> DynamicValue {
    DynamicValue::Record(
        fields
            .into_iter()
            .map(|(name, value)| Field { name: name.to_string(), value })
            .collect(),
    )
}

fn envelope(success: bool, error: Option<&str>, rows: Option<Vec<DynamicValue>>) -> DynamicValue {
    let mut fields = vec![("success", DynamicValue::Bool(success))];
    if let Some(e) = error {
        fields.push(("error", text(e)));
    }
    if let Some(r) = rows {
        fields.push(("results", DynamicValue::List(r)));
    }
    record(fields)
}

#[derive(Debug, PartialEq)]
struct User {
    id: i64,
    name: String,
}

fn user_from_row(row: &DynamicValue) -> Result<User, CodecError> {
    Ok(User { id: decode_member(row, "id")?, name: decode_member(row, "name")? })
}

fn is_decoding<T>(r: &Result<T, Error>) -> bool {
    matches!(r, Err(Error::Decoding(_)))
}

fn is_host<T>(r: &Result<T, Error>) -> bool {
    matches!(r, Err(Error::HostExecution(_)))
}

#[test]
fn scalars_round_trip() {
    assert_eq!(round_trip(&true).ok(), Some(true));
    assert_eq!(round_trip(&-7i64).ok(), Some(-7));
    assert_eq!(round_trip(&i64::MIN).ok(), Some(i64::MIN));
    assert_eq!(round_trip(&i32::MAX).ok(), Some(i32::MAX));
    assert_eq!(round_trip(&u32::MAX).ok(), Some(u32::MAX));
    assert_eq!(round_trip(&(i64::MAX as u64)).ok(), Some(i64::MAX as u64));
    assert_eq!(round_trip(&"Ann".to_string()).ok(), Some("Ann".to_string()));
    assert_eq!(round_trip(&Some(5i64)).ok(), Some(Some(5)));
    assert_eq!(round_trip(&None::<String>).ok(), Some(None));
}

#[test]
fn encodings_are_exact() {
    assert!(matches!(42i64.encode(), Ok(DynamicValue::Integer(42))));
    assert!(matches!(7u32.encode(), Ok(DynamicValue::Integer(7))));
    assert!(matches!(false.encode(), Ok(DynamicValue::Bool(false))));
    assert!(matches!("x".to_string().encode(), Ok(DynamicValue::Text(ref s)) if s == "x"));
    assert!(matches!(None::<i64>.encode(), Ok(DynamicValue::Null)));
}

#[test]
fn unrepresentable_values_fail_to_encode() {
    assert!(matches!(u64::MAX.encode(), Err(CodecError::Encoding(_))));
    assert!(matches!((i64::MAX as u64 + 1).encode(), Err(CodecError::Encoding(_))));
    assert!(matches!(Some(None::<i64>).encode(), Err(CodecError::Encoding(_))));
}

#[test]
fn shape_mismatches_fail_to_decode() {
    assert!(matches!(i64::decode(&text("1")), Err(CodecError::Decoding(_))));
    assert!(matches!(bool::decode(&DynamicValue::Integer(1)), Err(CodecError::Decoding(_))));
    assert!(matches!(String::decode(&DynamicValue::Null), Err(CodecError::Decoding(_))));
    assert!(matches!(i32::decode(&DynamicValue::Integer(1 << 40)), Err(CodecError::Decoding(_))));
    assert!(matches!(u32::decode(&DynamicValue::Integer(-1)), Err(CodecError::Decoding(_))));
    assert!(matches!(u64::decode(&DynamicValue::Integer(-1)), Err(CodecError::Decoding(_))));
    assert!(matches!(Option::<i64>::decode(&text("a")), Err(CodecError::Decoding(_))));
    assert!(matches!(Option::<i64>::decode(&DynamicValue::Integer(3)), Ok(Some(3))));
}

#[test]
fn members_are_found_by_name() {
    let row = record(vec![("a", DynamicValue::Integer(1)), ("b", text("x")), ("a", DynamicValue::Integer(2))]);
    assert!(matches!(row.get("a"), Some(DynamicValue::Integer(2))));
    assert!(matches!(row.get("b"), Some(DynamicValue::Text(s)) if s == "x"));
    assert!(row.get("c").is_none());
    assert!(DynamicValue::Integer(1).get("a").is_none());
    assert_eq!(decode_member::<Option<i64>>(&row, "c").ok(), Some(None));
    assert!(matches!(decode_member::<i64>(&row, "c"), Err(CodecError::Decoding(_))));
}

#[test]
fn bind_leaves_the_receiver_unchanged() {
    let db = D1Database::new("DB");
    let stmt = db.prepare("SELECT * FROM t WHERE a = ?1 AND b = ?2");
    assert_eq!(stmt.param_count(), 0);
    let one = stmt.bind(&1i64).ok().unwrap();
    let other = stmt.bind(&"x".to_string()).ok().unwrap();
    assert_eq!(stmt.param_count(), 0);
    assert_eq!(stmt.query(), "SELECT * FROM t WHERE a = ?1 AND b = ?2");
    assert_eq!(one.param_count(), 1);
    assert!(matches!(one.param(0), DynamicValue::Integer(1)));
    assert!(matches!(other.param(0), DynamicValue::Text(s) if s == "x"));
    let two = one.bind(&true).ok().unwrap();
    assert_eq!(one.param_count(), 1);
    assert_eq!(two.param_count(), 2);
    assert!(matches!(two.param(0), DynamicValue::Integer(1)));
    assert!(matches!(two.param(1), DynamicValue::Bool(true)));
    assert_eq!(two.query(), stmt.query());
}

#[test]
fn bind_rejects_unencodable_parameters() {
    let stmt = D1PreparedStatement::new("SELECT ?1");
    assert!(matches!(stmt.bind(&u64::MAX), Err(Error::ParameterEncoding(_))));
    assert_eq!(stmt.param_count(), 0);
}

#[test]
fn first_of_no_rows() {
    let stmt = D1PreparedStatement::new("SELECT x FROM empty");
    assert!(is_decoding(&stmt.first::<i64>(&DynamicValue::Null)));
    assert_eq!(stmt.first::<Option<i64>>(&DynamicValue::Null).ok(), Some(None));
}

#[test]
fn first_user_by_id() {
    let db = D1Database::new("DB");
    let stmt = db.prepare("SELECT id, name FROM users WHERE id = ?1").bind(&42i64).ok().unwrap();
    assert!(matches!(stmt.param(0), DynamicValue::Integer(42)));
    let reply = record(vec![("id", DynamicValue::Integer(42)), ("name", text("Ann"))]);
    assert_eq!(stmt.first::<i64>(reply.get("id").unwrap()).ok(), Some(42));
    assert_eq!(user_from_row(&reply).ok(), Some(User { id: 42, name: "Ann".to_string() }));
}

#[test]
fn results_without_rows_are_empty() {
    let e = D1Result::new(true, None, None);
    assert_eq!(e.results::<i64>().ok().map(|v| v.len()), Some(0));
    assert_eq!(e.results::<String>().ok().map(|v| v.len()), Some(0));
    assert!(e.success());
    assert_eq!(e.error(), None);
}

#[test]
fn results_decode_every_row() {
    let e = D1Result::new(true, None, Some(vec![DynamicValue::Integer(3), DynamicValue::Integer(1)]));
    assert_eq!(e.results::<i64>().ok(), Some(vec![3, 1]));
    let bad = D1Result::new(true, None, Some(vec![DynamicValue::Integer(3), text("x")]));
    assert!(is_decoding(&bad.results::<i64>()));
    assert!(is_decoding(&decode_rows::<bool>(&vec![DynamicValue::Integer(0)])));
    assert_eq!(decode_rows::<bool>(&vec![]).ok().map(|v| v.len()), Some(0));
}

#[test]
fn envelopes_are_read_from_replies() {
    let stmt = D1PreparedStatement::new("SELECT 1");
    let e = stmt.all(envelope(true, None, Some(vec![DynamicValue::Integer(1)]))).ok().unwrap();
    assert!(e.success());
    assert_eq!(e.results::<i64>().ok(), Some(vec![1]));
    let e = stmt.run(record(vec![("success", DynamicValue::Bool(false)), ("error", text("boom")), ("results", DynamicValue::Null)])).ok().unwrap();
    assert!(!e.success());
    assert_eq!(e.error(), Some("boom".to_string()));
    assert_eq!(e.results::<i64>().ok().map(|v| v.len()), Some(0));
    assert!(is_host(&stmt.run(DynamicValue::Null)));
    assert!(is_host(&stmt.run(record(vec![("error", text("no flag"))]))));
    assert!(is_host(&stmt.run(record(vec![("success", DynamicValue::Integer(1))]))));
    assert!(is_host(&stmt.run(record(vec![("success", DynamicValue::Bool(true)), ("error", DynamicValue::Integer(1))]))));
    assert!(is_host(&stmt.all(record(vec![("success", DynamicValue::Bool(true)), ("results", text("rows"))]))));
}

#[test]
fn raw_rows() {
    let stmt = D1PreparedStatement::new("SELECT x FROM t");
    let reply = DynamicValue::List(vec![DynamicValue::Integer(5), DynamicValue::Integer(6)]);
    assert_eq!(stmt.raw::<i64>(&reply).ok(), Some(vec![5, 6]));
    assert!(is_decoding(&stmt.raw::<String>(&reply)));
    assert!(is_host(&stmt.raw::<i64>(&DynamicValue::Integer(5))));
}

#[test]
fn batch_keeps_order() {
    let db = D1Database::new("DB");
    let stmts = vec![db.prepare("SELECT 1"), db.prepare("SELECT 2"), db.prepare("SELECT 3")];
    let reply = DynamicValue::List(vec![
        envelope(true, None, Some(vec![DynamicValue::Integer(1)])),
        envelope(true, None, Some(vec![DynamicValue::Integer(2)])),
        envelope(true, None, Some(vec![DynamicValue::Integer(3)])),
    ]);
    let out = db.batch(&stmts, reply).ok().unwrap();
    assert_eq!(out.len(), 3);
    for (i, e) in out.iter().enumerate() {
        assert_eq!(e.results::<i64>().ok(), Some(vec![i as i64 + 1]));
    }
}

#[test]
fn batch_with_constraint_violation() {
    let db = D1Database::new("DB");
    let stmts = vec![
        db.prepare("INSERT INTO u(id) VALUES (1)"),
        db.prepare("INSERT INTO u(id) VALUES (1)"),
    ];
    let reply = DynamicValue::List(vec![
        envelope(true, None, None),
        envelope(false, Some("UNIQUE constraint failed: u.id"), None),
    ]);
    let out = db.batch(&stmts, reply).ok().unwrap();
    assert!(out[0].success());
    assert_eq!(out[0].error(), None);
    assert!(!out[1].success());
    assert!(!out[1].error().unwrap().is_empty());
}

#[test]
fn batch_reply_must_match_statements() {
    let db = D1Database::new("DB");
    let stmts = vec![db.prepare("SELECT 1"), db.prepare("SELECT 2")];
    assert!(is_host(&db.batch(&stmts, DynamicValue::List(vec![envelope(true, None, None)]))));
    assert!(is_host(&db.batch(&stmts, DynamicValue::Null)));
    assert!(is_host(&db.batch(&stmts, DynamicValue::List(vec![envelope(true, None, None), text("x")]))));
    assert_eq!(db.batch(&vec![], DynamicValue::List(vec![])).ok().map(|v| v.len()), Some(0));
}

#[test]
fn exec_script() {
    let db = D1Database::new("DB");
    let r = db.exec(&record(vec![("count", DynamicValue::Integer(2))])).ok().unwrap();
    assert_eq!(r.count(), Some(2));
    let r = db.exec(&record(vec![])).ok().unwrap();
    assert_eq!(r.count(), None);
    assert!(is_host(&db.exec(&record(vec![("count", DynamicValue::Integer(-1))]))));
    assert!(is_host(&db.exec(&DynamicValue::Integer(2))));
}

#[test]
fn dump_hands_the_snapshot_over() {
    let db = D1Database::new("DB");
    assert_eq!(db.binding(), "DB");
    let snapshot = vec![0x53u8, 0x51, 0x4c, 0x69, 0x74, 0x65];
    assert_eq!(db.dump(DynamicValue::Bytes(snapshot.clone())).ok(), Some(snapshot));
    assert!(is_host(&db.dump(DynamicValue::List(vec![]))));
}

#[test]
fn error_messages() {
    assert_eq!(Error::Decoding("bad".to_string()).message(), "bad");
    assert_eq!(Error::BindRejected("arity".to_string()).message(), "arity");
    assert!(Error::malformed("x").message().ends_with("x"));
}
