//! Round trips of every value variant through the engine, binding-state
//! scenarios (reset, cleared bindings, stepping past the end), row
//! materialization, and the encoder against manual binds.

use sqlite_bind::cursor::Cursor;
use sqlite_bind::database::Database;
use sqlite_bind::encdec::BindEncoder;
use sqlite_bind::encdec::SqlEncodable;
use sqlite_bind::types::BindArg;
use sqlite_bind::types::ColumnType;
use sqlite_bind::types::ResultStep;

fn scratch(schema: &str) -> Database {
    let mut db = Database::new(":memory:").unwrap();
    db.exec(schema).unwrap();
    db
}

fn insert_one(db: &Database, value: BindArg) {
    let mut ins = db.prepare("INSERT INTO t (v) VALUES (?)").unwrap();
    ins.bind_param(1, &value).unwrap();
    assert_eq!(ins.step(), Ok(ResultStep::SQLITE_DONE));
}

#[test]
fn value_roundtrip_integer() {
    let db = scratch("CREATE TABLE t (v)");
    insert_one(&db, BindArg::Integer(-42));
    let mut q = db.prepare("SELECT v FROM t").unwrap();
    assert_eq!(q.step(), Ok(ResultStep::SQLITE_ROW));
    assert_eq!(q.get_column_type(0), Ok(ColumnType::SQLITE_INTEGER));
    assert_eq!(q.get_int(0), Ok(-42));
}

#[test]
fn value_roundtrip_integer64() {
    let db = scratch("CREATE TABLE t (v)");
    insert_one(&db, BindArg::Integer64(0x1234_5678_9abc_def0));
    let mut q = db.prepare("SELECT v FROM t").unwrap();
    assert_eq!(q.step(), Ok(ResultStep::SQLITE_ROW));
    assert_eq!(q.get_i64(0), Ok(0x1234_5678_9abc_def0));
}

#[test]
fn value_roundtrip_float() {
    let db = scratch("CREATE TABLE t (v)");
    let x: f64 = -1234.5625;
    insert_one(&db, BindArg::Float64(x.to_bits()));
    let mut q = db.prepare("SELECT v FROM t").unwrap();
    assert_eq!(q.step(), Ok(ResultStep::SQLITE_ROW));
    assert_eq!(q.get_column_type(0), Ok(ColumnType::SQLITE_FLOAT));
    let bits = q.get_f64(0).unwrap();
    assert_eq!(f64::from_bits(bits), x);
    assert_eq!(bits, x.to_bits());
}

#[test]
fn value_roundtrip_text() {
    let db = scratch("CREATE TABLE t (v)");
    insert_one(&db, BindArg::Text("grüße, мир — †".to_string()));
    let mut q = db.prepare("SELECT v FROM t").unwrap();
    assert_eq!(q.step(), Ok(ResultStep::SQLITE_ROW));
    assert_eq!(q.get_column_type(0), Ok(ColumnType::SQLITE_TEXT));
    assert_eq!(q.get_text(0), Ok("grüße, мир — †".to_string()));
}

#[test]
fn value_roundtrip_static_text() {
    let db = scratch("CREATE TABLE t (v)");
    insert_one(&db, BindArg::StaticText("static words"));
    let mut q = db.prepare("SELECT v FROM t").unwrap();
    assert_eq!(q.step(), Ok(ResultStep::SQLITE_ROW));
    assert_eq!(q.get_text(0), Ok("static words".to_string()));
}

#[test]
fn value_roundtrip_blob() {
    let db = scratch("CREATE TABLE t (v)");
    let bytes: Vec<u8> = vec![0, 1, 2, 253, 254, 255, 0, 42];
    insert_one(&db, BindArg::Blob(bytes.clone()));
    let mut q = db.prepare("SELECT v FROM t").unwrap();
    assert_eq!(q.step(), Ok(ResultStep::SQLITE_ROW));
    assert_eq!(q.get_column_type(0), Ok(ColumnType::SQLITE_BLOB));
    assert_eq!(q.get_blob(0), Ok(bytes.clone()));
    assert_eq!(q.get_bytes(0), Ok(bytes.len()));
}

#[test]
fn value_roundtrip_null() {
    let db = scratch("CREATE TABLE t (v)");
    insert_one(&db, BindArg::Null);
    let mut q = db.prepare("SELECT v FROM t").unwrap();
    assert_eq!(q.step(), Ok(ResultStep::SQLITE_ROW));
    assert_eq!(q.get_column_type(0), Ok(ColumnType::SQLITE_NULL));
    assert_eq!(q.get_text_opt(0), Ok(None));
    assert_eq!(q.get_text(0), Ok(String::new()));
}

/// The owned-copy paths stay intact after the host buffers are gone:
/// long unicode strings and blobs are built in a scope, bound, dropped,
/// and only then read back.
#[test]
fn owned_copy_survives_buffer_drop() {
    let db = scratch("CREATE TABLE t (a, b)");
    let long_text_check: String;
    let blob_check: Vec<u8>;
    {
        let mut long_text = String::new();
        for i in 0..2000 {
            long_text.push_str("œrevärlig-мир-");
            long_text.push_str(&i.to_string());
        }
        let mut blob: Vec<u8> = Vec::new();
        for i in 0..100_000 {
            blob.push((i % 251) as u8);
        }
        long_text_check = long_text.clone();
        blob_check = blob.clone();
        let mut ins = db.prepare("INSERT INTO t (a, b) VALUES (?, ?)").unwrap();
        ins.bind_param(1, &BindArg::Text(long_text)).unwrap();
        ins.bind_param(2, &BindArg::Blob(blob)).unwrap();
        assert_eq!(ins.step(), Ok(ResultStep::SQLITE_DONE));
        // the cursor and every host-side buffer die here
    }
    let mut q = db.prepare("SELECT a, b FROM t").unwrap();
    assert_eq!(q.step(), Ok(ResultStep::SQLITE_ROW));
    assert_eq!(q.get_text(0), Ok(long_text_check));
    assert_eq!(q.get_blob(1), Ok(blob_check));
}

/// N inserted rows come back as exactly N rows, in insertion order, when
/// no ORDER BY is given.
#[test]
fn insertion_order_kept() {
    let db = scratch("CREATE TABLE t (v)");
    let mut ins = db.prepare("INSERT INTO t (v) VALUES (?)").unwrap();
    for i in 0..7isize {
        ins.reset().unwrap();
        ins.bind_param(1, &BindArg::Integer(i * 10)).unwrap();
        assert_eq!(ins.step(), Ok(ResultStep::SQLITE_DONE));
    }
    let mut q = db.prepare("SELECT v FROM t").unwrap();
    for i in 0..7isize {
        assert_eq!(q.step(), Ok(ResultStep::SQLITE_ROW));
        assert_eq!(q.get_int(0), Ok(i * 10));
    }
    assert_eq!(q.step(), Ok(ResultStep::SQLITE_DONE));
}

/// Stepping past the last row reports done; stepping again without a reset
/// never yields a row phantom of the old results — this engine restarts the
/// query from the top (its documented automatic reset), so the first row
/// appears again rather than an error.
#[test]
fn step_after_done() {
    let db = scratch("CREATE TABLE t (v)");
    insert_one(&db, BindArg::Integer(5));
    let mut q = db.prepare("SELECT v FROM t").unwrap();
    assert_eq!(q.step(), Ok(ResultStep::SQLITE_ROW));
    assert_eq!(q.step(), Ok(ResultStep::SQLITE_DONE));
    let again = q.step();
    assert_eq!(again, Ok(ResultStep::SQLITE_ROW));
    assert_eq!(q.get_int(0), Ok(5));
}

/// Bindings survive a reset: stepping the same insert twice with one bind
/// writes the same values twice. Clearing the bindings after a reset makes
/// the next step see nulls.
#[test]
fn reset_keeps_bindings_clear_wipes_them() {
    let db = scratch("CREATE TABLE t (a, b)");
    let mut ins = db.prepare("INSERT INTO t (a, b) VALUES (?, ?)").unwrap();
    ins.bind_params(&[BindArg::Integer(7), BindArg::Text("seven".to_string())])
        .unwrap();
    assert_eq!(ins.step(), Ok(ResultStep::SQLITE_DONE));
    ins.reset().unwrap();
    assert_eq!(ins.step(), Ok(ResultStep::SQLITE_DONE));
    ins.reset().unwrap();
    ins.clear_bindings().unwrap();
    assert_eq!(ins.step(), Ok(ResultStep::SQLITE_DONE));

    let mut q = db.prepare("SELECT a, b FROM t").unwrap();
    for _ in 0..2 {
        assert_eq!(q.step(), Ok(ResultStep::SQLITE_ROW));
        assert_eq!(q.get_int(0), Ok(7));
        assert_eq!(q.get_text(1), Ok("seven".to_string()));
    }
    assert_eq!(q.step(), Ok(ResultStep::SQLITE_ROW));
    assert_eq!(q.get_column_type(0), Ok(ColumnType::SQLITE_NULL));
    assert_eq!(q.get_column_type(1), Ok(ColumnType::SQLITE_NULL));
    assert_eq!(q.step(), Ok(ResultStep::SQLITE_DONE));
}

/// Row materialization produces exactly the column names as keys, with the
/// values the typed getters see for the same row.
#[test]
fn step_row_matches_getters() {
    let mut db = Database::new(":memory:").unwrap();
    db.exec("CREATE TABLE test (id int, name text, address text)")
        .unwrap();
    db.exec("INSERT INTO test (id, name, address) VALUES (1, 'John Doe', '123 w Pine')")
        .unwrap();

    let mut q = db.prepare("SELECT id, name, address FROM test").unwrap();
    assert_eq!(q.step(), Ok(ResultStep::SQLITE_ROW));
    let id = q.get_int(0).unwrap();
    let name = q.get_text(1).unwrap();
    let address = q.get_text(2).unwrap();
    q.reset().unwrap();

    let row = q.step_row().unwrap().expect("one row");
    assert_eq!(row.len(), 3);
    assert!(row.contains_key("id"));
    assert!(row.contains_key("name"));
    assert!(row.contains_key("address"));
    assert!(!row.contains_key("no_such_column"));
    assert_eq!(row.get("id"), Some(&BindArg::Integer(id)));
    assert_eq!(row.get("name"), Some(&BindArg::Text(name)));
    assert_eq!(row.get("address"), Some(&BindArg::Text(address)));

    assert!(q.step_row().unwrap().is_none());
}

/// Materializing a row whose columns share a name is surfaced as an error
/// rather than silently dropping a cell.
#[test]
fn step_row_duplicate_column_fails() {
    let db = scratch("CREATE TABLE t (v)");
    insert_one(&db, BindArg::Integer(1));
    let mut q = db.prepare("SELECT v AS x, v AS x FROM t").unwrap();
    assert!(q.step_row().is_err());
}

/// The full example scenario: two rows, read back in order, with the
/// change count checked after the second insert.
#[test]
fn example_scenario() {
    let mut db = Database::new(":memory:").unwrap();
    db.exec("CREATE TABLE test (id int, name text, address text)")
        .unwrap();
    {
        let mut ins = db
            .prepare("INSERT INTO test (id, name, address) VALUES (?, ?, ?)")
            .unwrap();
        ins.bind_params(&[
            BindArg::Integer(1),
            BindArg::Text("John Doe".to_string()),
            BindArg::Text("123 w Pine".to_string()),
        ])
        .unwrap();
        assert_eq!(ins.step(), Ok(ResultStep::SQLITE_DONE));
        ins.reset().unwrap();
        ins.bind_params(&[
            BindArg::Integer(2),
            BindArg::Text("Jane Doe".to_string()),
            BindArg::Text("345 e Walnut".to_string()),
        ])
        .unwrap();
        assert_eq!(ins.step(), Ok(ResultStep::SQLITE_DONE));
        assert_eq!(db.get_changes(), 1);
        assert_eq!(db.get_last_insert_rowid(), Ok(2));
    }
    let mut q = db.prepare("select * from test order by id").unwrap();
    assert_eq!(q.step(), Ok(ResultStep::SQLITE_ROW));
    assert_eq!(q.get_int(0), Ok(1));
    assert_eq!(q.get_text(1), Ok("John Doe".to_string()));
    assert_eq!(q.step(), Ok(ResultStep::SQLITE_ROW));
    assert_eq!(q.get_int(0), Ok(2));
    assert_eq!(q.get_text(2), Ok("345 e Walnut".to_string()));
}

fn read_all_rows(db: &Database, sql: &str) -> Vec<(isize, String, String)> {
    let mut q = db.prepare(sql).unwrap();
    let mut out = Vec::new();
    while q.step() == Ok(ResultStep::SQLITE_ROW) {
        out.push((
            q.get_int(0).unwrap(),
            q.get_text(1).unwrap(),
            q.get_text(2).unwrap(),
        ));
    }
    out
}

/// Encoding a tuple through the generic value encoder binds parameters
/// 1, 2 and 3 exactly as a manual ordered bind of the same values does.
#[test]
fn encoder_matches_manual_binding() {
    let mut db = Database::new(":memory:").unwrap();
    db.exec("CREATE TABLE a (id int, name text, address text)")
        .unwrap();
    db.exec("CREATE TABLE b (id int, name text, address text)")
        .unwrap();

    {
        let mut ins = db
            .prepare("INSERT INTO a (id, name, address) VALUES (?, ?, ?)")
            .unwrap();
        {
            let mut enc = BindEncoder::new(&mut ins);
            (1isize, "John Doe", "123 w Pine").encode(&mut enc).unwrap();
        }
        assert_eq!(ins.step(), Ok(ResultStep::SQLITE_DONE));
    }
    {
        let mut ins = db
            .prepare("INSERT INTO b (id, name, address) VALUES (?, ?, ?)")
            .unwrap();
        ins.bind_params(&[
            BindArg::Integer(1),
            BindArg::Text("John Doe".to_string()),
            BindArg::Text("123 w Pine".to_string()),
        ])
        .unwrap();
        assert_eq!(ins.step(), Ok(ResultStep::SQLITE_DONE));
    }

    let via_encoder = read_all_rows(&db, "SELECT id, name, address FROM a");
    let via_binds = read_all_rows(&db, "SELECT id, name, address FROM b");
    assert_eq!(
        via_encoder,
        vec![(1isize, "John Doe".to_string(), "123 w Pine".to_string())]
    );
    assert_eq!(via_encoder, via_binds);
}

/// Encoding a second record into the same cursor implicitly resets it: the
/// counter returns to zero at the record boundary.
#[test]
fn encoder_two_records() {
    let mut db = Database::new(":memory:").unwrap();
    db.exec("CREATE TABLE t (a, b)").unwrap();
    let mut ins = db.prepare("INSERT INTO t (a, b) VALUES (?, ?)").unwrap();
    {
        let mut enc = BindEncoder::new(&mut ins);
        (10isize, "x").encode(&mut enc).unwrap();
        enc.step().unwrap();
        (20isize, "y").encode(&mut enc).unwrap();
        enc.step().unwrap();
    }
    let mut q = db.prepare("SELECT a, b FROM t").unwrap();
    assert_eq!(q.step(), Ok(ResultStep::SQLITE_ROW));
    assert_eq!(q.get_int(0), Ok(10));
    assert_eq!(q.get_text(1), Ok("x".to_string()));
    assert_eq!(q.step(), Ok(ResultStep::SQLITE_ROW));
    assert_eq!(q.get_int(0), Ok(20));
    assert_eq!(q.get_text(1), Ok("y".to_string()));
}

/// Scalar emits fold as documented: booleans to 0/1 integers, options to
/// their value or null, characters to one-character text.
#[test]
fn encoder_scalar_foldings() {
    let mut db = Database::new(":memory:").unwrap();
    db.exec("CREATE TABLE t (a, b, c, d)").unwrap();
    let mut ins = db
        .prepare("INSERT INTO t (a, b, c, d) VALUES (?, ?, ?, ?)")
        .unwrap();
    {
        let mut enc = BindEncoder::new(&mut ins);
        enc.emit_tuple(4);
        enc.emit_bool(true).unwrap();
        enc.emit_char('Ω').unwrap();
        let missing: Option<isize> = None;
        missing.encode(&mut enc).unwrap();
        enc.emit_u8(255).unwrap();
        enc.step().unwrap();
    }
    let mut q = db.prepare("SELECT a, b, c, d FROM t").unwrap();
    assert_eq!(q.step(), Ok(ResultStep::SQLITE_ROW));
    assert_eq!(q.get_int(0), Ok(1));
    assert_eq!(q.get_text(1), Ok("Ω".to_string()));
    assert_eq!(q.get_column_type(2), Ok(ColumnType::SQLITE_NULL));
    assert_eq!(q.get_int(3), Ok(255));
}

/// An empty string cell is a text cell, not a null cell: the optional
/// reader keeps the two apart where the plain reader collapses them.
#[test]
fn empty_text_vs_null() {
    let db = scratch("CREATE TABLE t (v)");
    insert_one(&db, BindArg::Text(String::new()));
    insert_one(&db, BindArg::Null);
    let mut q = db.prepare("SELECT v FROM t").unwrap();
    assert_eq!(q.step(), Ok(ResultStep::SQLITE_ROW));
    assert_eq!(q.get_column_type(0), Ok(ColumnType::SQLITE_TEXT));
    assert_eq!(q.get_text(0), Ok(String::new()));
    assert_eq!(q.get_text_opt(0), Ok(Some(String::new())));
    assert_eq!(q.step(), Ok(ResultStep::SQLITE_ROW));
    assert_eq!(q.get_column_type(0), Ok(ColumnType::SQLITE_NULL));
    assert_eq!(q.get_text(0), Ok(String::new()));
    assert_eq!(q.get_text_opt(0), Ok(None));
}

/// Binding an empty vector binds nothing and succeeds.
#[test]
fn bind_params_empty() {
    let db = scratch("CREATE TABLE t (v)");
    let mut q = db.prepare("SELECT v FROM t").unwrap();
    assert_eq!(q.bind_params(&[]), Ok(()));
    assert_eq!(q.step(), Ok(ResultStep::SQLITE_DONE));
}

/// The remaining scalar emits fold exactly as documented, across the
/// narrow integer widths and the float bit pattern.
#[test]
fn encoder_narrow_scalars() {
    let mut db = Database::new(":memory:").unwrap();
    db.exec("CREATE TABLE t (a, b, c, d, e, f)").unwrap();
    let mut ins = db
        .prepare("INSERT INTO t (a, b, c, d, e, f) VALUES (?, ?, ?, ?, ?, ?)")
        .unwrap();
    {
        let mut enc = BindEncoder::new(&mut ins);
        enc.emit_tuple(6);
        enc.emit_i8(-5).unwrap();
        enc.emit_i16(-300).unwrap();
        enc.emit_u16(65535).unwrap();
        enc.emit_i32(-70000).unwrap();
        enc.emit_uint(123).unwrap();
        let x: f64 = 2.5;
        enc.emit_f64(x.to_bits()).unwrap();
        enc.step().unwrap();
    }
    let mut q = db.prepare("SELECT a, b, c, d, e, f FROM t").unwrap();
    assert_eq!(q.step(), Ok(ResultStep::SQLITE_ROW));
    assert_eq!(q.get_int(0), Ok(-5));
    assert_eq!(q.get_int(1), Ok(-300));
    assert_eq!(q.get_int(2), Ok(65535));
    assert_eq!(q.get_int(3), Ok(-70000));
    assert_eq!(q.get_int(4), Ok(123));
    assert_eq!(f64::from_bits(q.get_f64(5).unwrap()), 2.5);
}

/// A NaN float parameter is stored by the engine as null, exactly as the
/// binding model says.
#[test]
fn nan_float_stored_as_null() {
    let db = scratch("CREATE TABLE t (v)");
    insert_one(&db, BindArg::Float64(f64::NAN.to_bits()));
    let mut q = db.prepare("SELECT v FROM t").unwrap();
    assert_eq!(q.step(), Ok(ResultStep::SQLITE_ROW));
    assert_eq!(q.get_column_type(0), Ok(ColumnType::SQLITE_NULL));
    assert_eq!(q.get_text_opt(0), Ok(None));
}
