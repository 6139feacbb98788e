use sqlite_stmt::{
    Call, Double, Error, Reply, Row, Rows, SqliteCon, SqliteTypes, Stepped, Stmt, StmtState, Turn,
    Value,
};

const OK: i32 = libsqlite3_sys::SQLITE_OK;
const ROW: i32 = libsqlite3_sys::SQLITE_ROW;
const DONE: i32 = libsqlite3_sys::SQLITE_DONE;
const ERROR: i32 = libsqlite3_sys::SQLITE_ERROR;
const RANGE: i32 = libsqlite3_sys::SQLITE_RANGE;

/// Runs an operation to its end against the replies of a script, and
/// gives the calls it asked for, written out, and what it came to.
fn run<T>(script: Vec<Reply>, mut op: impl FnMut(&[Reply]) -> Turn<T>) -> (Vec<String>, Result<T, Error>) {
    let mut script = script.into_iter();
    let mut given: Vec<Reply> = Vec::new();
    let mut asked: Vec<String> = Vec::new();
    loop {
        match op(&given) {
            Turn::Ask(call) => {
                asked.push(format!("{:?}", call));
                given.push(script.next().expect("the operation asked for more than the script holds"));
            }
            Turn::Done(t) => return (asked, Ok(t)),
            Turn::Failed(e) => return (asked, Err(e)),
        }
    }
}

fn text(s: &str) -> Reply {
    Reply::Text(s.to_string())
}

fn open() -> SqliteCon {
    run(vec![Reply::Int(OK)], |r| SqliteCon::new("test_db", r)).1.unwrap()
}

fn prepared<'a>(con: &'a SqliteCon, columns: &[&str]) -> Stmt<'a> {
    let mut stmt = Stmt::init(con);
    let mut script = vec![Reply::Int(OK), Reply::Int(columns.len() as i32)];
    for c in columns {
        script.push(text(c));
    }
    run(script, |r| stmt.prepare("SELECT * FROM user", r)).1.unwrap();
    stmt
}

fn on_a_row<'a>(con: &'a SqliteCon, columns: &[&str]) -> Stmt<'a> {
    let mut stmt = prepared(con, columns);
    assert_eq!(run(vec![Reply::Int(ROW)], |r| stmt.step(r)).1.unwrap(), Stepped::Row);
    stmt
}

#[test]
fn opening_asks_for_a_read_write_database_created_if_absent() {
    let (asked, con) = run(vec![Reply::Int(OK)], |r| SqliteCon::new("test_db", r));
    assert_eq!(asked, vec![format!("{:?}", Call::Open { path: "test_db".to_string(), flags: 6 })]);
    assert_eq!(
        libsqlite3_sys::SQLITE_OPEN_READWRITE | libsqlite3_sys::SQLITE_OPEN_CREATE,
        6
    );
    assert!(!con.unwrap().is_null());
}

#[test]
fn a_path_with_a_nul_is_not_opened() {
    let (asked, con) = run(vec![], |r| SqliteCon::new("test\0db", r));
    assert!(asked.is_empty());
    match con {
        Err(Error::ConnectionErr(m)) => assert_eq!(m, "Failed to parse path"),
        _ => panic!("the path was taken"),
    }
}

#[test]
fn a_refused_opening_closes_the_handle_and_fails() {
    let (asked, con) = run(vec![Reply::Int(14), Reply::Int(OK)], |r| SqliteCon::new("/no/such/dir/db", r));
    assert_eq!(asked.len(), 2);
    assert_eq!(asked[1], "Close");
    match con {
        Err(Error::ConnectionErr(m)) => assert_eq!(m, "Failed to open database"),
        _ => panic!("the opening went through"),
    }
}

#[test]
fn a_connection_reports_what_the_engine_says() {
    let con = open();
    let (asked, m) = run(vec![text("no such table: user")], |r| con.get_last_error(1, r));
    assert_eq!(asked, vec!["ErrMsg"]);
    assert_eq!(m.unwrap(), "no such table: user");
    assert_eq!(run(vec![Reply::Null], |r| con.get_last_error(1, r)).1.unwrap(), "");
    let (asked, n) = run(vec![Reply::Int(3)], |r| con.affected_rows(r));
    assert_eq!(asked, vec!["Changes"]);
    assert_eq!(n.unwrap(), 3);
    let (asked, id) = run(vec![Reply::Int64(17)], |r| con.last_insert_id(r));
    assert_eq!(asked, vec!["LastInsertRowid"]);
    assert_eq!(id.unwrap(), 17);
    assert_eq!(run(vec![Reply::Int64(-1)], |r| con.last_insert_id(r)).1.unwrap(), u64::MAX);
    assert_eq!(format!("{:?}", con.close()), "Close");
}

#[test]
fn preparing_reads_the_column_names() {
    let con = open();
    let mut stmt = Stmt::init(&con);
    let script = vec![Reply::Int(OK), Reply::Int(2), text("id"), text("name")];
    let (asked, r) = run(script, |r| stmt.prepare("SELECT * FROM user", r));
    r.unwrap();
    assert_eq!(
        asked,
        vec![
            format!("{:?}", Call::Prepare { sql: "SELECT * FROM user".to_string() }),
            "ColumnCount".to_string(),
            format!("{:?}", Call::ColumnName { index: 0 }),
            format!("{:?}", Call::ColumnName { index: 1 }),
        ]
    );
    assert_eq!(stmt.state(), StmtState::Prepared);
    assert_eq!(stmt.colum_count(), 2);
    assert_eq!(stmt.colum_name(0).unwrap(), "id");
    assert_eq!(stmt.colum_name(1).unwrap(), "name");
}

#[test]
fn malformed_sql_fails_with_the_engines_text_and_leaves_the_statement_unprepared() {
    let con = open();
    let mut stmt = Stmt::init(&con);
    let script = vec![Reply::Int(ERROR), text("near \"SELEC\": syntax error")];
    let (asked, r) = run(script, |r| stmt.prepare("SELEC 1", r));
    assert_eq!(asked.len(), 2);
    assert_eq!(asked[1], "ErrMsg");
    match r {
        Err(Error::PrepareErr(m)) => assert_eq!(m, "near \"SELEC\": syntax error"),
        _ => panic!("the statement was prepared"),
    }
    assert_eq!(stmt.state(), StmtState::Unprepared);
}

#[test]
fn sql_with_a_nul_is_not_handed_to_the_engine() {
    let con = open();
    let mut stmt = Stmt::init(&con);
    let (asked, r) = run(vec![], |r| stmt.prepare("SELECT\0 1", r));
    assert!(asked.is_empty());
    match r {
        Err(Error::PrepareErr(m)) => assert_eq!(m, "Null Error"),
        _ => panic!("the statement was prepared"),
    }
}

#[test]
fn preparing_anew_releases_the_old_handle_first() {
    let con = open();
    let mut stmt = prepared(&con, &["id", "name"]);
    run(vec![Reply::Int(OK)], |r| stmt.bind(&Value::Int(1), 1, r)).1.unwrap();
    let script = vec![Reply::Int(OK), Reply::Int(OK), Reply::Int(1), text("n")];
    let (asked, r) = run(script, |r| stmt.prepare("SELECT count(*) AS n FROM user", r));
    r.unwrap();
    assert_eq!(asked[0], "Finalize");
    assert_eq!(asked.len(), 4);
    assert_eq!(stmt.colum_count(), 1);
    assert_eq!(stmt.colum_name(0).unwrap(), "n");
    let script = vec![Reply::Int(OK), Reply::Int(ERROR), text("bad")];
    let (asked, r) = run(script, |r| stmt.prepare("nonsense", r));
    assert_eq!(asked[0], "Finalize");
    assert!(matches!(r, Err(Error::PrepareErr(m)) if m == "bad"));
    assert_eq!(stmt.state(), StmtState::Unprepared);
    assert_eq!(stmt.colum_count(), 0);
}

#[test]
fn a_column_count_or_name_that_is_none_is_an_unknown_reply() {
    let con = open();
    let mut stmt = Stmt::init(&con);
    let r = run(vec![Reply::Int(OK), Reply::Int(-1)], |r| stmt.prepare("SELECT 1", r)).1;
    assert!(matches!(r, Err(Error::Unknown(m)) if m == "Unexpected reply from the engine"));
    let r = run(vec![Reply::Int(OK), text("two")], |r| stmt.prepare("SELECT 1", r)).1;
    assert!(matches!(r, Err(Error::Unknown(_))));
    let r = run(vec![Reply::Int(OK), Reply::Int(2), text("a"), Reply::Null], |r| {
        stmt.prepare("SELECT 1", r)
    })
    .1;
    assert!(matches!(r, Err(Error::Unknown(_))));
    assert_eq!(stmt.state(), StmtState::Unprepared);
}

#[test]
fn each_variant_is_bound_by_its_call() {
    let bytes = vec![0u8, 159, 146, 150];
    let cases: Vec<(Value, Call)> = vec![
        (Value::Int(-5), Call::BindInt64 { index: 2, value: -5 }),
        (Value::Uint(5), Call::BindInt64 { index: 2, value: 5 }),
        (Value::Uint(u64::MAX), Call::BindInt64 { index: 2, value: -1 }),
        (
            Value::Uint(9223372036854775808),
            Call::BindInt64 { index: 2, value: i64::MIN },
        ),
        (
            Value::Float(Double::from_bits(1.5f64.to_bits())),
            Call::BindDouble { index: 2, value: Double::from_bits(0x3ff8_0000_0000_0000) },
        ),
        (
            Value::String("name1".to_string()),
            Call::BindText { index: 2, text: b"name1".to_vec(), len: 5, transient: true },
        ),
        (
            Value::String("é".to_string()),
            Call::BindText { index: 2, text: vec![0xc3, 0xa9], len: 2, transient: true },
        ),
        (
            Value::String(String::new()),
            Call::BindText { index: 2, text: vec![], len: 0, transient: false },
        ),
        (
            Value::Bytes(bytes.clone()),
            Call::BindText { index: 2, text: bytes.clone(), len: 4, transient: true },
        ),
        (Value::Bytes(vec![]), Call::BindText { index: 2, text: vec![], len: 0, transient: false }),
        (Value::Null, Call::BindNull { index: 2 }),
    ];
    let con = open();
    let mut stmt = prepared(&con, &[]);
    for (value, call) in cases {
        assert_eq!(
            format!("{:?}", Stmt::bind_call(&value, 2).unwrap()),
            format!("{:?}", call)
        );
        let (asked, r) = run(vec![Reply::Int(OK)], |r| stmt.bind(&value, 2, r));
        r.unwrap();
        assert_eq!(asked, vec![format!("{:?}", call)]);
    }
}

#[test]
fn a_refused_binding_fails_with_the_engines_text() {
    let con = open();
    let mut stmt = prepared(&con, &[]);
    let script = vec![Reply::Int(RANGE), text("column index out of range")];
    let (asked, r) = run(script, |r| stmt.bind(&Value::Int(1), 4, r));
    assert_eq!(asked.len(), 2);
    assert_eq!(asked[1], "ErrMsg");
    match r {
        Err(Error::BindError(m)) => assert_eq!(m, "column index out of range"),
        _ => panic!("the binding went through"),
    }
    let script = vec![Reply::Int(RANGE), Reply::Null];
    let r = run(script, |r| stmt.bind(&Value::Int(1), 0, r)).1;
    assert!(matches!(r, Err(Error::BindError(m)) if m.is_empty()));
}

#[test]
fn nothing_is_bound_to_an_unprepared_statement() {
    let con = open();
    let mut stmt = Stmt::init(&con);
    let (asked, r) = run(vec![], |r| stmt.bind(&Value::Int(1), 1, r));
    assert!(asked.is_empty());
    match r {
        Err(Error::PrepareErr(m)) => assert_eq!(m, "Statement is not prepared or is null"),
        _ => panic!("the binding went through"),
    }
}

#[test]
fn values_are_bound_to_the_positions_from_one_in_order() {
    let con = open();
    let mut stmt = prepared(&con, &[]);
    let params = vec![Value::from("name1"), Value::from("name2"), Value::from("name3")];
    let script = vec![Reply::Int(OK), Reply::Int(OK), Reply::Int(OK)];
    let (asked, r) = run(script, |r| stmt.bind_values(&params, r));
    r.unwrap();
    let expected: Vec<String> = (1..=3)
        .map(|i| {
            format!(
                "{:?}",
                Call::BindText {
                    index: i,
                    text: format!("name{i}").into_bytes(),
                    len: 5,
                    transient: true
                }
            )
        })
        .collect();
    assert_eq!(asked, expected);
    let (asked, r) = run(vec![], |r| stmt.bind_values(&vec![], r));
    r.unwrap();
    assert!(asked.is_empty());
}

#[test]
fn binding_stops_at_the_first_value_that_fails() {
    let con = open();
    let mut stmt = prepared(&con, &[]);
    let params = vec![Value::Int(1), Value::Int(2), Value::Int(3)];
    let script = vec![Reply::Int(OK), Reply::Int(RANGE), text("column index out of range")];
    let (asked, r) = run(script, |r| stmt.bind_values(&params, r));
    assert_eq!(
        asked,
        vec![
            format!("{:?}", Call::BindInt64 { index: 1, value: 1 }),
            format!("{:?}", Call::BindInt64 { index: 2, value: 2 }),
            "ErrMsg".to_string(),
        ]
    );
    assert!(matches!(r, Err(Error::BindError(m)) if m == "column index out of range"));
}

#[test]
fn rebinding_one_position_asks_for_that_position_only() {
    let con = open();
    let mut stmt = prepared(&con, &[]);
    let params = vec![Value::Int(10), Value::Int(20), Value::Int(30)];
    run(vec![Reply::Int(OK), Reply::Int(OK), Reply::Int(OK)], |r| stmt.bind_values(&params, r))
        .1
        .unwrap();
    let (asked, r) = run(vec![Reply::Int(OK)], |r| stmt.bind(&Value::Int(21), 2, r));
    r.unwrap();
    assert_eq!(asked, vec![format!("{:?}", Call::BindInt64 { index: 2, value: 21 })]);
    let (asked, r) = run(vec![Reply::Int(DONE)], |r| stmt.execute(r));
    r.unwrap();
    assert_eq!(asked, vec!["Step"]);
}

#[test]
fn a_step_is_a_row_or_the_end_or_a_failure() {
    let con = open();
    let mut stmt = prepared(&con, &["id"]);
    let (asked, r) = run(vec![Reply::Int(ROW)], |r| stmt.step(r));
    assert_eq!(asked, vec!["Step"]);
    assert_eq!(r.unwrap(), Stepped::Row);
    assert_eq!(stmt.state(), StmtState::Row);
    assert_eq!(run(vec![Reply::Int(100)], |r| stmt.step(r)).1.unwrap(), Stepped::Row);
    assert_eq!(run(vec![Reply::Int(DONE)], |r| stmt.step(r)).1.unwrap(), Stepped::Done);
    assert_eq!(stmt.state(), StmtState::Done);
    assert_eq!(run(vec![Reply::Int(101)], |r| stmt.step(r)).1.unwrap(), Stepped::Done);
    assert_eq!(run(vec![Reply::Int(ERROR)], |r| stmt.step(r)).1.unwrap(), Stepped::Failed);
    assert_eq!(stmt.state(), StmtState::Done);
    assert_eq!(run(vec![Reply::Int(OK)], |r| stmt.step(r)).1.unwrap(), Stepped::Failed);
    assert_eq!(run(vec![Reply::Null], |r| stmt.step(r)).1.unwrap(), Stepped::Failed);
}

#[test]
fn an_unprepared_statement_is_not_stepped() {
    let con = open();
    let mut stmt = Stmt::init(&con);
    let (asked, r) = run(vec![], |r| stmt.step(r));
    assert!(asked.is_empty());
    match r {
        Err(Error::PrepareErr(m)) => assert_eq!(m, "Statement is not prepared or is null"),
        _ => panic!("the statement was stepped"),
    }
    assert!(matches!(run(vec![], |r| stmt.execute(r)).1, Err(Error::PrepareErr(_))));
    assert!(matches!(stmt.get_row(&[]), Turn::Failed(Error::PrepareErr(_))));
}

#[test]
fn executing_takes_a_row_or_the_end_and_nothing_else() {
    let con = open();
    let mut stmt = prepared(&con, &[]);
    run(vec![Reply::Int(DONE)], |r| stmt.execute(r)).1.unwrap();
    assert_eq!(stmt.state(), StmtState::Done);
    run(vec![Reply::Int(ROW)], |r| stmt.execute(r)).1.unwrap();
    assert_eq!(stmt.state(), StmtState::Done);
    let script = vec![Reply::Int(19), text("UNIQUE constraint failed: user.id")];
    let (asked, r) = run(script, |r| stmt.execute(r));
    assert_eq!(asked, vec!["Step", "ErrMsg"]);
    match r {
        Err(Error::SqliteError(m)) => assert_eq!(m, "UNIQUE constraint failed: user.id"),
        _ => panic!("the statement ran"),
    }
}

#[test]
fn an_operation_that_asks_leaves_the_statement_as_it_was() {
    let con = open();
    let mut stmt = on_a_row(&con, &["id"]);
    assert!(matches!(stmt.execute(&[]), Turn::Ask(Call::Step)));
    assert_eq!(stmt.state(), StmtState::Row);
    assert!(matches!(stmt.execute(&[Reply::Int(ERROR)]), Turn::Ask(Call::ErrMsg)));
    assert_eq!(stmt.state(), StmtState::Row);
    assert!(matches!(stmt.get_row(&[Reply::Int(ERROR)]), Turn::Ask(Call::ErrMsg)));
    assert_eq!(stmt.state(), StmtState::Row);
    assert!(matches!(stmt.prepare("SELECT 1", &[]), Turn::Ask(Call::Finalize)));
    assert!(matches!(stmt.prepare("SELECT 1", &[Reply::Int(OK)]), Turn::Ask(Call::Prepare { .. })));
    assert_eq!(stmt.state(), StmtState::Row);
    assert_eq!(stmt.colum_count(), 1);
    assert!(matches!(stmt.reset(&[]), Turn::Ask(Call::Reset)));
    assert_eq!(stmt.state(), StmtState::Row);
    assert!(matches!(
        stmt.execute(&[Reply::Int(ERROR), text("constraint failed")]),
        Turn::Failed(Error::SqliteError(_))
    ));
    assert_eq!(stmt.state(), StmtState::Done);
}

#[test]
fn a_single_row_is_fetched_or_found_missing() {
    let con = open();
    let mut stmt = prepared(&con, &["id"]);
    assert!(matches!(stmt.get_row(&[]), Turn::Ask(Call::Step)));
    assert!(matches!(stmt.get_row(&[Reply::Int(ROW)]), Turn::Done(_)));
    assert_eq!(stmt.state(), StmtState::Row);
    assert!(matches!(stmt.get_row(&[Reply::Int(DONE)]), Turn::Failed(Error::Empty)));
    assert!(matches!(stmt.get_row(&[Reply::Int(ERROR)]), Turn::Ask(Call::ErrMsg)));
    match stmt.get_row(&[Reply::Int(ERROR), text("disk I/O error")]) {
        Turn::Failed(Error::SqliteError(m)) => assert_eq!(m, "disk I/O error"),
        _ => panic!("a row was fetched"),
    };
}

#[test]
fn rewinding_and_clearing_ask_once() {
    let con = open();
    let mut stmt = on_a_row(&con, &["id"]);
    let (asked, _) = run(vec![Reply::Int(OK)], |r| stmt.reset(r));
    assert_eq!(asked, vec!["Reset"]);
    assert_eq!(stmt.state(), StmtState::Prepared);
    let (asked, _) = run(vec![Reply::Int(OK)], |r| stmt.clear_bindings(r));
    assert_eq!(asked, vec!["ClearBindings"]);
    assert_eq!(stmt.state(), StmtState::Prepared);
    assert_eq!(stmt.colum_count(), 1);
    let mut fresh = Stmt::init(&con);
    assert!(run(vec![], |r| fresh.reset(r)).0.is_empty());
    assert!(run(vec![], |r| fresh.clear_bindings(r)).0.is_empty());
    assert_eq!(fresh.state(), StmtState::Unprepared);
}

#[test]
fn a_second_pass_after_a_reset_gives_what_the_first_gave() {
    let con = open();
    let mut stmt = prepared(&con, &["id", "name"]);
    let statuses = [ROW, ROW, ROW, DONE];
    let mut first = Vec::new();
    for s in statuses {
        first.push(run(vec![Reply::Int(s)], |r| stmt.step(r)).1.unwrap());
    }
    run(vec![Reply::Int(OK)], |r| stmt.reset(r)).1.unwrap();
    assert_eq!(stmt.state(), StmtState::Prepared);
    let mut second = Vec::new();
    for s in statuses {
        second.push(run(vec![Reply::Int(s)], |r| stmt.step(r)).1.unwrap());
    }
    assert_eq!(first, vec![Stepped::Row, Stepped::Row, Stepped::Row, Stepped::Done]);
    assert_eq!(first, second);
}

#[test]
fn finalizing_releases_a_prepared_handle_only() {
    let con = open();
    assert!(Stmt::init(&con).finalize().is_none());
    assert!(matches!(prepared(&con, &[]).finalize(), Some(Call::Finalize)));
    assert!(matches!(on_a_row(&con, &["id"]).finalize(), Some(Call::Finalize)));
}

#[test]
fn columns_are_found_by_name_exactly_and_first() {
    let con = open();
    let stmt = prepared(&con, &["id", "name", "Name", "name", ""]);
    assert_eq!(stmt.colum_count(), 5);
    assert_eq!(stmt.colum_index("id").unwrap(), 0);
    assert_eq!(stmt.colum_index("name").unwrap(), 1);
    assert_eq!(stmt.colum_index("Name").unwrap(), 2);
    assert_eq!(stmt.colum_index("").unwrap(), 4);
    match stmt.colum_index("NAME") {
        Err(Error::ColumnNotFound(m)) => assert_eq!(m, "NAME"),
        _ => panic!("a column was found"),
    }
    assert!(matches!(stmt.colum_index("nam"), Err(Error::ColumnNotFound(_))));
    assert!(matches!(Stmt::init(&con).colum_index("id"), Err(Error::ColumnNotFound(_))));
}

#[test]
fn a_column_position_at_or_beyond_the_count_is_out_of_bounds() {
    let con = open();
    let stmt = on_a_row(&con, &["id", "name"]);
    assert_eq!(stmt.colum_name(1).unwrap(), "name");
    match stmt.colum_name(2) {
        Err(Error::IndexOutOfBounds(m)) => assert_eq!(m, "2"),
        _ => panic!("a column was found"),
    }
    assert!(matches!(stmt.colum_name(usize::MAX), Err(Error::IndexOutOfBounds(_))));
    assert!(matches!(stmt.colum_type(2, &[]), Turn::Failed(Error::IndexOutOfBounds(m)) if m == "2"));
    assert!(matches!(stmt.get_int64(2, &[]), Turn::Failed(Error::IndexOutOfBounds(_))));
    assert!(matches!(stmt.get_int32(17, &[]), Turn::Failed(Error::IndexOutOfBounds(m)) if m == "17"));
    assert!(matches!(stmt.get_double(2, &[]), Turn::Failed(Error::IndexOutOfBounds(_))));
    assert!(matches!(stmt.get_text(2, &[]), Turn::Failed(Error::IndexOutOfBounds(_))));
    assert!(matches!(stmt.get_blob(2, &[]), Turn::Failed(Error::IndexOutOfBounds(_))));
    let row = Row::new(&stmt);
    assert!(matches!(row.get_value(2, &[]), Turn::Failed(Error::IndexOutOfBounds(m)) if m == "2"));
    assert!(matches!(row.get::<u64, usize>(2, &[]), Turn::Failed(Error::IndexOutOfBounds(_))));
    assert!(matches!(
        row.get::<u64, &str>("age", &[]),
        Turn::Failed(Error::ColumnNotFound(m)) if m == "age"
    ));
}

#[test]
fn a_column_type_is_what_the_tag_says() {
    let con = open();
    let stmt = on_a_row(&con, &["id", "name"]);
    let (asked, t) = run(vec![Reply::Int(3)], |r| stmt.colum_type(1, r));
    assert_eq!(asked, vec![format!("{:?}", Call::ColumnType { index: 1 })]);
    assert_eq!(t.unwrap(), SqliteTypes::Text);
    assert!(matches!(
        run(vec![Reply::Int(0)], |r| stmt.colum_type(1, r)).1,
        Err(Error::Unknown(m)) if m == "Cannot SQLITE type"
    ));
    assert!(matches!(
        run(vec![Reply::Null], |r| stmt.colum_type(1, r)).1,
        Err(Error::Unknown(m)) if m == "Unexpected reply from the engine"
    ));
}

#[test]
fn each_accessor_gives_its_variant() {
    let con = open();
    let stmt = on_a_row(&con, &["a", "b", "c"]);
    let (asked, v) = run(vec![Reply::Int64(-9)], |r| stmt.get_int64(1, r));
    assert_eq!(asked, vec![format!("{:?}", Call::ColumnInt64 { index: 1 })]);
    assert!(matches!(v.unwrap(), Value::Int(-9)));
    let (asked, v) = run(vec![Reply::Int(-9)], |r| stmt.get_int32(2, r));
    assert_eq!(asked, vec![format!("{:?}", Call::ColumnInt { index: 2 })]);
    assert!(matches!(v.unwrap(), Value::Int(-9)));
    let pi = Double::from_bits(3.141592653589793f64.to_bits());
    let (asked, v) = run(vec![Reply::Double(pi)], |r| stmt.get_double(0, r));
    assert_eq!(asked, vec![format!("{:?}", Call::ColumnDouble { index: 0 })]);
    assert!(matches!(v.unwrap(), Value::Float(d) if d.to_bits() == 0x400921fb54442d18));
    let (asked, v) = run(vec![text("name1")], |r| stmt.get_text(1, r));
    assert_eq!(asked, vec![format!("{:?}", Call::ColumnText { index: 1 })]);
    assert!(matches!(v.unwrap(), Value::String(s) if s == "name1"));
    let (asked, v) = run(vec![Reply::Blob(vec![0, 1, 2])], |r| stmt.get_blob(1, r));
    assert_eq!(asked, vec![format!("{:?}", Call::ColumnBlob { index: 1 })]);
    assert!(matches!(v.unwrap(), Value::Bytes(b) if b == vec![0u8, 1, 2]));
    assert!(matches!(run(vec![Reply::Null], |r| stmt.get_text(1, r)).1.unwrap(), Value::String(s) if s.is_empty()));
    assert!(matches!(run(vec![Reply::Null], |r| stmt.get_blob(1, r)).1.unwrap(), Value::Bytes(b) if b.is_empty()));
    assert!(matches!(run(vec![text("1")], |r| stmt.get_int64(1, r)).1, Err(Error::Unknown(_))));
}

#[test]
fn values_are_read_only_on_a_row() {
    let con = open();
    let mut stmt = prepared(&con, &["id"]);
    assert!(matches!(stmt.get_int64(0, &[]), Turn::Failed(Error::Empty)));
    assert!(matches!(Row::new(&stmt).get_value(0, &[]), Turn::Failed(Error::Empty)));
    run(vec![Reply::Int(DONE)], |r| stmt.step(r)).1.unwrap();
    assert!(matches!(stmt.get_text(0, &[]), Turn::Failed(Error::Empty)));
    run(vec![Reply::Int(ROW)], |r| stmt.execute(r)).1.unwrap();
    assert!(matches!(Row::new(&stmt).get::<u64, usize>(0, &[]), Turn::Failed(Error::Empty)));
}

#[test]
fn a_value_is_read_by_the_type_of_its_column() {
    let con = open();
    let stmt = on_a_row(&con, &["v"]);
    let row = Row::new(&stmt);
    let (asked, v) = run(vec![Reply::Int(1), Reply::Int64(42)], |r| row.get_value(0, r));
    assert_eq!(
        asked,
        vec![
            format!("{:?}", Call::ColumnType { index: 0 }),
            format!("{:?}", Call::ColumnInt64 { index: 0 }),
        ]
    );
    assert!(matches!(v.unwrap(), Value::Int(42)));
    let half = Double::from_bits(0.5f64.to_bits());
    let (asked, v) = run(vec![Reply::Int(2), Reply::Double(half)], |r| row.get_value(0, r));
    assert_eq!(asked[1], format!("{:?}", Call::ColumnDouble { index: 0 }));
    assert!(matches!(v.unwrap(), Value::Float(d) if d == half));
    let (asked, v) = run(vec![Reply::Int(3), text("x")], |r| row.get_value(0, r));
    assert_eq!(asked[1], format!("{:?}", Call::ColumnText { index: 0 }));
    assert!(matches!(v.unwrap(), Value::String(s) if s == "x"));
    let (asked, v) = run(vec![Reply::Int(4), Reply::Blob(vec![7])], |r| row.get_value(0, r));
    assert_eq!(asked[1], format!("{:?}", Call::ColumnBlob { index: 0 }));
    assert!(matches!(v.unwrap(), Value::Bytes(b) if b == vec![7u8]));
    let (asked, v) = run(vec![Reply::Int(5)], |r| row.get_value(0, r));
    assert_eq!(asked.len(), 1);
    assert!(matches!(v.unwrap(), Value::Null));
    let (_, v) = run(vec![Reply::Int(9)], |r| row.get_value(0, r));
    assert!(matches!(v, Err(Error::Unknown(m)) if m == "Cannot SQLITE type"));
}

#[test]
fn every_variant_comes_back_as_it_was_bound() {
    let con = open();
    let mut stmt = prepared(&con, &["v"]);
    let values = vec![
        Value::Int(i64::MIN),
        Value::Int(-1),
        Value::Int(i64::MAX),
        Value::Uint(0),
        Value::Uint(u64::MAX),
        Value::Float(Double::from_bits((-0.1f64).to_bits())),
        Value::Float(Double::from_bits(f64::NAN.to_bits())),
        Value::String("name1".to_string()),
        Value::String("Grüße, 世界".to_string()),
        Value::String(String::new()),
        Value::Bytes(vec![0, 255, 0, 1]),
        Value::Bytes(vec![]),
    ];
    for value in values {
        run(vec![Reply::Int(OK)], |r| stmt.reset(r)).1.unwrap();
        let call = match run(vec![Reply::Int(OK)], |r| stmt.bind(&value, 1, r)) {
            (_, Ok(())) => Stmt::bind_call(&value, 1).unwrap(),
            _ => panic!("the value was not bound"),
        };
        run(vec![Reply::Int(ROW)], |r| stmt.step(r)).1.unwrap();
        match (&value, call) {
            (Value::Int(v), Call::BindInt64 { value: sent, .. }) => {
                let back = run(vec![Reply::Int64(sent)], |r| stmt.get_int64(0, r)).1.unwrap();
                assert!(matches!(back, Value::Int(b) if b == *v));
            }
            (Value::Uint(v), Call::BindInt64 { value: sent, .. }) => {
                let back = run(vec![Reply::Int64(sent)], |r| stmt.get_int64(0, r)).1.unwrap();
                assert_eq!(<u64 as sqlite_stmt::FromValue>::from_value(back).unwrap(), *v);
            }
            (Value::Float(v), Call::BindDouble { value: sent, .. }) => {
                let back = run(vec![Reply::Double(sent)], |r| stmt.get_double(0, r)).1.unwrap();
                assert!(matches!(back, Value::Float(b) if b.to_bits() == v.to_bits()));
            }
            (Value::String(v), Call::BindText { text: sent, len, .. }) => {
                assert_eq!(len as usize, sent.len());
                let reply = Reply::Text(String::from_utf8(sent).unwrap());
                let back = run(vec![reply], |r| stmt.get_text(0, r)).1.unwrap();
                assert!(matches!(back, Value::String(b) if b == *v));
            }
            (Value::Bytes(v), Call::BindText { text: sent, len, .. }) => {
                assert_eq!(len as usize, sent.len());
                let back = run(vec![Reply::Blob(sent)], |r| stmt.get_blob(0, r)).1.unwrap();
                assert!(matches!(back, Value::Bytes(b) if b == *v));
            }
            _ => panic!("the value was bound by a call of another kind"),
        }
    }
    let (asked, r) = run(vec![Reply::Int(OK)], |r| stmt.bind(&Value::Null, 1, r));
    r.unwrap();
    assert_eq!(asked, vec![format!("{:?}", Call::BindNull { index: 1 })]);
    let row = Row::new(&stmt);
    assert!(matches!(run(vec![Reply::Int(5)], |r| row.get_value(0, r)).1.unwrap(), Value::Null));
}

#[test]
fn reading_by_name_and_by_position_is_the_same() {
    let con = open();
    let names = ["id", "name", "age"];
    let stmt = on_a_row(&con, &names);
    let row = Row::new(&stmt);
    for (position, name) in names.iter().enumerate() {
        let script = || vec![Reply::Int(3), text("name1")];
        let (asked_by_name, by_name) = run(script(), |r| row.get::<String, &str>(name, r));
        let (asked_by_position, by_position) =
            run(script(), |r| row.get::<String, usize>(position, r));
        assert_eq!(asked_by_name, asked_by_position);
        assert_eq!(by_name.unwrap(), by_position.unwrap());
        let script = || vec![Reply::Int(1), Reply::Int64(7)];
        let by_name = run(script(), |r| row.get::<u64, &str>(name, r)).1.unwrap();
        let by_position = run(script(), |r| row.get::<u64, usize>(position, r)).1.unwrap();
        assert_eq!(by_name, 7);
        assert_eq!(by_name, by_position);
    }
}

#[test]
fn a_value_that_does_not_fit_the_type_is_a_conversion_error() {
    let con = open();
    let stmt = on_a_row(&con, &["id", "name"]);
    let row = Row::new(&stmt);
    let r = run(vec![Reply::Int(3), text("name1")], |r| row.get::<u64, &str>("name", r)).1;
    assert!(matches!(r, Err(Error::ConversionError)));
    let r = run(vec![Reply::Int(1), Reply::Int64(1)], |r| row.get::<String, &str>("id", r)).1;
    assert!(matches!(r, Err(Error::ConversionError)));
    let r = run(vec![Reply::Int(5)], |r| row.get::<Option<u64>, usize>(0, r)).1;
    assert_eq!(r.unwrap(), None);
    let r = run(vec![Reply::Int(1), Reply::Int64(8)], |r| row.get::<Option<u64>, usize>(0, r)).1;
    assert_eq!(r.unwrap(), Some(8));
    let r = run(vec![Reply::Int(5)], |r| row.get::<u64, usize>(0, r)).1;
    assert!(matches!(r, Err(Error::ConversionError)));
}

#[test]
fn a_pass_hands_out_a_row_for_each_step_that_finds_one() {
    let con = open();
    let stmt = prepared(&con, &["id"]);
    let mut rows = stmt.get_rows();
    assert_eq!(rows.get_stmt().colum_count(), 1);
    let mut it = rows.iter();
    assert!(matches!(it.next(&[]), Turn::Ask(Call::Step)));
    assert!(matches!(it.next(&[Reply::Int(ROW)]), Turn::Done(Some(_))));
    assert!(matches!(it.next(&[Reply::Int(ROW)]), Turn::Done(Some(_))));
    assert!(matches!(it.next(&[Reply::Int(DONE)]), Turn::Done(None)));
    assert_eq!(rows.get_stmt().state(), StmtState::Done);
    let stmt = rows.into_stmt();
    assert!(matches!(stmt.finalize(), Some(Call::Finalize)));
}

#[test]
fn a_pass_starts_again_after_the_statement_is_rewound() {
    let con = open();
    let mut rows = Rows::new(prepared(&con, &["id"]));
    {
        let mut it = rows.iter();
        assert!(matches!(it.next(&[Reply::Int(ROW)]), Turn::Done(Some(_))));
        assert!(matches!(it.next(&[Reply::Int(DONE)]), Turn::Done(None)));
    }
    let (asked, r) = run(vec![Reply::Int(OK)], |r| rows.get_stmt_mut().reset(r));
    r.unwrap();
    assert_eq!(asked, vec!["Reset"]);
    assert_eq!(rows.get_stmt().state(), StmtState::Prepared);
    let mut it = rows.iter();
    assert!(matches!(it.next(&[Reply::Int(ROW)]), Turn::Done(Some(_))));
    assert!(matches!(it.next(&[Reply::Int(DONE)]), Turn::Done(None)));
}

#[test]
fn a_pass_ends_silently_on_a_failure() {
    let con = open();
    let mut rows = Rows::new(prepared(&con, &["id"]));
    let mut it = rows.iter();
    assert!(matches!(it.next(&[Reply::Int(ERROR)]), Turn::Done(None)));
    let mut never = Rows::new(Stmt::init(&con));
    assert!(matches!(never.iter().next(&[]), Turn::Done(None)));
}

#[test]
fn executing_through_the_rows_takes_a_row_or_the_end() {
    let con = open();
    let mut rows = Rows::new(prepared(&con, &[]));
    let (asked, r) = run(vec![Reply::Int(DONE)], |r| rows.execute(r));
    assert_eq!(asked, vec!["Step"]);
    r.unwrap();
    run(vec![Reply::Int(ROW)], |r| rows.execute(r)).1.unwrap();
    match run(vec![Reply::Int(ERROR)], |r| rows.execute(r)).1 {
        Err(Error::Unknown(m)) => assert_eq!(m, "Failed to execute prepared stmt"),
        _ => panic!("the statement ran"),
    }
    let mut never = Rows::new(Stmt::init(&con));
    assert!(matches!(run(vec![], |r| never.execute(r)).1, Err(Error::PrepareErr(_))));
}
