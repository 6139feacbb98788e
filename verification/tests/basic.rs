use sqlite_stmt::{Reply, SqliteCon, Stmt, StmtState, Turn};

#[test]
fn it_works() {
    assert_eq!(2 + 2, 4);
}

#[test]
fn a_fresh_statement_is_unprepared() {
    let con = match SqliteCon::new("test_db", &[Reply::Int(0)]) {
        Turn::Done(con) => con,
        _ => panic!("the connection did not open"),
    };
    let stmt = Stmt::init(&con);
    assert_eq!(stmt.state(), StmtState::Unprepared);
    assert_eq!(stmt.colum_count(), 0);
}
