use vstd::prelude::*;
use vstd::slice::slice_subrange;
use vstd::string::StrSliceExecFns;
use vstd::string::StringExecFns;
use crate::binding::{bind_buff, binding, too_large, too_many, values_of};
use crate::codes::{status_done, status_row, SqliteTypes, DONE, OK, ROW};
use crate::column::{
    columns_plan, first_named, lemma_first_named, load_columns, names_of, out_of_bounds,
    position, value_read, Reader,
};
use crate::con::SqliteCon;
use crate::engine::{
    bad_reply, message, views, Call, CallView, Plan, Reply, ReplyView, Turn,
};
use crate::error::{Error, ErrorView};
use crate::rows::{Row, Rows};
use crate::text::{contains_nul, decimal_text, has_nul, str_eq};
use crate::value::{Value, ValueView};

verus! {

/// Where a statement stands in its life.
#[derive(Clone, Copy, Debug, PartialEq, Eq, Structural)]
pub enum StmtState {
    /// No SQL has been compiled into the statement.
    Unprepared,
    /// Compiled; the cursor stands before the first row.
    Prepared,
    /// The cursor stands on a row.
    Row,
    /// The cursor has left the rows.
    Done,
}

/// What one step of the cursor came to.
#[derive(Clone, Copy, Debug, PartialEq, Eq, Structural)]
pub enum Stepped {
    /// The cursor stands on a row.
    Row,
    /// There are no more rows.
    Done,
    /// The engine reported an error.
    Failed,
}

impl View for Stepped {
    type V = Stepped;

    open spec fn view(&self) -> Stepped {
        *self
    }
}

/// One prepared query on a connection, with its cursor.
///
/// The statement borrows its connection, so the connection outlives it.
pub struct Stmt<'con> {
    #[allow(dead_code)]
    con: &'con SqliteCon,
    state: StmtState,
    columns: Vec<String>,
    bindings: Ghost<Map<int, ValueView>>,
}

/// The mathematical content of a [`Stmt`].
pub struct StmtView {
    /// Where the statement stands.
    pub state: StmtState,
    /// The names of the result columns, by position.
    pub names: Seq<Seq<char>>,
    /// The value the engine holds for each parameter position that was
    /// bound since the statement was prepared or its bindings were cleared.
    pub bindings: Map<int, ValueView>,
}

impl StmtView {
    /// What holds of every statement: the column count fits the engine's
    /// 32-bit positions, and an unprepared statement has neither columns
    /// nor bindings.
    pub open spec fn wf(self) -> bool {
        &&& self.names.len() <= i32::MAX
        &&& self.state is Unprepared ==> self.names.len() == 0 && self.bindings
            == Map::<int, ValueView>::empty()
    }

    /// The statement before anything was prepared.
    pub open spec fn fresh() -> StmtView {
        StmtView {
            state: StmtState::Unprepared,
            names: Seq::empty(),
            bindings: Map::empty(),
        }
    }
}

/// The error for an operation on an unprepared statement.
pub open spec fn not_prepared() -> ErrorView {
    ErrorView::PrepareErr("Statement is not prepared or is null"@)
}

impl<'con> View for Stmt<'con> {
    type V = StmtView;

    closed spec fn view(&self) -> StmtView {
        StmtView { state: self.state, names: names_of(self.columns@), bindings: self.bindings@ }
    }
}

impl<'con> Stmt<'con> {
    #[verifier::type_invariant]
    spec fn inv(self) -> bool {
        self@.wf()
    }

    /// A statement on `con` with nothing prepared.
    pub fn init(con: &'con SqliteCon) -> (stmt: Stmt<'con>)
        ensures
            stmt@ == StmtView::fresh(),
    {
        let stmt = Stmt {
            con,
            state: StmtState::Unprepared,
            columns: Vec::new(),
            bindings: Ghost(Map::empty()),
        };
        assert(names_of(stmt.columns@) =~= Seq::<Seq<char>>::empty());
        stmt
    }

    /// Where the statement stands.
    pub fn state(&self) -> (state: StmtState)
        ensures
            state == self@.state,
    {
        self.state
    }

    /// The call that binds `param` to the parameter at `index`, counted
    /// from 1.
    pub fn bind_call(param: &Value, index: i32) -> (r: Result<Call, Error>)
        ensures
            match r {
                Ok(call) => binding(param@, index) == Some(call@),
                Err(e) => binding(param@, index) is None && e@ == too_large(),
            },
    {
        match param {
            Value::Int(v) => Ok(Call::BindInt64 { index, value: *v }),
            Value::Uint(v) => Ok(
                Call::BindInt64 { index, value: #[verifier::truncate] (*v as i64) },
            ),
            Value::Float(v) => Ok(Call::BindDouble { index, value: *v }),
            Value::Bytes(v) => bind_buff(v.clone(), index),
            Value::String(v) => bind_buff(v.as_str().as_bytes_vec(), index),
            Value::Null => Ok(Call::BindNull { index }),
        }
    }

    /// How binding goes, and what it leaves. An unprepared statement
    /// fails at once, and so does a value that cannot be handed over.
    /// Otherwise the engine is asked for the one binding; if it accepts,
    /// the position holds the value and every other position is as
    /// before; if it refuses, its diagnostic text is fetched and nothing
    /// is bound.
    pub open spec fn bind_plan(
        s: StmtView,
        param: ValueView,
        index: i32,
        replies: Seq<ReplyView>,
    ) -> (Plan<()>, StmtView) {
        if s.state is Unprepared {
            (Plan::Failed(not_prepared()), s)
        } else if binding(param, index) is None {
            (Plan::Failed(too_large()), s)
        } else if replies.len() == 0 {
            (Plan::Ask(binding(param, index).unwrap()), s)
        } else if replies[0] == ReplyView::Int(OK) {
            (Plan::Done(()), StmtView { bindings: s.bindings.insert(index as int, param), ..s })
        } else if replies.len() == 1 {
            (Plan::Ask(CallView::ErrMsg), s)
        } else {
            (Plan::Failed(ErrorView::BindError(message(replies[1]))), s)
        }
    }

    /// Binds `param` to the parameter at `index`, counted from 1. Only
    /// that position changes.
    pub fn bind(&mut self, param: &Value, index: i32, replies: &[Reply]) -> (turn: Turn<()>)
        ensures
            (turn@, final(self)@) == Self::bind_plan(
                old(self)@,
                param@,
                index,
                views(replies@),
            ),
    {
        proof {
            use_type_invariant(&*self);
        }
        match self.state {
            StmtState::Unprepared => {
                return Turn::Failed(
                    Error::PrepareErr("Statement is not prepared or is null".to_string()),
                );
            },
            _ => {},
        }
        let call = match Self::bind_call(param, index) {
            Ok(call) => call,
            Err(e) => {
                return Turn::Failed(e);
            },
        };
        if replies.len() == 0 {
            Turn::Ask(call)
        } else if replies[0].is_ok() {
            proof {
                self.bindings@ = self.bindings@.insert(index as int, param@);
            }
            Turn::Done(())
        } else if replies.len() == 1 {
            Turn::Ask(Call::ErrMsg)
        } else {
            Turn::Failed(Error::BindError(replies[1].text()))
        }
    }

    /// How binding a run of values goes, from the value at `from` on:
    /// each goes to the position one above its place in the run, as
    /// [`Stmt::bind_plan`] says, on the replies that the bindings before
    /// it have left; the first that does not succeed ends the run.
    pub open spec fn bind_from(
        s: StmtView,
        params: Seq<ValueView>,
        from: int,
        replies: Seq<ReplyView>,
    ) -> (Plan<()>, StmtView)
        decreases params.len() - from,
    {
        if from >= params.len() {
            (Plan::Done(()), s)
        } else if from >= i32::MAX {
            (Plan::Failed(too_many()), s)
        } else {
            let (plan, next) = Self::bind_plan(s, params[from], (from + 1) as i32, replies);
            if plan is Done {
                Self::bind_from(next, params, from + 1, replies.skip(1))
            } else {
                (plan, next)
            }
        }
    }

    /// How binding a run of values goes, and what it leaves: as
    /// [`Stmt::bind_from`] says from the first value on. While the run
    /// still asks, the statement is as it was.
    pub open spec fn bind_values_plan(
        s: StmtView,
        params: Seq<ValueView>,
        replies: Seq<ReplyView>,
    ) -> (Plan<()>, StmtView) {
        let (plan, next) = Self::bind_from(s, params, 0, replies);
        if plan is Ask {
            (plan, s)
        } else {
            (plan, next)
        }
    }

    /// Binds each element of `params` to the positions from 1 on, in
    /// order, and stops at the first that fails.
    pub fn bind_values(&mut self, params: &Vec<Value>, replies: &[Reply]) -> (turn: Turn<()>)
        ensures
            (turn@, final(self)@) == Self::bind_values_plan(
                old(self)@,
                values_of(params@),
                views(replies@),
            ),
    {
        let ghost start = self@;
        let ghost bound = self.bindings@;
        let ghost pv = values_of(params@);
        let ghost rv = views(replies@);
        let mut i: usize = 0;
        assert(rv.skip(0) =~= rv);
        while i < params.len()
            invariant
                i <= params.len(),
                i <= replies.len(),
                start == old(self)@,
                bound == start.bindings,
                self@.state == start.state,
                self@.names == start.names,
                pv == values_of(params@),
                rv == views(replies@),
                Self::bind_from(start, pv, 0, rv) == Self::bind_from(
                    self@,
                    pv,
                    i as int,
                    rv.skip(i as int),
                ),
            decreases params.len() - i,
        {
            if i >= i32::MAX as usize {
                return Turn::Failed(Error::BindError("Too many parameters".to_string()));
            }
            let rest = slice_subrange(replies, i, replies.len());
            assert(views(rest@) =~= rv.skip(i as int));
            let turn = self.bind(&params[i], (i + 1) as i32, rest);
            match turn {
                Turn::Done(()) => {
                    assert(rv.skip(i as int).skip(1) =~= rv.skip(i as int + 1));
                    i += 1;
                },
                Turn::Ask(call) => {
                    proof {
                        use_type_invariant(&*self);
                        self.bindings@ = bound;
                    }
                    return Turn::Ask(call);
                },
                Turn::Failed(e) => {
                    return Turn::Failed(e);
                },
            }
        }
        Turn::Done(())
    }

    /// What a step came to, by the status the engine gave.
    pub open spec fn stepped(status: ReplyView) -> Stepped {
        if status == ReplyView::Int(ROW) {
            Stepped::Row
        } else if status == ReplyView::Int(DONE) {
            Stepped::Done
        } else {
            Stepped::Failed
        }
    }

    /// How a step goes, and what it leaves. An unprepared statement fails
    /// at once. Otherwise the engine is asked to advance the cursor once;
    /// the statement then stands on a row if the engine says so, and past
    /// the rows in every other case.
    pub open spec fn step_plan(s: StmtView, replies: Seq<ReplyView>) -> (Plan<Stepped>, StmtView) {
        if s.state is Unprepared {
            (Plan::Failed(not_prepared()), s)
        } else if replies.len() == 0 {
            (Plan::Ask(CallView::Step), s)
        } else {
            let outcome = Self::stepped(replies[0]);
            let state = if outcome is Row {
                StmtState::Row
            } else {
                StmtState::Done
            };
            (Plan::Done(outcome), StmtView { state, ..s })
        }
    }

    /// Advances the cursor by exactly one row.
    pub fn step(&mut self, replies: &[Reply]) -> (turn: Turn<Stepped>)
        ensures
            (turn@, final(self)@) == Self::step_plan(old(self)@, views(replies@)),
    {
        proof {
            use_type_invariant(&*self);
        }
        match self.state {
            StmtState::Unprepared => {
                return Turn::Failed(
                    Error::PrepareErr("Statement is not prepared or is null".to_string()),
                );
            },
            _ => {},
        }
        if replies.len() == 0 {
            return Turn::Ask(Call::Step);
        }
        match &replies[0] {
            Reply::Int(code) => {
                if *code == status_row() {
                    self.state = StmtState::Row;
                    Turn::Done(Stepped::Row)
                } else if *code == status_done() {
                    self.state = StmtState::Done;
                    Turn::Done(Stepped::Done)
                } else {
                    self.state = StmtState::Done;
                    Turn::Done(Stepped::Failed)
                }
            },
            _ => {
                self.state = StmtState::Done;
                Turn::Done(Stepped::Failed)
            },
        }
    }

    /// How a failed step is reported, on the replies of the step and
    /// after: the engine's diagnostic text is fetched, and the operation
    /// fails with it.
    pub open spec fn failure<V>(replies: Seq<ReplyView>) -> Plan<V> {
        if replies.len() < 2 {
            Plan::Ask(CallView::ErrMsg)
        } else {
            Plan::Failed(ErrorView::SqliteError(message(replies[1])))
        }
    }

    /// How executing goes, and what it leaves: one step, as
    /// [`Stmt::step_plan`] says; a row or the end of the rows is success,
    /// a failure is reported as [`Stmt::failure`] says, and the statement
    /// is then done with its rows in each case. While the operation
    /// still asks, the statement is as it was.
    pub open spec fn execute_plan(s: StmtView, replies: Seq<ReplyView>) -> (Plan<()>, StmtView) {
        let plan = match Self::step_plan(s, replies).0 {
            Plan::Ask(call) => Plan::Ask(call),
            Plan::Failed(e) => Plan::Failed(e),
            Plan::Done(Stepped::Failed) => Self::failure(replies),
            Plan::Done(_) => Plan::Done(()),
        };
        if plan is Ask || s.state is Unprepared {
            (plan, s)
        } else {
            (plan, StmtView { state: StmtState::Done, ..s })
        }
    }

    /// Runs a statement from which no rows are expected: advances the
    /// cursor once and succeeds whether or not that gave a row.
    pub fn execute(&mut self, replies: &[Reply]) -> (turn: Turn<()>)
        ensures
            (turn@, final(self)@) == Self::execute_plan(old(self)@, views(replies@)),
    {
        proof {
            use_type_invariant(&*self);
        }
        let before = self.state;
        match self.step(replies) {
            Turn::Ask(call) => Turn::Ask(call),
            Turn::Failed(e) => Turn::Failed(e),
            Turn::Done(Stepped::Failed) => {
                if replies.len() < 2 {
                    self.state = before;
                    Turn::Ask(Call::ErrMsg)
                } else {
                    Turn::Failed(Error::SqliteError(replies[1].text()))
                }
            },
            Turn::Done(_) => {
                self.state = StmtState::Done;
                Turn::Done(())
            },
        }
    }

    /// How fetching a single row goes, and what it leaves: one step, as
    /// [`Stmt::step_plan`] says; a row is handed out, the end of the rows
    /// is the error `Empty`, and a failure is reported as
    /// [`Stmt::failure`] says. While the operation still asks, the
    /// statement is as it was.
    pub open spec fn get_row_plan(s: StmtView, replies: Seq<ReplyView>) -> (
        Plan<StmtView>,
        StmtView,
    ) {
        let (stepped, next) = Self::step_plan(s, replies);
        let plan = match stepped {
            Plan::Ask(call) => Plan::Ask(call),
            Plan::Failed(e) => Plan::Failed(e),
            Plan::Done(Stepped::Row) => Plan::Done(next),
            Plan::Done(Stepped::Done) => Plan::Failed(ErrorView::Empty),
            Plan::Done(Stepped::Failed) => Self::failure(replies),
        };
        if plan is Ask {
            (plan, s)
        } else {
            (plan, next)
        }
    }

    /// Steps once and gives the row the cursor then stands on.
    pub fn get_row<'a>(&'a mut self, replies: &[Reply]) -> (turn: Turn<Row<'a>>)
        ensures
            (turn@, final(self)@) == Self::get_row_plan(old(self)@, views(replies@)),
    {
        proof {
            use_type_invariant(&*self);
        }
        let before = self.state;
        match self.step(replies) {
            Turn::Ask(call) => Turn::Ask(call),
            Turn::Failed(e) => Turn::Failed(e),
            Turn::Done(Stepped::Row) => Turn::Done(Row::new(&*self)),
            Turn::Done(Stepped::Done) => Turn::Failed(Error::Empty),
            Turn::Done(Stepped::Failed) => {
                if replies.len() < 2 {
                    self.state = before;
                    Turn::Ask(Call::ErrMsg)
                } else {
                    Turn::Failed(Error::SqliteError(replies[1].text()))
                }
            },
        }
    }

    /// How rewinding goes, and what it leaves: an unprepared statement
    /// has nothing to rewind; otherwise the engine is asked once, and the
    /// cursor then stands before the first row. The bindings stay.
    pub open spec fn reset_plan(s: StmtView, replies: Seq<ReplyView>) -> (Plan<()>, StmtView) {
        if s.state is Unprepared {
            (Plan::Done(()), s)
        } else if replies.len() == 0 {
            (Plan::Ask(CallView::Reset), s)
        } else {
            (Plan::Done(()), StmtView { state: StmtState::Prepared, ..s })
        }
    }

    /// Rewinds the cursor so that the rows can be stepped through again.
    pub fn reset(&mut self, replies: &[Reply]) -> (turn: Turn<()>)
        ensures
            (turn@, final(self)@) == Self::reset_plan(old(self)@, views(replies@)),
    {
        proof {
            use_type_invariant(&*self);
        }
        match self.state {
            StmtState::Unprepared => Turn::Done(()),
            _ => {
                if replies.len() == 0 {
                    Turn::Ask(Call::Reset)
                } else {
                    self.state = StmtState::Prepared;
                    Turn::Done(())
                }
            },
        }
    }

    /// How clearing goes, and what it leaves: an unprepared statement
    /// has nothing to clear; otherwise the engine is asked once, and no
    /// position is bound any more. The cursor stays.
    pub open spec fn clear_plan(s: StmtView, replies: Seq<ReplyView>) -> (Plan<()>, StmtView) {
        if s.state is Unprepared {
            (Plan::Done(()), s)
        } else if replies.len() == 0 {
            (Plan::Ask(CallView::ClearBindings), s)
        } else {
            (Plan::Done(()), StmtView { bindings: Map::empty(), ..s })
        }
    }

    /// Takes every binding back.
    pub fn clear_bindings(&mut self, replies: &[Reply]) -> (turn: Turn<()>)
        ensures
            (turn@, final(self)@) == Self::clear_plan(old(self)@, views(replies@)),
    {
        proof {
            use_type_invariant(&*self);
        }
        match self.state {
            StmtState::Unprepared => Turn::Done(()),
            _ => {
                if replies.len() == 0 {
                    Turn::Ask(Call::ClearBindings)
                } else {
                    proof {
                        self.bindings@ = Map::empty();
                    }
                    Turn::Done(())
                }
            },
        }
    }

    /// The rows of the statement; the statement goes into them.
    pub fn get_rows(self) -> (rows: Rows<'con>)
        ensures
            rows@ == self@,
    {
        Rows::new(self)
    }

    /// Ends the statement: gives the call that releases its handle, or
    /// none if nothing was ever prepared.
    pub fn finalize(self) -> (call: Option<Call>)
        ensures
            match call {
                Some(c) => !(self@.state is Unprepared) && c@ == CallView::Finalize,
                None => self@.state is Unprepared,
            },
    {
        match self.state {
            StmtState::Unprepared => None,
            _ => Some(Call::Finalize),
        }
    }

    /// How preparing goes, and what it leaves. SQL text that holds the
    /// character with code 0 cannot be handed over and fails at once. A
    /// statement that is prepared already first has its handle released.
    /// Then the engine is asked to compile the text. If it refuses, its
    /// diagnostic text is fetched, the preparing fails with it, and the
    /// statement is unprepared. If it accepts, the column names are read
    /// as [`columns_plan`] says, and the statement is prepared with them
    /// and without bindings.
    pub open spec fn prepare_plan(s: StmtView, sql: Seq<char>, replies: Seq<ReplyView>) -> (
        Plan<()>,
        StmtView,
    ) {
        let rest = if s.state is Unprepared {
            replies
        } else {
            replies.skip(1)
        };
        if has_nul(sql) {
            (Plan::Failed(ErrorView::PrepareErr("Null Error"@)), s)
        } else if !(s.state is Unprepared) && replies.len() == 0 {
            (Plan::Ask(CallView::Finalize), s)
        } else if rest.len() == 0 {
            (Plan::Ask(CallView::Prepare { sql }), s)
        } else if rest[0] != ReplyView::Int(OK) {
            if rest.len() == 1 {
                (Plan::Ask(CallView::ErrMsg), s)
            } else {
                (Plan::Failed(ErrorView::PrepareErr(message(rest[1]))), StmtView::fresh())
            }
        } else {
            match columns_plan(rest.skip(1)) {
                Plan::Ask(call) => (Plan::Ask(call), s),
                Plan::Failed(e) => (Plan::Failed(e), StmtView::fresh()),
                Plan::Done(names) => (
                    Plan::Done(()),
                    StmtView { state: StmtState::Prepared, names, bindings: Map::empty() },
                ),
            }
        }
    }

    /// Compiles `sql` into the statement, in place of what it held.
    pub fn prepare(&mut self, sql: &str, replies: &[Reply]) -> (turn: Turn<()>)
        ensures
            (turn@, final(self)@) == Self::prepare_plan(old(self)@, sql@, views(replies@)),
    {
        proof {
            use_type_invariant(&*self);
        }
        if contains_nul(sql) {
            return Turn::Failed(Error::PrepareErr("Null Error".to_string()));
        }
        let skip: usize = match self.state {
            StmtState::Unprepared => 0,
            _ => 1,
        };
        if skip == 1 && replies.len() == 0 {
            return Turn::Ask(Call::Finalize);
        }
        let rest = slice_subrange(replies, skip, replies.len());
        assert(views(rest@) =~= views(replies@).skip(skip as int));
        assert(skip == 0 ==> views(replies@).skip(0) =~= views(replies@));
        if rest.len() == 0 {
            return Turn::Ask(Call::Prepare { sql: String::from_str(sql) });
        }
        if !rest[0].is_ok() {
            if rest.len() == 1 {
                return Turn::Ask(Call::ErrMsg);
            }
            self.forget();
            return Turn::Failed(Error::PrepareErr(rest[1].text()));
        }
        let tail = slice_subrange(rest, 1, rest.len());
        assert(views(tail@) =~= views(rest@).skip(1));
        match load_columns(tail) {
            Turn::Ask(call) => Turn::Ask(call),
            Turn::Failed(e) => {
                self.forget();
                Turn::Failed(e)
            },
            Turn::Done(names) => {
                self.forget();
                self.state = StmtState::Prepared;
                self.columns = names;
                Turn::Done(())
            },
        }
    }

    /// Makes the statement as one on which nothing was prepared.
    fn forget(&mut self)
        ensures
            final(self)@ == StmtView::fresh(),
    {
        proof {
            use_type_invariant(&*self);
        }
        self.columns = Vec::new();
        proof {
            self.bindings@ = Map::empty();
        }
        self.state = StmtState::Unprepared;
        assert(names_of(self.columns@) =~= Seq::<Seq<char>>::empty());
    }

    /// The number of result columns.
    pub fn colum_count(&self) -> (count: usize)
        ensures
            count == self@.names.len(),
            count <= i32::MAX,
    {
        proof {
            use_type_invariant(self);
        }
        self.columns.len()
    }

    /// The name of the column at `index`, counted from 0.
    pub fn colum_name(&self, index: usize) -> (r: Result<&str, Error>)
        ensures
            match r {
                Ok(name) => index < self@.names.len() && name@ == self@.names[index as int],
                Err(e) => index >= self@.names.len() && e@ == out_of_bounds(index),
            },
    {
        if index < self.columns.len() {
            Ok(self.columns[index].as_str())
        } else {
            Err(Error::IndexOutOfBounds(decimal_text(index)))
        }
    }

    /// The position of the first column named `key`, by exact match.
    pub fn colum_index(&self, key: &str) -> (r: Result<usize, Error>)
        ensures
            match r {
                Ok(index) => first_named(self@.names, key@) == Some(index as int),
                Err(e) => first_named(self@.names, key@) is None && e@
                    == ErrorView::ColumnNotFound(key@),
            },
    {
        let count = self.columns.len();
        let mut i: usize = 0;
        while i < count
            invariant
                i <= count,
                count == self.columns@.len(),
                forall|j: int| 0 <= j < i ==> self@.names[j] != key@,
            decreases count - i,
        {
            if str_eq(key, self.columns[i].as_str()) {
                proof {
                    lemma_first_named(self@.names, key@, i as int);
                }
                return Ok(i);
            }
            i += 1;
        }
        proof {
            lemma_first_named(self@.names, key@, 0);
        }
        Err(Error::ColumnNotFound(String::from_str(key)))
    }

    /// How a question about one column goes, up to the engine's reply: a
    /// position at or beyond the column count fails at once; where a row
    /// is needed and the cursor stands on none, the error is `Empty`;
    /// otherwise the engine is asked, and its reply is the result.
    pub open spec fn column_plan(
        s: StmtView,
        index: usize,
        needs_row: bool,
        call: CallView,
        replies: Seq<ReplyView>,
    ) -> Plan<ReplyView> {
        if index >= s.names.len() {
            Plan::Failed(out_of_bounds(index))
        } else if needs_row && !(s.state is Row) {
            Plan::Failed(ErrorView::Empty)
        } else if replies.len() == 0 {
            Plan::Ask(call)
        } else {
            Plan::Done(replies[0])
        }
    }

    /// One question about one column: the checks, the call, the reply.
    fn column<'a>(&self, index: usize, needs_row: bool, call: Call, replies: &'a [Reply]) -> (turn:
        Turn<&'a Reply>)
        ensures
            turn@ == Self::column_plan(self@, index, needs_row, call@, views(replies@)),
            turn matches Turn::Done(reply) ==> replies@.len() > 0 && *reply == replies@[0],
            index < self@.names.len() ==> index <= i32::MAX,
    {
        proof {
            use_type_invariant(self);
        }
        if index >= self.columns.len() {
            return Turn::Failed(Error::IndexOutOfBounds(decimal_text(index)));
        }
        if needs_row {
            match self.state {
                StmtState::Row => {},
                _ => {
                    return Turn::Failed(Error::Empty);
                },
            }
        }
        if replies.len() == 0 {
            Turn::Ask(call)
        } else {
            Turn::Done(&replies[0])
        }
    }

    /// How asking for a column's type goes: as [`Stmt::column_plan`]
    /// says, with no row needed; the reply has to be a type tag the
    /// engine defines.
    pub open spec fn colum_type_plan(s: StmtView, index: usize, replies: Seq<ReplyView>) -> Plan<
        SqliteTypes,
    > {
        match Self::column_plan(
            s,
            index,
            false,
            CallView::ColumnType { index: index as i32 },
            replies,
        ) {
            Plan::Ask(call) => Plan::Ask(call),
            Plan::Failed(e) => Plan::Failed(e),
            Plan::Done(ReplyView::Int(tag)) => match SqliteTypes::of_tag(tag) {
                Some(t) => Plan::Done(t),
                None => Plan::Failed(ErrorView::Unknown("Cannot SQLITE type"@)),
            },
            Plan::Done(_) => Plan::Failed(bad_reply()),
        }
    }

    /// The dynamic type of the column at `index` in the current row.
    pub fn colum_type(&self, index: usize, replies: &[Reply]) -> (turn: Turn<SqliteTypes>)
        ensures
            turn@ == Self::colum_type_plan(self@, index, views(replies@)),
    {
        let call = Call::ColumnType { index: position(index) };
        match self.column(index, false, call, replies) {
            Turn::Ask(call) => Turn::Ask(call),
            Turn::Failed(e) => Turn::Failed(e),
            Turn::Done(Reply::Int(tag)) => match SqliteTypes::new(*tag) {
                Ok(t) => Turn::Done(t),
                Err(e) => Turn::Failed(e),
            },
            Turn::Done(_) => Turn::Failed(
                Error::Unknown("Unexpected reply from the engine".to_string()),
            ),
        }
    }

    /// How reading a column's value goes: as [`Stmt::column_plan`] says,
    /// with a row needed and the call that `reader` stands for; the
    /// reply becomes the value as [`value_read`] says.
    pub open spec fn read_plan(
        s: StmtView,
        index: usize,
        reader: Reader,
        replies: Seq<ReplyView>,
    ) -> Plan<ValueView> {
        match Self::column_plan(s, index, true, reader.call(index as i32), replies) {
            Plan::Ask(call) => Plan::Ask(call),
            Plan::Failed(e) => Plan::Failed(e),
            Plan::Done(reply) => match value_read(reader, reply) {
                Some(v) => Plan::Done(v),
                None => Plan::Failed(bad_reply()),
            },
        }
    }

    /// Reads the column at `index` of the current row the given way.
    fn read(&self, index: usize, reader: Reader, replies: &[Reply]) -> (turn: Turn<Value>)
        ensures
            turn@ == Self::read_plan(self@, index, reader, views(replies@)),
    {
        let call = reader.to_call(position(index));
        match self.column(index, true, call, replies) {
            Turn::Ask(call) => Turn::Ask(call),
            Turn::Failed(e) => Turn::Failed(e),
            Turn::Done(reply) => match reader.value(reply) {
                Some(v) => Turn::Done(v),
                None => Turn::Failed(
                    Error::Unknown("Unexpected reply from the engine".to_string()),
                ),
            },
        }
    }

    /// The column at `index` of the current row, read as a number.
    pub fn get_double(&self, index: usize, replies: &[Reply]) -> (turn: Turn<Value>)
        ensures
            turn@ == Self::read_plan(self@, index, Reader::Double, views(replies@)),
    {
        self.read(index, Reader::Double, replies)
    }

    /// The column at `index` of the current row, read as a 32-bit integer.
    pub fn get_int32(&self, index: usize, replies: &[Reply]) -> (turn: Turn<Value>)
        ensures
            turn@ == Self::read_plan(self@, index, Reader::Int32, views(replies@)),
    {
        self.read(index, Reader::Int32, replies)
    }

    /// The column at `index` of the current row, read as a 64-bit integer.
    pub fn get_int64(&self, index: usize, replies: &[Reply]) -> (turn: Turn<Value>)
        ensures
            turn@ == Self::read_plan(self@, index, Reader::Int64, views(replies@)),
    {
        self.read(index, Reader::Int64, replies)
    }

    /// The column at `index` of the current row, read as bytes.
    pub fn get_blob(&self, index: usize, replies: &[Reply]) -> (turn: Turn<Value>)
        ensures
            turn@ == Self::read_plan(self@, index, Reader::Blob, views(replies@)),
    {
        self.read(index, Reader::Blob, replies)
    }

    /// The column at `index` of the current row, read as text.
    pub fn get_text(&self, index: usize, replies: &[Reply]) -> (turn: Turn<Value>)
        ensures
            turn@ == Self::read_plan(self@, index, Reader::Text, views(replies@)),
    {
        self.read(index, Reader::Text, replies)
    }
}

} // verus!
