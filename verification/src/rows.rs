use vstd::prelude::*;
use vstd::slice::slice_subrange;
use crate::codes::SqliteTypes;
use crate::column::{first_named, out_of_bounds, Reader};
use crate::con::SqliteCon;
use crate::engine::{views, Plan, Reply, ReplyView, Turn};
use crate::error::{Error, ErrorView};
use crate::stmt::{Stepped, Stmt, StmtState, StmtView};
use crate::text::decimal_text;
use crate::value::{FromValue, Value, ValueView};

verus! {

/// The row a statement's cursor stands on.
///
/// A row is a view: it borrows the statement, so the statement can be
/// neither stepped nor reset nor prepared anew while the row is in use.
pub struct Row<'con> {
    stmt: &'con Stmt<'con>,
}

impl<'con> View for Row<'con> {
    type V = StmtView;

    closed spec fn view(&self) -> StmtView {
        self.stmt@
    }
}

/// The way a column's value is read, by the column's dynamic type; a
/// column without a value is not read.
pub open spec fn reader_for(t: SqliteTypes) -> Option<Reader> {
    match t {
        SqliteTypes::Int => Some(Reader::Int64),
        SqliteTypes::FLoat => Some(Reader::Double),
        SqliteTypes::Text => Some(Reader::Text),
        SqliteTypes::Blob => Some(Reader::Blob),
        SqliteTypes::Null => None,
    }
}

/// A key that names a column of a statement: a position, or a name.
pub trait ColIndex {
    /// The position the key stands for among the columns `names`, or the
    /// error for a key that stands for none.
    spec fn resolve(&self, names: Seq<Seq<char>>) -> Result<int, ErrorView>;

    /// The position of the column of `stmt` that the key stands for.
    fn idx(&self, stmt: &Stmt) -> (r: Result<usize, Error>)
        ensures
            match r {
                Ok(index) => self.resolve(stmt@.names) == Ok::<int, ErrorView>(index as int)
                    && index < stmt@.names.len(),
                Err(e) => self.resolve(stmt@.names) == Err::<int, ErrorView>(e@),
            },
    ;
}

impl ColIndex for usize {
    /// A position stands for itself if it is below the column count.
    open spec fn resolve(&self, names: Seq<Seq<char>>) -> Result<int, ErrorView> {
        if *self < names.len() {
            Ok(*self as int)
        } else {
            Err(out_of_bounds(*self))
        }
    }

    fn idx(&self, stmt: &Stmt) -> (r: Result<usize, Error>) {
        if *self >= stmt.colum_count() {
            Err(Error::IndexOutOfBounds(decimal_text(*self)))
        } else {
            Ok(*self)
        }
    }
}

impl<'a> ColIndex for &'a str {
    /// A name stands for the first column that bears it.
    open spec fn resolve(&self, names: Seq<Seq<char>>) -> Result<int, ErrorView> {
        match first_named(names, self@) {
            Some(index) => Ok(index),
            None => Err(ErrorView::ColumnNotFound(self@)),
        }
    }

    fn idx(&self, stmt: &Stmt) -> (r: Result<usize, Error>) {
        stmt.colum_index(*self)
    }
}

impl<'con> Row<'con> {
    /// The current row of `stmt`.
    pub fn new(stmt: &'con Stmt<'con>) -> (row: Row<'con>)
        ensures
            row@ == stmt@,
    {
        Row { stmt }
    }

    /// How reading a column's value goes. A position at or beyond the
    /// column count fails at once, and with the cursor on no row the
    /// error is `Empty`. Otherwise the engine is asked for the column's
    /// dynamic type, as [`Stmt::colum_type_plan`] says; a column without
    /// a value gives `Null`, and any other is read the way
    /// [`reader_for`] gives for its type, as [`Stmt::read_plan`] says, on
    /// the replies after the first.
    pub open spec fn value_plan(s: StmtView, index: usize, replies: Seq<ReplyView>) -> Plan<
        ValueView,
    > {
        if index >= s.names.len() {
            Plan::Failed(out_of_bounds(index))
        } else if !(s.state is Row) {
            Plan::Failed(ErrorView::Empty)
        } else {
            match Stmt::colum_type_plan(s, index, replies) {
                Plan::Ask(call) => Plan::Ask(call),
                Plan::Failed(e) => Plan::Failed(e),
                Plan::Done(t) => match reader_for(t) {
                    None => Plan::Done(ValueView::Null),
                    Some(reader) => Stmt::read_plan(s, index, reader, replies.skip(1)),
                },
            }
        }
    }

    /// The value of the column at `index`, in the variant of the
    /// column's dynamic type.
    pub fn get_value(&self, index: usize, replies: &[Reply]) -> (turn: Turn<Value>)
        ensures
            turn@ == Self::value_plan(self@, index, views(replies@)),
    {
        if index >= self.stmt.colum_count() {
            return Turn::Failed(Error::IndexOutOfBounds(decimal_text(index)));
        }
        match self.stmt.state() {
            StmtState::Row => {},
            _ => {
                return Turn::Failed(Error::Empty);
            },
        }
        let t = match self.stmt.colum_type(index, replies) {
            Turn::Ask(call) => {
                return Turn::Ask(call);
            },
            Turn::Failed(e) => {
                return Turn::Failed(e);
            },
            Turn::Done(t) => t,
        };
        let rest = slice_subrange(replies, 1, replies.len());
        assert(views(rest@) =~= views(replies@).skip(1));
        match t {
            SqliteTypes::Int => self.stmt.get_int64(index, rest),
            SqliteTypes::FLoat => self.stmt.get_double(index, rest),
            SqliteTypes::Text => self.stmt.get_text(index, rest),
            SqliteTypes::Blob => self.stmt.get_blob(index, rest),
            SqliteTypes::Null => Turn::Done(Value::Null),
        }
    }

    /// How reading the column that a key names goes: a key that stands
    /// for no column fails with its error, and the column at the
    /// position it stands for is read as [`Row::value_plan`] says.
    pub open spec fn get_plan(
        s: StmtView,
        resolved: Result<int, ErrorView>,
        replies: Seq<ReplyView>,
    ) -> Plan<ValueView> {
        match resolved {
            Err(e) => Plan::Failed(e),
            Ok(index) => Self::value_plan(s, index as usize, replies),
        }
    }

    /// The column that `key` names, as a value of the type asked for:
    /// the value is read as [`Row::get_plan`] says and then taken as the
    /// type, which fails with `ConversionError` where it does not fit.
    pub fn get<E: FromValue, T: ColIndex>(&self, key: T, replies: &[Reply]) -> (turn: Turn<E>)
        ensures
            match Self::get_plan(self@, key.resolve(self@.names), views(replies@)) {
                Plan::Ask(call) => turn matches Turn::Ask(c) && c@ == call,
                Plan::Failed(e) => turn matches Turn::Failed(err) && err@ == e,
                Plan::Done(v) => if E::fits(v) {
                    turn matches Turn::Done(x) && x.is_from(v)
                } else {
                    turn matches Turn::Failed(err) && err@ == ErrorView::ConversionError
                },
            },
    {
        let index = match key.idx(self.stmt) {
            Ok(index) => index,
            Err(e) => {
                return Turn::Failed(e);
            },
        };
        match self.get_value(index, replies) {
            Turn::Ask(call) => Turn::Ask(call),
            Turn::Failed(e) => Turn::Failed(e),
            Turn::Done(v) => match E::from_value(v) {
                Ok(x) => Turn::Done(x),
                Err(e) => Turn::Failed(e),
            },
        }
    }
}

/// The rows of a statement: a forward-only pass over what stepping the
/// statement gives.
pub struct Rows<'con> {
    stmt: Stmt<'con>,
}

impl<'con> View for Rows<'con> {
    type V = StmtView;

    closed spec fn view(&self) -> StmtView {
        self.stmt@
    }
}

impl<'con> Rows<'con> {
    /// The rows of `stmt`.
    pub fn new(stmt: Stmt<'con>) -> (rows: Rows<'con>)
        ensures
            rows@ == stmt@,
    {
        Rows { stmt }
    }

    /// The statement whose rows these are.
    pub fn get_stmt(&self) -> (stmt: &Stmt<'con>)
        ensures
            stmt@ == self@,
    {
        &self.stmt
    }

    /// The statement whose rows these are, to step, rewind or prepare it:
    /// what is done to it is done to the rows.
    pub fn get_stmt_mut(&mut self) -> (stmt: &mut Stmt<'con>)
        ensures
            stmt@ == old(self)@,
            final(self)@ == final(stmt)@,
    {
        &mut self.stmt
    }

    /// Gives the statement back.
    pub fn into_stmt(self) -> (stmt: Stmt<'con>)
        ensures
            stmt@ == self@,
    {
        self.stmt
    }

    /// The pass over the rows, from where the cursor stands.
    pub fn iter<'a>(&'a mut self) -> (it: RowIterator<'a, 'con>)
        ensures
            it@ == old(self)@,
            final(self)@ == final(it.stmt)@,
    {
        RowIterator::new(self)
    }

    /// How executing through the rows goes, and what it leaves: one
    /// step, as [`Stmt::step_plan`] says; a row or the end of the rows is
    /// success, and an error of the engine fails without its text.
    pub open spec fn execute_plan(s: StmtView, replies: Seq<ReplyView>) -> (Plan<()>, StmtView) {
        let (plan, next) = Stmt::step_plan(s, replies);
        match plan {
            Plan::Ask(call) => (Plan::Ask(call), next),
            Plan::Failed(e) => (Plan::Failed(e), next),
            Plan::Done(Stepped::Failed) => (
                Plan::Failed(ErrorView::Unknown("Failed to execute prepared stmt"@)),
                next,
            ),
            Plan::Done(_) => (Plan::Done(()), next),
        }
    }

    /// Advances the cursor once and succeeds whether or not that gave a
    /// row.
    pub fn execute(&mut self, replies: &[Reply]) -> (turn: Turn<()>)
        ensures
            (turn@, final(self)@) == Self::execute_plan(old(self)@, views(replies@)),
    {
        match self.stmt.step(replies) {
            Turn::Ask(call) => Turn::Ask(call),
            Turn::Failed(e) => Turn::Failed(e),
            Turn::Done(Stepped::Failed) => Turn::Failed(
                Error::Unknown("Failed to execute prepared stmt".to_string()),
            ),
            Turn::Done(_) => Turn::Done(()),
        }
    }
}

/// What a query came to: the connection it ran on, what it changed, and
/// its rows.
pub struct QueryResult<'a> {
    pub con: &'a SqliteCon,
    pub affected_rows: Option<usize>,
    pub last_insert_id: Option<u64>,
    pub rows: Rows<'a>,
}

/// A pass over the rows of a statement. It holds the statement for
/// itself while it lasts, and each row it hands out holds the pass: a
/// row cannot be kept across the next step.
pub struct RowIterator<'a, 'con> {
    /// The statement that the pass steps.
    pub stmt: &'a mut Stmt<'con>,
}

impl<'a, 'con> View for RowIterator<'a, 'con> {
    type V = StmtView;

    open spec fn view(&self) -> StmtView {
        self.stmt@
    }
}

impl<'a, 'con> RowIterator<'a, 'con> {
    /// The pass over `rows`, from where the cursor stands.
    pub fn new(rows: &'a mut Rows<'con>) -> (it: RowIterator<'a, 'con>)
        ensures
            it@ == old(rows)@,
            final(rows)@ == final(it.stmt)@,
    {
        RowIterator { stmt: &mut rows.stmt }
    }

    /// How advancing the pass goes, and what it leaves: one step, as
    /// [`Stmt::step_plan`] says. A row is handed out; the end of the
    /// rows ends the pass, and so does, silently, every failure.
    pub open spec fn next_plan(s: StmtView, replies: Seq<ReplyView>) -> (
        Plan<Option<StmtView>>,
        StmtView,
    ) {
        let (plan, next) = Stmt::step_plan(s, replies);
        match plan {
            Plan::Ask(call) => (Plan::Ask(call), next),
            Plan::Done(Stepped::Row) => (Plan::Done(Some(next)), next),
            _ => (Plan::Done(None), next),
        }
    }

    /// Steps the statement once and gives the row, if there is one.
    pub fn next<'b>(&'b mut self, replies: &[Reply]) -> (turn: Turn<Option<Row<'b>>>)
        ensures
            final(self)@ == Self::next_plan(old(self)@, views(replies@)).1,
            match Self::next_plan(old(self)@, views(replies@)).0 {
                Plan::Ask(call) => turn matches Turn::Ask(c) && c@ == call,
                Plan::Done(Some(s)) => turn matches Turn::Done(Some(row)) && row@ == s,
                _ => turn matches Turn::Done(None),
            },
    {
        match self.stmt.step(replies) {
            Turn::Ask(call) => Turn::Ask(call),
            Turn::Done(Stepped::Row) => Turn::Done(Some(Row::new(&*self.stmt))),
            _ => Turn::Done(None),
        }
    }
}

} // verus!
