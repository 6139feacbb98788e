//! A mathematical stand-in for a conforming engine, and what the layer
//! comes to when a driver runs it against one.
//!
//! Nothing here is executed, and nothing here is claimed of any engine.
//! The stand-in says how an engine answers the calls of one statement if
//! it conforms; [`run`] is the driver's loop; and the laws say that the
//! layer, run against any engine that answers so, prepares with the
//! engine's columns, binds what it was given where it was told, hands out
//! the engine's rows, each once and in the engine's order, and does so
//! again after a reset.

use vstd::prelude::*;
use crate::binding::binding;
use crate::codes::{DONE, OK, ROW};
use crate::engine::{CallView, Plan, ReplyView};
use crate::error::ErrorView;
use crate::laws::{accepted, bound_with, lemma_bind_values_runs};
use crate::rows::{Row, RowIterator};
use crate::stmt::{Stmt, StmtState, StmtView};
use crate::text::has_nul;
use crate::value::ValueView;

verus! {

/// What a conforming engine holds for one statement.
pub struct Engine {
    /// Its most recent diagnostic text.
    pub message: Seq<char>,
    /// The names of the columns of the query it compiles.
    pub columns: Seq<Seq<char>>,
    /// The number of parameters of the query.
    pub slots: int,
    /// The binding it has accepted for each position.
    pub bound: Map<int, CallView>,
    /// The rows of the result, each with one value for each column.
    pub rows: Seq<Seq<ValueView>>,
    /// The place of the cursor: -1 before the first row, the number of
    /// rows after the last.
    pub at: int,
}

/// The type tag the engine gives for a value.
pub open spec fn tag(value: ValueView) -> i32 {
    match value {
        ValueView::Int(_) => 1,
        ValueView::Uint(_) => 1,
        ValueView::Float(_) => 2,
        ValueView::String(_) => 3,
        ValueView::Bytes(_) => 4,
        ValueView::Null => 5,
    }
}

/// The status with which the engine refuses a position that the query
/// does not have.
pub open spec fn out_of_range() -> ReplyView {
    ReplyView::Int(25)
}

impl Engine {
    /// What holds of every such engine: the columns can be counted in 32
    /// bits, every row has a value for each column, each of one of the
    /// engine's five types, and the cursor stands before, on or after the
    /// rows.
    pub open spec fn wf(self) -> bool {
        &&& self.columns.len() <= i32::MAX
        &&& 0 <= self.slots
        &&& -1 <= self.at <= self.rows.len()
        &&& forall|k: int|
            0 <= k < self.rows.len() ==> (#[trigger] self.rows[k]).len() == self.columns.len()
        &&& forall|k: int, i: int|
            0 <= k < self.rows.len() && 0 <= i < self.columns.len() ==> !(
            #[trigger] self.rows[k][i] is Uint)
    }

    /// Whether the cursor stands on a row.
    pub open spec fn on_row(self) -> bool {
        0 <= self.at < self.rows.len()
    }

    /// The value of the column at `index` in the row under the cursor.
    pub open spec fn cell(self, index: int) -> ValueView {
        self.rows[self.at][index]
    }

    /// How the engine takes a binding: it keeps the call for a position
    /// that the query has, and refuses any other position.
    pub open spec fn bind(self, call: CallView, index: i32) -> (Engine, ReplyView) {
        if 1 <= index <= self.slots {
            (Engine { bound: self.bound.insert(index as int, call), ..self }, ReplyView::Int(OK))
        } else {
            (self, out_of_range())
        }
    }

    /// How the engine answers a call, and what the call leaves of it.
    ///
    /// It compiles the text it is given, which rewinds the cursor and
    /// leaves nothing bound, and tells its columns by count and by
    /// name. It takes bindings as [`Engine::bind`] says. A step moves the
    /// cursor to the next row and says whether there is one; a reset
    /// moves it before the first row. A question about a column of the
    /// row under the cursor is answered from that row: the type by its
    /// tag, and a read that matches the type by the value itself. Of
    /// what is left the stand-in says nothing of use.
    pub open spec fn answer(self, call: CallView) -> (Engine, ReplyView) {
        match call {
            CallView::Prepare { .. } => (
                Engine { bound: Map::empty(), at: -1, ..self },
                ReplyView::Int(OK),
            ),
            CallView::Finalize => (self, ReplyView::Int(OK)),
            CallView::ErrMsg => (self, ReplyView::Text(self.message)),
            CallView::ColumnCount => (self, ReplyView::Int(self.columns.len() as i32)),
            CallView::ColumnName { index } => (self, ReplyView::Text(self.columns[index as int])),
            CallView::BindInt64 { index, .. } => self.bind(call, index),
            CallView::BindDouble { index, .. } => self.bind(call, index),
            CallView::BindText { index, .. } => self.bind(call, index),
            CallView::BindNull { index } => self.bind(call, index),
            CallView::ClearBindings => (
                Engine { bound: Map::empty(), ..self },
                ReplyView::Int(OK),
            ),
            CallView::Step => if self.at + 1 < self.rows.len() {
                (Engine { at: self.at + 1, ..self }, ReplyView::Int(ROW))
            } else {
                (Engine { at: self.rows.len() as int, ..self }, ReplyView::Int(DONE))
            },
            CallView::Reset => (Engine { at: -1, ..self }, ReplyView::Int(OK)),
            CallView::ColumnType { index } => (self, ReplyView::Int(tag(self.cell(index as int)))),
            CallView::ColumnInt64 { index } => (
                self,
                match self.cell(index as int) {
                    ValueView::Int(v) => ReplyView::Int64(v),
                    _ => ReplyView::Null,
                },
            ),
            CallView::ColumnDouble { index } => (
                self,
                match self.cell(index as int) {
                    ValueView::Float(v) => ReplyView::Double(v),
                    _ => ReplyView::Null,
                },
            ),
            CallView::ColumnText { index } => (
                self,
                match self.cell(index as int) {
                    ValueView::String(v) => ReplyView::Text(v),
                    _ => ReplyView::Null,
                },
            ),
            CallView::ColumnBlob { index } => (
                self,
                match self.cell(index as int) {
                    ValueView::Bytes(v) => ReplyView::Blob(v),
                    _ => ReplyView::Null,
                },
            ),
            _ => (self, ReplyView::Null),
        }
    }
}

/// An operation of the layer as the driver sees it: from the replies so
/// far to where the operation stands and what it leaves of the
/// statement. An operation that asks leaves the statement as it was, so
/// every turn of a run starts from the same statement.
pub type Operation<V> = spec_fn(Seq<ReplyView>) -> (Plan<V>, StmtView);

/// The driver's loop. The operation is run on the replies so far; while
/// it asks for a call, the engine answers the call, the reply is
/// appended, and the operation is run again, for `turns` calls at most.
/// Gives where the operation stands at the end, what it leaves of the
/// statement, and what the calls leave of the engine.
pub open spec fn run<V>(op: Operation<V>, engine: Engine, replies: Seq<ReplyView>, turns: nat) -> (
    Plan<V>,
    StmtView,
    Engine,
)
    decreases turns,
{
    let (plan, next) = op(replies);
    if turns > 0 && plan is Ask {
        let (moved, reply) = engine.answer(plan->Ask_0);
        run(op, moved, replies.push(reply), (turns - 1) as nat)
    } else {
        (plan, next, engine)
    }
}

/// Whether a statement holds of the engine what the engine holds: the
/// same columns, a value for exactly the positions for which the engine
/// holds a binding, each the value that the binding carries, and a row
/// under the engine's cursor whenever the statement stands on one.
pub open spec fn agree(s: StmtView, engine: Engine) -> bool {
    &&& !(s.state is Unprepared)
    &&& s.names == engine.columns
    &&& s.bindings.dom() =~= engine.bound.dom()
    &&& forall|p: int|
        s.bindings.dom().contains(p) ==> binding(#[trigger] s.bindings[p], p as i32) == Some(
            engine.bound[p],
        )
    &&& s.state is Row ==> engine.on_row()
}

/// Preparing, as the driver sees it.
pub open spec fn preparing(s: StmtView, sql: Seq<char>) -> Operation<()> {
    |replies: Seq<ReplyView>| Stmt::prepare_plan(s, sql, replies)
}

/// Binding one value, as the driver sees it.
pub open spec fn binding_one(s: StmtView, value: ValueView, position: i32) -> Operation<()> {
    |replies: Seq<ReplyView>| Stmt::bind_plan(s, value, position, replies)
}

/// Binding a run of values, as the driver sees it.
pub open spec fn binding_all(s: StmtView, params: Seq<ValueView>) -> Operation<()> {
    |replies: Seq<ReplyView>| Stmt::bind_values_plan(s, params, replies)
}

/// Taking the bindings back, as the driver sees it.
pub open spec fn clearing(s: StmtView) -> Operation<()> {
    |replies: Seq<ReplyView>| Stmt::clear_plan(s, replies)
}

/// Rewinding, as the driver sees it.
pub open spec fn rewinding(s: StmtView) -> Operation<()> {
    |replies: Seq<ReplyView>| Stmt::reset_plan(s, replies)
}

/// Advancing a pass over the rows, as the driver sees it.
pub open spec fn advancing(s: StmtView) -> Operation<Option<StmtView>> {
    |replies: Seq<ReplyView>| RowIterator::next_plan(s, replies)
}

/// Reading the value of a column, as the driver sees it.
pub open spec fn reading(s: StmtView, index: usize) -> Operation<ValueView> {
    |replies: Seq<ReplyView>| (Row::value_plan(s, index, replies), s)
}

/// Binding a value to a position that the query has binds it: the
/// engine holds the call that carries the value, the statement holds the
/// value, and they agree as before. A position that the query does not
/// have fails with the engine's diagnostic text and changes nothing.
pub proof fn lemma_run_bind(s: StmtView, engine: Engine, value: ValueView, position: i32)
    requires
        s.wf(),
        engine.wf(),
        agree(s, engine),
        binding(value, position) is Some,
    ensures
        1 <= position <= engine.slots ==> run(
            binding_one(s, value, position),
            engine,
            Seq::empty(),
            2,
        ) == (
            Plan::Done(()),
            StmtView { bindings: s.bindings.insert(position as int, value), ..s },
            Engine {
                bound: engine.bound.insert(position as int, binding(value, position).unwrap()),
                ..engine
            },
        ),
        1 <= position <= engine.slots ==> agree(
            run(binding_one(s, value, position), engine, Seq::empty(), 2).1,
            run(binding_one(s, value, position), engine, Seq::empty(), 2).2,
        ),
        !(1 <= position <= engine.slots) ==> run(
            binding_one(s, value, position),
            engine,
            Seq::empty(),
            2,
        ) == (Plan::<()>::Failed(ErrorView::BindError(engine.message)), s, engine),
{
    let op = binding_one(s, value, position);
    let call = binding(value, position).unwrap();
    let empty = Seq::<ReplyView>::empty();
    assert(op(empty).0 == Plan::<()>::Ask(call));
    let (moved, reply) = engine.answer(call);
    let one = empty.push(reply);
    assert(one[0] == reply);
    reveal_with_fuel(run, 3);
    if 1 <= position <= engine.slots {
        assert(reply == ReplyView::Int(OK));
    } else {
        assert(reply == out_of_range());
        assert(op(one).0 == Plan::<()>::Ask(CallView::ErrMsg));
        let two = one.push(moved.answer(CallView::ErrMsg).1);
        assert(two[0] == reply);
        assert(two[1] == ReplyView::Text(engine.message));
    }
}

/// The replies to the reading of the column names after the first `k`
/// names were given, from the status of the compiling on.
pub open spec fn named(engine: Engine, k: int) -> Seq<ReplyView> {
    seq![ReplyView::Int(OK), ReplyView::Int(engine.columns.len() as i32)] + Seq::new(
        k as nat,
        |i: int| ReplyView::Text(engine.columns[i]),
    )
}

/// Preparing against the engine prepares. Whatever the statement held,
/// it is then prepared with the engine's columns, in the engine's order,
/// and without bindings; the engine has compiled the text, holds no
/// binding, and its cursor stands before the first row; and the two
/// agree.
pub proof fn lemma_run_prepare(s: StmtView, engine: Engine, sql: Seq<char>)
    requires
        s.wf(),
        engine.wf(),
        !has_nul(sql),
    ensures
        run(preparing(s, sql), engine, Seq::empty(), engine.columns.len() + 3) == (
            Plan::Done(()),
            StmtView { state: StmtState::Prepared, names: engine.columns, bindings: Map::empty() },
            Engine { bound: Map::empty(), at: -1, ..engine },
        ),
        agree(
            run(preparing(s, sql), engine, Seq::empty(), engine.columns.len() + 3).1,
            run(preparing(s, sql), engine, Seq::empty(), engine.columns.len() + 3).2,
        ),
{
    let op = preparing(s, sql);
    let n = engine.columns.len();
    let compiled = Engine { bound: Map::empty(), at: -1, ..engine };
    let empty = Seq::<ReplyView>::empty();
    let head = if s.state is Unprepared {
        empty
    } else {
        seq![ReplyView::Int(OK)]
    };
    let asked = head.push(ReplyView::Int(OK));
    let counted = asked.push(ReplyView::Int(n as i32));
    assert(counted =~= head + named(compiled, 0));
    lemma_names_come(s, compiled, sql, head, 0);
    reveal_with_fuel(run, 4);
    if s.state is Unprepared {
        assert(empty.skip(0) =~= empty);
        assert(op(empty).0 == Plan::<()>::Ask(CallView::Prepare { sql }));
        assert(asked.skip(0) =~= asked);
        assert(asked.skip(1) =~= empty);
        assert(op(asked).0 == Plan::<()>::Ask(CallView::ColumnCount));
        assert(run(op, engine, empty, n + 3) == run(op, compiled, asked, (n + 2) as nat));
        assert(run(op, compiled, asked, (n + 2) as nat) == run(
            op,
            compiled,
            counted,
            (n + 1) as nat,
        ));
        lemma_more_turns(op, compiled, counted, n, (n + 1) as nat);
    } else {
        assert(op(empty).0 == Plan::<()>::Ask(CallView::Finalize));
        assert(head =~= empty.push(ReplyView::Int(OK)));
        assert(head.skip(1) =~= empty);
        assert(op(head).0 == Plan::<()>::Ask(CallView::Prepare { sql }));
        assert(asked.skip(1) =~= seq![ReplyView::Int(OK)]);
        assert(asked.skip(1).skip(1) =~= empty);
        assert(op(asked).0 == Plan::<()>::Ask(CallView::ColumnCount));
        assert(run(op, engine, empty, n + 3) == run(op, engine, head, (n + 2) as nat));
        assert(run(op, engine, head, (n + 2) as nat) == run(op, compiled, asked, (n + 1) as nat));
        assert(run(op, compiled, asked, (n + 1) as nat) == run(op, compiled, counted, n));
    }
}

/// Turns that are left over change nothing: a run that has ended within
/// some number of turns ends the same within more.
pub proof fn lemma_more_turns<V>(
    op: Operation<V>,
    engine: Engine,
    replies: Seq<ReplyView>,
    turns: nat,
    more: nat,
)
    requires
        turns <= more,
        !(run(op, engine, replies, turns).0 is Ask),
    ensures
        run(op, engine, replies, more) == run(op, engine, replies, turns),
    decreases turns,
{
    let (plan, next) = op(replies);
    if plan is Ask {
        let (moved, reply) = engine.answer(plan->Ask_0);
        lemma_more_turns(op, moved, replies.push(reply), (turns - 1) as nat, (more - 1) as nat);
    }
}

/// The reading of the column names goes on from the first `k` names to
/// the end: each name that is missing is asked for and given.
proof fn lemma_names_come(
    s: StmtView,
    engine: Engine,
    sql: Seq<char>,
    head: Seq<ReplyView>,
    k: int,
)
    requires
        s.wf(),
        engine.wf(),
        !has_nul(sql),
        head == (if s.state is Unprepared {
            Seq::<ReplyView>::empty()
        } else {
            seq![ReplyView::Int(OK)]
        }),
        0 <= k <= engine.columns.len(),
    ensures
        run(preparing(s, sql), engine, head + named(engine, k), (engine.columns.len() - k) as nat)
            == (
            Plan::Done(()),
            StmtView { state: StmtState::Prepared, names: engine.columns, bindings: Map::empty() },
            engine,
        ),
    decreases engine.columns.len() - k,
{
    let op = preparing(s, sql);
    let n = engine.columns.len();
    let replies = head + named(engine, k);
    let rest = if s.state is Unprepared {
        replies
    } else {
        replies.skip(1)
    };
    assert(rest =~= named(engine, k));
    let tail = rest.skip(1);
    assert(tail.len() == k + 1);
    assert(tail[0] == ReplyView::Int(n as i32));
    assert forall|i: int| 0 <= i < k implies #[trigger] tail[1 + i] == ReplyView::Text(
        engine.columns[i],
    ) by {
        assert(tail[1 + i] == named(engine, k)[2 + i]);
    }
    if k == n {
        assert(Seq::new(n as nat, |i: int| tail[1 + i]->Text_0) =~= engine.columns);
    } else {
        assert(op(replies).0 == Plan::<()>::Ask(CallView::ColumnName { index: k as i32 }));
        let reply = engine.answer(CallView::ColumnName { index: k as i32 }).1;
        assert(replies.push(reply) =~= head + named(engine, k + 1));
        lemma_names_come(s, engine, sql, head, k + 1);
    }
}

/// The bindings the engine holds after it accepted the first `k` of
/// `params`, from position 1 on, over the bindings `before`.
pub open spec fn calls_with(
    before: Map<int, CallView>,
    params: Seq<ValueView>,
    k: int,
) -> Map<int, CallView> {
    Map::new(
        |p: int| before.dom().contains(p) || 1 <= p <= k,
        |p: int|
            if 1 <= p <= k {
                binding(params[p - 1], p as i32).unwrap()
            } else {
                before[p]
            },
    )
}

/// The statement and the engine after the first `k` of `params` were
/// bound.
pub open spec fn bound_to(s: StmtView, engine: Engine, params: Seq<ValueView>, k: int) -> (
    StmtView,
    Engine,
) {
    (
        StmtView { bindings: bound_with(s.bindings, params, k), ..s },
        Engine { bound: calls_with(engine.bound, params, k), ..engine },
    )
}

/// Binding a run of values against the engine binds them in order. If
/// the query has a position for each value, every value is bound to the
/// position one above its place and nothing else changes. If it has
/// fewer, the values it has positions for are bound, and the run fails
/// at the first value beyond them with the engine's diagnostic text.
/// Statement and engine agree afterwards as before.
pub proof fn lemma_run_bind_values(s: StmtView, engine: Engine, params: Seq<ValueView>)
    requires
        s.wf(),
        engine.wf(),
        agree(s, engine),
        params.len() < i32::MAX,
        forall|i: int| 0 <= i < params.len() ==> binding(#[trigger] params[i], (i + 1) as i32)
            is Some,
    ensures
        params.len() <= engine.slots ==> run(
            binding_all(s, params),
            engine,
            Seq::empty(),
            params.len() + 2,
        ) == (
            Plan::Done(()),
            bound_to(s, engine, params, params.len() as int).0,
            bound_to(s, engine, params, params.len() as int).1,
        ),
        params.len() > engine.slots ==> run(
            binding_all(s, params),
            engine,
            Seq::empty(),
            params.len() + 2,
        ) == (
            Plan::<()>::Failed(ErrorView::BindError(engine.message)),
            bound_to(s, engine, params, engine.slots).0,
            bound_to(s, engine, params, engine.slots).1,
        ),
        agree(
            run(binding_all(s, params), engine, Seq::empty(), params.len() + 2).1,
            run(binding_all(s, params), engine, Seq::empty(), params.len() + 2).2,
        ),
{
    let m = if params.len() <= engine.slots {
        params.len() as int
    } else {
        engine.slots
    };
    assert(calls_with(engine.bound, params, 0) =~= engine.bound);
    assert(Seq::new(0, |i: int| ReplyView::Int(OK)) =~= Seq::<ReplyView>::empty());
    lemma_binds_come(s, engine, params, 0);
    let (bound, held) = bound_to(s, engine, params, m);
    assert(bound.bindings.dom() =~= held.bound.dom());
}

/// The run of bindings goes on from the first `k` values to its end.
proof fn lemma_binds_come(s: StmtView, engine: Engine, params: Seq<ValueView>, k: int)
    requires
        s.wf(),
        !(s.state is Unprepared),
        engine.wf(),
        params.len() < i32::MAX,
        0 <= k <= params.len(),
        k <= engine.slots,
        forall|i: int| 0 <= i < params.len() ==> binding(#[trigger] params[i], (i + 1) as i32)
            is Some,
    ensures
        params.len() <= engine.slots ==> run(
            binding_all(s, params),
            bound_to(s, engine, params, k).1,
            Seq::new(k as nat, |i: int| ReplyView::Int(OK)),
            (params.len() - k + 2) as nat,
        ) == (
            Plan::Done(()),
            bound_to(s, engine, params, params.len() as int).0,
            bound_to(s, engine, params, params.len() as int).1,
        ),
        params.len() > engine.slots ==> run(
            binding_all(s, params),
            bound_to(s, engine, params, k).1,
            Seq::new(k as nat, |i: int| ReplyView::Int(OK)),
            (params.len() - k + 2) as nat,
        ) == (
            Plan::<()>::Failed(ErrorView::BindError(engine.message)),
            bound_to(s, engine, params, engine.slots).0,
            bound_to(s, engine, params, engine.slots).1,
        ),
    decreases params.len() - k,
{
    let op = binding_all(s, params);
    let replies = Seq::new(k as nat, |i: int| ReplyView::Int(OK));
    let held = bound_to(s, engine, params, k).1;
    assert(accepted(replies, k));
    lemma_bind_values_runs(s, params, replies);
    if k < params.len() {
        let call = binding(params[k], (k + 1) as i32).unwrap();
        assert(op(replies).0 == Plan::<()>::Ask(call));
        let (moved, reply) = held.answer(call);
        let next = replies.push(reply);
        if k < engine.slots {
            assert(reply == ReplyView::Int(OK));
            assert(next =~= Seq::new((k + 1) as nat, |i: int| ReplyView::Int(OK)));
            assert(moved.bound =~= calls_with(engine.bound, params, k + 1));
            lemma_binds_come(s, engine, params, k + 1);
        } else {
            assert(reply == out_of_range());
            assert(moved == held);
            assert(accepted(next, k));
            assert(next[k] != ReplyView::Int(OK));
            lemma_bind_values_runs(s, params, next);
            assert(op(next).0 == Plan::<()>::Ask(CallView::ErrMsg));
            let last = next.push(held.answer(CallView::ErrMsg).1);
            assert(accepted(last, k));
            assert(last[k] != ReplyView::Int(OK));
            assert(last[k + 1] == ReplyView::Text(engine.message));
            lemma_bind_values_runs(s, params, last);
            assert(Stmt::bind_values_plan(s, params, last).0 == Plan::<()>::Failed(
                ErrorView::BindError(engine.message),
            ));
            reveal_with_fuel(run, 3);
        }
    }
}

/// Taking the bindings back against the engine leaves none on either
/// side.
pub proof fn lemma_run_clear(s: StmtView, engine: Engine)
    requires
        s.wf(),
        engine.wf(),
        agree(s, engine),
    ensures
        run(clearing(s), engine, Seq::empty(), 1) == (
            Plan::Done(()),
            StmtView { bindings: Map::empty(), ..s },
            Engine { bound: Map::empty(), ..engine },
        ),
        agree(
            run(clearing(s), engine, Seq::empty(), 1).1,
            run(clearing(s), engine, Seq::empty(), 1).2,
        ),
{
    reveal_with_fuel(run, 2);
}

/// On a row, each column is read as the value the engine holds for it,
/// in the variant of its type, and the reading moves nothing.
pub proof fn lemma_run_read(s: StmtView, engine: Engine, index: usize)
    requires
        s.wf(),
        engine.wf(),
        agree(s, engine),
        s.state is Row,
        index < s.names.len(),
    ensures
        run(reading(s, index), engine, Seq::empty(), 2) == (
            Plan::Done(engine.cell(index as int)),
            s,
            engine,
        ),
{
    let op = reading(s, index);
    let cell = engine.cell(index as int);
    assert(cell == engine.rows[engine.at][index as int]);
    assert(!(cell is Uint));
    let empty = Seq::<ReplyView>::empty();
    let first = CallView::ColumnType { index: index as i32 };
    assert(op(empty).0 == Plan::<ValueView>::Ask(first));
    let one = empty.push(engine.answer(first).1);
    assert(one[0] == ReplyView::Int(tag(cell)));
    assert(one.skip(1) =~= empty);
    reveal_with_fuel(run, 3);
    match cell {
        ValueView::Null => {},
        _ => {
            let second = op(one).0->Ask_0;
            let two = one.push(engine.answer(second).1);
            assert(two[0] == one[0]);
            assert(two.skip(1) =~= seq![engine.answer(second).1]);
        },
    }
}

/// Advancing a pass against the engine moves to the next row. Where the
/// engine has a row after its cursor, the row is handed out, the
/// statement stands on it, and the cursor is on it; where it has none,
/// no row is handed out and the statement is done. Statement and engine
/// agree afterwards as before.
pub proof fn lemma_run_advance(s: StmtView, engine: Engine)
    requires
        s.wf(),
        engine.wf(),
        agree(s, engine),
    ensures
        engine.at + 1 < engine.rows.len() ==> run(advancing(s), engine, Seq::empty(), 1) == (
            Plan::Done(Some(StmtView { state: StmtState::Row, ..s })),
            StmtView { state: StmtState::Row, ..s },
            Engine { at: engine.at + 1, ..engine },
        ),
        engine.at + 1 >= engine.rows.len() ==> run(advancing(s), engine, Seq::empty(), 1) == (
            Plan::<Option<StmtView>>::Done(None),
            StmtView { state: StmtState::Done, ..s },
            Engine { at: engine.rows.len() as int, ..engine },
        ),
        agree(
            run(advancing(s), engine, Seq::empty(), 1).1,
            run(advancing(s), engine, Seq::empty(), 1).2,
        ),
{
    reveal_with_fuel(run, 2);
}

/// Rewinding against the engine puts both before the first row and
/// changes nothing else.
pub proof fn lemma_run_rewind(s: StmtView, engine: Engine)
    requires
        s.wf(),
        engine.wf(),
        agree(s, engine),
    ensures
        run(rewinding(s), engine, Seq::empty(), 1) == (
            Plan::Done(()),
            StmtView { state: StmtState::Prepared, ..s },
            Engine { at: -1, ..engine },
        ),
        agree(
            run(rewinding(s), engine, Seq::empty(), 1).1,
            run(rewinding(s), engine, Seq::empty(), 1).2,
        ),
{
    reveal_with_fuel(run, 2);
}

/// The statement and the engine after `n` advances of a pass.
pub open spec fn after(s: StmtView, engine: Engine, n: nat) -> (StmtView, Engine)
    decreases n,
{
    if n == 0 {
        (s, engine)
    } else {
        let (before, held) = after(s, engine, (n - 1) as nat);
        let (_, next, moved) = run(advancing(before), held, Seq::empty(), 1);
        (next, moved)
    }
}

/// A pass hands out the engine's rows, each once and in order. From
/// before the first row, the advance numbered `k` hands out a row for
/// every `k` below the number of rows, with the engine's cursor on the
/// row numbered `k`, so that each column read gives the value the
/// engine holds in that row; and the advance after the last row hands
/// out none.
pub proof fn lemma_pass_follows_engine(s: StmtView, engine: Engine, k: nat)
    requires
        s.wf(),
        engine.wf(),
        agree(s, engine),
        engine.at == -1,
        k <= engine.rows.len(),
    ensures
        after(s, engine, k).1 == (Engine { at: k as int - 1, ..engine }),
        k == 0 ==> after(s, engine, k).0 == s,
        k > 0 ==> after(s, engine, k).0 == (StmtView { state: StmtState::Row, ..s }),
        k < engine.rows.len() ==> ({
            let (before, held) = after(s, engine, k);
            let (row, next, moved) = run(advancing(before), held, Seq::empty(), 1);
            &&& row == Plan::Done(Some(next))
            &&& next == StmtView { state: StmtState::Row, ..s }
            &&& moved == Engine { at: k as int, ..engine }
            &&& forall|i: usize|
                i < s.names.len() ==> #[trigger] run(reading(next, i), moved, Seq::empty(), 2).0
                    == Plan::Done(engine.rows[k as int][i as int])
        }),
        k == engine.rows.len() ==> ({
            let (before, held) = after(s, engine, k);
            let (row, next, moved) = run(advancing(before), held, Seq::empty(), 1);
            &&& row == Plan::<Option<StmtView>>::Done(None)
            &&& next == StmtView { state: StmtState::Done, ..s }
            &&& moved == Engine { at: engine.rows.len() as int, ..engine }
        }),
    decreases k,
{
    if k > 0 {
        lemma_pass_follows_engine(s, engine, (k - 1) as nat);
    }
    let (before, held) = after(s, engine, k);
    assert(agree(before, held));
    assert(held.wf());
    lemma_run_advance(before, held);
    let (row, next, moved) = run(advancing(before), held, Seq::empty(), 1);
    if k < engine.rows.len() {
        assert forall|i: usize| i < s.names.len() implies #[trigger] run(
            reading(next, i),
            moved,
            Seq::empty(),
            2,
        ).0 == Plan::Done(engine.rows[k as int][i as int]) by {
            lemma_run_read(next, moved, i);
        }
    }
}

/// A reset brings the same rows again. After a pass to the end of the
/// rows and a reset, a statement that was prepared and the engine are
/// exactly as they were before the pass; so a second pass is the first
/// pass over again, advance by advance and column by column.
pub proof fn lemma_reset_restores(s: StmtView, engine: Engine)
    requires
        s.wf(),
        engine.wf(),
        agree(s, engine),
        s.state is Prepared,
        engine.at == -1,
    ensures
        ({
            let (ended, held) = after(s, engine, (engine.rows.len() + 1) as nat);
            let (plan, again, rewound) = run(rewinding(ended), held, Seq::empty(), 1);
            plan == Plan::Done(()) && again == s && rewound == engine
        }),
{
    let n = engine.rows.len();
    lemma_pass_follows_engine(s, engine, n);
    let (before, held) = after(s, engine, n);
    let (_, next, moved) = run(advancing(before), held, Seq::empty(), 1);
    assert(after(s, engine, (n + 1) as nat) == (next, moved));
    lemma_run_rewind(next, moved);
}

} // verus!
