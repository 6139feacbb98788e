//! What holds across the operations of the layer, proved from their plans.

use vstd::prelude::*;
use vstd::utf8::{encode_utf8, encode_utf8_decode_utf8};
use crate::binding::{binding, reinterpret};
use crate::codes::OK;
use crate::column::{columns_plan, is_first_named, lemma_first_named, out_of_bounds, Reader};
use crate::engine::{message, CallView, Plan, ReplyView};
use crate::error::ErrorView;
use crate::rows::{ColIndex, Row, RowIterator, Rows};
use crate::stmt::{Stepped, Stmt, StmtView};
use crate::value::{FromValue, ValueView};

verus! {

/// The way of reading a column that matches a value's variant: integers
/// of either sign are read as 64-bit integers, a number as a number, text
/// as text and bytes as bytes. A value that is none is not read.
pub open spec fn matching_reader(value: ValueView) -> Option<Reader> {
    match value {
        ValueView::Int(_) => Some(Reader::Int64),
        ValueView::Uint(_) => Some(Reader::Int64),
        ValueView::Float(_) => Some(Reader::Double),
        ValueView::String(_) => Some(Reader::Text),
        ValueView::Bytes(_) => Some(Reader::Blob),
        ValueView::Null => None,
    }
}

/// Whether a reply to a column read hands back what a binding call
/// carried: to an integer read the same integer, to a number read the
/// same number, to a bytes read the same bytes, and to a text read text
/// with the same UTF-8 bytes.
pub open spec fn echoes(call: CallView, reader: Reader, reply: ReplyView) -> bool {
    match (call, reader, reply) {
        (CallView::BindInt64 { value, .. }, Reader::Int64, ReplyView::Int64(n)) => n == value,
        (CallView::BindDouble { value, .. }, Reader::Double, ReplyView::Double(d)) => d == value,
        (CallView::BindText { text, .. }, Reader::Text, ReplyView::Text(t)) => encode_utf8(t)
            == text,
        (CallView::BindText { text, .. }, Reader::Blob, ReplyView::Blob(b)) => b == text,
        _ => false,
    }
}

/// The value as it comes back from a column: itself, but for an unsigned
/// integer, which comes back as the signed integer with the same bits.
pub open spec fn read_back(value: ValueView) -> ValueView {
    match value {
        ValueView::Uint(v) => ValueView::Int(reinterpret(v)),
        other => other,
    }
}

/// What is bound comes back. Binding a value asks the engine for one
/// call; if the engine later hands back what that call carried, the read
/// that matches the value's variant gives the value again: the same bits
/// for integers and numbers, the same bytes for bytes, the same
/// characters for text. An unsigned integer comes back as a signed one,
/// from which the same `u64` is taken.
pub proof fn lemma_round_trip(
    s: StmtView,
    value: ValueView,
    position: i32,
    column: usize,
    reply: ReplyView,
)
    requires
        s.wf(),
        s.state is Row,
        column < s.names.len(),
        binding(value, position) is Some,
        matching_reader(value) is Some,
        echoes(binding(value, position).unwrap(), matching_reader(value).unwrap(), reply),
    ensures
        Stmt::bind_plan(s, value, position, Seq::empty()).0 == Plan::<()>::Ask(
            binding(value, position).unwrap(),
        ),
        Stmt::read_plan(s, column, matching_reader(value).unwrap(), seq![reply]) == Plan::Done(
            read_back(value),
        ),
        forall|x: u64, taken: u64|
            value == ValueView::Uint(x) && taken.is_from(read_back(value)) ==> taken == x,
{
    match value {
        ValueView::String(text) => {
            let t = reply->Text_0;
            encode_utf8_decode_utf8(t);
            encode_utf8_decode_utf8(text);
        },
        ValueView::Uint(v) => {
            assert((v as i64) as u64 == v) by (bit_vector);
        },
        _ => {},
    }
}

/// No value comes back as no value. Binding `Null` asks for a null
/// binding, and a column that holds no value is read as `Null`.
pub proof fn lemma_round_trip_null(s: StmtView, position: i32, column: usize)
    requires
        s.wf(),
        s.state is Row,
        column < s.names.len(),
    ensures
        Stmt::bind_plan(s, ValueView::Null, position, Seq::empty()).0 == Plan::<()>::Ask(
            CallView::BindNull { index: position },
        ),
        Row::value_plan(s, column, seq![ReplyView::Int(5)]) == Plan::Done(ValueView::Null),
{
}

/// What stepping through a run of statuses gives, one step for each
/// status, from the state `s`: the outcome of each step, in order, and
/// the state after the last.
pub open spec fn pass(s: StmtView, statuses: Seq<ReplyView>) -> (Seq<Plan<Stepped>>, StmtView)
    decreases statuses.len(),
{
    if statuses.len() == 0 {
        (Seq::empty(), s)
    } else {
        let (outcome, next) = Stmt::step_plan(s, seq![statuses[0]]);
        let (outcomes, end) = pass(next, statuses.drop_first());
        (seq![outcome] + outcomes, end)
    }
}

/// A reset brings the same pass again. After a pass over its rows and a
/// reset, a prepared statement has the columns and the bindings it had
/// before the pass and stands before the first row again; a second pass
/// on the same statuses of the engine gives the same outcomes, step by
/// step, and ends in the same state.
pub proof fn lemma_reset_repeats(s: StmtView, statuses: Seq<ReplyView>, reply: ReplyView)
    requires
        s.wf(),
        s.state is Prepared,
    ensures
        Stmt::reset_plan(pass(s, statuses).1, seq![reply]) == (Plan::Done(()), s),
        pass(Stmt::reset_plan(pass(s, statuses).1, seq![reply]).1, statuses) == pass(s, statuses),
{
    lemma_pass_keeps(s, statuses);
}

/// Stepping changes nothing of a prepared statement but where its
/// cursor stands.
pub proof fn lemma_pass_keeps(s: StmtView, statuses: Seq<ReplyView>)
    requires
        !(s.state is Unprepared),
    ensures
        pass(s, statuses).1.names == s.names,
        pass(s, statuses).1.bindings == s.bindings,
        !(pass(s, statuses).1.state is Unprepared),
        pass(s, statuses).0.len() == statuses.len(),
    decreases statuses.len(),
{
    if statuses.len() > 0 {
        let next = Stmt::step_plan(s, seq![statuses[0]]).1;
        lemma_pass_keeps(next, statuses.drop_first());
    }
}

/// Binding one position leaves what every other position holds,
/// whatever the engine replies; the only binding the engine is asked
/// for is that of the position; and neither stepping nor executing nor
/// rewinding changes what any position holds.
pub proof fn lemma_bind_leaves_others(
    s: StmtView,
    value: ValueView,
    position: i32,
    replies: Seq<ReplyView>,
    other: int,
)
    requires
        s.wf(),
        other != position,
    ensures
        Stmt::bind_plan(s, value, position, replies).1.bindings.dom().contains(other)
            == s.bindings.dom().contains(other),
        Stmt::bind_plan(s, value, position, replies).1.bindings[other] == s.bindings[other],
        Stmt::bind_plan(s, value, position, replies).0 matches Plan::Ask(call) ==> call
            is ErrMsg || Some(call) == binding(value, position),
        Stmt::bind_plan(s, value, position, replies).0 is Done ==> Stmt::bind_plan(
            s,
            value,
            position,
            replies,
        ).1.bindings[position as int] == value,
        Stmt::step_plan(s, replies).1.bindings == s.bindings,
        Stmt::execute_plan(s, replies).1.bindings == s.bindings,
        Stmt::reset_plan(s, replies).1.bindings == s.bindings,
{
}

/// For a column that is the first to bear its name, reading by the
/// name and reading by the position are the same reading: they ask the
/// engine the same and give the same.
pub proof fn lemma_lookup_parity(
    s: StmtView,
    name: &str,
    position: usize,
    replies: Seq<ReplyView>,
)
    requires
        s.wf(),
        is_first_named(s.names, name@, position as int),
    ensures
        name.resolve(s.names) == position.resolve(s.names),
        Row::get_plan(s, name.resolve(s.names), replies) == Row::get_plan(
            s,
            position.resolve(s.names),
            replies,
        ),
{
    lemma_first_named(s.names, name@, position as int);
}

/// A position at or beyond the column count names no column:
/// reading by it fails with `IndexOutOfBounds`, whatever the engine
/// would reply. A name that no column bears names none: reading by it
/// fails with `ColumnNotFound`.
pub proof fn lemma_bounds(s: StmtView, position: usize, name: &str, replies: Seq<ReplyView>)
    requires
        s.wf(),
    ensures
        position >= s.names.len() ==> Row::get_plan(s, position.resolve(s.names), replies)
            == Plan::<ValueView>::Failed(out_of_bounds(position)),
        position >= s.names.len() ==> Row::value_plan(s, position, replies) == Plan::<
            ValueView,
        >::Failed(out_of_bounds(position)),
        (forall|j: int| 0 <= j < s.names.len() ==> s.names[j] != name@) ==> Row::get_plan(
            s,
            name.resolve(s.names),
            replies,
        ) == Plan::<ValueView>::Failed(ErrorView::ColumnNotFound(name@)),
{
    lemma_first_named(s.names, name@, 0);
}

/// Text and bytes and no value are not taken as any numeric type, and
/// only text is taken as a string. As an optional `u64`, no value is
/// taken as `None` and every number as `Some`.
pub proof fn lemma_conversions(v: ValueView, taken: Option<u64>)
    ensures
        !v.is_numeric() ==> !i64::fits(v) && !u64::fits(v) && !i32::fits(v) && !u32::fits(v)
            && !usize::fits(v),
        v.is_numeric() ==> i64::fits(v) && u64::fits(v) && i32::fits(v) && u32::fits(v)
            && usize::fits(v),
        String::fits(v) <==> v is String,
        Option::<u64>::fits(v) <==> v.is_numeric() || v is Null,
        v is Null && taken.is_from(v) ==> taken is None,
        v.is_numeric() && taken.is_from(v) ==> taken is Some && taken.unwrap().is_from(v),
{
}

/// Advancing a pass over the rows asks the engine for exactly one
/// step, hands out a row exactly where the engine says there is one,
/// and leaves the statement as that step leaves it.
pub proof fn lemma_next_steps_once(s: StmtView, status: ReplyView)
    requires
        s.wf(),
        !(s.state is Unprepared),
    ensures
        RowIterator::next_plan(s, Seq::empty()) == (
            Plan::<Option<StmtView>>::Ask(CallView::Step),
            s,
        ),
        RowIterator::next_plan(s, seq![status]).0 is Done,
        RowIterator::next_plan(s, seq![status]).0->Done_0 is Some <==> status == ReplyView::Int(
            100,
        ),
        RowIterator::next_plan(s, seq![status]).1 == Stmt::step_plan(s, seq![status]).1,
{
}

/// An operation that asks for a call leaves the statement as it was:
/// running it again with the reply appended starts from the same
/// statement.
pub proof fn lemma_asking_leaves(
    s: StmtView,
    sql: Seq<char>,
    value: ValueView,
    position: i32,
    params: Seq<ValueView>,
    replies: Seq<ReplyView>,
)
    ensures
        Stmt::prepare_plan(s, sql, replies).0 is Ask ==> Stmt::prepare_plan(s, sql, replies).1 == s,
        Stmt::bind_plan(s, value, position, replies).0 is Ask ==> Stmt::bind_plan(
            s,
            value,
            position,
            replies,
        ).1 == s,
        Stmt::bind_values_plan(s, params, replies).0 is Ask ==> Stmt::bind_values_plan(
            s,
            params,
            replies,
        ).1 == s,
        Stmt::step_plan(s, replies).0 is Ask ==> Stmt::step_plan(s, replies).1 == s,
        Stmt::execute_plan(s, replies).0 is Ask ==> Stmt::execute_plan(s, replies).1 == s,
        Stmt::get_row_plan(s, replies).0 is Ask ==> Stmt::get_row_plan(s, replies).1 == s,
        Stmt::reset_plan(s, replies).0 is Ask ==> Stmt::reset_plan(s, replies).1 == s,
        Stmt::clear_plan(s, replies).0 is Ask ==> Stmt::clear_plan(s, replies).1 == s,
        Rows::execute_plan(s, replies).0 is Ask ==> Rows::execute_plan(s, replies).1 == s,
        RowIterator::next_plan(s, replies).0 is Ask ==> RowIterator::next_plan(s, replies).1 == s,
{
}

/// Every operation keeps a statement well formed.
pub proof fn lemma_plans_keep_wf(
    s: StmtView,
    sql: Seq<char>,
    value: ValueView,
    position: i32,
    params: Seq<ValueView>,
    replies: Seq<ReplyView>,
)
    requires
        s.wf(),
    ensures
        Stmt::prepare_plan(s, sql, replies).1.wf(),
        Stmt::bind_plan(s, value, position, replies).1.wf(),
        Stmt::bind_values_plan(s, params, replies).1.wf(),
        Stmt::step_plan(s, replies).1.wf(),
        Stmt::execute_plan(s, replies).1.wf(),
        Stmt::get_row_plan(s, replies).1.wf(),
        Stmt::reset_plan(s, replies).1.wf(),
        Stmt::clear_plan(s, replies).1.wf(),
{
    let rest = if s.state is Unprepared {
        replies
    } else {
        replies.skip(1)
    };
    if rest.len() > 0 {
        lemma_columns_fit(rest.skip(1));
    }
    lemma_bind_from_keeps(s, params, 0, replies);
}

/// A run of bindings changes nothing of a statement but its bindings,
/// and none of an unprepared statement.
proof fn lemma_bind_from_keeps(
    s: StmtView,
    params: Seq<ValueView>,
    from: int,
    replies: Seq<ReplyView>,
)
    requires
        s.wf(),
        0 <= from,
    ensures
        Stmt::bind_from(s, params, from, replies).1.wf(),
        Stmt::bind_from(s, params, from, replies).1.state == s.state,
        Stmt::bind_from(s, params, from, replies).1.names == s.names,
    decreases params.len() - from,
{
    if from < params.len() && from < i32::MAX {
        let (plan, next) = Stmt::bind_plan(s, params[from], (from + 1) as i32, replies);
        if plan is Done {
            lemma_bind_from_keeps(next, params, from + 1, replies.skip(1));
        }
    }
}

/// The columns that were read are as many as the engine counted, which
/// fits its 32-bit positions.
pub proof fn lemma_columns_fit(replies: Seq<ReplyView>)
    ensures
        columns_plan(replies) matches Plan::Done(names) ==> names.len() <= i32::MAX
            && replies.len() > 0 && replies[0] == ReplyView::Int(names.len() as i32),
{
}

/// Whether the first `k` of the replies are the status of success.
pub open spec fn accepted(replies: Seq<ReplyView>, k: int) -> bool {
    forall|i: int| 0 <= i < k ==> replies[i] == ReplyView::Int(OK)
}

/// The bindings after the first `k` of `params` were bound, from
/// position 1 on, over the bindings `before`.
pub open spec fn bound_with(
    before: Map<int, ValueView>,
    params: Seq<ValueView>,
    k: int,
) -> Map<int, ValueView> {
    Map::new(
        |p: int| before.dom().contains(p) || 1 <= p <= k,
        |p: int|
            if 1 <= p <= k {
                params[p - 1]
            } else {
                before[p]
            },
    )
}

/// Where a run of bindings stands after the replies so far.
///
/// While every reply is the status of success, the run has bound as
/// many values as there are replies, each to the position one above its
/// place, and asks for the next binding, or is done when none is left.
/// At the first reply that is not, the run ends: it fetches the
/// engine's diagnostic text and fails with it, and the values before
/// the failing one are bound. No other position changes.
pub proof fn lemma_bind_values_runs(s: StmtView, params: Seq<ValueView>, replies: Seq<ReplyView>)
    requires
        s.wf(),
        !(s.state is Unprepared),
        params.len() < i32::MAX,
        forall|i: int| 0 <= i < params.len() ==> binding(#[trigger] params[i], (i + 1) as i32)
            is Some,
    ensures
        accepted(replies, replies.len() as int) && replies.len() < params.len()
            ==> Stmt::bind_values_plan(s, params, replies) == (
            Plan::<()>::Ask(
                binding(params[replies.len() as int], (replies.len() + 1) as i32).unwrap(),
            ),
            s,
        ),
        accepted(replies, params.len() as int) && replies.len() >= params.len()
            ==> Stmt::bind_values_plan(s, params, replies) == (
            Plan::Done(()),
            StmtView { bindings: bound_with(s.bindings, params, params.len() as int), ..s },
        ),
        forall|k: int|
            0 <= k < params.len() && k < replies.len() && accepted(replies, k) && replies[k]
                != ReplyView::Int(OK) ==> #[trigger] Stmt::bind_values_plan(s, params, replies).0
                == (if replies.len() == k + 1 {
                Plan::<()>::Ask(CallView::ErrMsg)
            } else {
                Plan::<()>::Failed(ErrorView::BindError(message(replies[k + 1])))
            }) && (replies.len() > k + 1 ==> Stmt::bind_values_plan(s, params, replies).1
                == StmtView { bindings: bound_with(s.bindings, params, k), ..s }),
{
    assert(replies.skip(0) =~= replies);
    assert(bound_with(s.bindings, params, 0) =~= s.bindings);
    lemma_bind_from(s, s.bindings, params, 0, replies, replies);
}

/// The run of bindings from the value at `from` on, told by where the
/// first reply stands that is not the status of success.
proof fn lemma_bind_from(
    s: StmtView,
    before: Map<int, ValueView>,
    params: Seq<ValueView>,
    from: int,
    rest: Seq<ReplyView>,
    replies: Seq<ReplyView>,
)
    requires
        !(s.state is Unprepared),
        params.len() < i32::MAX,
        0 <= from <= params.len(),
        from <= replies.len(),
        rest == replies.skip(from),
        accepted(replies, from),
        s.bindings == bound_with(before, params, from),
        forall|i: int| 0 <= i < params.len() ==> binding(#[trigger] params[i], (i + 1) as i32)
            is Some,
    ensures
        accepted(replies, replies.len() as int) && replies.len() < params.len() ==> Stmt::bind_from(
            s,
            params,
            from,
            rest,
        ).0 == Plan::<()>::Ask(
            binding(params[replies.len() as int], (replies.len() + 1) as i32).unwrap(),
        ),
        accepted(replies, params.len() as int) && replies.len() >= params.len() ==> Stmt::bind_from(
            s,
            params,
            from,
            rest,
        ) == (
            Plan::Done(()),
            StmtView { bindings: bound_with(before, params, params.len() as int), ..s },
        ),
        forall|k: int|
            from <= k < params.len() && k < replies.len() && accepted(replies, k) && replies[k]
                != ReplyView::Int(OK) ==> Stmt::bind_from(s, params, from, rest).0 == (
                if replies.len() == k + 1 {
                    Plan::<()>::Ask(CallView::ErrMsg)
                } else {
                    Plan::<()>::Failed(ErrorView::BindError(message(replies[k + 1])))
                }) && Stmt::bind_from(s, params, from, rest).1 == (StmtView {
                bindings: bound_with(before, params, k),
                ..s
            }),
    decreases params.len() - from,
{
    if from < params.len() {
        if rest.len() > 0 && rest[0] == ReplyView::Int(OK) {
            let next = Stmt::bind_plan(s, params[from], (from + 1) as i32, rest).1;
            assert(next.bindings =~= bound_with(before, params, from + 1));
            assert(rest.skip(1) =~= replies.skip(from + 1));
            assert(accepted(replies, from + 1)) by {
                assert(replies[from] == rest[0]);
            }
            lemma_bind_from(next, before, params, from + 1, rest.skip(1), replies);
            assert forall|k: int|
                from <= k < params.len() && k < replies.len() && accepted(replies, k) && replies[k]
                    != ReplyView::Int(OK) implies k >= from + 1 by {
                if k == from {
                    assert(replies[from] == rest[0]);
                }
            }
        } else {
            assert forall|k: int|
                from <= k < params.len() && k < replies.len() && accepted(replies, k) && replies[k]
                    != ReplyView::Int(OK) implies k == from by {
                if k > from {
                    assert(replies[from] == ReplyView::Int(OK));
                    assert(replies[from] == rest[0]);
                }
            }
            if rest.len() > 0 {
                assert(replies[from] == rest[0]);
                if rest.len() > 1 {
                    assert(replies[from + 1] == rest[1]);
                }
            }
        }
    }
}

} // verus!
