use vstd::prelude::*;
use crate::engine::{bad_reply, views, Call, CallView, Plan, Reply, ReplyView, Turn};
use crate::error::{Error, ErrorView};
use crate::text::decimal;
use crate::value::{Value, ValueView};

verus! {

/// The texts of a run of strings, in order.
pub open spec fn names_of(columns: Seq<String>) -> Seq<Seq<char>> {
    columns.map_values(|s: String| s@)
}

/// How reading the column names goes. The engine is asked for the
/// column count and then for the name at each position, from 0 on. A
/// count that is no number or is negative, and a name that is no text,
/// are replies the layer cannot use.
pub open spec fn columns_plan(replies: Seq<ReplyView>) -> Plan<Seq<Seq<char>>> {
    if replies.len() == 0 {
        Plan::Ask(CallView::ColumnCount)
    } else if !(replies[0] is Int) || replies[0]->Int_0 < 0 {
        Plan::Failed(bad_reply())
    } else {
        let count = replies[0]->Int_0 as int;
        let given = if replies.len() - 1 < count {
            replies.len() - 1
        } else {
            count
        };
        if exists|i: int| 0 <= i < given && !(#[trigger] replies[1 + i] is Text) {
            Plan::Failed(bad_reply())
        } else if given < count {
            Plan::Ask(CallView::ColumnName { index: given as i32 })
        } else {
            Plan::Done(Seq::new(count as nat, |i: int| replies[1 + i]->Text_0))
        }
    }
}

/// Reads the column names from the replies, as far as they go.
pub(crate) fn load_columns(replies: &[Reply]) -> (turn: Turn<Vec<String>>)
    ensures
        match turn {
            Turn::Ask(call) => columns_plan(views(replies@)) == Plan::<Seq<Seq<char>>>::Ask(
                call@,
            ),
            Turn::Done(names) => columns_plan(views(replies@)) == Plan::Done(names_of(names@))
                && names@.len() <= i32::MAX,
            Turn::Failed(e) => columns_plan(views(replies@)) == Plan::<Seq<Seq<char>>>::Failed(
                e@,
            ),
        },
{
    let ghost rv = views(replies@);
    if replies.len() == 0 {
        return Turn::Ask(Call::ColumnCount);
    }
    let count: i32 = match &replies[0] {
        Reply::Int(n) => *n,
        _ => {
            return Turn::Failed(Error::Unknown("Unexpected reply from the engine".to_string()));
        },
    };
    if count < 0 {
        return Turn::Failed(Error::Unknown("Unexpected reply from the engine".to_string()));
    }
    let mut names: Vec<String> = Vec::new();
    let mut i: i32 = 0;
    while i < count
        invariant
            0 <= i <= count,
            rv == views(replies@),
            replies@.len() > 0,
            rv[0] == ReplyView::Int(count),
            i <= replies@.len() - 1,
            names@.len() == i,
            forall|j: int| 0 <= j < i ==> #[trigger] rv[1 + j] == ReplyView::Text(names@[j]@),
        decreases count - i,
    {
        if i as usize >= replies.len() - 1 {
            return Turn::Ask(Call::ColumnName { index: i });
        }
        match &replies[i as usize + 1] {
            Reply::Text(name) => {
                names.push(name.clone());
            },
            _ => {
                assert(!(rv[1 + i] is Text));
                return Turn::Failed(
                    Error::Unknown("Unexpected reply from the engine".to_string()),
                );
            },
        }
        i += 1;
    }
    assert(names_of(names@) =~= Seq::new(count as nat, |i: int| rv[1 + i]->Text_0));
    Turn::Done(names)
}

/// The error for a column position at or beyond the column count: it
/// holds the position in decimal digits.
pub open spec fn out_of_bounds(index: usize) -> ErrorView {
    ErrorView::IndexOutOfBounds(decimal(index as nat))
}

/// Whether `i` is the position of the first of `names` that equals `key`.
pub open spec fn is_first_named(names: Seq<Seq<char>>, key: Seq<char>, i: int) -> bool {
    &&& 0 <= i < names.len()
    &&& names[i] == key
    &&& forall|j: int| 0 <= j < i ==> names[j] != key
}

/// The position of the first of `names` that equals `key`, if any does.
pub open spec fn first_named(names: Seq<Seq<char>>, key: Seq<char>) -> Option<int> {
    if exists|i: int| is_first_named(names, key, i) {
        Some(choose|i: int| is_first_named(names, key, i))
    } else {
        None
    }
}

/// A name has one first position at most, and has one if it occurs.
pub proof fn lemma_first_named(names: Seq<Seq<char>>, key: Seq<char>, i: int)
    ensures
        is_first_named(names, key, i) <==> first_named(names, key) == Some(i),
        first_named(names, key) is None <==> forall|j: int| 0 <= j < names.len() ==> names[j] != key,
{
    if exists|k: int| is_first_named(names, key, k) {
        let k = choose|k: int| is_first_named(names, key, k);
        if is_first_named(names, key, i) {
            assert(k == i) by {
                if k < i {
                    assert(names[k] != key);
                } else if i < k {
                    assert(names[i] != key);
                }
            }
        }
    }
    if first_named(names, key) is None && exists|j: int| 0 <= j < names.len() && names[j] == key {
        let j = choose|j: int| 0 <= j < names.len() && names[j] == key;
        lemma_occurs(names, key, j);
    }
}

/// A name that occurs has a first position.
proof fn lemma_occurs(names: Seq<Seq<char>>, key: Seq<char>, j: int)
    requires
        0 <= j < names.len(),
        names[j] == key,
    ensures
        exists|i: int| is_first_named(names, key, i),
    decreases j,
{
    if exists|k: int| 0 <= k < j && names[k] == key {
        let k = choose|k: int| 0 <= k < j && names[k] == key;
        lemma_occurs(names, key, k);
    } else {
        assert(is_first_named(names, key, j));
    }
}

/// A column position as the engine takes it. The positions a statement
/// hands to the engine are below its column count, which fits.
pub(crate) fn position(index: usize) -> (p: i32)
    ensures
        index <= i32::MAX ==> p == index,
        p == index as i32,
{
    #[verifier::truncate]
    (index as i32)
}

/// The ways the engine can be asked for a column's value.
#[derive(Clone, Copy, Debug, PartialEq, Eq, Structural)]
pub enum Reader {
    Int32,
    Int64,
    Double,
    Text,
    Blob,
}

impl Reader {
    /// The call that reads the column at `index` this way.
    pub open spec fn call(self, index: i32) -> CallView {
        match self {
            Reader::Int32 => CallView::ColumnInt { index },
            Reader::Int64 => CallView::ColumnInt64 { index },
            Reader::Double => CallView::ColumnDouble { index },
            Reader::Text => CallView::ColumnText { index },
            Reader::Blob => CallView::ColumnBlob { index },
        }
    }

    /// The call that reads the column at `index` this way.
    pub(crate) fn to_call(self, index: i32) -> (call: Call)
        ensures
            call@ == self.call(index),
    {
        match self {
            Reader::Int32 => Call::ColumnInt { index },
            Reader::Int64 => Call::ColumnInt64 { index },
            Reader::Double => Call::ColumnDouble { index },
            Reader::Text => Call::ColumnText { index },
            Reader::Blob => Call::ColumnBlob { index },
        }
    }

    /// The value that a reply to a read of this kind stands for.
    pub(crate) fn value(self, reply: &Reply) -> (v: Option<Value>)
        ensures
            match v {
                Some(v) => value_read(self, reply@) == Some(v@),
                None => value_read(self, reply@) is None,
            },
    {
        match (self, reply) {
            (Reader::Int32, Reply::Int(n)) => Some(Value::Int(*n as i64)),
            (Reader::Int64, Reply::Int64(n)) => Some(Value::Int(*n)),
            (Reader::Double, Reply::Double(d)) => Some(Value::Float(*d)),
            (Reader::Text, Reply::Text(t)) => Some(Value::String(t.clone())),
            (Reader::Text, Reply::Null) => Some(Value::String(String::new())),
            (Reader::Blob, Reply::Blob(b)) => Some(Value::Bytes(b.clone())),
            (Reader::Blob, Reply::Null) => Some(Value::Bytes(Vec::new())),
            _ => None,
        }
    }
}

/// The value that a reply to a column read stands for: an integer read
/// gives `Int`, a number read gives `Float`, a text read gives `String`
/// and a bytes read gives `Bytes`, each holding exactly what the engine
/// gave; a null pointer stands for empty text or no bytes. None where
/// the reply is not of the kind that was asked for.
pub open spec fn value_read(reader: Reader, reply: ReplyView) -> Option<ValueView> {
    match (reader, reply) {
        (Reader::Int32, ReplyView::Int(n)) => Some(ValueView::Int(n as i64)),
        (Reader::Int64, ReplyView::Int64(n)) => Some(ValueView::Int(n)),
        (Reader::Double, ReplyView::Double(d)) => Some(ValueView::Float(d)),
        (Reader::Text, ReplyView::Text(t)) => Some(ValueView::String(t)),
        (Reader::Text, ReplyView::Null) => Some(ValueView::String(Seq::empty())),
        (Reader::Blob, ReplyView::Blob(b)) => Some(ValueView::Bytes(b)),
        (Reader::Blob, ReplyView::Null) => Some(ValueView::Bytes(Seq::empty())),
        _ => None,
    }
}

} // verus!
