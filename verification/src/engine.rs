use vstd::prelude::*;
use crate::codes::{status_ok, OK};
use crate::double::Double;
use crate::error::{Error, ErrorView};

verus! {

/// One request to the engine, for the driver to perform.
///
/// Parameter positions count from 1, column positions from 0, as the
/// engine counts them.
#[derive(Debug)]
#[allow(inconsistent_fields)]
pub enum Call {
    /// Open the database at `path` with the given open flags.
    Open { path: String, flags: i32 },
    /// Close the connection.
    Close,
    /// The engine's most recent diagnostic text.
    ErrMsg,
    /// The number of rows the most recent write changed.
    Changes,
    /// The row id of the most recent insert.
    LastInsertRowid,
    /// Compile `sql` into the statement's handle.
    Prepare { sql: String },
    /// Release the statement's handle.
    Finalize,
    BindInt64 { index: i32, value: i64 },
    BindDouble { index: i32, value: Double },
    /// Bind `len` bytes of `text`. With `transient` the engine copies the
    /// bytes before the call returns; without it the engine is told the
    /// buffer stays valid.
    BindText { index: i32, text: Vec<u8>, len: i32, transient: bool },
    BindNull { index: i32 },
    /// Advance the cursor by one row.
    Step,
    /// Rewind the cursor.
    Reset,
    ClearBindings,
    ColumnCount,
    ColumnName { index: i32 },
    /// The dynamic type tag of a column of the current row.
    ColumnType { index: i32 },
    ColumnInt { index: i32 },
    ColumnInt64 { index: i32 },
    ColumnDouble { index: i32 },
    ColumnText { index: i32 },
    ColumnBlob { index: i32 },
}

/// The mathematical content of a [`Call`].
#[allow(inconsistent_fields)]
pub enum CallView {
    Open { path: Seq<char>, flags: i32 },
    Close,
    ErrMsg,
    Changes,
    LastInsertRowid,
    Prepare { sql: Seq<char> },
    Finalize,
    BindInt64 { index: i32, value: i64 },
    BindDouble { index: i32, value: Double },
    BindText { index: i32, text: Seq<u8>, len: i32, transient: bool },
    BindNull { index: i32 },
    Step,
    Reset,
    ClearBindings,
    ColumnCount,
    ColumnName { index: i32 },
    ColumnType { index: i32 },
    ColumnInt { index: i32 },
    ColumnInt64 { index: i32 },
    ColumnDouble { index: i32 },
    ColumnText { index: i32 },
    ColumnBlob { index: i32 },
}

impl View for Call {
    type V = CallView;

    open spec fn view(&self) -> CallView {
        match self {
            Call::Open { path, flags } => CallView::Open { path: path@, flags: *flags },
            Call::Close => CallView::Close,
            Call::ErrMsg => CallView::ErrMsg,
            Call::Changes => CallView::Changes,
            Call::LastInsertRowid => CallView::LastInsertRowid,
            Call::Prepare { sql } => CallView::Prepare { sql: sql@ },
            Call::Finalize => CallView::Finalize,
            Call::BindInt64 { index, value } => CallView::BindInt64 {
                index: *index,
                value: *value,
            },
            Call::BindDouble { index, value } => CallView::BindDouble {
                index: *index,
                value: *value,
            },
            Call::BindText { index, text, len, transient } => CallView::BindText {
                index: *index,
                text: text@,
                len: *len,
                transient: *transient,
            },
            Call::BindNull { index } => CallView::BindNull { index: *index },
            Call::Step => CallView::Step,
            Call::Reset => CallView::Reset,
            Call::ClearBindings => CallView::ClearBindings,
            Call::ColumnCount => CallView::ColumnCount,
            Call::ColumnName { index } => CallView::ColumnName { index: *index },
            Call::ColumnType { index } => CallView::ColumnType { index: *index },
            Call::ColumnInt { index } => CallView::ColumnInt { index: *index },
            Call::ColumnInt64 { index } => CallView::ColumnInt64 { index: *index },
            Call::ColumnDouble { index } => CallView::ColumnDouble { index: *index },
            Call::ColumnText { index } => CallView::ColumnText { index: *index },
            Call::ColumnBlob { index } => CallView::ColumnBlob { index: *index },
        }
    }
}

/// What the engine gave back for one [`Call`], copied into owned memory by
/// the driver before anything else is asked of the engine.
#[derive(Debug)]
pub enum Reply {
    /// A 32-bit integer: a status, a count, a type tag or a column.
    Int(i32),
    Int64(i64),
    Double(Double),
    Text(String),
    Blob(Vec<u8>),
    /// A null pointer where text or bytes were asked for.
    Null,
}

/// The mathematical content of a [`Reply`].
pub enum ReplyView {
    Int(i32),
    Int64(i64),
    Double(Double),
    Text(Seq<char>),
    Blob(Seq<u8>),
    Null,
}

impl View for Reply {
    type V = ReplyView;

    open spec fn view(&self) -> ReplyView {
        match self {
            Reply::Int(v) => ReplyView::Int(*v),
            Reply::Int64(v) => ReplyView::Int64(*v),
            Reply::Double(v) => ReplyView::Double(*v),
            Reply::Text(v) => ReplyView::Text(v@),
            Reply::Blob(v) => ReplyView::Blob(v@),
            Reply::Null => ReplyView::Null,
        }
    }
}

/// The views of a run of replies, in order.
pub open spec fn views(replies: Seq<Reply>) -> Seq<ReplyView> {
    replies.map_values(|r: Reply| r@)
}

/// The text a reply carries; none where it carries no text, as where the
/// engine gave a null pointer.
pub open spec fn message(reply: ReplyView) -> Seq<char> {
    match reply {
        ReplyView::Text(m) => m,
        _ => Seq::empty(),
    }
}

/// The error for a reply of a kind the operation cannot use.
pub open spec fn bad_reply() -> ErrorView {
    ErrorView::Unknown("Unexpected reply from the engine"@)
}

impl Reply {
    /// Whether the reply is the status of a call that succeeded.
    pub fn is_ok(&self) -> (ok: bool)
        ensures
            ok == (self@ == ReplyView::Int(OK)),
    {
        match self {
            Reply::Int(code) => *code == status_ok(),
            _ => false,
        }
    }

    /// The text of the reply, copied: empty where it carries none.
    pub fn text(&self) -> (m: String)
        ensures
            m@ == message(self@),
    {
        match self {
            Reply::Text(m) => m.clone(),
            _ => String::new(),
        }
    }
}

/// Where an operation stands after the replies it was given.
#[derive(Debug)]
pub enum Turn<T> {
    /// The driver has to perform this call, append its reply to the
    /// replies, and run the operation again with them.
    Ask(Call),
    /// The operation is finished and gives this.
    Done(T),
    /// The operation is finished and failed.
    Failed(Error),
}

/// The mathematical content of a [`Turn`], over the view of its result.
pub enum Plan<V> {
    Ask(CallView),
    Done(V),
    Failed(ErrorView),
}

impl<T: View> View for Turn<T> {
    type V = Plan<T::V>;

    open spec fn view(&self) -> Plan<T::V> {
        match self {
            Turn::Ask(call) => Plan::Ask(call@),
            Turn::Done(t) => Plan::Done(t@),
            Turn::Failed(e) => Plan::Failed(e@),
        }
    }
}

} // verus!
