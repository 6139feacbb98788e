use vstd::prelude::*;
use vstd::string::StringExecFns;
use crate::codes::{open_flags, OK, OPEN_FLAGS};
use crate::engine::{message, views, Call, CallView, Plan, Reply, ReplyView, Turn};
use crate::error::{Error, ErrorView};
use crate::text::{contains_nul, has_nul};

verus! {

/// An open connection to a database.
///
/// A value of this type exists only for a connection that the engine
/// opened, and [`SqliteCon::close`] consumes it: a connection is neither
/// used before it is open nor closed twice.
#[derive(Debug)]
pub struct SqliteCon {
    live: bool,
}

impl View for SqliteCon {
    type V = ();

    open spec fn view(&self) -> () {
        ()
    }
}

impl SqliteCon {
    #[verifier::type_invariant]
    spec fn live_inv(self) -> bool {
        self.live
    }

    /// How opening goes. A path that holds the character with code 0
    /// cannot be handed to the engine and fails at once. Otherwise the
    /// engine is asked to open the path, read-write and created if absent.
    /// If it refuses, the handle it may have left is closed and the opening
    /// fails.
    pub open spec fn open_plan(path: Seq<char>, replies: Seq<ReplyView>) -> Plan<()> {
        if has_nul(path) {
            Plan::Failed(ErrorView::ConnectionErr("Failed to parse path"@))
        } else if replies.len() == 0 {
            Plan::Ask(CallView::Open { path, flags: OPEN_FLAGS })
        } else if replies[0] == ReplyView::Int(OK) {
            Plan::Done(())
        } else if replies.len() == 1 {
            Plan::Ask(CallView::Close)
        } else {
            Plan::Failed(ErrorView::ConnectionErr("Failed to open database"@))
        }
    }

    /// Opens the database at `path`, creating it if it does not exist.
    pub fn new(path: &str, replies: &[Reply]) -> (turn: Turn<SqliteCon>)
        ensures
            turn@ == Self::open_plan(path@, views(replies@)),
    {
        if contains_nul(path) {
            Turn::Failed(Error::ConnectionErr("Failed to parse path".to_string()))
        } else if replies.len() == 0 {
            Turn::Ask(Call::Open { path: String::from_str(path), flags: open_flags() })
        } else if replies[0].is_ok() {
            Turn::Done(SqliteCon { live: true })
        } else if replies.len() == 1 {
            Turn::Ask(Call::Close)
        } else {
            Turn::Failed(Error::ConnectionErr("Failed to open database".to_string()))
        }
    }

    /// The engine's most recent diagnostic text; empty if it has none.
    pub fn get_last_error(&self, _err_code: i32, replies: &[Reply]) -> (turn: Turn<String>)
        ensures
            turn@ == (if replies@.len() == 0 {
                Plan::<Seq<char>>::Ask(CallView::ErrMsg)
            } else {
                Plan::<Seq<char>>::Done(message(replies@[0]@))
            }),
    {
        if replies.len() == 0 {
            Turn::Ask(Call::ErrMsg)
        } else {
            Turn::Done(replies[0].text())
        }
    }

    /// The count a reply carries, as the engine's 32-bit integer turns
    /// into a `usize`; 0 where the reply is no integer.
    pub open spec fn count_of(reply: ReplyView) -> usize {
        match reply {
            ReplyView::Int(n) => n as usize,
            _ => 0,
        }
    }

    /// The row id a reply carries, as the engine's signed 64-bit integer
    /// turns into a `u64`; 0 where the reply is no such integer.
    pub open spec fn rowid_of(reply: ReplyView) -> u64 {
        match reply {
            ReplyView::Int64(id) => id as u64,
            _ => 0,
        }
    }

    /// The number of rows that the most recent write through this
    /// connection changed.
    pub fn affected_rows(&self, replies: &[Reply]) -> (turn: Turn<usize>)
        ensures
            turn@ == (if replies@.len() == 0 {
                Plan::<usize>::Ask(CallView::Changes)
            } else {
                Plan::<usize>::Done(Self::count_of(replies@[0]@))
            }),
    {
        if replies.len() == 0 {
            Turn::Ask(Call::Changes)
        } else {
            match &replies[0] {
                Reply::Int(n) => Turn::Done(#[verifier::truncate] (*n as usize)),
                _ => Turn::Done(0),
            }
        }
    }

    /// The row id of the most recent insert through this connection.
    pub fn last_insert_id(&self, replies: &[Reply]) -> (turn: Turn<u64>)
        ensures
            turn@ == (if replies@.len() == 0 {
                Plan::<u64>::Ask(CallView::LastInsertRowid)
            } else {
                Plan::<u64>::Done(Self::rowid_of(replies@[0]@))
            }),
    {
        if replies.len() == 0 {
            Turn::Ask(Call::LastInsertRowid)
        } else {
            match &replies[0] {
                Reply::Int64(id) => Turn::Done(#[verifier::truncate] (*id as u64)),
                _ => Turn::Done(0),
            }
        }
    }

    /// Ends the connection: gives the one call that closes it.
    pub fn close(self) -> (call: Call)
        ensures
            call@ == CallView::Close,
    {
        Call::Close
    }

    /// Whether the connection has no handle. A connection has one from the
    /// moment it exists.
    pub fn is_null(&self) -> (null: bool)
        ensures
            !null,
    {
        proof {
            use_type_invariant(self);
        }
        !self.live
    }
}

} // verus!
