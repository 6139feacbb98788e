use vstd::prelude::*;
use crate::error::{Error, ErrorView};

verus! {

/// The status of a call that succeeded.
pub const OK: i32 = 0;

/// The status of a step that stands on a row.
pub const ROW: i32 = 100;

/// The status of a step past the last row.
pub const DONE: i32 = 101;

/// The open flags for a database that is read and written, and created if
/// it does not exist.
pub const OPEN_FLAGS: i32 = 6;

/// `libsqlite3_sys::SQLITE_OK`, the status of a call that succeeded. The
/// contract claims the value the crate's bindings give the constant.
#[verifier::external_body]
pub(crate) fn status_ok() -> (code: i32)
    ensures
        code == OK,
{
    libsqlite3_sys::SQLITE_OK
}

/// `libsqlite3_sys::SQLITE_ROW`, the status of a step that stands on a row.
/// The contract claims the value the crate's bindings give the constant.
#[verifier::external_body]
pub(crate) fn status_row() -> (code: i32)
    ensures
        code == ROW,
{
    libsqlite3_sys::SQLITE_ROW
}

/// `libsqlite3_sys::SQLITE_DONE`, the status of a step past the last row.
/// The contract claims the value the crate's bindings give the constant.
#[verifier::external_body]
pub(crate) fn status_done() -> (code: i32)
    ensures
        code == DONE,
{
    libsqlite3_sys::SQLITE_DONE
}

/// `libsqlite3_sys::SQLITE_OPEN_READWRITE`, the flag that opens a database
/// for reading and writing. The contract claims the value the crate's
/// bindings give the constant.
#[verifier::external_body]
pub(crate) fn open_readwrite() -> (flag: i32)
    ensures
        flag == 2,
{
    libsqlite3_sys::SQLITE_OPEN_READWRITE
}

/// `libsqlite3_sys::SQLITE_OPEN_CREATE`, the flag that creates a database
/// that does not exist. The contract claims the value the crate's bindings
/// give the constant.
#[verifier::external_body]
pub(crate) fn open_create() -> (flag: i32)
    ensures
        flag == 4,
{
    libsqlite3_sys::SQLITE_OPEN_CREATE
}

/// `libsqlite3_sys::SQLITE_INTEGER`, the type tag of an integer column.
/// The contract claims the value the crate's bindings give the constant.
#[verifier::external_body]
fn tag_integer() -> (tag: i32)
    ensures
        tag == 1,
{
    libsqlite3_sys::SQLITE_INTEGER
}

/// `libsqlite3_sys::SQLITE_FLOAT`, the type tag of a floating-point column.
/// The contract claims the value the crate's bindings give the constant.
#[verifier::external_body]
fn tag_float() -> (tag: i32)
    ensures
        tag == 2,
{
    libsqlite3_sys::SQLITE_FLOAT
}

/// `libsqlite3_sys::SQLITE_TEXT`, the type tag of a text column. The
/// contract claims the value the crate's bindings give the constant.
#[verifier::external_body]
fn tag_text() -> (tag: i32)
    ensures
        tag == 3,
{
    libsqlite3_sys::SQLITE_TEXT
}

/// `libsqlite3_sys::SQLITE_BLOB`, the type tag of a binary column. The
/// contract claims the value the crate's bindings give the constant.
#[verifier::external_body]
fn tag_blob() -> (tag: i32)
    ensures
        tag == 4,
{
    libsqlite3_sys::SQLITE_BLOB
}

/// `libsqlite3_sys::SQLITE_NULL`, the type tag of a column that holds no
/// value. The contract claims the value the crate's bindings give the
/// constant.
#[verifier::external_body]
fn tag_null() -> (tag: i32)
    ensures
        tag == 5,
{
    libsqlite3_sys::SQLITE_NULL
}

/// The flags a connection is opened with: read-write, created if absent.
pub(crate) fn open_flags() -> (flags: i32)
    ensures
        flags == OPEN_FLAGS,
{
    let rw: i32 = open_readwrite();
    let create: i32 = open_create();
    assert(2i32 | 4i32 == 6i32) by (bit_vector);
    rw | create
}

/// The dynamic type of a column of the current row.
#[derive(Clone, Copy, Debug, PartialEq, Eq, Structural)]
pub enum SqliteTypes {
    Int,
    FLoat,
    Blob,
    Null,
    Text,
}

impl View for SqliteTypes {
    type V = SqliteTypes;

    open spec fn view(&self) -> SqliteTypes {
        *self
    }
}

impl SqliteTypes {
    /// The type a tag of the engine stands for, if it stands for one.
    pub open spec fn of_tag(code: i32) -> Option<SqliteTypes> {
        if code == 1 {
            Some(SqliteTypes::Int)
        } else if code == 2 {
            Some(SqliteTypes::FLoat)
        } else if code == 3 {
            Some(SqliteTypes::Text)
        } else if code == 4 {
            Some(SqliteTypes::Blob)
        } else if code == 5 {
            Some(SqliteTypes::Null)
        } else {
            None
        }
    }

    /// Maps the engine's type tag to the type. A tag the engine does not
    /// define is an error.
    pub fn new(code: i32) -> (r: Result<SqliteTypes, Error>)
        ensures
            match r {
                Ok(t) => Self::of_tag(code) == Some(t),
                Err(e) => Self::of_tag(code) is None && e@ == ErrorView::Unknown(
                    "Cannot SQLITE type"@,
                ),
            },
    {
        if code == tag_integer() {
            Ok(SqliteTypes::Int)
        } else if code == tag_float() {
            Ok(SqliteTypes::FLoat)
        } else if code == tag_blob() {
            Ok(SqliteTypes::Blob)
        } else if code == tag_null() {
            Ok(SqliteTypes::Null)
        } else if code == tag_text() {
            Ok(SqliteTypes::Text)
        } else {
            Err(Error::Unknown("Cannot SQLITE type".to_string()))
        }
    }
}

} // verus!
