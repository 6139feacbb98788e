use vstd::prelude::*;

verus! {

/// What can go wrong in the statement layer.
#[derive(Debug)]
pub enum Error {
    /// A step gave a status that is neither "row" nor "done"; holds the
    /// engine's diagnostic text.
    SqliteError(String),
    /// The engine answered with something the layer does not know, such as
    /// an unrecognised type tag.
    Unknown(String),
    /// A parameter could not be bound; holds the engine's diagnostic text.
    BindError(String),
    /// The SQL text could not be prepared, or the statement is not prepared.
    PrepareErr(String),
    /// A column position at or beyond the column count; holds the position.
    IndexOutOfBounds(String),
    /// The database could not be opened.
    ConnectionErr(String),
    /// A single-row fetch found no row.
    Empty,
    /// No column bears the name; holds the name.
    ColumnNotFound(String),
    /// The value's variant does not fit the type asked for.
    ConversionError,
}

/// The mathematical content of an [`Error`].
pub enum ErrorView {
    SqliteError(Seq<char>),
    Unknown(Seq<char>),
    BindError(Seq<char>),
    PrepareErr(Seq<char>),
    IndexOutOfBounds(Seq<char>),
    ConnectionErr(Seq<char>),
    Empty,
    ColumnNotFound(Seq<char>),
    ConversionError,
}

impl View for Error {
    type V = ErrorView;

    open spec fn view(&self) -> ErrorView {
        match self {
            Error::SqliteError(m) => ErrorView::SqliteError(m@),
            Error::Unknown(m) => ErrorView::Unknown(m@),
            Error::BindError(m) => ErrorView::BindError(m@),
            Error::PrepareErr(m) => ErrorView::PrepareErr(m@),
            Error::IndexOutOfBounds(m) => ErrorView::IndexOutOfBounds(m@),
            Error::ConnectionErr(m) => ErrorView::ConnectionErr(m@),
            Error::Empty => ErrorView::Empty,
            Error::ColumnNotFound(m) => ErrorView::ColumnNotFound(m@),
            Error::ConversionError => ErrorView::ConversionError,
        }
    }
}

} // verus!
