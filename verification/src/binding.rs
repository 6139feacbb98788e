use vstd::prelude::*;
use vstd::utf8::encode_utf8;
use crate::engine::{Call, CallView};
use crate::error::{Error, ErrorView};
use crate::value::{Value, ValueView};

verus! {

/// A `u64` read as the signed 64-bit integer with the same bits.
pub open spec fn reinterpret(v: u64) -> i64 {
    v as i64
}

/// The call that binds `text` to a position: the length is handed over
/// with the bytes, and only a buffer that holds bytes is copied by the
/// engine. None if the length does not fit the engine's 32-bit length.
pub open spec fn text_binding(text: Seq<u8>, index: i32) -> Option<CallView> {
    if text.len() > i32::MAX {
        None
    } else {
        Some(
            CallView::BindText {
                index,
                text,
                len: text.len() as i32,
                transient: text.len() > 0,
            },
        )
    }
}

/// The call that binds a value to a position. Integers are bound as
/// signed 64-bit integers, an unsigned one by its bits; text is bound
/// as its UTF-8 bytes.
pub open spec fn binding(value: ValueView, index: i32) -> Option<CallView> {
    match value {
        ValueView::Int(v) => Some(CallView::BindInt64 { index, value: v }),
        ValueView::Uint(v) => Some(CallView::BindInt64 { index, value: reinterpret(v) }),
        ValueView::Float(v) => Some(CallView::BindDouble { index, value: v }),
        ValueView::Bytes(v) => text_binding(v, index),
        ValueView::String(v) => text_binding(encode_utf8(v), index),
        ValueView::Null => Some(CallView::BindNull { index }),
    }
}

/// The error for a value whose bytes the engine's interface cannot count.
pub open spec fn too_large() -> ErrorView {
    ErrorView::BindError("Value is too large to bind"@)
}

/// The call that binds a buffer of bytes as text.
pub(crate) fn bind_buff(text: Vec<u8>, index: i32) -> (r: Result<Call, Error>)
    ensures
        match r {
            Ok(call) => text_binding(text@, index) == Some(call@),
            Err(e) => text_binding(text@, index) is None && e@ == too_large(),
        },
{
    let buf_len = text.len();
    if buf_len > i32::MAX as usize {
        return Err(Error::BindError("Value is too large to bind".to_string()));
    }
    let transient = buf_len > 0;
    Ok(Call::BindText { index, text, len: buf_len as i32, transient })
}

/// The error for a run of parameters longer than the engine's positions
/// can count.
pub open spec fn too_many() -> ErrorView {
    ErrorView::BindError("Too many parameters"@)
}

/// The views of a run of values, in order.
pub open spec fn values_of(values: Seq<Value>) -> Seq<ValueView> {
    values.map_values(|v: Value| v@)
}

} // verus!
