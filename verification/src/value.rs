use vstd::prelude::*;
use vstd::std_specs::convert::{FromSpec, FromSpecImpl};
use vstd::string::StringExecFns;
use crate::double::{clamp, Double};
use crate::error::{Error, ErrorView};

verus! {

/// Any value a column or a parameter can hold.
#[derive(Debug)]
pub enum Value {
    Int(i64),
    Uint(u64),
    Float(Double),
    String(String),
    Bytes(Vec<u8>),
    Null,
}

/// The mathematical content of a [`Value`].
pub enum ValueView {
    Int(i64),
    Uint(u64),
    Float(Double),
    String(Seq<char>),
    Bytes(Seq<u8>),
    Null,
}

impl View for Value {
    type V = ValueView;

    open spec fn view(&self) -> ValueView {
        match self {
            Value::Int(v) => ValueView::Int(*v),
            Value::Uint(v) => ValueView::Uint(*v),
            Value::Float(v) => ValueView::Float(*v),
            Value::String(v) => ValueView::String(v@),
            Value::Bytes(v) => ValueView::Bytes(v@),
            Value::Null => ValueView::Null,
        }
    }
}

impl Clone for Value {
    fn clone(&self) -> (copy: Value)
        ensures
            copy@ == self@,
    {
        match self {
            Value::Int(v) => Value::Int(*v),
            Value::Uint(v) => Value::Uint(*v),
            Value::Float(v) => Value::Float(*v),
            Value::String(v) => Value::String(v.clone()),
            Value::Bytes(v) => Value::Bytes(v.clone()),
            Value::Null => Value::Null,
        }
    }
}

/// A signed integer is an `Int`.
impl From<i64> for Value {
    fn from(val: i64) -> (v: Value) {
        Value::Int(val)
    }
}

impl FromSpecImpl<i64> for Value {
    open spec fn obeys_from_spec() -> bool {
        true
    }

    open spec fn from_spec(val: i64) -> Value {
        Value::Int(val)
    }
}

/// An unsigned integer is a `Uint`.
impl From<u64> for Value {
    fn from(val: u64) -> (v: Value) {
        Value::Uint(val)
    }
}

impl FromSpecImpl<u64> for Value {
    open spec fn obeys_from_spec() -> bool {
        true
    }

    open spec fn from_spec(val: u64) -> Value {
        Value::Uint(val)
    }
}

/// A floating-point number is a `Float`.
impl From<Double> for Value {
    fn from(val: Double) -> (v: Value) {
        Value::Float(val)
    }
}

impl FromSpecImpl<Double> for Value {
    open spec fn obeys_from_spec() -> bool {
        true
    }

    open spec fn from_spec(val: Double) -> Value {
        Value::Float(val)
    }
}

/// An owned string is text.
impl From<String> for Value {
    fn from(val: String) -> (v: Value) {
        Value::String(val)
    }
}

impl FromSpecImpl<String> for Value {
    open spec fn obeys_from_spec() -> bool {
        true
    }

    open spec fn from_spec(val: String) -> Value {
        Value::String(val)
    }
}

/// Owned bytes are `Bytes`.
impl From<Vec<u8>> for Value {
    fn from(val: Vec<u8>) -> (v: Value) {
        Value::Bytes(val)
    }
}

impl FromSpecImpl<Vec<u8>> for Value {
    open spec fn obeys_from_spec() -> bool {
        true
    }

    open spec fn from_spec(val: Vec<u8>) -> Value {
        Value::Bytes(val)
    }
}

/// A string slice is text with the same characters. The text is a new
/// string, which no function of the slice names; what it holds is said
/// where it is made.
impl<'a> From<&'a str> for Value {
    fn from(val: &'a str) -> (v: Value)
        ensures
            v@ == ValueView::String(val@),
    {
        Value::String(String::from_str(val))
    }
}

impl<'a> FromSpecImpl<&'a str> for Value {
    open spec fn obeys_from_spec() -> bool {
        false
    }

    open spec fn from_spec(val: &'a str) -> Value {
        Value::Null
    }
}

/// Nothing is `Null`, and something is what it is by itself.
impl<T> From<Option<T>> for Value where Value: From<T> {
    fn from(val: Option<T>) -> (v: Value) {
        match val {
            Some(x) => Value::from(x),
            None => Value::Null,
        }
    }
}

impl<T> FromSpecImpl<Option<T>> for Value where Value: From<T> {
    open spec fn obeys_from_spec() -> bool {
        <Value as FromSpec<T>>::obeys_from_spec()
    }

    open spec fn from_spec(val: Option<T>) -> Value {
        match val {
            Some(x) => <Value as FromSpec<T>>::from_spec(x),
            None => Value::Null,
        }
    }
}

impl ValueView {
    /// Whether the value is a number: an integer of either sign or a
    /// floating-point number.
    pub open spec fn is_numeric(self) -> bool {
        self is Int || self is Uint || self is Float
    }
}

/// Typed extraction: what a [`Value`] is as a value of a type of the
/// caller's.
pub trait FromValue: Sized {
    /// Whether a value can be taken as this type.
    spec fn fits(v: ValueView) -> bool;

    /// Whether `self` is what `v` is as this type.
    spec fn is_from(&self, v: ValueView) -> bool;

    /// Takes the value as this type, or fails with `ConversionError`
    /// where its variant does not fit.
    fn from_value(v: Value) -> (r: Result<Self, Error>)
        ensures
            match r {
                Ok(x) => Self::fits(v@) && x.is_from(v@),
                Err(e) => !Self::fits(v@) && e@ == ErrorView::ConversionError,
            },
    ;
}

impl FromValue for i64 {
    open spec fn fits(v: ValueView) -> bool {
        v.is_numeric()
    }

    /// An integer stays, an unsigned one is read as the signed integer
    /// with the same bits, a floating-point number is cut off towards
    /// zero and held within the range.
    open spec fn is_from(&self, v: ValueView) -> bool {
        match v {
            ValueView::Int(a) => *self == a,
            ValueView::Uint(a) => *self == a as i64,
            ValueView::Float(a) => *self == clamp(a.truncated(), i64::MIN as int, i64::MAX as int),
            _ => false,
        }
    }

    fn from_value(v: Value) -> (r: Result<i64, Error>) {
        match v {
            Value::Int(a) => Ok(a),
            Value::Uint(a) => Ok(#[verifier::truncate] (a as i64)),
            Value::Float(a) => Ok(a.to_i64()),
            _ => Err(Error::ConversionError),
        }
    }
}

impl FromValue for u64 {
    open spec fn fits(v: ValueView) -> bool {
        v.is_numeric()
    }

    /// An unsigned integer stays, a signed one is read as the unsigned
    /// integer with the same bits, a floating-point number is cut off
    /// towards zero and held within the range.
    open spec fn is_from(&self, v: ValueView) -> bool {
        match v {
            ValueView::Int(a) => *self == a as u64,
            ValueView::Uint(a) => *self == a,
            ValueView::Float(a) => *self == clamp(a.truncated(), 0, u64::MAX as int),
            _ => false,
        }
    }

    fn from_value(v: Value) -> (r: Result<u64, Error>) {
        match v {
            Value::Int(a) => Ok(#[verifier::truncate] (a as u64)),
            Value::Uint(a) => Ok(a),
            Value::Float(a) => Ok(a.to_u64()),
            _ => Err(Error::ConversionError),
        }
    }
}

impl FromValue for i32 {
    open spec fn fits(v: ValueView) -> bool {
        v.is_numeric()
    }

    /// Of an integer the low 32 bits are kept, a floating-point number
    /// is cut off towards zero and held within the range.
    open spec fn is_from(&self, v: ValueView) -> bool {
        match v {
            ValueView::Int(a) => *self == a as i32,
            ValueView::Uint(a) => *self == a as i32,
            ValueView::Float(a) => *self == clamp(a.truncated(), i32::MIN as int, i32::MAX as int),
            _ => false,
        }
    }

    fn from_value(v: Value) -> (r: Result<i32, Error>) {
        match v {
            Value::Int(a) => Ok(#[verifier::truncate] (a as i32)),
            Value::Uint(a) => Ok(#[verifier::truncate] (a as i32)),
            Value::Float(a) => Ok(a.to_i32()),
            _ => Err(Error::ConversionError),
        }
    }
}

impl FromValue for u32 {
    open spec fn fits(v: ValueView) -> bool {
        v.is_numeric()
    }

    /// Of an integer the low 32 bits are kept, a floating-point number
    /// is cut off towards zero and held within the range.
    open spec fn is_from(&self, v: ValueView) -> bool {
        match v {
            ValueView::Int(a) => *self == a as u32,
            ValueView::Uint(a) => *self == a as u32,
            ValueView::Float(a) => *self == clamp(a.truncated(), 0, u32::MAX as int),
            _ => false,
        }
    }

    fn from_value(v: Value) -> (r: Result<u32, Error>) {
        match v {
            Value::Int(a) => Ok(#[verifier::truncate] (a as u32)),
            Value::Uint(a) => Ok(#[verifier::truncate] (a as u32)),
            Value::Float(a) => Ok(a.to_u32()),
            _ => Err(Error::ConversionError),
        }
    }
}

impl FromValue for usize {
    open spec fn fits(v: ValueView) -> bool {
        v.is_numeric()
    }

    /// Of an integer the low bits that the type holds are kept, a
    /// floating-point number is cut off towards zero and held within the
    /// range.
    open spec fn is_from(&self, v: ValueView) -> bool {
        match v {
            ValueView::Int(a) => *self == a as usize,
            ValueView::Uint(a) => *self == a as usize,
            ValueView::Float(a) => *self == clamp(a.truncated(), 0, usize::MAX as int),
            _ => false,
        }
    }

    fn from_value(v: Value) -> (r: Result<usize, Error>) {
        match v {
            Value::Int(a) => Ok(#[verifier::truncate] (a as usize)),
            Value::Uint(a) => Ok(#[verifier::truncate] (a as usize)),
            Value::Float(a) => Ok(a.to_usize()),
            _ => Err(Error::ConversionError),
        }
    }
}

impl FromValue for String {
    open spec fn fits(v: ValueView) -> bool {
        v is String
    }

    open spec fn is_from(&self, v: ValueView) -> bool {
        v == ValueView::String(self@)
    }

    fn from_value(v: Value) -> (r: Result<String, Error>) {
        match v {
            Value::String(a) => Ok(a),
            _ => Err(Error::ConversionError),
        }
    }
}

impl<T: FromValue> FromValue for Option<T> {
    open spec fn fits(v: ValueView) -> bool {
        v is Null || T::fits(v)
    }

    /// No value gives `None`; any other value gives `Some`, as the type
    /// within is taken from it.
    open spec fn is_from(&self, v: ValueView) -> bool {
        match *self {
            None => v is Null,
            Some(x) => !(v is Null) && x.is_from(v),
        }
    }

    fn from_value(v: Value) -> (r: Result<Option<T>, Error>) {
        match v {
            Value::Null => Ok(None),
            other => match T::from_value(other) {
                Ok(x) => Ok(Some(x)),
                Err(e) => Err(e),
            },
        }
    }
}

} // verus!
