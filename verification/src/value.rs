//! Scalar values carried by context fields.

use std::borrow::Cow;
use vstd::prelude::*;
use vstd::slice::slice_to_vec;

verus! {

/// A value that can be passed as a context field.
///
/// String and byte payloads are either borrowed from the call site or owned.
pub enum Value<'a> {
    /// A string value.
    Str(Cow<'a, str>),
    /// A byte array value.
    Bytes(Cow<'a, [u8]>),
    /// A boolean value.
    Bool(bool),
    /// A signed 64-bit integer value.
    I64(i64),
    /// An unsigned 64-bit integer value.
    U64(u64),
    /// A 64-bit floating-point value, held as its IEEE-754 bit pattern.
    F64(u64),
    /// A null value.
    Null,
}

/// The mathematical content of a [`Value`]: its kind and payload, without
/// regard to who owns the payload.
pub enum ValueView {
    Str(Seq<char>),
    Bytes(Seq<u8>),
    Bool(bool),
    I64(i64),
    U64(u64),
    F64(u64),
    Null,
}

impl<'a> View for Value<'a> {
    type V = ValueView;

    open spec fn view(&self) -> ValueView {
        match self {
            Value::Str(s) => ValueView::Str(s@),
            Value::Bytes(b) => ValueView::Bytes(b@),
            Value::Bool(b) => ValueView::Bool(*b),
            Value::I64(n) => ValueView::I64(*n),
            Value::U64(n) => ValueView::U64(*n),
            Value::F64(x) => ValueView::F64(*x),
            Value::Null => ValueView::Null,
        }
    }
}

impl<'a> Clone for Value<'a> {
    /// A borrowed payload stays borrowed; an owned one is copied.
    fn clone(&self) -> (r: Self)
        ensures
            r@ == self@,
            r.is_owned() == self.is_owned(),
    {
        match self {
            Value::Str(s) => {
                match s {
                    Cow::Borrowed(b) => Value::Str(Cow::Borrowed(*b)),
                    Cow::Owned(o) => Value::Str(Cow::Owned(o.clone())),
                }
            },
            Value::Bytes(b) => {
                match b {
                    Cow::Borrowed(s) => Value::Bytes(Cow::Borrowed(*s)),
                    Cow::Owned(o) => Value::Bytes(Cow::Owned(slice_to_vec(o.as_slice()))),
                }
            },
            Value::Bool(b) => Value::Bool(*b),
            Value::U64(n) => Value::U64(*n),
            Value::I64(n) => Value::I64(*n),
            Value::F64(x) => Value::F64(*x),
            Value::Null => Value::Null,
        }
    }
}

impl<'a> Default for Value<'a> {
    fn default() -> (r: Self)
        ensures
            r@ == ValueView::Null,
    {
        Value::Null
    }
}

impl<'a> Value<'a> {
    /// True when no payload of the value is borrowed.
    pub open spec fn is_owned(&self) -> bool {
        match self {
            Value::Str(Cow::Borrowed(_)) => false,
            Value::Bytes(Cow::Borrowed(_)) => false,
            _ => true,
        }
    }

    /// Copy into a value that borrows nothing.
    pub fn to_static(&self) -> (r: Value<'static>)
        ensures
            r@ == self@,
            r.is_owned(),
    {
        match self {
            Value::Str(s) => {
                let owned: String = match s {
                    Cow::Borrowed(b) => (*b).to_owned(),
                    Cow::Owned(o) => o.clone(),
                };
                Value::Str(Cow::Owned(owned))
            },
            Value::Bytes(b) => {
                let owned: Vec<u8> = match b {
                    Cow::Borrowed(s) => slice_to_vec(*s),
                    Cow::Owned(o) => slice_to_vec(o.as_slice()),
                };
                Value::Bytes(Cow::Owned(owned))
            },
            Value::Bool(b) => Value::Bool(*b),
            Value::U64(n) => Value::U64(*n),
            Value::I64(n) => Value::I64(*n),
            Value::F64(x) => Value::F64(*x),
            Value::Null => Value::Null,
        }
    }

    /// Convert into a value that borrows nothing, consuming this one.
    /// A payload that is already owned is moved, not copied.
    pub fn into_static(self) -> (r: Value<'static>)
        ensures
            r@ == self@,
            r.is_owned(),
    {
        match self {
            Value::Str(s) => {
                let owned: String = match s {
                    Cow::Borrowed(b) => b.to_owned(),
                    Cow::Owned(o) => o,
                };
                Value::Str(Cow::Owned(owned))
            },
            Value::Bytes(b) => {
                let owned: Vec<u8> = match b {
                    Cow::Borrowed(s) => slice_to_vec(s),
                    Cow::Owned(o) => o,
                };
                Value::Bytes(Cow::Owned(owned))
            },
            Value::Bool(b) => Value::Bool(b),
            Value::U64(n) => Value::U64(n),
            Value::I64(n) => Value::I64(n),
            Value::F64(x) => Value::F64(x),
            Value::Null => Value::Null,
        }
    }

    /// The string, if the value is a string.
    pub fn as_str(&self) -> (r: Option<&str>)
        ensures
            match r {
                Some(s) => self@ == ValueView::Str(s@),
                None => !(self@ is Str),
            },
    {
        match self {
            Value::Str(s) => {
                match s {
                    Cow::Borrowed(b) => Some(*b),
                    Cow::Owned(o) => Some(o.as_str()),
                }
            },
            _ => None,
        }
    }

    /// The bytes, if the value is a byte sequence.
    pub fn as_bytes(&self) -> (r: Option<&[u8]>)
        ensures
            match r {
                Some(b) => self@ == ValueView::Bytes(b@),
                None => !(self@ is Bytes),
            },
    {
        match self {
            Value::Bytes(b) => {
                match b {
                    Cow::Borrowed(s) => Some(*s),
                    Cow::Owned(o) => Some(o.as_slice()),
                }
            },
            _ => None,
        }
    }

    /// The boolean, if the value is a boolean.
    pub fn as_bool(&self) -> (r: Option<bool>)
        ensures
            match r {
                Some(b) => self@ == ValueView::Bool(b),
                None => !(self@ is Bool),
            },
    {
        match self {
            Value::Bool(b) => Some(*b),
            _ => None,
        }
    }

    /// The integer, if the value is a signed 64-bit integer.
    pub fn as_i64(&self) -> (r: Option<i64>)
        ensures
            match r {
                Some(n) => self@ == ValueView::I64(n),
                None => !(self@ is I64),
            },
    {
        match self {
            Value::I64(n) => Some(*n),
            _ => None,
        }
    }

    /// The integer, if the value is an unsigned 64-bit integer.
    pub fn as_u64(&self) -> (r: Option<u64>)
        ensures
            match r {
                Some(n) => self@ == ValueView::U64(n),
                None => !(self@ is U64),
            },
    {
        match self {
            Value::U64(n) => Some(*n),
            _ => None,
        }
    }

    /// The bit pattern of the float, if the value is a 64-bit float.
    pub fn as_f64_bits(&self) -> (r: Option<u64>)
        ensures
            match r {
                Some(x) => self@ == ValueView::F64(x),
                None => !(self@ is F64),
            },
    {
        match self {
            Value::F64(x) => Some(*x),
            _ => None,
        }
    }

    /// Whether the value is null.
    pub fn is_null(&self) -> (r: bool)
        ensures
            r == (self@ is Null),
    {
        match self {
            Value::Null => true,
            _ => false,
        }
    }
}

/// Making a value borrow nothing keeps its kind and payload, and doing so
/// twice gives what doing so once gives.
pub proof fn lemma_to_static_idempotent(v: Value<'_>, once: Value<'static>, twice: Value<'static>)
    requires
        once@ == v@ && once.is_owned(),
        twice@ == once@ && twice.is_owned(),
    ensures
        twice@ == v@,
        twice.is_owned() == once.is_owned(),
{
}

/// Types that can be passed as the value of a context field.
pub trait ToValue {
    /// Whether `v` is what this value is passed as. Unless a type says
    /// otherwise, nothing is known of it.
    open spec fn shows(&self, v: ValueView) -> bool {
        true
    }

    /// The value as a field value. Strings and bytes are borrowed.
    fn to_value(&self) -> (r: Value<'_>)
        ensures
            self.shows(r@),
    ;
}

impl<V: ToValue> ToValue for Option<V> {
    open spec fn shows(&self, v: ValueView) -> bool {
        match self {
            Some(inner) => inner.shows(v),
            None => v == ValueView::Null,
        }
    }

    fn to_value(&self) -> (r: Value<'_>) {
        match self {
            Some(v) => v.to_value(),
            None => Value::Null,
        }
    }
}

impl<V: ?Sized + ToValue> ToValue for &'_ V {
    open spec fn shows(&self, v: ValueView) -> bool {
        (**self).shows(v)
    }

    fn to_value(&self) -> (r: Value<'_>) {
        (**self).to_value()
    }
}

impl<V: ToValue + Clone> ToValue for Cow<'_, V> {
    open spec fn shows(&self, v: ValueView) -> bool {
        match self {
            Cow::Borrowed(borrowed) => borrowed.shows(v),
            Cow::Owned(owned) => owned.shows(v),
        }
    }

    fn to_value(&self) -> (r: Value<'_>) {
        match self {
            Cow::Borrowed(borrowed) => (**borrowed).to_value(),
            Cow::Owned(owned) => owned.to_value(),
        }
    }
}

impl ToValue for str {
    open spec fn shows(&self, v: ValueView) -> bool {
        v == ValueView::Str(self@)
    }

    fn to_value(&self) -> (r: Value<'_>) {
        Value::Str(Cow::Borrowed(self))
    }
}

impl ToValue for String {
    open spec fn shows(&self, v: ValueView) -> bool {
        v == ValueView::Str(self@)
    }

    fn to_value(&self) -> (r: Value<'_>) {
        Value::Str(Cow::Borrowed(self.as_str()))
    }
}

impl ToValue for [u8] {
    open spec fn shows(&self, v: ValueView) -> bool {
        v == ValueView::Bytes(self@)
    }

    fn to_value(&self) -> (r: Value<'_>) {
        Value::Bytes(Cow::Borrowed(self))
    }
}

impl ToValue for Vec<u8> {
    open spec fn shows(&self, v: ValueView) -> bool {
        v == ValueView::Bytes(self@)
    }

    fn to_value(&self) -> (r: Value<'_>) {
        Value::Bytes(Cow::Borrowed(self.as_slice()))
    }
}

impl ToValue for bool {
    open spec fn shows(&self, v: ValueView) -> bool {
        v == ValueView::Bool(*self)
    }

    fn to_value(&self) -> (r: Value<'_>) {
        Value::Bool(*self)
    }
}

impl ToValue for i8 {
    open spec fn shows(&self, v: ValueView) -> bool {
        v == ValueView::I64(*self as i64)
    }

    fn to_value(&self) -> (r: Value<'_>) {
        Value::I64(*self as i64)
    }
}

impl ToValue for i16 {
    open spec fn shows(&self, v: ValueView) -> bool {
        v == ValueView::I64(*self as i64)
    }

    fn to_value(&self) -> (r: Value<'_>) {
        Value::I64(*self as i64)
    }
}

impl ToValue for i32 {
    open spec fn shows(&self, v: ValueView) -> bool {
        v == ValueView::I64(*self as i64)
    }

    fn to_value(&self) -> (r: Value<'_>) {
        Value::I64(*self as i64)
    }
}

impl ToValue for i64 {
    open spec fn shows(&self, v: ValueView) -> bool {
        v == ValueView::I64(*self)
    }

    fn to_value(&self) -> (r: Value<'_>) {
        Value::I64(*self)
    }
}

impl ToValue for u8 {
    open spec fn shows(&self, v: ValueView) -> bool {
        v == ValueView::U64(*self as u64)
    }

    fn to_value(&self) -> (r: Value<'_>) {
        Value::U64(*self as u64)
    }
}

impl ToValue for u16 {
    open spec fn shows(&self, v: ValueView) -> bool {
        v == ValueView::U64(*self as u64)
    }

    fn to_value(&self) -> (r: Value<'_>) {
        Value::U64(*self as u64)
    }
}

impl ToValue for u32 {
    open spec fn shows(&self, v: ValueView) -> bool {
        v == ValueView::U64(*self as u64)
    }

    fn to_value(&self) -> (r: Value<'_>) {
        Value::U64(*self as u64)
    }
}

impl ToValue for u64 {
    open spec fn shows(&self, v: ValueView) -> bool {
        v == ValueView::U64(*self)
    }

    fn to_value(&self) -> (r: Value<'_>) {
        Value::U64(*self)
    }
}

} // verus!
