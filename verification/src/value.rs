//! Scalar property values as the remote store types them.

use vstd::prelude::*;

verus! {

/// A typed scalar that a property filter compares against.
///
/// Floating-point values are carried as their decimal text and stand for the
/// number nearest to that text; the library passes them on and never computes
/// on them.
#[derive(Debug, PartialEq)]
pub enum Value {
    String(String),
    F32(String),
    F64(String),
    I8(i8),
    I16(i16),
    I32(i32),
    I64(i64),
    U8(u8),
    U16(u16),
    U32(u32),
    U64(u64),
    U128(u128),
    Boolean(bool),
    Empty,
}

/// The mathematical value of a [`Value`].
pub enum ValueView {
    String(Seq<char>),
    F32(Seq<char>),
    F64(Seq<char>),
    I8(i8),
    I16(i16),
    I32(i32),
    I64(i64),
    U8(u8),
    U16(u16),
    U32(u32),
    U64(u64),
    U128(u128),
    Boolean(bool),
    Empty,
}

impl View for Value {
    type V = ValueView;

    open spec fn view(&self) -> ValueView {
        match *self {
            Value::String(s) => ValueView::String(s@),
            Value::F32(s) => ValueView::F32(s@),
            Value::F64(s) => ValueView::F64(s@),
            Value::I8(i) => ValueView::I8(i),
            Value::I16(i) => ValueView::I16(i),
            Value::I32(i) => ValueView::I32(i),
            Value::I64(i) => ValueView::I64(i),
            Value::U8(i) => ValueView::U8(i),
            Value::U16(i) => ValueView::U16(i),
            Value::U32(i) => ValueView::U32(i),
            Value::U64(i) => ValueView::U64(i),
            Value::U128(i) => ValueView::U128(i),
            Value::Boolean(b) => ValueView::Boolean(b),
            Value::Empty => ValueView::Empty,
        }
    }
}

impl Clone for Value {
    fn clone(&self) -> (r: Self)
        ensures
            r@ == self@,
    {
        match self {
            Value::String(s) => Value::String(s.clone()),
            Value::F32(s) => Value::F32(s.clone()),
            Value::F64(s) => Value::F64(s.clone()),
            Value::I8(i) => Value::I8(*i),
            Value::I16(i) => Value::I16(*i),
            Value::I32(i) => Value::I32(*i),
            Value::I64(i) => Value::I64(*i),
            Value::U8(i) => Value::U8(*i),
            Value::U16(i) => Value::U16(*i),
            Value::U32(i) => Value::U32(*i),
            Value::U64(i) => Value::U64(*i),
            Value::U128(i) => Value::U128(*i),
            Value::Boolean(b) => Value::Boolean(*b),
            Value::Empty => Value::Empty,
        }
    }
}

} // verus!
