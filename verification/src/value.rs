//! The values the machine computes with.
//!
//! A [`Value`] is either a primitive, held in place, or a handle to a cell of
//! the [`Heap`]. Copying a value copies the handle: both copies then name the
//! same cell, and a change made through one is seen through the other.

use vstd::prelude::*;
use vstd::string::*;
use crate::float::Float;
use crate::hash;
use crate::heap::Heap;
use crate::shared::{AccessError, Shared};

verus! {

/// The identifier of an interned string: its slot in the compilation unit's
/// table of static strings.
#[derive(Clone, Copy, Debug, PartialEq, Eq, Structural)]
pub struct StaticString {
    /// The slot in the table of static strings.
    pub slot: usize,
}

/// A value of the machine.
#[derive(Clone, Copy, Debug, PartialEq, Eq, Structural)]
pub enum Value {
    /// The unit value.
    Unit,
    /// A boolean.
    Bool(bool),
    /// A byte.
    Byte(u8),
    /// A character.
    Char(char),
    /// A signed 64-bit integer.
    Integer(i64),
    /// A double-precision number.
    Float(Float),
    /// An interned, immutable string.
    StaticString(StaticString),
    /// A shared string.
    String(Shared),
    /// A shared sequence of bytes.
    Bytes(Shared),
    /// A shared vector of values.
    Vec(Shared),
    /// A shared tuple of values.
    Tuple(Shared),
    /// A shared object: string keys, in insertion order.
    Object(Shared),
    /// A shared tuple that carries the hash of its type.
    TypedTuple(Shared),
    /// A shared object that carries the hash of its type.
    TypedObject(Shared),
    /// A shared optional value.
    Option(Shared),
    /// A shared result value.
    Result(Shared),
    /// A shared future.
    Future(Shared),
    /// A shared stream.
    Stream(Shared),
    /// A type, by its hash.
    Type(hash::Hash),
}

/// The type of a value, as far as method lookup tells types apart.
#[derive(Clone, Copy, Debug, PartialEq, Eq, Structural)]
pub enum ValueType {
    /// The unit type.
    Unit,
    /// Booleans.
    Bool,
    /// Bytes.
    Byte,
    /// Characters.
    Char,
    /// Integers.
    Integer,
    /// Double-precision numbers.
    Float,
    /// Strings, interned or not.
    String,
    /// Byte sequences.
    Bytes,
    /// Vectors.
    Vec,
    /// Tuples.
    Tuple,
    /// Objects.
    Object,
    /// Types.
    Type,
    /// Futures.
    Future,
    /// Streams.
    Stream,
    /// Optional values.
    Option,
    /// Result values.
    Result,
    /// Tuples of the type with this hash.
    TypedTuple(hash::Hash),
    /// Objects of the type with this hash.
    TypedObject(hash::Hash),
}

/// The kind of a value, for error reports.
#[derive(Clone, Copy, Debug, PartialEq, Eq, Structural)]
pub enum ValueTypeInfo {
    /// The unit value.
    Unit,
    /// A boolean.
    Bool,
    /// A byte.
    Byte,
    /// A character.
    Char,
    /// An integer.
    Integer,
    /// A double-precision number.
    Float,
    /// An interned string.
    StaticString,
    /// A string.
    String,
    /// A byte sequence.
    Bytes,
    /// A vector.
    Vec,
    /// A tuple.
    Tuple,
    /// An object.
    Object,
    /// A typed tuple.
    TypedTuple,
    /// A typed object.
    TypedObject,
    /// An optional value.
    Option,
    /// A result value.
    Result,
    /// A future.
    Future,
    /// A stream.
    Stream,
    /// A type.
    Type,
}

/// A value was of another kind than the one asked for.
#[derive(Clone, Copy, Debug, PartialEq, Eq, Structural)]
pub enum ValueError {
    /// The unit value was expected.
    ExpectedUnit { actual: ValueTypeInfo },
    /// A boolean was expected.
    ExpectedBoolean { actual: ValueTypeInfo },
    /// A byte was expected.
    ExpectedByte { actual: ValueTypeInfo },
    /// A character was expected.
    ExpectedChar { actual: ValueTypeInfo },
    /// An integer was expected.
    ExpectedInteger { actual: ValueTypeInfo },
    /// A double-precision number was expected.
    ExpectedFloat { actual: ValueTypeInfo },
    /// A future was expected.
    ExpectedFuture { actual: ValueTypeInfo },
    /// A stream was expected.
    ExpectedStream { actual: ValueTypeInfo },
    /// An optional value was expected.
    ExpectedOption { actual: ValueTypeInfo },
    /// A result value was expected.
    ExpectedResult { actual: ValueTypeInfo },
}

impl ValueType {
    /// The hash that stands for this type in method lookup.
    pub open spec fn spec_type_hash(self) -> hash::Hash {
        match self {
            ValueType::Unit => hash::Hash::spec_of("unit".spec_bytes()),
            ValueType::Bool => hash::Hash::spec_of("bool".spec_bytes()),
            ValueType::Byte => hash::Hash::spec_of("byte".spec_bytes()),
            ValueType::Char => hash::Hash::spec_of("char".spec_bytes()),
            ValueType::Integer => hash::Hash::spec_of("int".spec_bytes()),
            ValueType::Float => hash::Hash::spec_of("float".spec_bytes()),
            ValueType::String => hash::Hash::spec_of("String".spec_bytes()),
            ValueType::Bytes => hash::Hash::spec_of("Bytes".spec_bytes()),
            ValueType::Vec => hash::Hash::spec_of("Vec".spec_bytes()),
            ValueType::Tuple => hash::Hash::spec_of("Tuple".spec_bytes()),
            ValueType::Object => hash::Hash::spec_of("Object".spec_bytes()),
            ValueType::Type => hash::Hash::spec_of("Type".spec_bytes()),
            ValueType::Future => hash::Hash::spec_of("Future".spec_bytes()),
            ValueType::Stream => hash::Hash::spec_of("Stream".spec_bytes()),
            ValueType::Option => hash::Hash::spec_of("Option".spec_bytes()),
            ValueType::Result => hash::Hash::spec_of("Result".spec_bytes()),
            ValueType::TypedTuple(ty) => ty,
            ValueType::TypedObject(ty) => ty,
        }
    }

    /// The hash that stands for this type in method lookup.
    pub fn type_hash(self) -> (hash: hash::Hash)
        ensures
            hash == self.spec_type_hash(),
    {
        match self {
            ValueType::Unit => hash::Hash::of("unit"),
            ValueType::Bool => hash::Hash::of("bool"),
            ValueType::Byte => hash::Hash::of("byte"),
            ValueType::Char => hash::Hash::of("char"),
            ValueType::Integer => hash::Hash::of("int"),
            ValueType::Float => hash::Hash::of("float"),
            ValueType::String => hash::Hash::of("String"),
            ValueType::Bytes => hash::Hash::of("Bytes"),
            ValueType::Vec => hash::Hash::of("Vec"),
            ValueType::Tuple => hash::Hash::of("Tuple"),
            ValueType::Object => hash::Hash::of("Object"),
            ValueType::Type => hash::Hash::of("Type"),
            ValueType::Future => hash::Hash::of("Future"),
            ValueType::Stream => hash::Hash::of("Stream"),
            ValueType::Option => hash::Hash::of("Option"),
            ValueType::Result => hash::Hash::of("Result"),
            ValueType::TypedTuple(ty) => ty,
            ValueType::TypedObject(ty) => ty,
        }
    }
}

impl Value {
    /// The kind of this value.
    pub open spec fn spec_type_info(self) -> ValueTypeInfo {
        match self {
            Value::Unit => ValueTypeInfo::Unit,
            Value::Bool(_) => ValueTypeInfo::Bool,
            Value::Byte(_) => ValueTypeInfo::Byte,
            Value::Char(_) => ValueTypeInfo::Char,
            Value::Integer(_) => ValueTypeInfo::Integer,
            Value::Float(_) => ValueTypeInfo::Float,
            Value::StaticString(_) => ValueTypeInfo::StaticString,
            Value::String(_) => ValueTypeInfo::String,
            Value::Bytes(_) => ValueTypeInfo::Bytes,
            Value::Vec(_) => ValueTypeInfo::Vec,
            Value::Tuple(_) => ValueTypeInfo::Tuple,
            Value::Object(_) => ValueTypeInfo::Object,
            Value::TypedTuple(_) => ValueTypeInfo::TypedTuple,
            Value::TypedObject(_) => ValueTypeInfo::TypedObject,
            Value::Option(_) => ValueTypeInfo::Option,
            Value::Result(_) => ValueTypeInfo::Result,
            Value::Future(_) => ValueTypeInfo::Future,
            Value::Stream(_) => ValueTypeInfo::Stream,
            Value::Type(_) => ValueTypeInfo::Type,
        }
    }

    /// The type of this value for method lookup. A typed tuple or object
    /// carries its type in its cell, which has to be readable.
    pub open spec fn spec_value_type(self, heap: &Heap) -> Result<ValueType, AccessError> {
        match self {
            Value::Unit => Ok(ValueType::Unit),
            Value::Bool(_) => Ok(ValueType::Bool),
            Value::Byte(_) => Ok(ValueType::Byte),
            Value::Char(_) => Ok(ValueType::Char),
            Value::Integer(_) => Ok(ValueType::Integer),
            Value::Float(_) => Ok(ValueType::Float),
            Value::StaticString(_) => Ok(ValueType::String),
            Value::String(_) => Ok(ValueType::String),
            Value::Bytes(_) => Ok(ValueType::Bytes),
            Value::Vec(_) => Ok(ValueType::Vec),
            Value::Tuple(_) => Ok(ValueType::Tuple),
            Value::Object(_) => Ok(ValueType::Object),
            Value::TypedTuple(shared) => if heap.typed_tuples.readable(shared) {
                Ok(ValueType::TypedTuple(heap.typed_tuples.value(shared).ty))
            } else {
                Err(AccessError::NotAccessibleRef)
            },
            Value::TypedObject(shared) => if heap.typed_objects.readable(shared) {
                Ok(ValueType::TypedObject(heap.typed_objects.value(shared).ty))
            } else {
                Err(AccessError::NotAccessibleRef)
            },
            Value::Option(_) => Ok(ValueType::Option),
            Value::Result(_) => Ok(ValueType::Result),
            Value::Future(_) => Ok(ValueType::Future),
            Value::Stream(_) => Ok(ValueType::Stream),
            Value::Type(_) => Ok(ValueType::Type),
        }
    }

    /// The kind of this value.
    pub fn type_info(&self) -> (info: ValueTypeInfo)
        ensures
            info == self.spec_type_info(),
    {
        match self {
            Value::Unit => ValueTypeInfo::Unit,
            Value::Bool(_) => ValueTypeInfo::Bool,
            Value::Byte(_) => ValueTypeInfo::Byte,
            Value::Char(_) => ValueTypeInfo::Char,
            Value::Integer(_) => ValueTypeInfo::Integer,
            Value::Float(_) => ValueTypeInfo::Float,
            Value::StaticString(_) => ValueTypeInfo::StaticString,
            Value::String(_) => ValueTypeInfo::String,
            Value::Bytes(_) => ValueTypeInfo::Bytes,
            Value::Vec(_) => ValueTypeInfo::Vec,
            Value::Tuple(_) => ValueTypeInfo::Tuple,
            Value::Object(_) => ValueTypeInfo::Object,
            Value::TypedTuple(_) => ValueTypeInfo::TypedTuple,
            Value::TypedObject(_) => ValueTypeInfo::TypedObject,
            Value::Option(_) => ValueTypeInfo::Option,
            Value::Result(_) => ValueTypeInfo::Result,
            Value::Future(_) => ValueTypeInfo::Future,
            Value::Stream(_) => ValueTypeInfo::Stream,
            Value::Type(_) => ValueTypeInfo::Type,
        }
    }

    /// The type of this value for method lookup.
    pub fn value_type(&self, heap: &Heap) -> (result: Result<ValueType, AccessError>)
        ensures
            result == self.spec_value_type(heap),
    {
        match self {
            Value::Unit => Ok(ValueType::Unit),
            Value::Bool(_) => Ok(ValueType::Bool),
            Value::Byte(_) => Ok(ValueType::Byte),
            Value::Char(_) => Ok(ValueType::Char),
            Value::Integer(_) => Ok(ValueType::Integer),
            Value::Float(_) => Ok(ValueType::Float),
            Value::StaticString(_) => Ok(ValueType::String),
            Value::String(_) => Ok(ValueType::String),
            Value::Bytes(_) => Ok(ValueType::Bytes),
            Value::Vec(_) => Ok(ValueType::Vec),
            Value::Tuple(_) => Ok(ValueType::Tuple),
            Value::Object(_) => Ok(ValueType::Object),
            Value::TypedTuple(shared) => match heap.typed_tuples.get_ref(*shared) {
                Ok(tuple) => Ok(ValueType::TypedTuple(tuple.ty)),
                Err(error) => Err(error),
            },
            Value::TypedObject(shared) => match heap.typed_objects.get_ref(*shared) {
                Ok(object) => Ok(ValueType::TypedObject(object.ty)),
                Err(error) => Err(error),
            },
            Value::Option(_) => Ok(ValueType::Option),
            Value::Result(_) => Ok(ValueType::Result),
            Value::Future(_) => Ok(ValueType::Future),
            Value::Stream(_) => Ok(ValueType::Stream),
            Value::Type(_) => Ok(ValueType::Type),
        }
    }

    /// The boolean behind this value.
    pub fn into_bool(self) -> (result: Result<bool, ValueError>)
        ensures
            result == (match self {
                Value::Bool(b) => Ok::<bool, ValueError>(b),
                _ => Err(ValueError::ExpectedBoolean { actual: self.spec_type_info() }),
            }),
    {
        match self {
            Value::Bool(b) => Ok(b),
            actual => Err(ValueError::ExpectedBoolean { actual: actual.type_info() }),
        }
    }

    /// The handle of the future behind this value.
    pub fn into_future(self) -> (result: Result<Shared, ValueError>)
        ensures
            result == (match self {
                Value::Future(shared) => Ok::<Shared, ValueError>(shared),
                _ => Err(ValueError::ExpectedFuture { actual: self.spec_type_info() }),
            }),
    {
        match self {
            Value::Future(shared) => Ok(shared),
            actual => Err(ValueError::ExpectedFuture { actual: actual.type_info() }),
        }
    }

    /// The handle of the stream behind this value.
    pub fn into_stream(self) -> (result: Result<Shared, ValueError>)
        ensures
            result == (match self {
                Value::Stream(shared) => Ok::<Shared, ValueError>(shared),
                _ => Err(ValueError::ExpectedStream { actual: self.spec_type_info() }),
            }),
    {
        match self {
            Value::Stream(shared) => Ok(shared),
            actual => Err(ValueError::ExpectedStream { actual: actual.type_info() }),
        }
    }

    /// The handle of the optional value behind this value.
    pub fn into_option(self) -> (result: Result<Shared, ValueError>)
        ensures
            result == (match self {
                Value::Option(shared) => Ok::<Shared, ValueError>(shared),
                _ => Err(ValueError::ExpectedOption { actual: self.spec_type_info() }),
            }),
    {
        match self {
            Value::Option(shared) => Ok(shared),
            actual => Err(ValueError::ExpectedOption { actual: actual.type_info() }),
        }
    }

    /// The handle of the result value behind this value.
    pub fn into_result(self) -> (result: Result<Shared, ValueError>)
        ensures
            result == (match self {
                Value::Result(shared) => Ok::<Shared, ValueError>(shared),
                _ => Err(ValueError::ExpectedResult { actual: self.spec_type_info() }),
            }),
    {
        match self {
            Value::Result(shared) => Ok(shared),
            actual => Err(ValueError::ExpectedResult { actual: actual.type_info() }),
        }
    }
}

/// A type that a value of the machine can be converted to.
pub trait FromValue: Sized {
    /// What the conversion of `value` gives.
    spec fn spec_from_value(value: Value) -> Result<Self, ValueError>;

    /// Convert a value.
    fn from_value(value: Value) -> (result: Result<Self, ValueError>)
        ensures
            result == Self::spec_from_value(value),
    ;
}

impl FromValue for Value {
    open spec fn spec_from_value(value: Value) -> Result<Value, ValueError> {
        Ok(value)
    }

    fn from_value(value: Value) -> (result: Result<Value, ValueError>) {
        Ok(value)
    }
}

impl FromValue for () {
    open spec fn spec_from_value(value: Value) -> Result<(), ValueError> {
        match value {
            Value::Unit => Ok(()),
            _ => Err(ValueError::ExpectedUnit { actual: value.spec_type_info() }),
        }
    }

    fn from_value(value: Value) -> (result: Result<(), ValueError>) {
        match value {
            Value::Unit => Ok(()),
            actual => Err(ValueError::ExpectedUnit { actual: actual.type_info() }),
        }
    }
}

impl FromValue for bool {
    open spec fn spec_from_value(value: Value) -> Result<bool, ValueError> {
        match value {
            Value::Bool(b) => Ok(b),
            _ => Err(ValueError::ExpectedBoolean { actual: value.spec_type_info() }),
        }
    }

    fn from_value(value: Value) -> (result: Result<bool, ValueError>) {
        value.into_bool()
    }
}

impl FromValue for u8 {
    open spec fn spec_from_value(value: Value) -> Result<u8, ValueError> {
        match value {
            Value::Byte(b) => Ok(b),
            _ => Err(ValueError::ExpectedByte { actual: value.spec_type_info() }),
        }
    }

    fn from_value(value: Value) -> (result: Result<u8, ValueError>) {
        match value {
            Value::Byte(b) => Ok(b),
            actual => Err(ValueError::ExpectedByte { actual: actual.type_info() }),
        }
    }
}

impl FromValue for char {
    open spec fn spec_from_value(value: Value) -> Result<char, ValueError> {
        match value {
            Value::Char(c) => Ok(c),
            _ => Err(ValueError::ExpectedChar { actual: value.spec_type_info() }),
        }
    }

    fn from_value(value: Value) -> (result: Result<char, ValueError>) {
        match value {
            Value::Char(c) => Ok(c),
            actual => Err(ValueError::ExpectedChar { actual: actual.type_info() }),
        }
    }
}

impl FromValue for i64 {
    open spec fn spec_from_value(value: Value) -> Result<i64, ValueError> {
        match value {
            Value::Integer(number) => Ok(number),
            _ => Err(ValueError::ExpectedInteger { actual: value.spec_type_info() }),
        }
    }

    fn from_value(value: Value) -> (result: Result<i64, ValueError>) {
        match value {
            Value::Integer(number) => Ok(number),
            actual => Err(ValueError::ExpectedInteger { actual: actual.type_info() }),
        }
    }
}

impl FromValue for Float {
    open spec fn spec_from_value(value: Value) -> Result<Float, ValueError> {
        match value {
            Value::Float(number) => Ok(number),
            _ => Err(ValueError::ExpectedFloat { actual: value.spec_type_info() }),
        }
    }

    fn from_value(value: Value) -> (result: Result<Float, ValueError>) {
        match value {
            Value::Float(number) => Ok(number),
            actual => Err(ValueError::ExpectedFloat { actual: actual.type_info() }),
        }
    }
}

} // verus!
