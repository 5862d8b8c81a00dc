//! The errors of the machine.

use vstd::prelude::*;
use vstd::string::*;
use crate::hash;
use crate::inst::PanicReason;
use crate::shared::AccessError;
use crate::stack::StackError;
use crate::value::{ValueError, ValueTypeInfo};

verus! {

/// An operator with two operands.
#[derive(Clone, Copy, Debug, PartialEq, Eq, Structural)]
pub enum BinaryOp {
    /// `+`
    Add,
    /// `-`
    Sub,
    /// `*`
    Mul,
    /// `/`
    Div,
    /// `>`
    Gt,
    /// `>=`
    Gte,
    /// `<`
    Lt,
    /// `<=`
    Lte,
    /// `&&`
    And,
    /// `||`
    Or,
}

/// An operator with one operand.
#[derive(Clone, Copy, Debug, PartialEq, Eq, Structural)]
pub enum UnaryOp {
    /// `!`
    Not,
}

/// An error raised while the machine runs.
#[allow(inconsistent_fields)]
#[derive(Debug, PartialEq)]
pub enum VmError {
    /// The program asked the machine to stop.
    Panic { reason: PanicReason },
    /// A stack operation reached outside the current frame.
    StackError { error: StackError },
    /// A shared value could not be reached.
    AccessError { error: AccessError },
    /// A value was of another kind than the one needed.
    ValueError { error: ValueError },
    /// A native function asked the machine to stop.
    CustomPanic { reason: String },
    /// A number became too large.
    Overflow,
    /// A number became too small.
    Underflow,
    /// A number was divided by zero.
    DivideByZero,
    /// No function has this hash.
    MissingFunction { hash: hash::Hash },
    /// No method has this hash on a value of this kind.
    MissingInstanceFunction { instance: ValueTypeInfo, hash: hash::Hash },
    /// The instruction pointer left the program.
    IpOutOfBounds,
    /// The operator is not defined for operands of these kinds.
    UnsupportedBinaryOperation { op: BinaryOp, lhs: ValueTypeInfo, rhs: ValueTypeInfo },
    /// The operator is not defined for an operand of this kind.
    UnsupportedUnaryOperation { op: UnaryOp, operand: ValueTypeInfo },
    /// A value of this kind cannot be part of a string.
    UnsupportedStringConcatArgument { actual: ValueTypeInfo },
    /// The unit has no static string at this slot.
    MissingStaticString { slot: usize },
    /// The unit has no static bytes at this slot.
    MissingStaticBytes { slot: usize },
    /// The unit has no static object keys at this slot.
    MissingStaticObjectKeys { slot: usize },
    /// The value left on the stack is not of the kind that was asked for.
    StackConversionError { error: ValueError },
    /// The function takes another number of arguments.
    ArgumentCountMismatch { actual: usize, expected: usize },
    /// A value cannot be stored under an index of this kind in a target of
    /// this kind.
    UnsupportedIndexSet {
        target_type: ValueTypeInfo,
        index_type: ValueTypeInfo,
        value_type: ValueTypeInfo,
    },
    /// A target of this kind has nothing under an index of this kind.
    UnsupportedIndexGet { target_type: ValueTypeInfo, index_type: ValueTypeInfo },
    /// The target is no vector.
    UnsupportedVecIndexGet { target_type: ValueTypeInfo },
    /// The target is no tuple.
    UnsupportedTupleIndexGet { target_type: ValueTypeInfo },
    /// The target is no object.
    UnsupportedObjectSlotIndexGet { target_type: ValueTypeInfo },
    /// The right operand of `is` is no type.
    UnsupportedIs { value_type: ValueTypeInfo, test_type: ValueTypeInfo },
    /// No type has this hash.
    MissingType { hash: hash::Hash },
    /// The value is no function.
    UnsupportedCallFn { actual_type: ValueTypeInfo },
    /// The vector has no element at this index.
    VecIndexMissing { index: usize },
    /// The tuple has no field at this index.
    TupleIndexMissing { index: usize },
    /// The object has no field under the static string at this slot.
    ObjectIndexMissing { slot: usize },
    /// An optional value was empty where it had to hold a value.
    ExpectedOptionSome,
    /// A result was an error, of this kind, where it had to be a success.
    ExpectedResultOk { error: ValueTypeInfo },
    /// A typed object has no field of this name.
    MissingStructField,
    /// A generator was resumed after it had run to its end.
    GeneratorComplete,
    /// A comparison went deeper than the heap has cells, as only a value
    /// that holds itself makes it do.
    CyclicValue,
    /// The future that completed is none of those that were waited for.
    UnexpectedSelectBranch { branch: usize },
}

impl VmError {
    /// The error of a native function that asks the machine to stop.
    pub fn custom_panic(reason: &str) -> (error: VmError)
        ensures
            error matches VmError::CustomPanic { reason: text } && text@ == reason@,
    {
        VmError::CustomPanic { reason: reason.to_owned() }
    }
}

} // verus!
