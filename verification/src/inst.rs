//! The instruction set.

use vstd::prelude::*;
use crate::float::Float;
use crate::hash;

verus! {

/// Why a program asked the machine to stop.
#[derive(Clone, Copy, Debug, PartialEq, Eq, Structural)]
pub enum PanicReason {
    /// The program reached code that is not implemented.
    NotImplemented,
    /// A pattern that has to match did not.
    UnmatchedPattern,
    /// A future was polled after it had completed.
    FutureCompleted,
}

/// One instruction of the machine.
#[allow(inconsistent_fields)]
#[derive(Clone, Copy, Debug, PartialEq, Eq, Structural)]
pub enum Inst {
    /// Pop a boolean and push its negation.
    Not,
    /// Pop two operands and push their sum.
    Add,
    /// Pop an operand and add it to the slot at `offset`.
    AddAssign { offset: usize },
    /// Pop two operands and push their difference.
    Sub,
    /// Pop an operand and subtract it from the slot at `offset`.
    SubAssign { offset: usize },
    /// Pop two operands and push their product.
    Mul,
    /// Pop an operand and multiply the slot at `offset` by it.
    MulAssign { offset: usize },
    /// Pop two operands and push their quotient.
    Div,
    /// Pop an operand and divide the slot at `offset` by it.
    DivAssign { offset: usize },
    /// Call the function with the given hash on the top `args` values.
    Call { hash: hash::Hash, args: usize },
    /// Call the method with the given hash on the value on top of the stack.
    CallInstance { hash: hash::Hash, args: usize },
    /// Pop a function and call it on the top `args` values.
    CallFn { args: usize },
    /// Pop a value and push the function that is its method with this hash.
    LoadInstanceFn { hash: hash::Hash },
    /// Pop a target and an index and push what the target holds there.
    IndexGet,
    /// Pop a vector and push its element at `index`.
    VecIndexGet { index: usize },
    /// Pop a tuple and push its field at `index`.
    TupleIndexGet { index: usize },
    /// Pop an object and push its field under the static string at `slot`.
    ObjectSlotIndexGet { slot: usize },
    /// Pop a target, an index and a value and store the value there.
    IndexSet,
    /// Pop the return value, leave the frame and push the return value.
    Return,
    /// Leave the frame and push the unit value.
    ReturnUnit,
    /// Pop a future and wait for its value.
    Await,
    /// Pop `len` futures and wait for the first of them to complete.
    Select { len: usize },
    /// Pop one value.
    Pop,
    /// Pop `count` values.
    PopN { count: usize },
    /// Pop a boolean; if it is true, pop `count` values and jump.
    PopAndJumpIf { count: usize, offset: isize },
    /// Pop a boolean; if it is false, pop `count` values and jump.
    PopAndJumpIfNot { count: usize, offset: isize },
    /// Pop the top, pop `count` values, push the top back.
    Clean { count: usize },
    /// Push an integer.
    Integer { number: i64 },
    /// Push a double-precision number.
    Float { number: Float },
    /// Push a copy of the slot at `offset`.
    Copy { offset: usize },
    /// Check that there is a slot at `offset`.
    Drop { offset: usize },
    /// Push a copy of the top.
    Dup,
    /// Pop the top and store it in the slot at `offset`.
    Replace { offset: usize },
    /// Pop two operands and push whether the first is greater.
    Gt,
    /// Pop two operands and push whether the first is greater or equal.
    Gte,
    /// Pop two operands and push whether the first is less.
    Lt,
    /// Pop two operands and push whether the first is less or equal.
    Lte,
    /// Pop two operands and push whether they are equal.
    Eq,
    /// Pop two operands and push whether they differ.
    Neq,
    /// Jump.
    Jump { offset: isize },
    /// Pop a boolean and jump if it is true.
    JumpIf { offset: isize },
    /// Pop a boolean and jump if it is false.
    JumpIfNot { offset: isize },
    /// Jump if the branch register holds `branch`, and clear it.
    JumpIfBranch { branch: usize, offset: isize },
    /// Push the unit value.
    Unit,
    /// Push a boolean.
    Bool { value: bool },
    /// Pop `count` values into a new vector.
    Vec { count: usize },
    /// Pop `count` values into a new tuple.
    Tuple { count: usize },
    /// Pop one value for each static key at `slot` into a new object.
    Object { slot: usize },
    /// Pop one value for each static key at `slot` into a new typed object.
    TypedObject { ty: hash::Hash, slot: usize },
    /// Push a type.
    Type { hash: hash::Hash },
    /// Push a character.
    Char { c: char },
    /// Push a byte.
    Byte { b: u8 },
    /// Push the static string at `slot`.
    String { slot: usize },
    /// Push a copy of the static bytes at `slot`.
    Bytes { slot: usize },
    /// Pop `len` values and push the string made of their texts.
    StringConcat { len: usize, size_hint: usize },
    /// Pop a type and a value and push whether the value is of the type.
    Is,
    /// Pop a value and push whether it is the unit value.
    IsUnit,
    /// Pop a result and push whether it is an error.
    IsErr,
    /// Pop an optional value and push whether it is empty.
    IsNone,
    /// Pop a result and push what it holds, if it is not an error.
    ResultUnwrap,
    /// Pop an optional value and push what it holds, if it is not empty.
    OptionUnwrap,
    /// Pop two booleans and push their conjunction.
    And,
    /// Pop two booleans and push their disjunction.
    Or,
    /// Pop a value and push whether it is this byte.
    EqByte { byte: u8 },
    /// Pop a value and push whether it is this character.
    EqCharacter { character: char },
    /// Pop a value and push whether it is this integer.
    EqInteger { integer: i64 },
    /// Pop a value and push whether it is a string with the text of the
    /// static string at `slot`.
    EqStaticString { slot: usize },
    /// Pop a value and push whether it is a vector of the given length.
    MatchVec { len: usize, exact: bool },
    /// Pop a value and push whether it is a tuple of the given length.
    MatchTuple { tuple_like: bool, len: usize, exact: bool },
    /// Pop a value and push whether it is an object with the static keys at
    /// `slot`.
    MatchObject { object_like: bool, slot: usize, exact: bool },
    /// Pop a value and hand it to whoever resumes the machine.
    Yield,
    /// Stop with an error.
    Panic { reason: PanicReason },
}

} // verus!
