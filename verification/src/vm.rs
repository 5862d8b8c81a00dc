//! The virtual machine: registers, call frames and the instructions.
//!
//! A [`Vm`] runs one instruction at a time on its own stack and on a
//! [`Heap`] that it shares with the machines of the asynchronous calls it
//! made. Work that only the world outside can do (calling a native function,
//! arithmetic on double-precision numbers, waiting for a future) is handed
//! out as a [`Request`]: the driver does the work and reports back through
//! the matching `finish_` function.

use vstd::prelude::*;
use vstd::string::*;
use crate::context::{Context, Handler};
use crate::equality::{depth_of, spec_value_ptr_eq, values_equal};
use crate::error::{BinaryOp, UnaryOp, VmError};
use crate::float::Float;
use crate::hash;
use crate::heap::{Future, Heap, HeapView, TypedObject, TypedTuple};
use crate::inst::{Inst, PanicReason};
use crate::object::{lookup, position, with_entry, Object};
use crate::protocol::Protocol;
use crate::shared::{cell_added, cell_rewritten, AccessError, Cell, RawMut, Shared};
use crate::stack::{frame_len, Stack, StackError};
use crate::text::{
    decimal_text, floats_in, format_integer, join, joined, lemma_joined_some, part_views,
    string_views, ConcatPart, PartView,
};
use crate::unit::{texts, CompilationUnit, UnitFnCall, UnitFnInfo, UnitFnKind};
use crate::value::{FromValue, StaticString, Value, ValueError, ValueType, ValueTypeInfo};

verus! {

/// Where to go on after a call returns.
#[derive(Clone, Copy, Debug, PartialEq, Eq, Structural)]
pub struct CallFrame {
    /// The instruction pointer of the call.
    pub ip: usize,
    /// The watermark of the caller's frame.
    pub stack_top: usize,
}

/// The state of a machine, as contracts speak of it.
pub struct VmView {
    /// The instruction pointer.
    pub ip: usize,
    /// The values on the stack, from the bottom up.
    pub stack: Seq<Value>,
    /// The watermark of the current frame.
    pub top: usize,
    /// Whether the outermost frame has returned.
    pub exited: bool,
    /// The frames of the calls that have not returned, innermost last.
    pub frames: Seq<CallFrame>,
    /// The branch register.
    pub branch: Option<usize>,
}

impl VmView {
    /// The number of values in the current frame.
    pub open spec fn frame(self) -> nat {
        frame_len(self.stack, self.top as nat)
    }

    /// The value `offset` places below the top of the stack.
    pub open spec fn peek(self, offset: int) -> Value {
        self.stack[self.stack.len() - 1 - offset]
    }

    /// The stack without its top `count` values.
    pub open spec fn below(self, count: int) -> Seq<Value> {
        self.stack.take(self.stack.len() - count)
    }

    /// This state with another stack.
    pub open spec fn with_stack(self, stack: Seq<Value>) -> VmView {
        VmView { stack, ..self }
    }

    /// This state after the top `count` values were popped.
    pub open spec fn popped(self, count: int) -> VmView {
        if count <= 0 {
            self
        } else {
            self.with_stack(self.below(count))
        }
    }

    /// This state without the innermost call frame, if there is one.
    pub open spec fn unwound(self) -> VmView {
        if self.frames.len() > 0 {
            VmView { frames: self.frames.drop_last(), ..self }
        } else {
            self
        }
    }

    /// This state after `count` values were popped and `value` was pushed.
    pub open spec fn replaced(self, count: int, value: Value) -> VmView {
        self.with_stack(self.below(count).push(value))
    }

    /// The stack, the watermark and the call frames fit together: the
    /// watermark is not above the stack, the frame of the outermost call
    /// starts at the bottom of the stack, and no frame starts below the
    /// frame that called it.
    pub open spec fn wf(self) -> bool {
        &&& self.top <= self.stack.len()
        &&& self.frames.len() == 0 ==> self.top == 0
        &&& self.frames.len() > 0 ==> self.frames[0].stack_top == 0 && self.frames.last().stack_top
            <= self.top
        &&& forall|i: int, j: int|
            0 <= i <= j < self.frames.len() ==> (#[trigger] self.frames[i]).stack_top <= (
            #[trigger] self.frames[j]).stack_top
    }

    /// The instruction pointer after a jump by `offset`, if it stays in
    /// range.
    pub open spec fn jump_target(self, offset: isize) -> Option<usize> {
        if 0 <= self.ip + offset <= usize::MAX {
            Some((self.ip + offset) as usize)
        } else {
            None
        }
    }
}

/// The error of a stack operation, as the machine reports it.
pub open spec fn stack_error(error: StackError) -> VmError {
    VmError::StackError { error }
}

/// The error of popping from an empty frame.
pub open spec fn stack_empty() -> VmError {
    VmError::StackError { error: StackError::StackEmpty }
}

/// The error of reaching below the current frame.
pub open spec fn stack_out_of_bounds() -> VmError {
    VmError::StackError { error: StackError::StackOutOfBounds }
}

/// The operation failed with `error`.
pub open spec fn fails<T>(result: Result<T, VmError>, error: VmError) -> bool {
    result == Err::<T, VmError>(error)
}

/// The operation failed with `error` after it had popped `count` values,
/// and did nothing else to the machine.
pub open spec fn fails_after<T>(
    result: Result<T, VmError>,
    error: VmError,
    post: VmView,
    pre: VmView,
    count: int,
) -> bool {
    result == Err::<T, VmError>(error) && post == pre.popped(count)
}

/// The result of an operator that orders its operands, where it is defined:
/// on two characters, two booleans, two integers or two double-precision
/// numbers.
pub open spec fn ordered(op: BinaryOp, lhs: Value, rhs: Value) -> Option<bool> {
    match (lhs, rhs) {
        (Value::Char(a), Value::Char(b)) => Some(ordered_int(op, a as int, b as int)),
        (Value::Bool(a), Value::Bool(b)) => Some(
            ordered_int(op, if a { 1 } else { 0 }, if b { 1 } else { 0 }),
        ),
        (Value::Integer(a), Value::Integer(b)) => Some(ordered_int(op, a as int, b as int)),
        (Value::Float(a), Value::Float(b)) => Some(
            match op {
                BinaryOp::Gt => b.spec_lt(a),
                BinaryOp::Gte => b.spec_le(a),
                BinaryOp::Lt => a.spec_lt(b),
                _ => a.spec_le(b),
            },
        ),
        _ => None,
    }
}

/// The result of an ordering operator on two integers.
pub open spec fn ordered_int(op: BinaryOp, a: int, b: int) -> bool {
    match op {
        BinaryOp::Gt => a > b,
        BinaryOp::Gte => a >= b,
        BinaryOp::Lt => a < b,
        _ => a <= b,
    }
}

/// An arithmetic operation on two numbers.
#[derive(Clone, Copy, Debug, PartialEq, Eq, Structural)]
pub enum NumericOp {
    /// The sum.
    Add,
    /// The difference.
    Sub,
    /// The product.
    Mul,
    /// The quotient.
    Div,
}

impl NumericOp {
    /// The operator, as errors name it.
    pub open spec fn spec_binary(self) -> BinaryOp {
        match self {
            NumericOp::Add => BinaryOp::Add,
            NumericOp::Sub => BinaryOp::Sub,
            NumericOp::Mul => BinaryOp::Mul,
            NumericOp::Div => BinaryOp::Div,
        }
    }

    /// The method that stands in for the operator.
    pub open spec fn spec_protocol(self) -> Protocol {
        match self {
            NumericOp::Add => Protocol::Add,
            NumericOp::Sub => Protocol::Sub,
            NumericOp::Mul => Protocol::Mul,
            NumericOp::Div => Protocol::Div,
        }
    }

    /// The method that stands in for the operator where it assigns.
    pub open spec fn spec_assign_protocol(self) -> Protocol {
        match self {
            NumericOp::Add => Protocol::AddAssign,
            NumericOp::Sub => Protocol::SubAssign,
            NumericOp::Mul => Protocol::MulAssign,
            NumericOp::Div => Protocol::DivAssign,
        }
    }

    /// The error of a result that is no number of the operands' kind.
    pub open spec fn spec_error(self) -> VmError {
        match self {
            NumericOp::Add => VmError::Overflow,
            NumericOp::Sub => VmError::Underflow,
            NumericOp::Mul => VmError::Overflow,
            NumericOp::Div => VmError::DivideByZero,
        }
    }

    /// The operator, as errors name it.
    pub fn binary(self) -> (op: BinaryOp)
        ensures
            op == self.spec_binary(),
    {
        match self {
            NumericOp::Add => BinaryOp::Add,
            NumericOp::Sub => BinaryOp::Sub,
            NumericOp::Mul => BinaryOp::Mul,
            NumericOp::Div => BinaryOp::Div,
        }
    }

    /// The method that stands in for the operator.
    pub fn protocol(self) -> (protocol: Protocol)
        ensures
            protocol == self.spec_protocol(),
    {
        match self {
            NumericOp::Add => Protocol::Add,
            NumericOp::Sub => Protocol::Sub,
            NumericOp::Mul => Protocol::Mul,
            NumericOp::Div => Protocol::Div,
        }
    }

    /// The method that stands in for the operator where it assigns.
    pub fn assign_protocol(self) -> (protocol: Protocol)
        ensures
            protocol == self.spec_assign_protocol(),
    {
        match self {
            NumericOp::Add => Protocol::AddAssign,
            NumericOp::Sub => Protocol::SubAssign,
            NumericOp::Mul => Protocol::MulAssign,
            NumericOp::Div => Protocol::DivAssign,
        }
    }

    /// The error of a result that is no number of the operands' kind.
    pub fn error(self) -> (error: VmError)
        ensures
            error == self.spec_error(),
    {
        match self {
            NumericOp::Add => VmError::Overflow,
            NumericOp::Sub => VmError::Underflow,
            NumericOp::Mul => VmError::Overflow,
            NumericOp::Div => VmError::DivideByZero,
        }
    }
}

/// The quotient of two integers, rounded towards zero.
pub open spec fn quotient(a: int, b: int) -> int
    recommends
        b != 0,
{
    let magnitude = (if a < 0 {
        -a
    } else {
        a
    }) / (if b < 0 {
        -b
    } else {
        b
    });
    if (a < 0) == (b < 0) {
        magnitude
    } else {
        -magnitude
    }
}

/// The mathematical result of an operation on two integers. Division by
/// zero has none.
pub open spec fn exact_result(op: NumericOp, a: int, b: int) -> Option<int> {
    match op {
        NumericOp::Add => Some(a + b),
        NumericOp::Sub => Some(a - b),
        NumericOp::Mul => Some(a * b),
        NumericOp::Div => if b == 0 {
            None
        } else {
            Some(quotient(a, b))
        },
    }
}

/// The result of an operation on two integers of the machine: the
/// mathematical result, where there is one and it is an integer of the
/// machine.
pub open spec fn integer_result(op: NumericOp, a: i64, b: i64) -> Option<i64> {
    match exact_result(op, a as int, b as int) {
        Some(exact) => if i64::MIN <= exact <= i64::MAX {
            Some(exact as i64)
        } else {
            None
        },
        None => None,
    }
}

/// Compute on two integers of the machine.
pub fn integer_op(op: NumericOp, a: i64, b: i64) -> (result: Option<i64>)
    ensures
        result == integer_result(op, a, b),
{
    match op {
        NumericOp::Add => a.checked_add(b),
        NumericOp::Sub => a.checked_sub(b),
        NumericOp::Mul => a.checked_mul(b),
        NumericOp::Div => a.checked_div(b),
    }
}

/// Work that the machine hands to its driver. The machine has done its own
/// part of the instruction and has moved on to the next one; the driver does
/// the work and reports back as the variant says.
#[derive(Debug, PartialEq)]
pub enum Request {
    /// Call the native function on the machine's stack, whose top `args`
    /// values are the arguments. An error of the function ends the run.
    Call { handler: Handler, args: usize },
    /// Call the native function as for [`Request::Call`], then report with
    /// [`Vm::finish_assign`].
    CallAssign { handler: Handler, args: usize, offset: usize, value: Value },
    /// Compute `lhs op rhs` and report the outcome with
    /// [`Vm::finish_float`].
    Float { op: NumericOp, lhs: Float, rhs: Float },
    /// Compute `lhs op rhs` and report the outcome with
    /// [`Vm::finish_float_assign`].
    FloatAssign { op: NumericOp, lhs: Float, rhs: Float, offset: usize },
    /// Write each double-precision number among the parts as text and
    /// report the texts, in the order of the numbers, with
    /// [`Vm::finish_string_concat`].
    StringConcat { parts: Vec<ConcatPart>, size_hint: usize },
    /// Wait for the future, which the machine holds exclusively, and report
    /// its value with [`Vm::finish_await`].
    Await { future: Shared, guard: RawMut },
    /// Wait for the first of the futures, all of which the machine holds
    /// exclusively, and report it and its value with
    /// [`Vm::finish_select`].
    Select { futures: Vec<Pending> },
}

/// A future that a `select` waits for.
#[derive(Debug, PartialEq)]
pub struct Pending {
    /// The position of the future among those that the `select` popped:
    /// 0 for the one that was on top of the stack.
    pub index: usize,
    /// The future.
    pub future: Shared,
    /// The token of the exclusive access that the machine holds.
    pub guard: RawMut,
}

/// What a value adds to a string that is put together.
pub open spec fn part_of(heap: &Heap, unit: &CompilationUnit, value: Value) -> Result<
    PartView,
    VmError,
> {
    match value {
        Value::Integer(integer) => Ok(PartView::Text(decimal_text(integer as int))),
        Value::Float(float) => Ok(PartView::Float(float)),
        _ => match text_of(heap, unit, value) {
            Some(Ok(text)) => Ok(PartView::Text(text)),
            Some(Err(error)) => Err(error),
            None => Err(
                VmError::UnsupportedStringConcatArgument { actual: value.spec_type_info() },
            ),
        },
    }
}

/// The parts that the top `count` values of the stack add to a string, the
/// value on top first.
pub open spec fn scan_parts(heap: &Heap, unit: &CompilationUnit, pre: VmView, count: nat) -> Result<
    Seq<PartView>,
    VmError,
>
    decreases count,
{
    if count == 0 {
        Ok(Seq::empty())
    } else {
        match scan_parts(heap, unit, pre, (count - 1) as nat) {
            Err(error) => Err(error),
            Ok(parts) => if pre.frame() < count {
                Err(stack_empty())
            } else {
                match part_of(heap, unit, pre.peek(count - 1)) {
                    Ok(part) => Ok(parts.push(part)),
                    Err(error) => Err(error),
                }
            },
        }
    }
}

/// The error of an access to a shared value, as the machine reports it.
pub open spec fn access_error(error: AccessError) -> VmError {
    VmError::AccessError { error }
}

/// The text of a value that is a string, interned or not. `None` for any
/// other value.
pub open spec fn text_of(heap: &Heap, unit: &CompilationUnit, value: Value) -> Option<
    Result<Seq<char>, VmError>,
> {
    match value {
        Value::String(shared) => Some(
            if heap.strings.readable(shared) {
                Ok(heap.strings.value(shared)@)
            } else {
                Err(access_error(AccessError::NotAccessibleRef))
            },
        ),
        Value::StaticString(string) => Some(
            if string.slot < unit.strings().len() {
                Ok(unit.strings()[string.slot as int])
            } else {
                Err(VmError::MissingStaticString { slot: string.slot })
            },
        ),
        _ => None,
    }
}

/// The text of a value that is a string, in a string of its own.
pub fn text(heap: &Heap, unit: &CompilationUnit, value: Value) -> (result: Result<
    Option<String>,
    VmError,
>)
    ensures
        match text_of(heap, unit, value) {
            None => result == Ok::<Option<String>, VmError>(None),
            Some(Ok(text)) => result matches Ok(Some(string)) && string@ == text,
            Some(Err(error)) => fails(result, error),
        },
{
    match value {
        Value::String(shared) => match heap.strings.get_ref(shared) {
            Ok(string) => Ok(Some(string.clone())),
            Err(error) => Err(VmError::AccessError { error }),
        },
        Value::StaticString(string) => {
            let string = unit.lookup_string(string.slot)?;
            Ok(Some(string.clone()))
        },
        _ => Ok(None),
    }
}

/// The native function that stands in for an operator on `target`, if the
/// context has one.
pub open spec fn spec_instance_handler(
    heap: &Heap,
    context: &Context,
    target: Value,
    protocol: Protocol,
) -> Result<Option<Handler>, VmError> {
    match target.spec_value_type(heap) {
        Ok(ty) => Ok(context.handler(protocol.spec_method(ty.spec_type_hash()))),
        Err(error) => Err(access_error(error)),
    }
}

/// The native function that stands in for an operator on `target`, if the
/// context has one.
pub fn instance_handler(heap: &Heap, context: &Context, target: Value, protocol: Protocol) -> (result:
    Result<Option<Handler>, VmError>)
    ensures
        result == spec_instance_handler(heap, context, target, protocol),
{
    match target.value_type(heap) {
        Ok(ty) => Ok(context.lookup(protocol.method(ty.type_hash()))),
        Err(error) => Err(VmError::AccessError { error }),
    }
}

/// The number of values that are popped while the parts of the top `count`
/// values of the stack are taken, the value on top first: all of them, or
/// those up to the first one that is missing or that adds nothing to a
/// string.
pub open spec fn scan_popped(heap: &Heap, unit: &CompilationUnit, pre: VmView, count: nat) -> nat
    decreases count,
{
    if count == 0 {
        0
    } else if scan_parts(heap, unit, pre, (count - 1) as nat) is Err {
        scan_popped(heap, unit, pre, (count - 1) as nat)
    } else if pre.frame() < count {
        (count - 1) as nat
    } else {
        count
    }
}

/// A cell on which nothing is held, with the given value.
pub open spec fn fresh_cell<T>(value: T) -> Cell<T> {
    Cell { readers: 0, writer: false, value: Some(value) }
}

/// The fields of a value that is a tuple. With `tuple_like`, a result counts
/// as a tuple of the one value it holds, an optional value as a tuple of
/// what it holds, which may be nothing, and a typed tuple as the tuple it
/// wraps. `None` for any other value.
pub open spec fn tuple_fields(heap: &Heap, value: Value, tuple_like: bool) -> Option<
    Result<Seq<Value>, VmError>,
> {
    match value {
        Value::Tuple(shared) => Some(
            if heap.tuples.readable(shared) {
                Ok(heap.tuples.value(shared)@)
            } else {
                Err(access_error(AccessError::NotAccessibleRef))
            },
        ),
        Value::Result(shared) => if !tuple_like {
            None
        } else {
            Some(
                if heap.results.readable(shared) {
                    Ok(
                        match heap.results.value(shared) {
                            Ok(value) => seq![value],
                            Err(value) => seq![value],
                        },
                    )
                } else {
                    Err(access_error(AccessError::NotAccessibleRef))
                },
            )
        },
        Value::Option(shared) => if !tuple_like {
            None
        } else {
            Some(
                if heap.options.readable(shared) {
                    Ok(
                        match heap.options.value(shared) {
                            Some(value) => seq![value],
                            None => Seq::empty(),
                        },
                    )
                } else {
                    Err(access_error(AccessError::NotAccessibleRef))
                },
            )
        },
        Value::TypedTuple(shared) => if !tuple_like {
            None
        } else {
            Some(
                if heap.typed_tuples.readable(shared) {
                    Ok(heap.typed_tuples.value(shared).tuple@)
                } else {
                    Err(access_error(AccessError::NotAccessibleRef))
                },
            )
        },
        _ => None,
    }
}

/// Whether a length is the wanted one: equal to it where `exact`, at least
/// as large otherwise.
pub open spec fn length_matches(len: nat, wanted: usize, exact: bool) -> bool {
    if exact {
        len == wanted
    } else {
        len >= wanted
    }
}

/// A copy of a vector of values.
fn copy_values(values: &Vec<Value>) -> (copy: Vec<Value>)
    ensures
        copy@ == values@,
{
    let mut copy: Vec<Value> = Vec::with_capacity(values.len());
    let mut i: usize = 0;
    while i < values.len()
        invariant
            i <= values@.len(),
            copy@ == values@.take(i as int),
        decreases values@.len() - i,
    {
        copy.push(values[i]);
        assert(values@.take(i + 1) == values@.take(i as int).push(values@[i as int]));
        i = i + 1;
    }
    assert(values@.take(i as int) == values@);
    copy
}

/// The entries of the object that is built from `count` keys and the top
/// `count` values of a stack: the first key gets the value on top, the next
/// key the value below it, and a key that comes again overwrites.
pub open spec fn built_entries(keys: Seq<Seq<char>>, stack: Seq<Value>, count: nat) -> Seq<
    (Seq<char>, Value),
>
    decreases count,
{
    if count == 0 {
        Seq::empty()
    } else {
        with_entry(
            built_entries(keys, stack, (count - 1) as nat),
            keys[count - 1],
            stack[stack.len() - count],
        )
    }
}

/// Whether an object with these entries has all of `keys`, and where `exact`
/// no entry more than there are keys.
pub open spec fn object_matches(entries: Seq<(Seq<char>, Value)>, keys: Seq<Seq<char>>, exact: bool) -> bool {
    &&& if exact {
        entries.len() == keys.len()
    } else {
        entries.len() >= keys.len()
    }
    &&& forall|i: int| 0 <= i < keys.len() ==> position(entries, #[trigger] keys[i]) is Some
}

/// Whether a value of type `value_type` is of the type with hash `key`,
/// which the unit knows or else the context.
pub open spec fn is_of_type(unit: &CompilationUnit, context: &Context, value_type: ValueType, key: hash::Hash) -> Option<bool> {
    match unit.type_info(key) {
        Some(info) => Some(value_type == info.value_type),
        None => match context.type_info(key) {
            Some(info) => Some(value_type == info.value_type),
            None => None,
        },
    }
}

/// The values of a vector in reverse order.
fn reversed(values: &Vec<Value>) -> (out: Vec<Value>)
    ensures
        out@ == values@.reverse(),
{
    let len = values.len();
    let mut out: Vec<Value> = Vec::with_capacity(len);
    let mut i: usize = len;
    while i > 0
        invariant
            i <= len,
            len == values@.len(),
            out@.len() == len - i,
            forall|j: int| 0 <= j < out@.len() ==> out@[j] == values@[len - 1 - j],
        decreases i,
    {
        i = i - 1;
        out.push(values[i]);
    }
    assert(out@ =~= values@.reverse());
    out
}

/// The cells of futures after the one at `index` was held exclusively.
pub open spec fn held(futures: Seq<Cell<Future>>, index: usize) -> Seq<Cell<Future>> {
    futures.update(
        index as int,
        Cell { readers: 0, writer: true, value: futures[index as int].value },
    )
}

/// The cells of futures after the exclusive access to the one at `index`
/// was handed back. A position without a cell changes nothing.
pub open spec fn let_go(futures: Seq<Cell<Future>>, index: usize) -> Seq<Cell<Future>> {
    if index < futures.len() {
        futures.update(
            index as int,
            Cell {
                readers: futures[index as int].readers,
                writer: false,
                value: futures[index as int].value,
            },
        )
    } else {
        futures
    }
}

/// The cells of futures after the one at `index` was marked as completed.
/// A position without a future changes nothing.
pub open spec fn completed(futures: Seq<Cell<Future>>, index: usize) -> Seq<Cell<Future>> {
    if index < futures.len() && futures[index as int].value is Some {
        futures.update(
            index as int,
            Cell {
                readers: futures[index as int].readers,
                writer: futures[index as int].writer,
                value: Some(Future { vm: futures[index as int].value->0.vm, completed: true }),
            },
        )
    } else {
        futures
    }
}

/// What a `select` finds when it pops `len` futures, of which it has
/// popped `from` so far: the cells of futures, the stack and the futures to
/// wait for at the end. A future that has completed is passed over. Any
/// other is held exclusively and has to be waited for.
pub open spec fn select_scan(
    futures: Seq<Cell<Future>>,
    stack: Seq<Value>,
    top: nat,
    from: nat,
    len: nat,
    pending: Seq<Pending>,
) -> Result<(Seq<Cell<Future>>, Seq<Value>, Seq<Pending>), VmError>
    decreases len - from,
{
    if from >= len {
        Ok((futures, stack, pending))
    } else if frame_len(stack, top) == 0 {
        Err(stack_empty())
    } else {
        match stack.last() {
            Value::Future(shared) => if !(shared.index < futures.len()
                && futures[shared.index as int].writable()) {
                Err(access_error(AccessError::NotAccessibleMut))
            } else if futures[shared.index as int].value->0.completed {
                select_scan(futures, stack.drop_last(), top, from + 1, len, pending)
            } else {
                select_scan(
                    held(futures, shared.index),
                    stack.drop_last(),
                    top,
                    from + 1,
                    len,
                    pending.push(
                        Pending {
                            index: from as usize,
                            future: shared,
                            guard: RawMut { index: shared.index },
                        },
                    ),
                )
            },
            other => Err(
                VmError::ValueError {
                    error: ValueError::ExpectedFuture { actual: other.spec_type_info() },
                },
            ),
        }
    }
}

/// The number of values that a `select` pops when it pops `len` futures, of
/// which it has popped `from` so far: all that are left to pop, or those up
/// to the first one that is missing, is no future, or cannot be held.
pub open spec fn select_popped(
    futures: Seq<Cell<Future>>,
    stack: Seq<Value>,
    top: nat,
    from: nat,
    len: nat,
) -> nat
    decreases len - from,
{
    if from >= len || frame_len(stack, top) == 0 {
        0
    } else {
        match stack.last() {
            Value::Future(shared) => if !(shared.index < futures.len()
                && futures[shared.index as int].writable()) {
                1
            } else if futures[shared.index as int].value->0.completed {
                1 + select_popped(futures, stack.drop_last(), top, from + 1, len)
            } else {
                1 + select_popped(
                    held(futures, shared.index),
                    stack.drop_last(),
                    top,
                    from + 1,
                    len,
                )
            },
            _ => 1,
        }
    }
}

/// The cells `now` are the cells `before`, but that those which the
/// pending futures from position `from` on name are held exclusively.
pub open spec fn only_held(
    before: Seq<Cell<Future>>,
    now: Seq<Cell<Future>>,
    pending: Seq<Pending>,
    from: int,
) -> bool {
    &&& now.len() == before.len()
    &&& forall|i: int|
        0 <= i < now.len() ==> #[trigger] now[i] == before[i] || exists|k: int|
            from <= k < pending.len() && (#[trigger] pending[k]).guard.index == i
    &&& forall|k: int|
        from <= k < pending.len() ==> {
            &&& (#[trigger] pending[k]).guard.index < now.len()
            &&& before[pending[k].guard.index as int].writable()
            &&& now[pending[k].guard.index as int] == (Cell {
                readers: 0,
                writer: true,
                value: before[pending[k].guard.index as int].value,
            })
        }
    &&& forall|k: int, l: int|
        from <= k < l < pending.len() ==> (#[trigger] pending[k]).guard.index != (
        #[trigger] pending[l]).guard.index
}

/// The cells of futures after the exclusive accesses of the first `count`
/// of the pending futures were handed back.
pub open spec fn all_let_go(futures: Seq<Cell<Future>>, pending: Seq<Pending>, count: nat) -> Seq<
    Cell<Future>,
>
    decreases count,
{
    if count == 0 {
        futures
    } else {
        let_go(all_let_go(futures, pending, (count - 1) as nat), pending[count - 1].guard.index)
    }
}

/// The first of the pending futures that has the given position in its
/// `select`.
pub open spec fn branch_of(pending: Seq<Pending>, branch: usize) -> Option<Pending>
    decreases pending.len(),
{
    if pending.len() == 0 {
        None
    } else {
        match branch_of(pending.drop_last(), branch) {
            Some(found) => Some(found),
            None => if pending.last().index == branch {
                Some(pending.last())
            } else {
                None
            },
        }
    }
}

/// Why a machine stopped running.
#[derive(Debug, PartialEq)]
pub enum VmHalt {
    /// The outermost frame has returned. The return value is on top of the
    /// stack.
    Exited,
    /// The machine ran as many instructions as it was allowed to.
    Limited,
    /// The program yielded. The value it yields is on top of the stack.
    Yielded,
    /// The driver has work to do before the machine can go on.
    Request(Request),
}

/// The outcome of an instruction that hands no work to the driver.
pub open spec fn plain(inner: Result<Option<Request>, VmError>) -> Result<(), VmError> {
    match inner {
        Ok(_) => Ok(()),
        Err(error) => Err(error),
    }
}

/// The instruction left the heap alone and did not jump, and where it
/// succeeded, it handed no work to the driver.
pub open spec fn quiet(
    pre_heap: &Heap,
    inner: Result<Option<Request>, VmError>,
    post_heap: &Heap,
    update_ip: bool,
) -> bool {
    &&& post_heap@ == pre_heap@
    &&& update_ip
    &&& inner is Ok ==> inner == Ok::<Option<Request>, VmError>(None)
}

/// The instruction pushed `value` and did nothing else.
pub open spec fn pushes(
    pre: VmView,
    pre_heap: &Heap,
    value: Value,
    inner: Result<Option<Request>, VmError>,
    post: VmView,
    post_heap: &Heap,
    update_ip: bool,
) -> bool {
    &&& inner == Ok::<Option<Request>, VmError>(None)
    &&& post == pre.with_stack(pre.stack.push(value))
    &&& post_heap@ == pre_heap@
    &&& update_ip
}

/// The instruction popped a value and pushed whether it is `wanted`.
pub open spec fn tests(
    pre: VmView,
    pre_heap: &Heap,
    wanted: Value,
    inner: Result<Option<Request>, VmError>,
    post: VmView,
    post_heap: &Heap,
    update_ip: bool,
) -> bool {
    &&& post_heap@ == pre_heap@
    &&& update_ip
    &&& if pre.frame() == 0 {
        fails(inner, stack_empty()) && post == pre
    } else {
        &&& inner == Ok::<Option<Request>, VmError>(None)
        &&& post == pre.replaced(1, Value::Bool(pre.peek(0) == wanted))
    }
}

/// A virtual machine.
#[derive(Debug)]
pub struct Vm {
    /// The current instruction pointer.
    ip: usize,
    /// The current stack.
    stack: Stack,
    /// We have exited from the last frame.
    exited: bool,
    /// Frames relative to the stack.
    call_frames: Vec<CallFrame>,
    /// The `branch` register used by `select`.
    branch: Option<usize>,
}

impl View for Vm {
    type V = VmView;

    closed spec fn view(&self) -> VmView {
        VmView {
            ip: self.ip,
            stack: self.stack@.values,
            top: self.stack@.top,
            exited: self.exited,
            frames: self.call_frames@,
            branch: self.branch,
        }
    }
}

impl Vm {
    /// A machine at instruction 0 with an empty stack and no frames.
    pub open spec fn fresh() -> VmView {
        VmView {
            ip: 0,
            stack: Seq::empty(),
            top: 0,
            exited: false,
            frames: Seq::empty(),
            branch: None,
        }
    }

    /// Construct a new virtual machine.
    pub fn new() -> (vm: Vm)
        ensures
            vm@ == Vm::fresh(),
    {
        Vm { ip: 0, stack: Stack::new(), exited: false, call_frames: Vec::new(), branch: None }
    }

    /// Reset this virtual machine: instruction 0, an empty stack, no frames.
    /// The branch register keeps its value.
    pub fn clear(&mut self)
        ensures
            final(self)@ == (VmView { branch: old(self)@.branch, ..Vm::fresh() }),
    {
        self.ip = 0;
        self.exited = false;
        self.stack.clear();
        self.call_frames.clear();
    }

    /// Access the current instruction pointer.
    pub fn ip(&self) -> (ip: usize)
        ensures
            ip == self@.ip,
    {
        self.ip
    }

    /// Whether the outermost frame has returned.
    pub fn exited(&self) -> (exited: bool)
        ensures
            exited == self@.exited,
    {
        self.exited
    }

    /// The branch register.
    pub fn branch(&self) -> (branch: Option<usize>)
        ensures
            branch == self@.branch,
    {
        self.branch
    }

    /// The stack.
    pub fn stack(&self) -> (stack: &Stack)
        ensures
            stack@.values == self@.stack,
            stack@.top == self@.top,
    {
        &self.stack
    }

    /// The stack, for a native function to work on.
    pub fn stack_mut(&mut self) -> (stack: &mut Stack)
        ensures
            stack@.values == old(self)@.stack,
            stack@.top == old(self)@.top,
            final(self)@ == (VmView {
                stack: final(stack)@.values,
                top: final(stack)@.top,
                ..old(self)@
            }),
    {
        &mut self.stack
    }

    /// Move the instruction pointer by `offset`.
    pub fn modify_ip(&mut self, offset: isize) -> (result: Result<(), VmError>)
        ensures
            match old(self)@.jump_target(offset) {
                Some(ip) => result is Ok && final(self)@ == (VmView { ip, ..old(self)@ }),
                None => fails(result, VmError::IpOutOfBounds) && final(self)@ == old(self)@,
            },
    {
        let ip = if offset < 0 {
            let back: usize = (-(offset + 1)) as usize;
            match self.ip.checked_sub(back) {
                Some(ip) => ip.checked_sub(1),
                None => None,
            }
        } else {
            self.ip.checked_add(offset as usize)
        };
        match ip {
            Some(ip) => {
                self.ip = ip;
                Ok(())
            },
            None => Err(VmError::IpOutOfBounds),
        }
    }

    /// The values on the stack, from the bottom up.
    pub fn iter_stack_debug(&self) -> (values: &Vec<Value>)
        ensures
            values@ == self@.stack,
    {
        self.stack.values()
    }

    /// Pop the top value of the current frame.
    fn pop(&mut self) -> (result: Result<Value, VmError>)
        ensures
            match result {
                Ok(value) => {
                    &&& old(self)@.frame() > 0
                    &&& value == old(self)@.peek(0)
                    &&& final(self)@ == old(self)@.with_stack(old(self)@.below(1))
                },
                Err(error) => {
                    &&& old(self)@.frame() == 0
                    &&& error == stack_empty()
                    &&& final(self)@ == old(self)@
                },
            },
    {
        match self.stack.pop() {
            Ok(value) => {
                assert(old(self)@.stack.drop_last() == old(self)@.below(1));
                Ok(value)
            },
            Err(error) => Err(VmError::StackError { error }),
        }
    }

    /// Pop the top two values of the current frame: the one that was on top
    /// comes second.
    fn pop_two(&mut self) -> (result: Result<(Value, Value), VmError>)
        ensures
            match result {
                Ok((lhs, rhs)) => {
                    &&& old(self)@.frame() >= 2
                    &&& lhs == old(self)@.peek(1)
                    &&& rhs == old(self)@.peek(0)
                    &&& final(self)@ == old(self)@.with_stack(old(self)@.below(2))
                },
                Err(error) => {
                    &&& old(self)@.frame() < 2
                    &&& error == stack_empty()
                    &&& final(self)@ == old(self)@.popped(old(self)@.frame() as int)
                },
            },
    {
        let rhs = self.pop()?;
        let lhs = self.pop()?;
        assert(old(self)@.below(1).take(old(self)@.below(1).len() - 1) == old(self)@.below(2));
        Ok((lhs, rhs))
    }

    /// Push a value.
    fn push(&mut self, value: Value)
        ensures
            final(self)@ == old(self)@.with_stack(old(self)@.stack.push(value)),
    {
        self.stack.push(value);
    }

    /// What [`Vm::op_popn`] does.
    pub open spec fn popn_post(pre: VmView, n: usize, result: Result<(), VmError>, post: VmView) -> bool {
        if pre.frame() >= n {
            result is Ok && post == pre.with_stack(pre.below(n as int))
        } else {
            fails_after(
                result,
                stack_out_of_bounds(),
                post,
                pre,
                0,
            )
        }
    }

    /// Pop a number of values from the stack.
    pub fn op_popn(&mut self, n: usize) -> (result: Result<(), VmError>)
        ensures
            Vm::popn_post(old(self)@, n, result, final(self)@),
    {
        match self.stack.popn(n) {
            Ok(()) => Ok(()),
            Err(error) => Err(VmError::StackError { error }),
        }
    }

    /// What [`Vm::op_pop_and_jump_if`] does when the condition is expected
    /// to be `when`.
    pub open spec fn pop_and_jump_post(
        pre: VmView,
        when: bool,
        count: usize,
        offset: isize,
        update_ip: bool,
        result: Result<(), VmError>,
        post: VmView,
        post_update_ip: bool,
    ) -> bool {
        &&& result is Err ==> post_update_ip == update_ip
        &&& if pre.frame() == 0 {
            fails_after(
                result,
                stack_empty(),
                post,
                pre,
                0,
            )
        } else {
            match pre.peek(0) {
                Value::Bool(condition) => if condition != when {
                    &&& result is Ok
                    &&& post == pre.with_stack(pre.below(1))
                    &&& post_update_ip == update_ip
                } else if pre.frame() - 1 < count {
                    fails_after(
                        result,
                        stack_out_of_bounds(),
                        post,
                        pre,
                        1,
                    )
                } else {
                    match pre.jump_target(offset) {
                        Some(ip) => {
                            &&& result is Ok
                            &&& post == (VmView { ip, stack: pre.below(1 + count), ..pre })
                            &&& !post_update_ip
                        },
                        None => fails_after(
                            result,
                            VmError::IpOutOfBounds,
                            post,
                            pre,
                            1 + count,
                        ),
                    }
                },
                other => fails_after(
                    result,
                    VmError::ValueError {
                        error: ValueError::ExpectedBoolean { actual: other.spec_type_info() },
                    },
                    post,
                    pre,
                    1,
                ),
            }
        }
    }

    /// Pop a boolean, and then pop `count` values and jump if it is `when`.
    fn pop_and_jump(&mut self, when: bool, count: usize, offset: isize, update_ip: &mut bool) -> (result:
        Result<(), VmError>)
        ensures
            Vm::pop_and_jump_post(
                old(self)@,
                when,
                count,
                offset,
                *old(update_ip),
                result,
                final(self)@,
                *final(update_ip),
            ),
    {
        let value = self.pop()?;
        let condition = match value.into_bool() {
            Ok(condition) => condition,
            Err(error) => {
                return Err(VmError::ValueError { error });
            },
        };
        if condition != when {
            return Ok(());
        }
        match self.stack.popn(count) {
            Ok(()) => {},
            Err(error) => {
                return Err(VmError::StackError { error });
            },
        }
        assert(old(self)@.below(1).take(old(self)@.below(1).len() - count) == old(self)@.below(
            1 + count,
        ));
        self.modify_ip(offset)?;
        *update_ip = false;
        Ok(())
    }

    /// pop-and-jump-if instruction.
    pub fn op_pop_and_jump_if(&mut self, count: usize, offset: isize, update_ip: &mut bool) -> (result:
        Result<(), VmError>)
        ensures
            Vm::pop_and_jump_post(
                old(self)@,
                true,
                count,
                offset,
                *old(update_ip),
                result,
                final(self)@,
                *final(update_ip),
            ),
    {
        self.pop_and_jump(true, count, offset, update_ip)
    }

    /// pop-and-jump-if-not instruction.
    pub fn op_pop_and_jump_if_not(
        &mut self,
        count: usize,
        offset: isize,
        update_ip: &mut bool,
    ) -> (result: Result<(), VmError>)
        ensures
            Vm::pop_and_jump_post(
                old(self)@,
                false,
                count,
                offset,
                *old(update_ip),
                result,
                final(self)@,
                *final(update_ip),
            ),
    {
        self.pop_and_jump(false, count, offset, update_ip)
    }

    /// What [`Vm::op_clean`] does.
    pub open spec fn clean_post(pre: VmView, n: usize, result: Result<(), VmError>, post: VmView) -> bool {
        if pre.frame() == 0 {
            fails_after(
                result,
                stack_empty(),
                post,
                pre,
                0,
            )
        } else if pre.frame() - 1 < n {
            fails_after(
                result,
                stack_out_of_bounds(),
                post,
                pre,
                1,
            )
        } else {
            result is Ok && post == pre.replaced(n + 1, pre.peek(0))
        }
    }

    /// Pop a number of values from the stack, while preserving the top of the
    /// stack.
    pub fn op_clean(&mut self, n: usize) -> (result: Result<(), VmError>)
        ensures
            Vm::clean_post(old(self)@, n, result, final(self)@),
    {
        let value = self.pop()?;
        self.op_popn(n)?;
        assert(old(self)@.below(1).take(old(self)@.below(1).len() - n) == old(self)@.below(n + 1));
        self.push(value);
        Ok(())
    }

    /// What [`Vm::op_copy`] does.
    pub open spec fn copy_post(pre: VmView, offset: usize, result: Result<(), VmError>, post: VmView) -> bool {
        if offset < pre.frame() {
            result is Ok && post == pre.with_stack(pre.stack.push(pre.peek(offset as int)))
        } else {
            fails_after(
                result,
                stack_out_of_bounds(),
                post,
                pre,
                0,
            )
        }
    }

    /// Copy a value from a position relative to the top of the stack, to the
    /// top of the stack.
    pub fn op_copy(&mut self, offset: usize) -> (result: Result<(), VmError>)
        ensures
            Vm::copy_post(old(self)@, offset, result, final(self)@),
    {
        match self.stack.at_offset(offset) {
            Ok(value) => {
                self.push(value);
                Ok(())
            },
            Err(error) => Err(VmError::StackError { error }),
        }
    }

    /// What [`Vm::op_drop`] does.
    pub open spec fn drop_post(pre: VmView, offset: usize, result: Result<(), VmError>, post: VmView) -> bool {
        if offset < pre.frame() {
            result is Ok && post == pre
        } else {
            fails_after(
                result,
                stack_out_of_bounds(),
                post,
                pre,
                0,
            )
        }
    }

    /// Check that the current frame has a slot at `offset`.
    pub fn op_drop(&mut self, offset: usize) -> (result: Result<(), VmError>)
        ensures
            Vm::drop_post(old(self)@, offset, result, final(self)@),
    {
        match self.stack.at_offset(offset) {
            Ok(_) => Ok(()),
            Err(error) => Err(VmError::StackError { error }),
        }
    }

    /// What [`Vm::op_dup`] does.
    pub open spec fn dup_post(pre: VmView, result: Result<(), VmError>, post: VmView) -> bool {
        if pre.frame() > 0 {
            result is Ok && post == pre.with_stack(pre.stack.push(pre.peek(0)))
        } else {
            fails_after(
                result,
                stack_empty(),
                post,
                pre,
                0,
            )
        }
    }

    /// Duplicate the value at the top of the stack.
    pub fn op_dup(&mut self) -> (result: Result<(), VmError>)
        ensures
            Vm::dup_post(old(self)@, result, final(self)@),
    {
        match self.stack.last() {
            Ok(value) => {
                self.push(value);
                Ok(())
            },
            Err(error) => Err(VmError::StackError { error }),
        }
    }

    /// What [`Vm::op_replace`] does.
    pub open spec fn replace_post(pre: VmView, offset: usize, result: Result<(), VmError>, post: VmView) -> bool {
        if pre.frame() == 0 {
            fails_after(
                result,
                stack_empty(),
                post,
                pre,
                0,
            )
        } else if pre.frame() - 1 <= offset {
            fails_after(
                result,
                stack_out_of_bounds(),
                post,
                pre,
                1,
            )
        } else {
            result is Ok && post == pre.with_stack(
                pre.below(1).update(pre.stack.len() - 2 - offset, pre.peek(0)),
            )
        }
    }

    /// Pop the top of the stack and store it in the slot at `offset` below
    /// the new top.
    pub fn op_replace(&mut self, offset: usize) -> (result: Result<(), VmError>)
        ensures
            Vm::replace_post(old(self)@, offset, result, final(self)@),
    {
        let value = self.pop()?;
        match self.stack.at_offset_mut(offset) {
            Ok(slot) => {
                *slot = value;
                Ok(())
            },
            Err(error) => Err(VmError::StackError { error }),
        }
    }

    /// What the instructions that order two operands do.
    pub open spec fn order_post(pre: VmView, op: BinaryOp, result: Result<(), VmError>, post: VmView) -> bool {
        if pre.frame() < 2 {
            fails_after(
                result,
                stack_empty(),
                post,
                pre,
                pre.frame() as int,
            )
        } else {
            match ordered(op, pre.peek(1), pre.peek(0)) {
                Some(outcome) => result is Ok && post == pre.replaced(2, Value::Bool(outcome)),
                None => fails_after(
                    result,
                    VmError::UnsupportedBinaryOperation {
                        op,
                        lhs: pre.peek(1).spec_type_info(),
                        rhs: pre.peek(0).spec_type_info(),
                    },
                    post,
                    pre,
                    2,
                ),
            }
        }
    }

    /// Pop two operands and push how `op` orders them.
    fn order(&mut self, op: BinaryOp) -> (result: Result<(), VmError>)
        requires
            op == BinaryOp::Gt || op == BinaryOp::Gte || op == BinaryOp::Lt || op == BinaryOp::Lte,
        ensures
            Vm::order_post(old(self)@, op, result, final(self)@),
    {
        let (lhs, rhs) = self.pop_two()?;
        let outcome = match (lhs, rhs) {
            (Value::Char(a), Value::Char(b)) => order_u32(op, a as u32, b as u32),
            (Value::Bool(a), Value::Bool(b)) => order_u32(
                op,
                if a { 1 } else { 0 },
                if b { 1 } else { 0 },
            ),
            (Value::Integer(a), Value::Integer(b)) => match op {
                BinaryOp::Gt => a > b,
                BinaryOp::Gte => a >= b,
                BinaryOp::Lt => a < b,
                _ => a <= b,
            },
            (Value::Float(a), Value::Float(b)) => match op {
                BinaryOp::Gt => b.lt(a),
                BinaryOp::Gte => b.le(a),
                BinaryOp::Lt => a.lt(b),
                _ => a.le(b),
            },
            (lhs, rhs) => {
                return Err(
                    VmError::UnsupportedBinaryOperation {
                        op,
                        lhs: lhs.type_info(),
                        rhs: rhs.type_info(),
                    },
                );
            },
        };
        self.push(Value::Bool(outcome));
        Ok(())
    }

    /// The `>` instruction.
    pub fn op_gt(&mut self) -> (result: Result<(), VmError>)
        ensures
            Vm::order_post(old(self)@, BinaryOp::Gt, result, final(self)@),
    {
        self.order(BinaryOp::Gt)
    }

    /// The `>=` instruction.
    pub fn op_gte(&mut self) -> (result: Result<(), VmError>)
        ensures
            Vm::order_post(old(self)@, BinaryOp::Gte, result, final(self)@),
    {
        self.order(BinaryOp::Gte)
    }

    /// The `<` instruction.
    pub fn op_lt(&mut self) -> (result: Result<(), VmError>)
        ensures
            Vm::order_post(old(self)@, BinaryOp::Lt, result, final(self)@),
    {
        self.order(BinaryOp::Lt)
    }

    /// The `<=` instruction.
    pub fn op_lte(&mut self) -> (result: Result<(), VmError>)
        ensures
            Vm::order_post(old(self)@, BinaryOp::Lte, result, final(self)@),
    {
        self.order(BinaryOp::Lte)
    }

    /// What [`Vm::op_and`] and [`Vm::op_or`] do.
    pub open spec fn boolean_post(pre: VmView, op: BinaryOp, result: Result<(), VmError>, post: VmView) -> bool {
        if pre.frame() < 2 {
            fails_after(
                result,
                stack_empty(),
                post,
                pre,
                pre.frame() as int,
            )
        } else {
            match (pre.peek(1), pre.peek(0)) {
                (Value::Bool(a), Value::Bool(b)) => result is Ok && post == pre.replaced(
                    2,
                    Value::Bool(
                        if op == BinaryOp::And {
                            a && b
                        } else {
                            a || b
                        },
                    ),
                ),
                (lhs, rhs) => fails_after(
                    result,
                    VmError::UnsupportedBinaryOperation {
                        op,
                        lhs: lhs.spec_type_info(),
                        rhs: rhs.spec_type_info(),
                    },
                    post,
                    pre,
                    2,
                ),
            }
        }
    }

    /// Operation associated with `and` instruction.
    pub fn op_and(&mut self) -> (result: Result<(), VmError>)
        ensures
            Vm::boolean_post(old(self)@, BinaryOp::And, result, final(self)@),
    {
        let (lhs, rhs) = self.pop_two()?;
        match (lhs, rhs) {
            (Value::Bool(a), Value::Bool(b)) => {
                self.push(Value::Bool(a && b));
                Ok(())
            },
            (lhs, rhs) => Err(
                VmError::UnsupportedBinaryOperation {
                    op: BinaryOp::And,
                    lhs: lhs.type_info(),
                    rhs: rhs.type_info(),
                },
            ),
        }
    }

    /// Operation associated with `or` instruction.
    pub fn op_or(&mut self) -> (result: Result<(), VmError>)
        ensures
            Vm::boolean_post(old(self)@, BinaryOp::Or, result, final(self)@),
    {
        let (lhs, rhs) = self.pop_two()?;
        match (lhs, rhs) {
            (Value::Bool(a), Value::Bool(b)) => {
                self.push(Value::Bool(a || b));
                Ok(())
            },
            (lhs, rhs) => Err(
                VmError::UnsupportedBinaryOperation {
                    op: BinaryOp::Or,
                    lhs: lhs.type_info(),
                    rhs: rhs.type_info(),
                },
            ),
        }
    }

    /// What [`Vm::op_not`] does.
    pub open spec fn not_post(pre: VmView, result: Result<(), VmError>, post: VmView) -> bool {
        if pre.frame() == 0 {
            fails_after(
                result,
                stack_empty(),
                post,
                pre,
                0,
            )
        } else {
            match pre.peek(0) {
                Value::Bool(value) => result is Ok && post == pre.replaced(1, Value::Bool(!value)),
                other => fails_after(
                    result,
                    VmError::UnsupportedUnaryOperation {
                        op: UnaryOp::Not,
                        operand: other.spec_type_info(),
                    },
                    post,
                    pre,
                    1,
                ),
            }
        }
    }

    /// The `!` instruction.
    pub fn op_not(&mut self) -> (result: Result<(), VmError>)
        ensures
            Vm::not_post(old(self)@, result, final(self)@),
    {
        let value = self.pop()?;
        match value {
            Value::Bool(value) => {
                self.push(Value::Bool(!value));
                Ok(())
            },
            other => Err(
                VmError::UnsupportedUnaryOperation { op: UnaryOp::Not, operand: other.type_info() },
            ),
        }
    }

    /// What [`Vm::op_jump`] does.
    pub open spec fn jump_post(
        pre: VmView,
        offset: isize,
        update_ip: bool,
        result: Result<(), VmError>,
        post: VmView,
        post_update_ip: bool,
    ) -> bool {
        &&& result is Err ==> post_update_ip == update_ip
        &&& match pre.jump_target(offset) {
            Some(ip) => result is Ok && post == (VmView { ip, ..pre }) && !post_update_ip,
            None => fails_after(
                result,
                VmError::IpOutOfBounds,
                post,
                pre,
                0,
            ),
        }
    }

    /// Perform a jump operation.
    pub fn op_jump(&mut self, offset: isize, update_ip: &mut bool) -> (result: Result<(), VmError>)
        ensures
            Vm::jump_post(
                old(self)@,
                offset,
                *old(update_ip),
                result,
                final(self)@,
                *final(update_ip),
            ),
    {
        self.modify_ip(offset)?;
        *update_ip = false;
        Ok(())
    }

    /// What [`Vm::op_jump_if`] does when the condition is expected to be
    /// `when`.
    pub open spec fn jump_if_post(
        pre: VmView,
        when: bool,
        offset: isize,
        update_ip: bool,
        result: Result<(), VmError>,
        post: VmView,
        post_update_ip: bool,
    ) -> bool {
        &&& result is Err ==> post_update_ip == update_ip
        &&& if pre.frame() == 0 {
            fails_after(
                result,
                stack_empty(),
                post,
                pre,
                0,
            )
        } else {
            match pre.peek(0) {
                Value::Bool(condition) => if condition != when {
                    &&& result is Ok
                    &&& post == pre.with_stack(pre.below(1))
                    &&& post_update_ip == update_ip
                } else {
                    match pre.jump_target(offset) {
                        Some(ip) => {
                            &&& result is Ok
                            &&& post == (VmView { ip, stack: pre.below(1), ..pre })
                            &&& !post_update_ip
                        },
                        None => fails_after(
                            result,
                            VmError::IpOutOfBounds,
                            post,
                            pre,
                            1,
                        ),
                    }
                },
                other => fails_after(
                    result,
                    VmError::ValueError {
                        error: ValueError::ExpectedBoolean { actual: other.spec_type_info() },
                    },
                    post,
                    pre,
                    1,
                ),
            }
        }
    }

    /// Pop a boolean and jump if it is `when`.
    fn jump_when(&mut self, when: bool, offset: isize, update_ip: &mut bool) -> (result: Result<(), VmError>)
        ensures
            Vm::jump_if_post(
                old(self)@,
                when,
                offset,
                *old(update_ip),
                result,
                final(self)@,
                *final(update_ip),
            ),
    {
        let value = self.pop()?;
        let condition = match value.into_bool() {
            Ok(condition) => condition,
            Err(error) => {
                return Err(VmError::ValueError { error });
            },
        };
        if condition == when {
            self.modify_ip(offset)?;
            *update_ip = false;
        }
        Ok(())
    }

    /// Perform a conditional jump operation.
    pub fn op_jump_if(&mut self, offset: isize, update_ip: &mut bool) -> (result: Result<(), VmError>)
        ensures
            Vm::jump_if_post(
                old(self)@,
                true,
                offset,
                *old(update_ip),
                result,
                final(self)@,
                *final(update_ip),
            ),
    {
        self.jump_when(true, offset, update_ip)
    }

    /// Perform a conditional jump operation.
    pub fn op_jump_if_not(&mut self, offset: isize, update_ip: &mut bool) -> (result: Result<(), VmError>)
        ensures
            Vm::jump_if_post(
                old(self)@,
                false,
                offset,
                *old(update_ip),
                result,
                final(self)@,
                *final(update_ip),
            ),
    {
        self.jump_when(false, offset, update_ip)
    }

    /// What [`Vm::op_jump_if_branch`] does: where the branch register holds
    /// `branch`, it is cleared and the jump is made.
    pub open spec fn jump_if_branch_post(
        pre: VmView,
        branch: usize,
        offset: isize,
        update_ip: bool,
        result: Result<(), VmError>,
        post: VmView,
        post_update_ip: bool,
    ) -> bool {
        &&& result is Err ==> post_update_ip == update_ip
        &&& if pre.branch == Some(branch) {
            match pre.jump_target(offset) {
                Some(ip) => {
                    &&& result is Ok
                    &&& post == (VmView { ip, branch: None, ..pre })
                    &&& !post_update_ip
                },
                None => fails(result, VmError::IpOutOfBounds) && post == (VmView {
                    branch: None,
                    ..pre
                }),
            }
        } else {
            result is Ok && post == pre && post_update_ip == update_ip
        }
    }

    /// Perform a branch-conditional jump operation.
    pub fn op_jump_if_branch(&mut self, branch: usize, offset: isize, update_ip: &mut bool) -> (result:
        Result<(), VmError>)
        ensures
            Vm::jump_if_branch_post(
                old(self)@,
                branch,
                offset,
                *old(update_ip),
                result,
                final(self)@,
                *final(update_ip),
            ),
    {
        if let Some(current) = self.branch {
            if current == branch {
                self.branch = None;
                self.modify_ip(offset)?;
                *update_ip = false;
            }
        }
        Ok(())
    }

    /// What [`Vm::push_call_frame`] does: the new frame holds the top `args`
    /// values, and the frame that is left is remembered with the current
    /// instruction pointer.
    pub open spec fn push_call_frame_post(
        pre: VmView,
        new_ip: usize,
        args: usize,
        result: Result<(), VmError>,
        post: VmView,
    ) -> bool {
        if args <= pre.frame() {
            &&& result is Ok
            &&& post.top == pre.stack.len() - args
            &&& post == (VmView {
                ip: new_ip,
                top: post.top,
                frames: pre.frames.push(CallFrame { ip: pre.ip, stack_top: pre.top }),
                ..pre
            })
        } else {
            fails_after(
                result,
                stack_out_of_bounds(),
                post,
                pre,
                0,
            )
        }
    }

    /// Push a new call frame.
    pub fn push_call_frame(&mut self, new_ip: usize, args: usize) -> (result: Result<(), VmError>)
        ensures
            Vm::push_call_frame_post(old(self)@, new_ip, args, result, final(self)@),
    {
        let stack_top = match self.stack.push_stack_top(args) {
            Ok(stack_top) => stack_top,
            Err(error) => {
                return Err(VmError::StackError { error });
            },
        };
        self.call_frames.push(CallFrame { ip: self.ip, stack_top });
        self.ip = new_ip;
        Ok(())
    }

    /// What [`Vm::pop_call_frame`] does: the current frame has to be empty.
    /// With no call to return from, the result is `true`. Otherwise the
    /// innermost call's frame is restored and the result is `false`. Where
    /// the current frame is not empty, the innermost call frame is lost all
    /// the same.
    pub open spec fn pop_call_frame_post(pre: VmView, result: Result<bool, VmError>, post: VmView) -> bool {
        if pre.stack.len() != pre.top {
            fails(result, stack_error(StackError::CorruptedStackFrame)) && post == pre.unwound()
        } else if pre.frames.len() == 0 {
            result == Ok::<bool, VmError>(true) && post == pre
        } else {
            result == Ok::<bool, VmError>(false) && post == (VmView {
                ip: pre.frames.last().ip,
                top: pre.frames.last().stack_top,
                frames: pre.frames.drop_last(),
                ..pre
            })
        }
    }

    /// Pop a call frame. Returns whether there was none left to pop.
    pub fn pop_call_frame(&mut self) -> (result: Result<bool, VmError>)
        ensures
            Vm::pop_call_frame_post(old(self)@, result, final(self)@),
    {
        let frame = match self.call_frames.pop() {
            Some(frame) => frame,
            None => {
                return match self.stack.check_stack_top() {
                    Ok(()) => Ok(true),
                    Err(error) => Err(VmError::StackError { error }),
                };
            },
        };
        match self.stack.pop_stack_top(frame.stack_top) {
            Ok(()) => {},
            Err(error) => {
                return Err(VmError::StackError { error });
            },
        }
        self.ip = frame.ip;
        Ok(false)
    }

    /// What [`Vm::op_return`] does. It succeeds only where the returning
    /// frame holds exactly one value, the return value, which stays on top
    /// of the stack.
    pub open spec fn return_post(pre: VmView, result: Result<(), VmError>, post: VmView) -> bool {
        if pre.frame() == 0 {
            fails(result, stack_empty()) && post == pre
        } else if pre.frame() != 1 {
            fails(result, stack_error(StackError::CorruptedStackFrame)) && post == pre.popped(
                1,
            ).unwound()
        } else if pre.frames.len() == 0 {
            result is Ok && post == (VmView { exited: true, ..pre })
        } else {
            result is Ok && post == (VmView {
                ip: pre.frames.last().ip,
                top: pre.frames.last().stack_top,
                frames: pre.frames.drop_last(),
                exited: false,
                ..pre
            })
        }
    }

    /// The `return` instruction.
    pub fn op_return(&mut self) -> (result: Result<(), VmError>)
        ensures
            Vm::return_post(old(self)@, result, final(self)@),
    {
        let return_value = self.pop()?;
        let exited = self.pop_call_frame()?;
        self.exited = exited;
        self.push(return_value);
        assert(old(self)@.below(1).push(return_value) == old(self)@.stack);
        Ok(())
    }

    /// What [`Vm::op_return_unit`] does. It succeeds only where the
    /// returning frame is empty.
    pub open spec fn return_unit_post(pre: VmView, result: Result<(), VmError>, post: VmView) -> bool {
        if pre.stack.len() != pre.top {
            fails(result, stack_error(StackError::CorruptedStackFrame)) && post == pre.unwound()
        } else if pre.frames.len() == 0 {
            result is Ok && post == (VmView {
                exited: true,
                stack: pre.stack.push(Value::Unit),
                ..pre
            })
        } else {
            result is Ok && post == (VmView {
                ip: pre.frames.last().ip,
                top: pre.frames.last().stack_top,
                frames: pre.frames.drop_last(),
                exited: false,
                stack: pre.stack.push(Value::Unit),
                ..pre
            })
        }
    }

    /// The `return` instruction without a value.
    pub fn op_return_unit(&mut self) -> (result: Result<(), VmError>)
        ensures
            Vm::return_unit_post(old(self)@, result, final(self)@),
    {
        let exited = self.pop_call_frame()?;
        self.exited = exited;
        self.push(Value::Unit);
        Ok(())
    }

    /// What [`Vm::op_index_set`] does where no case of its own applies: it
    /// looks for the native function that stands in for the operator and
    /// leaves the stack as it found it, for that function to work on.
    pub open spec fn index_set_dispatch(
        pre: VmView,
        pre_heap: &Heap,
        context: &Context,
        result: Result<Option<Request>, VmError>,
        post: VmView,
        post_heap: &Heap,
    ) -> bool {
        match spec_instance_handler(pre_heap, context, pre.peek(0), Protocol::IndexSet) {
            Err(error) => fails_after(
                result,
                error,
                post,
                pre,
                3,
            ) && post_heap@ == pre_heap@,
            Ok(None) => fails_after(
                result,
                VmError::UnsupportedIndexSet {
                    target_type: pre.peek(0).spec_type_info(),
                    index_type: pre.peek(1).spec_type_info(),
                    value_type: pre.peek(2).spec_type_info(),
                },
                post,
                pre,
                3,
            ) && post_heap@ == pre_heap@,
            Ok(Some(handler)) => {
                &&& result == Ok::<Option<Request>, VmError>(
                    Some(Request::Call { handler, args: 2 }),
                )
                &&& post == pre
                &&& post_heap@ == pre_heap@
            },
        }
    }

    /// What [`Vm::op_index_set`] does. The target is on top of the stack,
    /// the index below it and the value below that. An object takes a string
    /// as a key and stores the value under it. A typed object does so only
    /// under a key that it has. Anything else is for the native function
    /// that stands in for the operator.
    pub open spec fn index_set_post(
        pre: VmView,
        pre_heap: &Heap,
        unit: &CompilationUnit,
        context: &Context,
        result: Result<Option<Request>, VmError>,
        post: VmView,
        post_heap: &Heap,
    ) -> bool {
        if pre.frame() < 3 {
            fails_after(
                result,
                stack_empty(),
                post,
                pre,
                pre.frame() as int,
            ) && post_heap@ == pre_heap@
        } else {
            let key = text_of(pre_heap, unit, pre.peek(1));
            let value = pre.peek(2);
            match pre.peek(0) {
                Value::Object(shared) => match key {
                    None => Vm::index_set_dispatch(pre, pre_heap, context, result, post, post_heap),
                    Some(Err(error)) => fails_after(
                        result,
                        error,
                        post,
                        pre,
                        3,
                    ) && post_heap@ == pre_heap@,
                    Some(Ok(key)) => if !pre_heap.objects.writable(shared) {
                        fails_after(
                            result,
                            access_error(AccessError::NotAccessibleMut),
                            post,
                            pre,
                            3,
                        ) && post_heap@ == pre_heap@
                    } else {
                        &&& result == Ok::<Option<Request>, VmError>(None)
                        &&& post == pre.with_stack(pre.below(3))
                        &&& post_heap@ == (HeapView { objects: post_heap@.objects, ..pre_heap@ })
                        &&& cell_rewritten(
                            pre_heap.objects@,
                            post_heap.objects@,
                            shared.index as int,
                        )
                        &&& post_heap.objects.value(shared)@ == with_entry(
                            pre_heap.objects.value(shared)@,
                            key,
                            value,
                        )
                    },
                },
                Value::TypedObject(shared) => if !pre_heap.typed_objects.writable(shared) {
                    fails_after(
                        result,
                        access_error(AccessError::NotAccessibleMut),
                        post,
                        pre,
                        3,
                    ) && post_heap@ == pre_heap@
                } else {
                    match key {
                        None => Vm::index_set_dispatch(
                            pre,
                            pre_heap,
                            context,
                            result,
                            post,
                            post_heap,
                        ),
                        Some(Err(error)) => fails_after(
                            result,
                            error,
                            post,
                            pre,
                            3,
                        ) && post_heap@ == pre_heap@,
                        Some(Ok(key)) => if position(
                            pre_heap.typed_objects.value(shared).object@,
                            key,
                        ) is None {
                            fails_after(
                                result,
                                VmError::MissingStructField,
                                post,
                                pre,
                                3,
                            ) && post_heap@ == pre_heap@
                        } else {
                            &&& result == Ok::<Option<Request>, VmError>(None)
                            &&& post == pre.with_stack(pre.below(3))
                            &&& post_heap@ == (HeapView {
                                typed_objects: post_heap@.typed_objects,
                                ..pre_heap@
                            })
                            &&& cell_rewritten(
                                pre_heap.typed_objects@,
                                post_heap.typed_objects@,
                                shared.index as int,
                            )
                            &&& post_heap.typed_objects.value(shared).ty
                                == pre_heap.typed_objects.value(shared).ty
                            &&& post_heap.typed_objects.value(shared).object@ == with_entry(
                                pre_heap.typed_objects.value(shared).object@,
                                key,
                                value,
                            )
                        },
                    }
                },
                _ => Vm::index_set_dispatch(pre, pre_heap, context, result, post, post_heap),
            }
        }
    }

    /// Pop three values: the one that was on top comes first.
    fn pop_three(&mut self) -> (result: Result<(Value, Value, Value), VmError>)
        ensures
            match result {
                Ok((first, second, third)) => {
                    &&& old(self)@.frame() >= 3
                    &&& first == old(self)@.peek(0)
                    &&& second == old(self)@.peek(1)
                    &&& third == old(self)@.peek(2)
                    &&& final(self)@ == old(self)@.with_stack(old(self)@.below(3))
                },
                Err(error) => {
                    &&& old(self)@.frame() < 3
                    &&& error == stack_empty()
                    &&& final(self)@ == old(self)@.popped(old(self)@.frame() as int)
                },
            },
    {
        let first = self.pop()?;
        let second = self.pop()?;
        proof {
            if old(self)@.frame() >= 2 {
                assert(old(self)@.below(1).take(old(self)@.below(1).len() - 1) == old(self)@.below(
                    2,
                ));
            }
        }
        let third = self.pop()?;
        assert(old(self)@.below(1).take(old(self)@.below(1).len() - 1) == old(self)@.below(2));
        assert(old(self)@.below(2).take(old(self)@.below(2).len() - 1) == old(self)@.below(3));
        Ok((first, second, third))
    }

    /// The second half of [`Vm::op_index_set`]: hand the operands to the
    /// native function that stands in for the operator.
    fn index_set_fallback(
        &mut self,
        heap: &Heap,
        context: &Context,
        target: Value,
        index: Value,
        value: Value,
    ) -> (result: Result<Option<Request>, VmError>)
        ensures
            match spec_instance_handler(heap, context, target, Protocol::IndexSet) {
                Err(error) => fails(result, error) && final(self)@ == old(self)@,
                Ok(None) => fails(
                    result,
                    VmError::UnsupportedIndexSet {
                        target_type: target.spec_type_info(),
                        index_type: index.spec_type_info(),
                        value_type: value.spec_type_info(),
                    },
                ) && final(self)@ == old(self)@,
                Ok(Some(handler)) => {
                    &&& result == Ok::<Option<Request>, VmError>(
                        Some(Request::Call { handler, args: 2 }),
                    )
                    &&& final(self)@ == old(self)@.with_stack(
                        old(self)@.stack.push(value).push(index).push(target),
                    )
                },
            },
    {
        let handler = match instance_handler(heap, context, target, Protocol::IndexSet)? {
            Some(handler) => handler,
            None => {
                return Err(
                    VmError::UnsupportedIndexSet {
                        target_type: target.type_info(),
                        index_type: index.type_info(),
                        value_type: value.type_info(),
                    },
                );
            },
        };
        self.push(value);
        self.push(index);
        self.push(target);
        Ok(Some(Request::Call { handler, args: 2 }))
    }

    /// Perform an index set operation.
    pub fn op_index_set(&mut self, heap: &mut Heap, unit: &CompilationUnit, context: &Context) -> (result:
        Result<Option<Request>, VmError>)
        ensures
            Vm::index_set_post(old(self)@, old(heap), unit, context, result, final(self)@, final(heap)),
    {
        let (target, index, value) = self.pop_three()?;
        proof {
            let pre = old(self)@;
            assert(pre.below(3).push(value).push(index).push(target) == pre.stack);
        }
        match target {
            Value::Object(shared) => {
                let key = match text(heap, unit, index)? {
                    Some(key) => key,
                    None => {
                        return self.index_set_fallback(heap, context, target, index, value);
                    },
                };
                match heap.objects.get_mut(shared) {
                    Ok(object) => {
                        object.insert(key, value);
                        Ok(None)
                    },
                    Err(error) => Err(VmError::AccessError { error }),
                }
            },
            Value::TypedObject(shared) => {
                if !heap.typed_objects.is_writable(shared) {
                    return Err(VmError::AccessError { error: AccessError::NotAccessibleMut });
                }
                let key = match text(heap, unit, index)? {
                    Some(key) => key,
                    None => {
                        return self.index_set_fallback(heap, context, target, index, value);
                    },
                };
                let known = match heap.typed_objects.get_ref(shared) {
                    Ok(typed_object) => typed_object.object.contains_key(key.as_str()),
                    Err(error) => {
                        return Err(VmError::AccessError { error });
                    },
                };
                if !known {
                    return Err(VmError::MissingStructField);
                }
                match heap.typed_objects.get_mut(shared) {
                    Ok(typed_object) => {
                        typed_object.object.replace(key.as_str(), value);
                        Ok(None)
                    },
                    Err(error) => Err(VmError::AccessError { error }),
                }
            },
            _ => self.index_set_fallback(heap, context, target, index, value),
        }
    }

    /// What [`Vm::op_index_get`] does. The target is on top of the stack and
    /// the index below it. An object takes a string as a key and gives what
    /// it holds under it, as a new optional value. Anything else is for the
    /// native function that stands in for the operator, which finds the
    /// stack as it was.
    pub open spec fn index_get_post(
        pre: VmView,
        pre_heap: &Heap,
        unit: &CompilationUnit,
        context: &Context,
        result: Result<Option<Request>, VmError>,
        post: VmView,
        post_heap: &Heap,
    ) -> bool {
        if pre.frame() < 2 {
            fails_after(
                result,
                stack_empty(),
                post,
                pre,
                pre.frame() as int,
            ) && post_heap@ == pre_heap@
        } else {
            let key = text_of(pre_heap, unit, pre.peek(1));
            match (pre.peek(0), key) {
                (Value::Object(shared), Some(Err(error))) => fails_after(
                    result,
                    error,
                    post,
                    pre,
                    2,
                ) && post_heap@ == pre_heap@,
                (Value::Object(shared), Some(Ok(key))) => if !pre_heap.objects.readable(shared) {
                    fails_after(
                        result,
                        access_error(AccessError::NotAccessibleRef),
                        post,
                        pre,
                        2,
                    ) && post_heap@ == pre_heap@
                } else {
                    &&& result == Ok::<Option<Request>, VmError>(None)
                    &&& post == pre.replaced(
                        2,
                        Value::Option(Shared { index: pre_heap.options@.len() as usize }),
                    )
                    &&& post_heap@ == (HeapView {
                        options: pre_heap.options@.push(
                            fresh_cell(lookup(pre_heap.objects.value(shared)@, key)),
                        ),
                        ..pre_heap@
                    })
                },
                _ => match spec_instance_handler(
                    pre_heap,
                    context,
                    pre.peek(0),
                    Protocol::IndexGet,
                ) {
                    Err(error) => fails_after(
                        result,
                        error,
                        post,
                        pre,
                        2,
                    ) && post_heap@ == pre_heap@,
                    Ok(None) => fails_after(
                        result,
                        VmError::UnsupportedIndexGet {
                            target_type: pre.peek(0).spec_type_info(),
                            index_type: pre.peek(1).spec_type_info(),
                        },
                        post,
                        pre,
                        2,
                    ) && post_heap@ == pre_heap@,
                    Ok(Some(handler)) => {
                        &&& result == Ok::<Option<Request>, VmError>(
                            Some(Request::Call { handler, args: 1 }),
                        )
                        &&& post == pre
                        &&& post_heap@ == pre_heap@
                    },
                },
            }
        }
    }

    /// Perform an index get operation.
    pub fn op_index_get(&mut self, heap: &mut Heap, unit: &CompilationUnit, context: &Context) -> (result:
        Result<Option<Request>, VmError>)
        ensures
            Vm::index_get_post(old(self)@, old(heap), unit, context, result, final(self)@, final(heap)),
    {
        let (index, target) = self.pop_two()?;
        proof {
            let pre = old(self)@;
            assert(pre.below(2).push(index).push(target) == pre.stack);
        }
        if let Value::Object(shared) = target {
            if let Some(key) = text(heap, unit, index)? {
                let found = match heap.objects.get_ref(shared) {
                    Ok(object) => object.get(key.as_str()),
                    Err(error) => {
                        return Err(VmError::AccessError { error });
                    },
                };
                let option = heap.options.insert(found);
                self.push(Value::Option(option));
                return Ok(None);
            }
        }
        let handler = match instance_handler(heap, context, target, Protocol::IndexGet)? {
            Some(handler) => handler,
            None => {
                return Err(
                    VmError::UnsupportedIndexGet {
                        target_type: target.type_info(),
                        index_type: index.type_info(),
                    },
                );
            },
        };
        self.push(index);
        self.push(target);
        Ok(Some(Request::Call { handler, args: 1 }))
    }

    /// What [`Vm::op_vec_index_get`] does.
    pub open spec fn vec_index_get_post(
        pre: VmView,
        heap: &Heap,
        index: usize,
        result: Result<(), VmError>,
        post: VmView,
    ) -> bool {
        if pre.frame() == 0 {
            fails_after(
                result,
                stack_empty(),
                post,
                pre,
                0,
            )
        } else {
            match pre.peek(0) {
                Value::Vec(shared) => if !heap.vecs.readable(shared) {
                    fails_after(
                        result,
                        access_error(AccessError::NotAccessibleRef),
                        post,
                        pre,
                        1,
                    )
                } else if index < heap.vecs.value(shared)@.len() {
                    result is Ok && post == pre.replaced(1, heap.vecs.value(shared)@[index as int])
                } else {
                    fails_after(
                        result,
                        VmError::VecIndexMissing { index },
                        post,
                        pre,
                        1,
                    )
                },
                other => fails_after(
                    result,
                    VmError::UnsupportedVecIndexGet { target_type: other.spec_type_info() },
                    post,
                    pre,
                    1,
                ),
            }
        }
    }

    /// Perform an index get operation specialized for vectors.
    pub fn op_vec_index_get(&mut self, heap: &Heap, index: usize) -> (result: Result<(), VmError>)
        ensures
            Vm::vec_index_get_post(old(self)@, heap, index, result, final(self)@),
    {
        let target = self.pop()?;
        let value = match target {
            Value::Vec(shared) => match heap.vecs.get_ref(shared) {
                Ok(vec) => if index < vec.len() {
                    vec[index]
                } else {
                    return Err(VmError::VecIndexMissing { index });
                },
                Err(error) => {
                    return Err(VmError::AccessError { error });
                },
            },
            other => {
                return Err(VmError::UnsupportedVecIndexGet { target_type: other.type_info() });
            },
        };
        self.push(value);
        Ok(())
    }

    /// The fields of a value that is a tuple, or that counts as one.
    pub fn on_tuple(heap: &Heap, value: Value, tuple_like: bool) -> (result: Result<
        Option<Vec<Value>>,
        VmError,
    >)
        ensures
            match tuple_fields(heap, value, tuple_like) {
                None => result == Ok::<Option<Vec<Value>>, VmError>(None),
                Some(Ok(fields)) => result matches Ok(Some(found)) && found@ == fields,
                Some(Err(error)) => fails(result, error),
            },
    {
        if let Value::Tuple(shared) = value {
            return match heap.tuples.get_ref(shared) {
                Ok(tuple) => Ok(Some(copy_values(tuple))),
                Err(error) => Err(VmError::AccessError { error }),
            };
        }
        if !tuple_like {
            return Ok(None);
        }
        match value {
            Value::Result(shared) => match heap.results.get_ref(shared) {
                Ok(result) => {
                    let mut fields: Vec<Value> = Vec::new();
                    match result {
                        Ok(value) => fields.push(*value),
                        Err(value) => fields.push(*value),
                    }
                    assert(fields@ == seq![fields@[0]]);
                    Ok(Some(fields))
                },
                Err(error) => Err(VmError::AccessError { error }),
            },
            Value::Option(shared) => match heap.options.get_ref(shared) {
                Ok(option) => {
                    let mut fields: Vec<Value> = Vec::new();
                    match option {
                        Some(value) => {
                            fields.push(*value);
                            assert(fields@ == seq![fields@[0]]);
                        },
                        None => {},
                    }
                    Ok(Some(fields))
                },
                Err(error) => Err(VmError::AccessError { error }),
            },
            Value::TypedTuple(shared) => match heap.typed_tuples.get_ref(shared) {
                Ok(typed_tuple) => Ok(Some(copy_values(&typed_tuple.tuple))),
                Err(error) => Err(VmError::AccessError { error }),
            },
            _ => Ok(None),
        }
    }

    /// What [`Vm::op_tuple_index_get`] does.
    pub open spec fn tuple_index_get_post(
        pre: VmView,
        heap: &Heap,
        index: usize,
        result: Result<(), VmError>,
        post: VmView,
    ) -> bool {
        if pre.frame() == 0 {
            fails_after(
                result,
                stack_empty(),
                post,
                pre,
                0,
            )
        } else {
            match tuple_fields(heap, pre.peek(0), true) {
                None => fails_after(
                    result,
                    VmError::UnsupportedTupleIndexGet { target_type: pre.peek(0).spec_type_info() },
                    post,
                    pre,
                    1,
                ),
                Some(Err(error)) => fails_after(
                    result,
                    error,
                    post,
                    pre,
                    1,
                ),
                Some(Ok(fields)) => if index < fields.len() {
                    result is Ok && post == pre.replaced(1, fields[index as int])
                } else {
                    fails_after(
                        result,
                        VmError::TupleIndexMissing { index },
                        post,
                        pre,
                        1,
                    )
                },
            }
        }
    }

    /// Perform an index get operation specialized for tuples.
    pub fn op_tuple_index_get(&mut self, heap: &Heap, index: usize) -> (result: Result<(), VmError>)
        ensures
            Vm::tuple_index_get_post(old(self)@, heap, index, result, final(self)@),
    {
        let value = self.pop()?;
        let fields = match Vm::on_tuple(heap, value, true)? {
            Some(fields) => fields,
            None => {
                return Err(VmError::UnsupportedTupleIndexGet { target_type: value.type_info() });
            },
        };
        if index >= fields.len() {
            return Err(VmError::TupleIndexMissing { index });
        }
        self.push(fields[index]);
        Ok(())
    }

    /// What [`Vm::op_match_tuple`] does.
    pub open spec fn match_tuple_post(
        pre: VmView,
        heap: &Heap,
        tuple_like: bool,
        len: usize,
        exact: bool,
        result: Result<(), VmError>,
        post: VmView,
    ) -> bool {
        if pre.frame() == 0 {
            fails_after(
                result,
                stack_empty(),
                post,
                pre,
                0,
            )
        } else {
            match tuple_fields(heap, pre.peek(0), tuple_like) {
                None => result is Ok && post == pre.replaced(1, Value::Bool(false)),
                Some(Err(error)) => fails_after(
                    result,
                    error,
                    post,
                    pre,
                    1,
                ),
                Some(Ok(fields)) => result is Ok && post == pre.replaced(
                    1,
                    Value::Bool(length_matches(fields.len(), len, exact)),
                ),
            }
        }
    }

    /// Pop a value and push whether it is a tuple of the wanted length.
    pub fn op_match_tuple(&mut self, heap: &Heap, tuple_like: bool, len: usize, exact: bool) -> (result:
        Result<(), VmError>)
        ensures
            Vm::match_tuple_post(old(self)@, heap, tuple_like, len, exact, result, final(self)@),
    {
        let value = self.pop()?;
        let outcome = match Vm::on_tuple(heap, value, tuple_like)? {
            Some(fields) => if exact {
                fields.len() == len
            } else {
                fields.len() >= len
            },
            None => false,
        };
        self.push(Value::Bool(outcome));
        Ok(())
    }

    /// What [`Vm::match_vec`] does.
    pub open spec fn match_vec_post(
        pre: VmView,
        heap: &Heap,
        len: usize,
        exact: bool,
        result: Result<(), VmError>,
        post: VmView,
    ) -> bool {
        if pre.frame() == 0 {
            fails_after(
                result,
                stack_empty(),
                post,
                pre,
                0,
            )
        } else {
            match pre.peek(0) {
                Value::Vec(shared) => if !heap.vecs.readable(shared) {
                    fails_after(
                        result,
                        access_error(AccessError::NotAccessibleRef),
                        post,
                        pre,
                        1,
                    )
                } else {
                    result is Ok && post == pre.replaced(
                        1,
                        Value::Bool(length_matches(heap.vecs.value(shared)@.len(), len, exact)),
                    )
                },
                _ => result is Ok && post == pre.replaced(1, Value::Bool(false)),
            }
        }
    }

    /// Pop a value and push whether it is a vector of the wanted length.
    pub fn match_vec(&mut self, heap: &Heap, len: usize, exact: bool) -> (result: Result<(), VmError>)
        ensures
            Vm::match_vec_post(old(self)@, heap, len, exact, result, final(self)@),
    {
        let value = self.pop()?;
        let outcome = match value {
            Value::Vec(shared) => match heap.vecs.get_ref(shared) {
                Ok(vec) => if exact {
                    vec.len() == len
                } else {
                    vec.len() >= len
                },
                Err(error) => {
                    return Err(VmError::AccessError { error });
                },
            },
            _ => false,
        };
        self.push(Value::Bool(outcome));
        Ok(())
    }

    /// What [`Vm::op_object_slot_index_get`] does.
    pub open spec fn object_slot_index_get_post(
        pre: VmView,
        heap: &Heap,
        unit: &CompilationUnit,
        slot: usize,
        result: Result<(), VmError>,
        post: VmView,
    ) -> bool {
        if pre.frame() == 0 {
            fails_after(
                result,
                stack_empty(),
                post,
                pre,
                0,
            )
        } else {
            let entries: Option<Result<Seq<(Seq<char>, Value)>, VmError>> = match pre.peek(0) {
                Value::Object(shared) => Some(
                    if heap.objects.readable(shared) {
                        Ok(heap.objects.value(shared)@)
                    } else {
                        Err(access_error(AccessError::NotAccessibleRef))
                    },
                ),
                Value::TypedObject(shared) => Some(
                    if heap.typed_objects.readable(shared) {
                        Ok(heap.typed_objects.value(shared).object@)
                    } else {
                        Err(access_error(AccessError::NotAccessibleRef))
                    },
                ),
                _ => None,
            };
            match entries {
                None => fails_after(
                    result,
                    VmError::UnsupportedObjectSlotIndexGet {
                        target_type: pre.peek(0).spec_type_info(),
                    },
                    post,
                    pre,
                    1,
                ),
                Some(entries) => if slot >= unit.strings().len() {
                    fails_after(
                        result,
                        VmError::MissingStaticString { slot },
                        post,
                        pre,
                        1,
                    )
                } else {
                    match entries {
                        Err(error) => fails_after(
                            result,
                            error,
                            post,
                            pre,
                            1,
                        ),
                        Ok(entries) => match lookup(entries, unit.strings()[slot as int]) {
                            Some(value) => result is Ok && post == pre.replaced(1, value),
                            None => fails_after(
                                result,
                                VmError::ObjectIndexMissing { slot },
                                post,
                                pre,
                                1,
                            ),
                        },
                    }
                },
            }
        }
    }

    /// Perform a specialized index get operation on an object.
    pub fn op_object_slot_index_get(&mut self, heap: &Heap, unit: &CompilationUnit, slot: usize) -> (result:
        Result<(), VmError>)
        ensures
            Vm::object_slot_index_get_post(old(self)@, heap, unit, slot, result, final(self)@),
    {
        let target = self.pop()?;
        let found = match target {
            Value::Object(shared) => {
                let index = unit.lookup_string(slot)?;
                match heap.objects.get_ref(shared) {
                    Ok(object) => object.get(index.as_str()),
                    Err(error) => {
                        return Err(VmError::AccessError { error });
                    },
                }
            },
            Value::TypedObject(shared) => {
                let index = unit.lookup_string(slot)?;
                match heap.typed_objects.get_ref(shared) {
                    Ok(typed_object) => typed_object.object.get(index.as_str()),
                    Err(error) => {
                        return Err(VmError::AccessError { error });
                    },
                }
            },
            other => {
                return Err(
                    VmError::UnsupportedObjectSlotIndexGet { target_type: other.type_info() },
                );
            },
        };
        match found {
            Some(value) => {
                self.push(value);
                Ok(())
            },
            None => Err(VmError::ObjectIndexMissing { slot }),
        }
    }

    /// What [`Vm::op_is`] does. The type is on top of the stack and the
    /// value below it.
    pub open spec fn is_post(
        pre: VmView,
        heap: &Heap,
        unit: &CompilationUnit,
        context: &Context,
        result: Result<(), VmError>,
        post: VmView,
    ) -> bool {
        if pre.frame() < 2 {
            fails_after(
                result,
                stack_empty(),
                post,
                pre,
                pre.frame() as int,
            )
        } else {
            let done = |outcome: bool| result is Ok && post == pre.replaced(2, Value::Bool(outcome));
            match (pre.peek(1), pre.peek(0)) {
                (Value::TypedTuple(shared), Value::Type(key)) => if heap.typed_tuples.readable(
                    shared,
                ) {
                    done(heap.typed_tuples.value(shared).ty == key)
                } else {
                    fails_after(
                        result,
                        access_error(AccessError::NotAccessibleRef),
                        post,
                        pre,
                        2,
                    )
                },
                (Value::TypedObject(shared), Value::Type(key)) => if heap.typed_objects.readable(
                    shared,
                ) {
                    done(heap.typed_objects.value(shared).ty == key)
                } else {
                    fails_after(
                        result,
                        access_error(AccessError::NotAccessibleRef),
                        post,
                        pre,
                        2,
                    )
                },
                (Value::Option(shared), Value::Type(key)) => match context.spec_option_types() {
                    None => fails_after(
                        result,
                        VmError::MissingType { hash: key },
                        post,
                        pre,
                        2,
                    ),
                    Some(types) => if heap.options.readable(shared) {
                        done(
                            key == if heap.options.value(shared) is Some {
                                types.some_type
                            } else {
                                types.none_type
                            },
                        )
                    } else {
                        fails_after(
                            result,
                            access_error(AccessError::NotAccessibleRef),
                            post,
                            pre,
                            2,
                        )
                    },
                },
                (Value::Result(shared), Value::Type(key)) => match context.spec_result_types() {
                    None => fails_after(
                        result,
                        VmError::MissingType { hash: key },
                        post,
                        pre,
                        2,
                    ),
                    Some(types) => if heap.results.readable(shared) {
                        done(
                            key == if heap.results.value(shared) is Ok {
                                types.ok_type
                            } else {
                                types.err_type
                            },
                        )
                    } else {
                        fails_after(
                            result,
                            access_error(AccessError::NotAccessibleRef),
                            post,
                            pre,
                            2,
                        )
                    },
                },
                (value, Value::Type(key)) => match value.spec_value_type(heap) {
                    Err(error) => fails_after(
                        result,
                        access_error(error),
                        post,
                        pre,
                        2,
                    ),
                    Ok(value_type) => match is_of_type(unit, context, value_type, key) {
                        Some(outcome) => done(outcome),
                        None => fails_after(
                            result,
                            VmError::MissingType { hash: key },
                            post,
                            pre,
                            2,
                        ),
                    },
                },
                (value, test) => fails_after(
                    result,
                    VmError::UnsupportedIs {
                        value_type: value.spec_type_info(),
                        test_type: test.spec_type_info(),
                    },
                    post,
                    pre,
                    2,
                ),
            }
        }
    }

    /// The `is` instruction.
    pub fn op_is(&mut self, heap: &Heap, unit: &CompilationUnit, context: &Context) -> (result: Result<
        (),
        VmError,
    >)
        ensures
            Vm::is_post(old(self)@, heap, unit, context, result, final(self)@),
    {
        let (a, b) = self.pop_two()?;
        let outcome = match (a, b) {
            (Value::TypedTuple(shared), Value::Type(key)) => match heap.typed_tuples.get_ref(
                shared,
            ) {
                Ok(typed_tuple) => typed_tuple.ty == key,
                Err(error) => {
                    return Err(VmError::AccessError { error });
                },
            },
            (Value::TypedObject(shared), Value::Type(key)) => match heap.typed_objects.get_ref(
                shared,
            ) {
                Ok(typed_object) => typed_object.ty == key,
                Err(error) => {
                    return Err(VmError::AccessError { error });
                },
            },
            (Value::Option(shared), Value::Type(key)) => {
                let types = match context.option_types() {
                    Some(types) => types,
                    None => {
                        return Err(VmError::MissingType { hash: key });
                    },
                };
                match heap.options.get_ref(shared) {
                    Ok(option) => match option {
                        Some(_) => key == types.some_type,
                        None => key == types.none_type,
                    },
                    Err(error) => {
                        return Err(VmError::AccessError { error });
                    },
                }
            },
            (Value::Result(shared), Value::Type(key)) => {
                let types = match context.result_types() {
                    Some(types) => types,
                    None => {
                        return Err(VmError::MissingType { hash: key });
                    },
                };
                match heap.results.get_ref(shared) {
                    Ok(result) => match result {
                        Ok(_) => key == types.ok_type,
                        Err(_) => key == types.err_type,
                    },
                    Err(error) => {
                        return Err(VmError::AccessError { error });
                    },
                }
            },
            (a, Value::Type(key)) => {
                let a = match a.value_type(heap) {
                    Ok(a) => a,
                    Err(error) => {
                        return Err(VmError::AccessError { error });
                    },
                };
                let value_type = match unit.lookup_type(key) {
                    Some(ty) => ty.value_type,
                    None => match context.lookup_type(key) {
                        Some(ty) => ty.value_type,
                        None => {
                            return Err(VmError::MissingType { hash: key });
                        },
                    },
                };
                a == value_type
            },
            (a, b) => {
                return Err(
                    VmError::UnsupportedIs { value_type: a.type_info(), test_type: b.type_info() },
                );
            },
        };
        self.push(Value::Bool(outcome));
        Ok(())
    }

    /// Pop `count` values. They come in the order in which they were popped:
    /// the one that was on top first.
    fn pop_many(&mut self, count: usize) -> (result: Result<Vec<Value>, VmError>)
        ensures
            match result {
                Ok(values) => {
                    &&& old(self)@.frame() >= count
                    &&& values@ == old(self)@.stack.skip(old(self)@.stack.len() - count).reverse()
                    &&& final(self)@ == old(self)@.with_stack(old(self)@.below(count as int))
                },
                Err(error) => {
                    &&& old(self)@.frame() < count
                    &&& error == stack_empty()
                    &&& final(self)@ == old(self)@.popped(old(self)@.frame() as int)
                },
            },
    {
        let mut values: Vec<Value> = Vec::new();
        let mut i: usize = 0;
        assert(old(self)@.below(0) == old(self)@.stack);
        assert(values@ =~= old(self)@.stack.skip(old(self)@.stack.len() - 0).reverse());
        while i < count
            invariant
                i <= count,
                old(self)@.frame() >= i,
                self@ == old(self)@.with_stack(old(self)@.below(i as int)),
                values@ == old(self)@.stack.skip(old(self)@.stack.len() - i).reverse(),
            decreases count - i,
        {
            proof {
                assert(old(self)@.below(0) == old(self)@.stack);
            }
            let value = self.pop()?;
            values.push(value);
            proof {
                let pre = old(self)@;
                assert(pre.below(i as int).take(pre.below(i as int).len() - 1) == pre.below(i + 1));
                assert(values@ =~= pre.stack.skip(pre.stack.len() - (i + 1)).reverse());
            }
            i = i + 1;
        }
        Ok(values)
    }

    /// What [`Vm::op_vec`] does: the top `count` values become a new vector,
    /// the deepest of them at index 0.
    pub open spec fn vec_post(
        pre: VmView,
        pre_heap: &Heap,
        count: usize,
        result: Result<(), VmError>,
        post: VmView,
        post_heap: &Heap,
    ) -> bool {
        if pre.frame() < count {
            fails_after(
                result,
                stack_empty(),
                post,
                pre,
                pre.frame() as int,
            ) && post_heap@ == pre_heap@
        } else {
            &&& result is Ok
            &&& post == pre.replaced(
                count as int,
                Value::Vec(Shared { index: pre_heap.vecs@.len() as usize }),
            )
            &&& post_heap@ == (HeapView { vecs: post_heap@.vecs, ..pre_heap@ })
            &&& cell_added(pre_heap.vecs@, post_heap.vecs@)
            &&& post_heap.vecs@.last().value->0@ == pre.stack.skip(pre.stack.len() - count)
        }
    }

    /// Construct a new vec.
    pub fn op_vec(&mut self, heap: &mut Heap, count: usize) -> (result: Result<(), VmError>)
        ensures
            Vm::vec_post(old(self)@, old(heap), count, result, final(self)@, final(heap)),
    {
        let popped = self.pop_many(count)?;
        let vec = reversed(&popped);
        proof {
            let tail = old(self)@.stack.skip(old(self)@.stack.len() - count);
            assert(tail.reverse().reverse() =~= tail);
        }
        let shared = heap.vecs.insert(vec);
        self.push(Value::Vec(shared));
        Ok(())
    }

    /// What [`Vm::op_tuple`] does: the top `count` values become a new
    /// tuple, the deepest of them at index 0.
    pub open spec fn tuple_post(
        pre: VmView,
        pre_heap: &Heap,
        count: usize,
        result: Result<(), VmError>,
        post: VmView,
        post_heap: &Heap,
    ) -> bool {
        if pre.frame() < count {
            fails_after(
                result,
                stack_empty(),
                post,
                pre,
                pre.frame() as int,
            ) && post_heap@ == pre_heap@
        } else {
            &&& result is Ok
            &&& post == pre.replaced(
                count as int,
                Value::Tuple(Shared { index: pre_heap.tuples@.len() as usize }),
            )
            &&& post_heap@ == (HeapView { tuples: post_heap@.tuples, ..pre_heap@ })
            &&& cell_added(pre_heap.tuples@, post_heap.tuples@)
            &&& post_heap.tuples@.last().value->0@ == pre.stack.skip(pre.stack.len() - count)
        }
    }

    /// Construct a new tuple.
    pub fn op_tuple(&mut self, heap: &mut Heap, count: usize) -> (result: Result<(), VmError>)
        ensures
            Vm::tuple_post(old(self)@, old(heap), count, result, final(self)@, final(heap)),
    {
        let popped = self.pop_many(count)?;
        let tuple = reversed(&popped);
        proof {
            let tail = old(self)@.stack.skip(old(self)@.stack.len() - count);
            assert(tail.reverse().reverse() =~= tail);
        }
        let shared = heap.tuples.insert(tuple);
        self.push(Value::Tuple(shared));
        Ok(())
    }

    /// What [`Vm::allocate_typed_tuple`] does: the top `args` values become
    /// a new typed tuple, the one on top at index 0.
    pub open spec fn allocate_typed_tuple_post(
        pre: VmView,
        pre_heap: &Heap,
        ty: hash::Hash,
        args: usize,
        result: Result<Value, VmError>,
        post: VmView,
        post_heap: &Heap,
    ) -> bool {
        if pre.frame() < args {
            fails_after(
                result,
                stack_empty(),
                post,
                pre,
                pre.frame() as int,
            ) && post_heap@ == pre_heap@
        } else {
            &&& result == Ok::<Value, VmError>(
                Value::TypedTuple(Shared { index: pre_heap.typed_tuples@.len() as usize }),
            )
            &&& post == pre.with_stack(pre.below(args as int))
            &&& post_heap@ == (HeapView { typed_tuples: post_heap@.typed_tuples, ..pre_heap@ })
            &&& cell_added(pre_heap.typed_tuples@, post_heap.typed_tuples@)
            &&& post_heap.typed_tuples@.last().value->0.ty == ty
            &&& post_heap.typed_tuples@.last().value->0.tuple@ == pre.stack.skip(
                pre.stack.len() - args,
            ).reverse()
        }
    }

    /// Construct a typed tuple.
    pub fn allocate_typed_tuple(&mut self, heap: &mut Heap, ty: hash::Hash, args: usize) -> (result:
        Result<Value, VmError>)
        ensures
            Vm::allocate_typed_tuple_post(
                old(self)@,
                old(heap),
                ty,
                args,
                result,
                final(self)@,
                final(heap),
            ),
    {
        let tuple = self.pop_many(args)?;
        let shared = heap.typed_tuples.insert(TypedTuple { ty, tuple });
        Ok(Value::TypedTuple(shared))
    }

    /// Pop one value for each key and build an object of them.
    fn build_object(&mut self, keys: &Vec<String>) -> (result: Result<Object, VmError>)
        ensures
            match result {
                Ok(object) => {
                    &&& old(self)@.frame() >= keys@.len()
                    &&& object@ == built_entries(texts(keys@), old(self)@.stack, keys@.len())
                    &&& final(self)@ == old(self)@.with_stack(old(self)@.below(keys@.len() as int))
                },
                Err(error) => {
                    &&& old(self)@.frame() < keys@.len()
                    &&& error == stack_empty()
                    &&& final(self)@ == old(self)@.popped(old(self)@.frame() as int)
                },
            },
    {
        let mut object = Object::with_capacity(keys.len());
        let mut i: usize = 0;
        assert(old(self)@.below(0) == old(self)@.stack);
        while i < keys.len()
            invariant
                i <= keys@.len(),
                old(self)@.frame() >= i,
                self@ == old(self)@.with_stack(old(self)@.below(i as int)),
                object@ == built_entries(texts(keys@), old(self)@.stack, i as nat),
            decreases keys@.len() - i,
        {
            proof {
                assert(old(self)@.below(0) == old(self)@.stack);
            }
            let value = self.pop()?;
            object.insert(keys[i].clone(), value);
            proof {
                let pre = old(self)@;
                assert(pre.below(i as int).take(pre.below(i as int).len() - 1) == pre.below(i + 1));
                assert(texts(keys@)[i as int] == keys@[i as int]@);
            }
            i = i + 1;
        }
        Ok(object)
    }

    /// What [`Vm::op_object`] does: one value is popped for each static key
    /// at `slot`, the first key getting the value on top, and the new object
    /// is pushed.
    pub open spec fn object_post(
        pre: VmView,
        pre_heap: &Heap,
        unit: &CompilationUnit,
        slot: usize,
        result: Result<(), VmError>,
        post: VmView,
        post_heap: &Heap,
    ) -> bool {
        if slot >= unit.object_keys().len() {
            fails_after(
                result,
                VmError::MissingStaticObjectKeys { slot },
                post,
                pre,
                0,
            ) && post_heap@ == pre_heap@
        } else {
            let keys = unit.object_keys()[slot as int];
            if pre.frame() < keys.len() {
                fails_after(
                    result,
                    stack_empty(),
                    post,
                    pre,
                    pre.frame() as int,
                ) && post_heap@ == pre_heap@
            } else {
                &&& result is Ok
                &&& post == pre.replaced(
                    keys.len() as int,
                    Value::Object(Shared { index: pre_heap.objects@.len() as usize }),
                )
                &&& post_heap@ == (HeapView { objects: post_heap@.objects, ..pre_heap@ })
                &&& cell_added(pre_heap.objects@, post_heap.objects@)
                &&& post_heap.objects@.last().value->0@ == built_entries(keys, pre.stack, keys.len())
            }
        }
    }

    /// Operation to allocate an object.
    pub fn op_object(&mut self, heap: &mut Heap, unit: &CompilationUnit, slot: usize) -> (result: Result<
        (),
        VmError,
    >)
        ensures
            Vm::object_post(old(self)@, old(heap), unit, slot, result, final(self)@, final(heap)),
    {
        let keys = match unit.lookup_object_keys(slot) {
            Some(keys) => keys,
            None => {
                return Err(VmError::MissingStaticObjectKeys { slot });
            },
        };
        let object = self.build_object(keys)?;
        let shared = heap.objects.insert(object);
        self.push(Value::Object(shared));
        Ok(())
    }

    /// What [`Vm::op_typed_object`] does: as [`Vm::op_object`], and the new
    /// object carries the type `ty`.
    pub open spec fn typed_object_post(
        pre: VmView,
        pre_heap: &Heap,
        unit: &CompilationUnit,
        ty: hash::Hash,
        slot: usize,
        result: Result<(), VmError>,
        post: VmView,
        post_heap: &Heap,
    ) -> bool {
        if slot >= unit.object_keys().len() {
            fails_after(
                result,
                VmError::MissingStaticObjectKeys { slot },
                post,
                pre,
                0,
            ) && post_heap@ == pre_heap@
        } else {
            let keys = unit.object_keys()[slot as int];
            if pre.frame() < keys.len() {
                fails_after(
                    result,
                    stack_empty(),
                    post,
                    pre,
                    pre.frame() as int,
                ) && post_heap@ == pre_heap@
            } else {
                &&& result is Ok
                &&& post == pre.replaced(
                    keys.len() as int,
                    Value::TypedObject(Shared { index: pre_heap.typed_objects@.len() as usize }),
                )
                &&& post_heap@ == (HeapView {
                    typed_objects: post_heap@.typed_objects,
                    ..pre_heap@
                })
                &&& cell_added(pre_heap.typed_objects@, post_heap.typed_objects@)
                &&& post_heap.typed_objects@.last().value->0.ty == ty
                &&& post_heap.typed_objects@.last().value->0.object@ == built_entries(
                    keys,
                    pre.stack,
                    keys.len(),
                )
            }
        }
    }

    /// Operation to allocate a typed object.
    pub fn op_typed_object(
        &mut self,
        heap: &mut Heap,
        unit: &CompilationUnit,
        ty: hash::Hash,
        slot: usize,
    ) -> (result: Result<(), VmError>)
        ensures
            Vm::typed_object_post(
                old(self)@,
                old(heap),
                unit,
                ty,
                slot,
                result,
                final(self)@,
                final(heap),
            ),
    {
        let keys = match unit.lookup_object_keys(slot) {
            Some(keys) => keys,
            None => {
                return Err(VmError::MissingStaticObjectKeys { slot });
            },
        };
        let object = self.build_object(keys)?;
        let shared = heap.typed_objects.insert(TypedObject { ty, object });
        self.push(Value::TypedObject(shared));
        Ok(())
    }

    /// What [`Vm::op_string`] does.
    pub open spec fn string_post(
        pre: VmView,
        unit: &CompilationUnit,
        slot: usize,
        result: Result<(), VmError>,
        post: VmView,
    ) -> bool {
        if slot < unit.strings().len() {
            result is Ok && post == pre.with_stack(
                pre.stack.push(Value::StaticString(StaticString { slot })),
            )
        } else {
            fails_after(
                result,
                VmError::MissingStaticString { slot },
                post,
                pre,
                0,
            )
        }
    }

    /// Push the static string at `slot`.
    pub fn op_string(&mut self, unit: &CompilationUnit, slot: usize) -> (result: Result<(), VmError>)
        ensures
            Vm::string_post(old(self)@, unit, slot, result, final(self)@),
    {
        let _ = unit.lookup_string(slot)?;
        self.push(Value::StaticString(StaticString { slot }));
        Ok(())
    }

    /// What [`Vm::op_bytes`] does.
    pub open spec fn bytes_post(
        pre: VmView,
        pre_heap: &Heap,
        unit: &CompilationUnit,
        slot: usize,
        result: Result<(), VmError>,
        post: VmView,
        post_heap: &Heap,
    ) -> bool {
        if slot < unit.bytes().len() {
            &&& result is Ok
            &&& post == pre.with_stack(
                pre.stack.push(Value::Bytes(Shared { index: pre_heap.bytes@.len() as usize })),
            )
            &&& post_heap@ == (HeapView { bytes: post_heap@.bytes, ..pre_heap@ })
            &&& cell_added(pre_heap.bytes@, post_heap.bytes@)
            &&& post_heap.bytes@.last().value->0@ == unit.bytes()[slot as int]
        } else {
            fails_after(
                result,
                VmError::MissingStaticBytes { slot },
                post,
                pre,
                0,
            ) && post_heap@ == pre_heap@
        }
    }

    /// Push a copy of the static bytes at `slot`.
    pub fn op_bytes(&mut self, heap: &mut Heap, unit: &CompilationUnit, slot: usize) -> (result: Result<
        (),
        VmError,
    >)
        ensures
            Vm::bytes_post(old(self)@, old(heap), unit, slot, result, final(self)@, final(heap)),
    {
        let bytes = unit.lookup_bytes(slot)?;
        let mut copy: Vec<u8> = Vec::with_capacity(bytes.len());
        let mut i: usize = 0;
        while i < bytes.len()
            invariant
                i <= bytes@.len(),
                copy@ == bytes@.take(i as int),
            decreases bytes@.len() - i,
        {
            copy.push(bytes[i]);
            assert(bytes@.take(i + 1) == bytes@.take(i as int).push(bytes@[i as int]));
            i = i + 1;
        }
        assert(bytes@.take(i as int) == bytes@);
        let shared = heap.bytes.insert(copy);
        self.push(Value::Bytes(shared));
        Ok(())
    }

    /// What [`Vm::op_result_unwrap`] does.
    pub open spec fn result_unwrap_post(pre: VmView, heap: &Heap, result: Result<(), VmError>, post: VmView) -> bool {
        if pre.frame() == 0 {
            fails_after(
                result,
                stack_empty(),
                post,
                pre,
                0,
            )
        } else {
            match pre.peek(0) {
                Value::Result(shared) => if !heap.results.readable(shared) {
                    fails_after(
                        result,
                        access_error(AccessError::NotAccessibleRef),
                        post,
                        pre,
                        1,
                    )
                } else {
                    match heap.results.value(shared) {
                        Ok(value) => result is Ok && post == pre.replaced(1, value),
                        Err(error) => fails_after(
                            result,
                            VmError::ExpectedResultOk { error: error.spec_type_info() },
                            post,
                            pre,
                            1,
                        ),
                    }
                },
                other => fails_after(
                    result,
                    VmError::ValueError {
                        error: ValueError::ExpectedResult { actual: other.spec_type_info() },
                    },
                    post,
                    pre,
                    1,
                ),
            }
        }
    }

    /// Pop a result and push what it holds, unless it is an error.
    pub fn op_result_unwrap(&mut self, heap: &Heap) -> (result: Result<(), VmError>)
        ensures
            Vm::result_unwrap_post(old(self)@, heap, result, final(self)@),
    {
        let value = self.pop()?;
        let shared = match value.into_result() {
            Ok(shared) => shared,
            Err(error) => {
                return Err(VmError::ValueError { error });
            },
        };
        let value = match heap.results.get_ref(shared) {
            Ok(result) => match result {
                Ok(value) => *value,
                Err(error) => {
                    return Err(VmError::ExpectedResultOk { error: error.type_info() });
                },
            },
            Err(error) => {
                return Err(VmError::AccessError { error });
            },
        };
        self.push(value);
        Ok(())
    }

    /// What [`Vm::op_option_unwrap`] does.
    pub open spec fn option_unwrap_post(pre: VmView, heap: &Heap, result: Result<(), VmError>, post: VmView) -> bool {
        if pre.frame() == 0 {
            fails_after(
                result,
                stack_empty(),
                post,
                pre,
                0,
            )
        } else {
            match pre.peek(0) {
                Value::Option(shared) => if !heap.options.readable(shared) {
                    fails_after(
                        result,
                        access_error(AccessError::NotAccessibleRef),
                        post,
                        pre,
                        1,
                    )
                } else {
                    match heap.options.value(shared) {
                        Some(value) => result is Ok && post == pre.replaced(1, value),
                        None => fails_after(
                            result,
                            VmError::ExpectedOptionSome,
                            post,
                            pre,
                            1,
                        ),
                    }
                },
                other => fails_after(
                    result,
                    VmError::ValueError {
                        error: ValueError::ExpectedOption { actual: other.spec_type_info() },
                    },
                    post,
                    pre,
                    1,
                ),
            }
        }
    }

    /// Pop an optional value and push what it holds, unless it is empty.
    pub fn op_option_unwrap(&mut self, heap: &Heap) -> (result: Result<(), VmError>)
        ensures
            Vm::option_unwrap_post(old(self)@, heap, result, final(self)@),
    {
        let value = self.pop()?;
        let shared = match value.into_option() {
            Ok(shared) => shared,
            Err(error) => {
                return Err(VmError::ValueError { error });
            },
        };
        let value = match heap.options.get_ref(shared) {
            Ok(option) => match option {
                Some(value) => *value,
                None => {
                    return Err(VmError::ExpectedOptionSome);
                },
            },
            Err(error) => {
                return Err(VmError::AccessError { error });
            },
        };
        self.push(value);
        Ok(())
    }

    /// What [`Vm::op_is_err`] does.
    pub open spec fn is_err_post(pre: VmView, heap: &Heap, result: Result<(), VmError>, post: VmView) -> bool {
        if pre.frame() == 0 {
            fails_after(
                result,
                stack_empty(),
                post,
                pre,
                0,
            )
        } else {
            match pre.peek(0) {
                Value::Result(shared) => if !heap.results.readable(shared) {
                    fails_after(
                        result,
                        access_error(AccessError::NotAccessibleRef),
                        post,
                        pre,
                        1,
                    )
                } else {
                    result is Ok && post == pre.replaced(
                        1,
                        Value::Bool(heap.results.value(shared) is Err),
                    )
                },
                other => fails_after(
                    result,
                    VmError::ValueError {
                        error: ValueError::ExpectedResult { actual: other.spec_type_info() },
                    },
                    post,
                    pre,
                    1,
                ),
            }
        }
    }

    /// Test if the top of the stack is an error.
    pub fn op_is_err(&mut self, heap: &Heap) -> (result: Result<(), VmError>)
        ensures
            Vm::is_err_post(old(self)@, heap, result, final(self)@),
    {
        let value = self.pop()?;
        let shared = match value.into_result() {
            Ok(shared) => shared,
            Err(error) => {
                return Err(VmError::ValueError { error });
            },
        };
        let is_err = match heap.results.get_ref(shared) {
            Ok(result) => result.is_err(),
            Err(error) => {
                return Err(VmError::AccessError { error });
            },
        };
        self.push(Value::Bool(is_err));
        Ok(())
    }

    /// What [`Vm::op_is_none`] does.
    pub open spec fn is_none_post(pre: VmView, heap: &Heap, result: Result<(), VmError>, post: VmView) -> bool {
        if pre.frame() == 0 {
            fails_after(
                result,
                stack_empty(),
                post,
                pre,
                0,
            )
        } else {
            match pre.peek(0) {
                Value::Option(shared) => if !heap.options.readable(shared) {
                    fails_after(
                        result,
                        access_error(AccessError::NotAccessibleRef),
                        post,
                        pre,
                        1,
                    )
                } else {
                    result is Ok && post == pre.replaced(
                        1,
                        Value::Bool(heap.options.value(shared) is None),
                    )
                },
                other => fails_after(
                    result,
                    VmError::ValueError {
                        error: ValueError::ExpectedOption { actual: other.spec_type_info() },
                    },
                    post,
                    pre,
                    1,
                ),
            }
        }
    }

    /// Test if the top of the stack is none.
    pub fn op_is_none(&mut self, heap: &Heap) -> (result: Result<(), VmError>)
        ensures
            Vm::is_none_post(old(self)@, heap, result, final(self)@),
    {
        let value = self.pop()?;
        let shared = match value.into_option() {
            Ok(shared) => shared,
            Err(error) => {
                return Err(VmError::ValueError { error });
            },
        };
        let is_none = match heap.options.get_ref(shared) {
            Ok(option) => option.is_none(),
            Err(error) => {
                return Err(VmError::AccessError { error });
            },
        };
        self.push(Value::Bool(is_none));
        Ok(())
    }

    /// What [`Vm::op_eq_static_string`] does: a string, interned or not, is
    /// compared by its text with the static string at `slot`. Any other
    /// value differs from it.
    pub open spec fn eq_static_string_post(
        pre: VmView,
        heap: &Heap,
        unit: &CompilationUnit,
        slot: usize,
        result: Result<(), VmError>,
        post: VmView,
    ) -> bool {
        if pre.frame() == 0 {
            fails_after(
                result,
                stack_empty(),
                post,
                pre,
                0,
            )
        } else {
            match text_of(heap, unit, pre.peek(0)) {
                None => result is Ok && post == pre.replaced(1, Value::Bool(false)),
                Some(actual) => if slot >= unit.strings().len() {
                    fails_after(
                        result,
                        VmError::MissingStaticString { slot },
                        post,
                        pre,
                        1,
                    )
                } else {
                    match actual {
                        Err(error) => fails_after(
                            result,
                            error,
                            post,
                            pre,
                            1,
                        ),
                        Ok(actual) => result is Ok && post == pre.replaced(
                            1,
                            Value::Bool(actual == unit.strings()[slot as int]),
                        ),
                    }
                },
            }
        }
    }

    /// Test if the top of stack is equal to the string at the given static
    /// string location.
    pub fn op_eq_static_string(&mut self, heap: &Heap, unit: &CompilationUnit, slot: usize) -> (result:
        Result<(), VmError>)
        ensures
            Vm::eq_static_string_post(old(self)@, heap, unit, slot, result, final(self)@),
    {
        let value = self.pop()?;
        let equal = match value {
            Value::String(_) | Value::StaticString(_) => {
                let string = unit.lookup_string(slot)?;
                match text(heap, unit, value)? {
                    Some(actual) => actual == *string,
                    None => false,
                }
            },
            _ => false,
        };
        self.push(Value::Bool(equal));
        Ok(())
    }

    /// What [`Vm::op_load_instance_fn`] does.
    pub open spec fn load_instance_fn_post(
        pre: VmView,
        heap: &Heap,
        name: hash::Hash,
        result: Result<(), VmError>,
        post: VmView,
    ) -> bool {
        if pre.frame() == 0 {
            fails_after(
                result,
                stack_empty(),
                post,
                pre,
                0,
            )
        } else {
            match pre.peek(0).spec_value_type(heap) {
                Ok(ty) => result is Ok && post == pre.replaced(
                    1,
                    Value::Type(hash::Hash::spec_instance_function(ty.spec_type_hash(), name)),
                ),
                Err(error) => fails_after(
                    result,
                    access_error(error),
                    post,
                    pre,
                    1,
                ),
            }
        }
    }

    /// Pop a value and push the function that is its method `name`.
    pub fn op_load_instance_fn(&mut self, heap: &Heap, name: hash::Hash) -> (result: Result<(), VmError>)
        ensures
            Vm::load_instance_fn_post(old(self)@, heap, name, result, final(self)@),
    {
        let instance = self.pop()?;
        let ty = match instance.value_type(heap) {
            Ok(ty) => ty,
            Err(error) => {
                return Err(VmError::AccessError { error });
            },
        };
        self.push(Value::Type(hash::Hash::instance_function(ty.type_hash(), name)));
        Ok(())
    }

    /// What the arithmetic instructions do. The right operand is on top of
    /// the stack and the left one below it. Two integers are computed on
    /// the spot. Two double-precision numbers are for the driver to compute.
    /// Anything else is for the native function that stands in for the
    /// operator on the left operand, which finds the right operand and then
    /// the left one on the stack.
    pub open spec fn numeric_post(
        pre: VmView,
        heap: &Heap,
        context: &Context,
        op: NumericOp,
        result: Result<Option<Request>, VmError>,
        post: VmView,
    ) -> bool {
        if pre.frame() < 2 {
            fails_after(
                result,
                stack_empty(),
                post,
                pre,
                pre.frame() as int,
            )
        } else {
            match (pre.peek(1), pre.peek(0)) {
                (Value::Integer(a), Value::Integer(b)) => match integer_result(op, a, b) {
                    Some(value) => {
                        &&& result == Ok::<Option<Request>, VmError>(None)
                        &&& post == pre.replaced(2, Value::Integer(value))
                    },
                    None => fails_after(
                        result,
                        op.spec_error(),
                        post,
                        pre,
                        2,
                    ),
                },
                (Value::Float(a), Value::Float(b)) => {
                    &&& result == Ok::<Option<Request>, VmError>(
                        Some(Request::Float { op, lhs: a, rhs: b }),
                    )
                    &&& post == pre.with_stack(pre.below(2))
                },
                (lhs, rhs) => match spec_instance_handler(heap, context, lhs, op.spec_protocol()) {
                    Err(error) => fails_after(
                        result,
                        error,
                        post,
                        pre,
                        2,
                    ),
                    Ok(None) => fails_after(
                        result,
                        VmError::UnsupportedBinaryOperation {
                            op: op.spec_binary(),
                            lhs: lhs.spec_type_info(),
                            rhs: rhs.spec_type_info(),
                        },
                        post,
                        pre,
                        2,
                    ),
                    Ok(Some(handler)) => {
                        &&& result == Ok::<Option<Request>, VmError>(
                            Some(Request::Call { handler, args: 1 }),
                        )
                        &&& post == pre.with_stack(pre.below(2).push(rhs).push(lhs))
                    },
                },
            }
        }
    }

    /// Pop two operands and compute on them.
    fn numeric(&mut self, heap: &Heap, context: &Context, op: NumericOp) -> (result: Result<
        Option<Request>,
        VmError,
    >)
        ensures
            Vm::numeric_post(old(self)@, heap, context, op, result, final(self)@),
    {
        let (lhs, rhs) = self.pop_two()?;
        match (lhs, rhs) {
            (Value::Integer(a), Value::Integer(b)) => match integer_op(op, a, b) {
                Some(value) => {
                    self.push(Value::Integer(value));
                    Ok(None)
                },
                None => Err(op.error()),
            },
            (Value::Float(a), Value::Float(b)) => Ok(Some(Request::Float { op, lhs: a, rhs: b })),
            (lhs, rhs) => {
                let handler = match instance_handler(heap, context, lhs, op.protocol())? {
                    Some(handler) => handler,
                    None => {
                        return Err(
                            VmError::UnsupportedBinaryOperation {
                                op: op.binary(),
                                lhs: lhs.type_info(),
                                rhs: rhs.type_info(),
                            },
                        );
                    },
                };
                self.push(rhs);
                self.push(lhs);
                Ok(Some(Request::Call { handler, args: 1 }))
            },
        }
    }

    /// The `+` instruction.
    pub fn op_add(&mut self, heap: &Heap, context: &Context) -> (result: Result<Option<Request>, VmError>)
        ensures
            Vm::numeric_post(old(self)@, heap, context, NumericOp::Add, result, final(self)@),
    {
        self.numeric(heap, context, NumericOp::Add)
    }

    /// The `-` instruction.
    pub fn op_sub(&mut self, heap: &Heap, context: &Context) -> (result: Result<Option<Request>, VmError>)
        ensures
            Vm::numeric_post(old(self)@, heap, context, NumericOp::Sub, result, final(self)@),
    {
        self.numeric(heap, context, NumericOp::Sub)
    }

    /// The `*` instruction.
    pub fn op_mul(&mut self, heap: &Heap, context: &Context) -> (result: Result<Option<Request>, VmError>)
        ensures
            Vm::numeric_post(old(self)@, heap, context, NumericOp::Mul, result, final(self)@),
    {
        self.numeric(heap, context, NumericOp::Mul)
    }

    /// The `/` instruction.
    pub fn op_div(&mut self, heap: &Heap, context: &Context) -> (result: Result<Option<Request>, VmError>)
        ensures
            Vm::numeric_post(old(self)@, heap, context, NumericOp::Div, result, final(self)@),
    {
        self.numeric(heap, context, NumericOp::Div)
    }

    /// What [`Vm::finish_float`] does: a result that is finite is pushed,
    /// any other is the operation's error.
    pub open spec fn finish_float_post(
        pre: VmView,
        op: NumericOp,
        value: Float,
        result: Result<(), VmError>,
        post: VmView,
    ) -> bool {
        if value.spec_is_finite() {
            result is Ok && post == pre.with_stack(pre.stack.push(Value::Float(value)))
        } else {
            fails(result, op.spec_error()) && post == pre
        }
    }

    /// Take the result that the driver computed for a [`Request::Float`].
    pub fn finish_float(&mut self, op: NumericOp, value: Float) -> (result: Result<(), VmError>)
        ensures
            Vm::finish_float_post(old(self)@, op, value, result, final(self)@),
    {
        if !value.is_finite() {
            return Err(op.error());
        }
        self.push(Value::Float(value));
        Ok(())
    }

    /// What the instructions that compute and assign do. The operand is on
    /// top of the stack; the slot is counted from the value below it.
    pub open spec fn assign_post(
        pre: VmView,
        heap: &Heap,
        context: &Context,
        op: NumericOp,
        offset: usize,
        result: Result<Option<Request>, VmError>,
        post: VmView,
    ) -> bool {
        if pre.frame() == 0 {
            fails_after(
                result,
                stack_empty(),
                post,
                pre,
                0,
            )
        } else if offset >= pre.frame() - 1 {
            fails_after(
                result,
                stack_out_of_bounds(),
                post,
                pre,
                1,
            )
        } else {
            let slot = pre.stack.len() - 2 - offset;
            match (pre.stack[slot], pre.peek(0)) {
                (Value::Integer(a), Value::Integer(b)) => match integer_result(op, a, b) {
                    Some(value) => {
                        &&& result == Ok::<Option<Request>, VmError>(None)
                        &&& post == pre.with_stack(pre.below(1).update(slot, Value::Integer(value)))
                    },
                    None => fails_after(
                        result,
                        op.spec_error(),
                        post,
                        pre,
                        1,
                    ),
                },
                (Value::Float(a), Value::Float(b)) => {
                    &&& result == Ok::<Option<Request>, VmError>(
                        Some(Request::FloatAssign { op, lhs: a, rhs: b, offset }),
                    )
                    &&& post == pre.with_stack(pre.below(1))
                },
                (lhs, rhs) => match spec_instance_handler(
                    heap,
                    context,
                    lhs,
                    op.spec_assign_protocol(),
                ) {
                    Err(error) => fails_after(
                        result,
                        error,
                        post,
                        pre,
                        1,
                    ),
                    Ok(None) => fails_after(
                        result,
                        VmError::UnsupportedBinaryOperation {
                            op: op.spec_binary(),
                            lhs: lhs.spec_type_info(),
                            rhs: rhs.spec_type_info(),
                        },
                        post,
                        pre,
                        1,
                    ),
                    Ok(Some(handler)) => {
                        &&& result == Ok::<Option<Request>, VmError>(
                            Some(Request::CallAssign { handler, args: 1, offset, value: lhs }),
                        )
                        &&& post == pre.with_stack(pre.below(1).push(rhs).push(lhs))
                    },
                },
            }
        }
    }

    /// Pop an operand and compute on the slot at `offset` and it.
    pub fn op_assign(&mut self, heap: &Heap, context: &Context, op: NumericOp, offset: usize) -> (result:
        Result<Option<Request>, VmError>)
        ensures
            Vm::assign_post(old(self)@, heap, context, op, offset, result, final(self)@),
    {
        let rhs = self.pop()?;
        let lhs = match self.stack.at_offset(offset) {
            Ok(lhs) => lhs,
            Err(error) => {
                return Err(VmError::StackError { error });
            },
        };
        match (lhs, rhs) {
            (Value::Integer(a), Value::Integer(b)) => match integer_op(op, a, b) {
                Some(value) => match self.stack.at_offset_mut(offset) {
                    Ok(slot) => {
                        *slot = Value::Integer(value);
                        Ok(None)
                    },
                    Err(error) => Err(VmError::StackError { error }),
                },
                None => Err(op.error()),
            },
            (Value::Float(a), Value::Float(b)) => Ok(
                Some(Request::FloatAssign { op, lhs: a, rhs: b, offset }),
            ),
            (lhs, rhs) => {
                let handler = match instance_handler(heap, context, lhs, op.assign_protocol())? {
                    Some(handler) => handler,
                    None => {
                        return Err(
                            VmError::UnsupportedBinaryOperation {
                                op: op.binary(),
                                lhs: lhs.type_info(),
                                rhs: rhs.type_info(),
                            },
                        );
                    },
                };
                self.push(rhs);
                self.push(lhs);
                Ok(Some(Request::CallAssign { handler, args: 1, offset, value: lhs }))
            },
        }
    }

    /// What [`Vm::finish_float_assign`] does: a result that is finite goes
    /// to the slot at `offset`, any other is the operation's error.
    pub open spec fn finish_float_assign_post(
        pre: VmView,
        op: NumericOp,
        value: Float,
        offset: usize,
        result: Result<(), VmError>,
        post: VmView,
    ) -> bool {
        if !value.spec_is_finite() {
            fails(result, op.spec_error()) && post == pre
        } else if offset >= pre.frame() {
            fails(result, stack_out_of_bounds()) && post == pre
        } else {
            result is Ok && post == pre.with_stack(
                pre.stack.update(pre.stack.len() - 1 - offset, Value::Float(value)),
            )
        }
    }

    /// Take the result that the driver computed for a
    /// [`Request::FloatAssign`].
    pub fn finish_float_assign(&mut self, op: NumericOp, value: Float, offset: usize) -> (result: Result<
        (),
        VmError,
    >)
        ensures
            Vm::finish_float_assign_post(old(self)@, op, value, offset, result, final(self)@),
    {
        if !value.is_finite() {
            return Err(op.error());
        }
        match self.stack.at_offset_mut(offset) {
            Ok(slot) => {
                *slot = Value::Float(value);
                Ok(())
            },
            Err(error) => Err(VmError::StackError { error }),
        }
    }

    /// What [`Vm::finish_assign`] does: what the native function left on
    /// top of the stack is dropped, and `value` goes to the slot at
    /// `offset`.
    pub open spec fn finish_assign_post(
        pre: VmView,
        offset: usize,
        value: Value,
        result: Result<(), VmError>,
        post: VmView,
    ) -> bool {
        if pre.frame() == 0 {
            fails_after(
                result,
                stack_empty(),
                post,
                pre,
                0,
            )
        } else if offset >= pre.frame() - 1 {
            fails_after(
                result,
                stack_out_of_bounds(),
                post,
                pre,
                1,
            )
        } else {
            result is Ok && post == pre.with_stack(
                pre.below(1).update(pre.stack.len() - 2 - offset, value),
            )
        }
    }

    /// Go on after the native function of a [`Request::CallAssign`] has
    /// returned without an error.
    pub fn finish_assign(&mut self, offset: usize, value: Value) -> (result: Result<(), VmError>)
        ensures
            Vm::finish_assign_post(old(self)@, offset, value, result, final(self)@),
    {
        let _ = self.pop()?;
        match self.stack.at_offset_mut(offset) {
            Ok(slot) => {
                *slot = value;
                Ok(())
            },
            Err(error) => Err(VmError::StackError { error }),
        }
    }

    /// The answer to whether the value on top of the stack is an object
    /// with the static keys at `slot`; `None` where it is no object at all.
    /// A typed object counts as an object with `object_like`.
    pub open spec fn object_keys_answer(
        pre: VmView,
        heap: &Heap,
        unit: &CompilationUnit,
        object_like: bool,
        slot: usize,
        exact: bool,
    ) -> Result<Option<bool>, VmError> {
        if pre.frame() == 0 {
            Err(stack_empty())
        } else if slot >= unit.object_keys().len() {
            Err(VmError::MissingStaticObjectKeys { slot })
        } else {
            let keys = unit.object_keys()[slot as int];
            match pre.peek(0) {
                Value::Object(shared) => if heap.objects.readable(shared) {
                    Ok(Some(object_matches(heap.objects.value(shared)@, keys, exact)))
                } else {
                    Err(access_error(AccessError::NotAccessibleRef))
                },
                Value::TypedObject(shared) => if !object_like {
                    Ok(None)
                } else if heap.typed_objects.readable(shared) {
                    Ok(Some(object_matches(heap.typed_objects.value(shared).object@, keys, exact)))
                } else {
                    Err(access_error(AccessError::NotAccessibleRef))
                },
                _ => Ok(None),
            }
        }
    }

    /// What [`Vm::on_object_keys`] does: the value is popped and the answer
    /// is given.
    pub open spec fn on_object_keys_post(
        pre: VmView,
        heap: &Heap,
        unit: &CompilationUnit,
        object_like: bool,
        slot: usize,
        exact: bool,
        result: Result<Option<bool>, VmError>,
        post: VmView,
    ) -> bool {
        &&& result == Vm::object_keys_answer(pre, heap, unit, object_like, slot, exact)
        &&& post == pre.popped(
            if pre.frame() == 0 {
                0
            } else {
                1
            },
        )
    }

    /// Pop a value and, if it is an object, tell whether it has the static
    /// keys at `slot`.
    pub fn on_object_keys(
        &mut self,
        heap: &Heap,
        unit: &CompilationUnit,
        object_like: bool,
        slot: usize,
        exact: bool,
    ) -> (result: Result<Option<bool>, VmError>)
        ensures
            Vm::on_object_keys_post(
                old(self)@,
                heap,
                unit,
                object_like,
                slot,
                exact,
                result,
                final(self)@,
            ),
    {
        let value = self.pop()?;
        let keys = match unit.lookup_object_keys(slot) {
            Some(keys) => keys,
            None => {
                return Err(VmError::MissingStaticObjectKeys { slot });
            },
        };
        match value {
            Value::Object(shared) => match heap.objects.get_ref(shared) {
                Ok(object) => Ok(Some(has_keys(object, keys, exact))),
                Err(error) => Err(VmError::AccessError { error }),
            },
            Value::TypedObject(shared) => if object_like {
                match heap.typed_objects.get_ref(shared) {
                    Ok(typed_object) => Ok(Some(has_keys(&typed_object.object, keys, exact))),
                    Err(error) => Err(VmError::AccessError { error }),
                }
            } else {
                Ok(None)
            },
            _ => Ok(None),
        }
    }

    /// What [`Vm::op_match_object`] does: the answer of
    /// [`Vm::object_keys_answer`] is pushed in place of the value, `false`
    /// where the value is no object at all.
    pub open spec fn match_object_post(
        pre: VmView,
        heap: &Heap,
        unit: &CompilationUnit,
        object_like: bool,
        slot: usize,
        exact: bool,
        result: Result<(), VmError>,
        post: VmView,
    ) -> bool {
        match Vm::object_keys_answer(pre, heap, unit, object_like, slot, exact) {
            Ok(Some(outcome)) => result is Ok && post == pre.replaced(1, Value::Bool(outcome)),
            Ok(None) => result is Ok && post == pre.replaced(1, Value::Bool(false)),
            Err(error) => fails_after(
                result,
                error,
                post,
                pre,
                if pre.frame() == 0 { 0 } else { 1 },
            ),
        }
    }

    /// Pop a value and push whether it is an object with the static keys at
    /// `slot`.
    pub fn op_match_object(
        &mut self,
        heap: &Heap,
        unit: &CompilationUnit,
        object_like: bool,
        slot: usize,
        exact: bool,
    ) -> (result: Result<(), VmError>)
        ensures
            Vm::match_object_post(
                old(self)@,
                heap,
                unit,
                object_like,
                slot,
                exact,
                result,
                final(self)@,
            ),
    {
        let outcome = match self.on_object_keys(heap, unit, object_like, slot, exact)? {
            Some(outcome) => outcome,
            None => false,
        };
        self.push(Value::Bool(outcome));
        Ok(())
    }

    /// Test if two values are deeply equal to each other.
    ///
    /// This is the basis for the eq operation (`==`).
    pub fn value_ptr_eq(&self, heap: &Heap, unit: &CompilationUnit, a: &Value, b: &Value) -> (result:
        Result<bool, VmError>)
        ensures
            result == spec_value_ptr_eq(heap, unit, *a, *b),
    {
        values_equal(heap, unit, *a, *b, depth_of(heap))
    }

    /// What [`Vm::op_eq`] does: the value on top of the stack is compared
    /// with the one below it.
    pub open spec fn eq_post(
        pre: VmView,
        heap: &Heap,
        unit: &CompilationUnit,
        result: Result<(), VmError>,
        post: VmView,
    ) -> bool {
        if pre.frame() < 2 {
            fails_after(
                result,
                stack_empty(),
                post,
                pre,
                pre.frame() as int,
            )
        } else {
            match spec_value_ptr_eq(heap, unit, pre.peek(0), pre.peek(1)) {
                Ok(equal) => result is Ok && post == pre.replaced(2, Value::Bool(equal)),
                Err(error) => fails_after(
                    result,
                    error,
                    post,
                    pre,
                    2,
                ),
            }
        }
    }

    /// Optimized equality implementation.
    pub fn op_eq(&mut self, heap: &Heap, unit: &CompilationUnit) -> (result: Result<(), VmError>)
        ensures
            Vm::eq_post(old(self)@, heap, unit, result, final(self)@),
    {
        let (b, a) = self.pop_two()?;
        let equal = self.value_ptr_eq(heap, unit, &a, &b)?;
        self.push(Value::Bool(equal));
        Ok(())
    }

    /// What [`Vm::op_neq`] does: the value below the top of the stack is
    /// compared with the one on top, and the answer is negated.
    pub open spec fn neq_post(
        pre: VmView,
        heap: &Heap,
        unit: &CompilationUnit,
        result: Result<(), VmError>,
        post: VmView,
    ) -> bool {
        if pre.frame() < 2 {
            fails_after(
                result,
                stack_empty(),
                post,
                pre,
                pre.frame() as int,
            )
        } else {
            match spec_value_ptr_eq(heap, unit, pre.peek(1), pre.peek(0)) {
                Ok(equal) => result is Ok && post == pre.replaced(2, Value::Bool(!equal)),
                Err(error) => fails_after(
                    result,
                    error,
                    post,
                    pre,
                    2,
                ),
            }
        }
    }

    /// Optimized inequality implementation.
    pub fn op_neq(&mut self, heap: &Heap, unit: &CompilationUnit) -> (result: Result<(), VmError>)
        ensures
            Vm::neq_post(old(self)@, heap, unit, result, final(self)@),
    {
        let (a, b) = self.pop_two()?;
        let equal = self.value_ptr_eq(heap, unit, &a, &b)?;
        self.push(Value::Bool(!equal));
        Ok(())
    }

    /// What [`Vm::call_async_fn`] does: a new machine gets the top `args`
    /// values as its stack, the deepest of them at the bottom, and starts at
    /// `offset`. A future that holds the machine is pushed in their place.
    pub open spec fn call_async_fn_post(
        pre: VmView,
        pre_heap: &Heap,
        offset: usize,
        args: usize,
        result: Result<(), VmError>,
        post: VmView,
        post_heap: &Heap,
    ) -> bool {
        if pre.frame() < args {
            fails_after(
                result,
                stack_empty(),
                post,
                pre,
                pre.frame() as int,
            ) && post_heap@ == pre_heap@
        } else {
            &&& result is Ok
            &&& post == pre.replaced(
                args as int,
                Value::Future(Shared { index: pre_heap.futures@.len() as usize }),
            )
            &&& post_heap@ == (HeapView { futures: post_heap@.futures, ..pre_heap@ })
            &&& cell_added(pre_heap.futures@, post_heap.futures@)
            &&& !post_heap.futures@.last().value->0.completed
            &&& post_heap.futures@.last().value->0.vm matches Some(vm) && vm@ == (VmView {
                ip: offset,
                stack: pre.stack.skip(pre.stack.len() - args),
                ..Vm::fresh()
            })
        }
    }

    /// Construct a future from calling an async function.
    pub fn call_async_fn(&mut self, heap: &mut Heap, offset: usize, args: usize) -> (result: Result<
        (),
        VmError,
    >)
        ensures
            Vm::call_async_fn_post(
                old(self)@,
                old(heap),
                offset,
                args,
                result,
                final(self)@,
                final(heap),
            ),
    {
        let mut vm = Vm::new();
        let popped = self.pop_many(args)?;
        let mut i: usize = 0;
        assert(popped@.take(0) =~= Seq::<Value>::empty());
        while i < popped.len()
            invariant
                i <= popped@.len(),
                vm@ == Vm::fresh().with_stack(popped@.take(i as int)),
            decreases popped@.len() - i,
        {
            vm.stack.push(popped[i]);
            assert(popped@.take(i + 1) == popped@.take(i as int).push(popped@[i as int]));
            i = i + 1;
        }
        assert(popped@.take(i as int) == popped@);
        vm.stack.reverse();
        vm.ip = offset;
        proof {
            let tail = old(self)@.stack.skip(old(self)@.stack.len() - args);
            assert(tail.reverse().reverse() =~= tail);
        }
        let shared = heap.futures.insert(Future { vm: Some(vm), completed: false });
        self.push(Value::Future(shared));
        Ok(())
    }

    /// What [`Vm::call_offset_fn`] does: an asynchronous function is called
    /// as [`Vm::call_async_fn`] does, any other in a new call frame.
    pub open spec fn call_offset_fn_post(
        pre: VmView,
        pre_heap: &Heap,
        offset: usize,
        call: UnitFnCall,
        args: usize,
        update_ip: bool,
        result: Result<(), VmError>,
        post: VmView,
        post_heap: &Heap,
        post_update_ip: bool,
    ) -> bool {
        match call {
            UnitFnCall::Async => {
                &&& Vm::call_async_fn_post(pre, pre_heap, offset, args, result, post, post_heap)
                &&& post_update_ip == update_ip
            },
            UnitFnCall::Immediate => {
                &&& Vm::push_call_frame_post(pre, offset, args, result, post)
                &&& post_heap@ == pre_heap@
                &&& post_update_ip == (update_ip && result is Err)
            },
        }
    }

    /// Call a function of the unit that is code at an offset.
    pub fn call_offset_fn(
        &mut self,
        heap: &mut Heap,
        offset: usize,
        call: UnitFnCall,
        args: usize,
        update_ip: &mut bool,
    ) -> (result: Result<(), VmError>)
        ensures
            Vm::call_offset_fn_post(
                old(self)@,
                old(heap),
                offset,
                call,
                args,
                *old(update_ip),
                result,
                final(self)@,
                final(heap),
                *final(update_ip),
            ),
    {
        match call {
            UnitFnCall::Async => {
                self.call_async_fn(heap, offset, args)?;
            },
            UnitFnCall::Immediate => {
                self.push_call_frame(offset, args)?;
                *update_ip = false;
            },
        }
        Ok(())
    }

    /// What a call of the function under `key` does, where the unit has
    /// that function: `info`.
    pub open spec fn call_unit_fn_post(
        pre: VmView,
        pre_heap: &Heap,
        info: UnitFnInfo,
        args: usize,
        update_ip: bool,
        result: Result<Option<Request>, VmError>,
        post: VmView,
        post_heap: &Heap,
        post_update_ip: bool,
    ) -> bool {
        if info.signature.args != args {
            fails_after(
                result,
                VmError::ArgumentCountMismatch { actual: args, expected: info.signature.args },
                post,
                pre,
                0,
            ) && post_heap@ == pre_heap@ && post_update_ip == update_ip
        } else {
            match info.kind {
                UnitFnKind::Offset { offset, call } => {
                    &&& Vm::call_offset_fn_post(
                        pre,
                        pre_heap,
                        offset,
                        call,
                        args,
                        update_ip,
                        plain(result),
                        post,
                        post_heap,
                        post_update_ip,
                    )
                    &&& result is Ok ==> result == Ok::<Option<Request>, VmError>(None)
                },
                UnitFnKind::Tuple { ty } => if pre.frame() < args {
                    fails_after(
                        result,
                        stack_empty(),
                        post,
                        pre,
                        pre.frame() as int,
                    ) && post_heap@ == pre_heap@ && post_update_ip == update_ip
                } else {
                    let value = Value::TypedTuple(
                        Shared { index: pre_heap.typed_tuples@.len() as usize },
                    );
                    &&& Vm::allocate_typed_tuple_post(
                        pre,
                        pre_heap,
                        ty,
                        args,
                        Ok(value),
                        pre.with_stack(pre.below(args as int)),
                        post_heap,
                    )
                    &&& result == Ok::<Option<Request>, VmError>(None)
                    &&& post == pre.replaced(args as int, value)
                    &&& post_update_ip == update_ip
                },
            }
        }
    }

    /// What [`Vm::call_fn`] does: a function of the unit is entered or, if
    /// it constructs a typed tuple, run on the spot. A function that the
    /// unit does not have is a native function for the driver to call.
    pub open spec fn call_fn_post(
        pre: VmView,
        pre_heap: &Heap,
        unit: &CompilationUnit,
        context: &Context,
        key: hash::Hash,
        args: usize,
        update_ip: bool,
        result: Result<Option<Request>, VmError>,
        post: VmView,
        post_heap: &Heap,
        post_update_ip: bool,
    ) -> bool {
        match unit.function(key) {
            Some(info) => Vm::call_unit_fn_post(
                pre,
                pre_heap,
                info,
                args,
                update_ip,
                result,
                post,
                post_heap,
                post_update_ip,
            ),
            None => match context.handler(key) {
                Some(handler) => {
                    &&& result == Ok::<Option<Request>, VmError>(
                        Some(Request::Call { handler, args }),
                    )
                    &&& post == pre
                    &&& post_heap@ == pre_heap@
                    &&& post_update_ip == update_ip
                },
                None => fails_after(
                    result,
                    VmError::MissingFunction { hash: key },
                    post,
                    pre,
                    0,
                ) && post_heap@ == pre_heap@ && post_update_ip == update_ip,
            },
        }
    }

    /// Implementation of a function call.
    pub fn call_fn(
        &mut self,
        heap: &mut Heap,
        unit: &CompilationUnit,
        context: &Context,
        key: hash::Hash,
        args: usize,
        update_ip: &mut bool,
    ) -> (result: Result<Option<Request>, VmError>)
        ensures
            Vm::call_fn_post(
                old(self)@,
                old(heap),
                unit,
                context,
                key,
                args,
                *old(update_ip),
                result,
                final(self)@,
                final(heap),
                *final(update_ip),
            ),
    {
        match unit.lookup(key) {
            Some(info) => {
                if info.signature.args != args {
                    return Err(
                        VmError::ArgumentCountMismatch {
                            actual: args,
                            expected: info.signature.args,
                        },
                    );
                }
                match info.kind {
                    UnitFnKind::Offset { offset, call } => {
                        match self.call_offset_fn(heap, offset, call, args, update_ip) {
                            Ok(()) => Ok(None),
                            Err(error) => Err(error),
                        }
                    },
                    UnitFnKind::Tuple { ty } => {
                        let value = self.allocate_typed_tuple(heap, ty, args)?;
                        self.push(value);
                        Ok(None)
                    },
                }
            },
            None => match context.lookup(key) {
                Some(handler) => Ok(Some(Request::Call { handler, args })),
                None => Err(VmError::MissingFunction { hash: key }),
            },
        }
    }

    /// What [`Vm::op_call_instance`] does: the method `name` of the value on
    /// top of the stack is looked up under the hash that the value's type
    /// and the name make. A function of the unit at an offset is entered; a
    /// native function is for the driver to call.
    pub open spec fn call_instance_post(
        pre: VmView,
        pre_heap: &Heap,
        unit: &CompilationUnit,
        context: &Context,
        name: hash::Hash,
        args: usize,
        update_ip: bool,
        result: Result<Option<Request>, VmError>,
        post: VmView,
        post_heap: &Heap,
        post_update_ip: bool,
    ) -> bool {
        if pre.frame() == 0 {
            fails_after(
                result,
                stack_empty(),
                post,
                pre,
                0,
            ) && post_heap@ == pre_heap@ && post_update_ip == update_ip
        } else {
            match pre.peek(0).spec_value_type(pre_heap) {
                Err(error) => fails_after(
                    result,
                    access_error(error),
                    post,
                    pre,
                    0,
                ) && post_heap@ == pre_heap@ && post_update_ip == update_ip,
                Ok(ty) => {
                    let key = hash::Hash::spec_instance_function(ty.spec_type_hash(), name);
                    let missing = VmError::MissingInstanceFunction {
                        instance: pre.peek(0).spec_type_info(),
                        hash: key,
                    };
                    match unit.function(key) {
                        Some(info) => if info.signature.args != args {
                            fails_after(
                                result,
                                VmError::ArgumentCountMismatch {
                                    actual: args,
                                    expected: info.signature.args,
                                },
                                post,
                                pre,
                                0,
                            ) && post_heap@ == pre_heap@ && post_update_ip == update_ip
                        } else if info.kind is Tuple {
                            fails_after(
                                result,
                                missing,
                                post,
                                pre,
                                0,
                            ) && post_heap@ == pre_heap@ && post_update_ip == update_ip
                        } else {
                            Vm::call_unit_fn_post(
                                pre,
                                pre_heap,
                                info,
                                args,
                                update_ip,
                                result,
                                post,
                                post_heap,
                                post_update_ip,
                            )
                        },
                        None => match context.handler(key) {
                            Some(handler) => {
                                &&& result == Ok::<Option<Request>, VmError>(
                                    Some(Request::Call { handler, args }),
                                )
                                &&& post == pre
                                &&& post_heap@ == pre_heap@
                                &&& post_update_ip == update_ip
                            },
                            None => fails_after(
                                result,
                                missing,
                                post,
                                pre,
                                0,
                            ) && post_heap@ == pre_heap@ && post_update_ip == update_ip,
                        },
                    }
                },
            }
        }
    }

    /// Call a method of the value on top of the stack.
    pub fn op_call_instance(
        &mut self,
        heap: &mut Heap,
        unit: &CompilationUnit,
        context: &Context,
        name: hash::Hash,
        args: usize,
        update_ip: &mut bool,
    ) -> (result: Result<Option<Request>, VmError>)
        ensures
            Vm::call_instance_post(
                old(self)@,
                old(heap),
                unit,
                context,
                name,
                args,
                *old(update_ip),
                result,
                final(self)@,
                final(heap),
                *final(update_ip),
            ),
    {
        let instance = match self.stack.peek() {
            Ok(instance) => instance,
            Err(error) => {
                return Err(VmError::StackError { error });
            },
        };
        let ty = match instance.value_type(heap) {
            Ok(ty) => ty,
            Err(error) => {
                return Err(VmError::AccessError { error });
            },
        };
        let key = hash::Hash::instance_function(ty.type_hash(), name);
        match unit.lookup(key) {
            Some(info) => {
                if info.signature.args != args {
                    return Err(
                        VmError::ArgumentCountMismatch {
                            actual: args,
                            expected: info.signature.args,
                        },
                    );
                }
                match info.kind {
                    UnitFnKind::Offset { offset, call } => {
                        match self.call_offset_fn(heap, offset, call, args, update_ip) {
                            Ok(()) => Ok(None),
                            Err(error) => Err(error),
                        }
                    },
                    UnitFnKind::Tuple { .. } => Err(
                        VmError::MissingInstanceFunction { instance: instance.type_info(), hash: key },
                    ),
                }
            },
            None => match context.lookup(key) {
                Some(handler) => Ok(Some(Request::Call { handler, args })),
                None => Err(
                    VmError::MissingInstanceFunction { instance: instance.type_info(), hash: key },
                ),
            },
        }
    }

    /// What [`Vm::op_call_fn`] does: the function on top of the stack is
    /// popped and called as [`Vm::call_fn`] calls it.
    pub open spec fn call_fn_value_post(
        pre: VmView,
        pre_heap: &Heap,
        unit: &CompilationUnit,
        context: &Context,
        args: usize,
        update_ip: bool,
        result: Result<Option<Request>, VmError>,
        post: VmView,
        post_heap: &Heap,
        post_update_ip: bool,
    ) -> bool {
        if pre.frame() == 0 {
            fails_after(
                result,
                stack_empty(),
                post,
                pre,
                0,
            ) && post_heap@ == pre_heap@ && post_update_ip == update_ip
        } else {
            match pre.peek(0) {
                Value::Type(key) => Vm::call_fn_post(
                    pre.with_stack(pre.below(1)),
                    pre_heap,
                    unit,
                    context,
                    key,
                    args,
                    update_ip,
                    result,
                    post,
                    post_heap,
                    post_update_ip,
                ),
                other => fails_after(
                    result,
                    VmError::UnsupportedCallFn { actual_type: other.spec_type_info() },
                    post,
                    pre,
                    1,
                ) && post_heap@ == pre_heap@ && post_update_ip == update_ip,
            }
        }
    }

    /// Pop a function and call it.
    pub fn op_call_fn(
        &mut self,
        heap: &mut Heap,
        unit: &CompilationUnit,
        context: &Context,
        args: usize,
        update_ip: &mut bool,
    ) -> (result: Result<Option<Request>, VmError>)
        ensures
            Vm::call_fn_value_post(
                old(self)@,
                old(heap),
                unit,
                context,
                args,
                *old(update_ip),
                result,
                final(self)@,
                final(heap),
                *final(update_ip),
            ),
    {
        let function = self.pop()?;
        let key = match function {
            Value::Type(key) => key,
            actual => {
                return Err(VmError::UnsupportedCallFn { actual_type: actual.type_info() });
            },
        };
        self.call_fn(heap, unit, context, key, args, update_ip)
    }

    /// What [`Vm::op_string_concat`] does. The top `len` values are popped,
    /// the one on top first, and each adds its text. Where no
    /// double-precision number is among them, the string is pushed.
    /// Otherwise the parts go to the driver, which writes the numbers. A
    /// value that adds nothing to a string ends the instruction once it is
    /// popped.
    pub open spec fn string_concat_post(
        pre: VmView,
        pre_heap: &Heap,
        unit: &CompilationUnit,
        len: usize,
        size_hint: usize,
        result: Result<Option<Request>, VmError>,
        post: VmView,
        post_heap: &Heap,
    ) -> bool {
        match scan_parts(pre_heap, unit, pre, len as nat) {
            Err(error) => {
                &&& fails(result, error)
                &&& post == pre.popped(scan_popped(pre_heap, unit, pre, len as nat) as int)
                &&& post_heap@ == pre_heap@
            },
            Ok(parts) => if floats_in(parts) == 0 {
                &&& result == Ok::<Option<Request>, VmError>(None)
                &&& post == pre.replaced(
                    len as int,
                    Value::String(Shared { index: pre_heap.strings@.len() as usize }),
                )
                &&& post_heap@ == (HeapView { strings: post_heap@.strings, ..pre_heap@ })
                &&& cell_added(pre_heap.strings@, post_heap.strings@)
                &&& Some(post_heap.strings@.last().value->0@) == joined(parts, Seq::empty())
            } else {
                &&& result matches Ok(Some(Request::StringConcat { parts: found, size_hint: hint }))
                &&& part_views(found@) == parts
                &&& hint == size_hint
                &&& post == pre.with_stack(pre.below(len as int))
                &&& post_heap@ == pre_heap@
            },
        }
    }

    /// Optimize operation to perform string concatenation.
    pub fn op_string_concat(
        &mut self,
        heap: &mut Heap,
        unit: &CompilationUnit,
        len: usize,
        size_hint: usize,
    ) -> (result: Result<Option<Request>, VmError>)
        ensures
            Vm::string_concat_post(
                old(self)@,
                old(heap),
                unit,
                len,
                size_hint,
                result,
                final(self)@,
                final(heap),
            ),
    {
        let mut parts: Vec<ConcatPart> = Vec::new();
        let mut has_float = false;
        let mut i: usize = 0;
        assert(old(self)@.below(0) == old(self)@.stack);
        assert(part_views(parts@) =~= Seq::<PartView>::empty());
        while i < len
            invariant
                i <= len,
                *heap == *old(heap),
                self@ == old(self)@.with_stack(old(self)@.below(i as int)),
                scan_parts(heap, unit, old(self)@, i as nat) == Ok::<Seq<PartView>, VmError>(
                    part_views(parts@),
                ),
                old(self)@.frame() >= i,
                has_float == (floats_in(part_views(parts@)) > 0),
            decreases len - i,
        {
            let ghost before = part_views(parts@);
            let popped = self.pop();
            proof {
                let pre = old(self)@;
                assert(pre.below(0) == pre.stack);
                if popped is Err {
                    assert(scan_popped(heap, unit, pre, (i + 1) as nat) == i);
                    lemma_scan_err(heap, unit, pre, (i + 1) as nat, len as nat);
                } else {
                    assert(pre.below(i as int).take(pre.below(i as int).len() - 1) == pre.below(
                        i + 1,
                    ));
                }
            }
            let value = popped?;
            let part = match value {
                Value::Integer(integer) => ConcatPart::Text(format_integer(integer)),
                Value::Float(float) => {
                    has_float = true;
                    ConcatPart::Float(float)
                },
                other => {
                    let found = text(heap, unit, other);
                    proof {
                        if found is Err || found == Ok::<Option<String>, VmError>(None) {
                            assert(scan_popped(heap, unit, old(self)@, (i + 1) as nat) == i + 1);
                            lemma_scan_err(heap, unit, old(self)@, (i + 1) as nat, len as nat);
                        }
                    }
                    match found? {
                        Some(text) => ConcatPart::Text(text),
                        None => {
                            return Err(
                                VmError::UnsupportedStringConcatArgument {
                                    actual: other.type_info(),
                                },
                            );
                        },
                    }
                },
            };
            parts.push(part);
            proof {
                assert(part_views(parts@) =~= before.push(part@));
                assert(part_views(parts@).drop_last() =~= before);
            }
            i = i + 1;
        }
        if has_float {
            return Ok(Some(Request::StringConcat { parts, size_hint }));
        }
        let none: Vec<String> = Vec::new();
        proof {
            assert(string_views(none@) =~= Seq::<Seq<char>>::empty());
            lemma_joined_some(part_views(parts@), Seq::empty());
        }
        match join(&parts, &none, size_hint) {
            Some(string) => {
                let shared = heap.strings.insert(string);
                self.push(Value::String(shared));
                Ok(None)
            },
            None => Ok(None),
        }
    }

    /// What [`Vm::finish_string_concat`] does: the parts are put together,
    /// with the `k`-th text for the `k`-th number, and the string is pushed.
    /// Texts that are fewer than the numbers are an error.
    pub open spec fn finish_string_concat_post(
        pre: VmView,
        pre_heap: &Heap,
        parts: Seq<PartView>,
        texts: Seq<Seq<char>>,
        result: Result<(), VmError>,
        post: VmView,
        post_heap: &Heap,
    ) -> bool {
        match joined(parts, texts) {
            Some(text) => {
                &&& result is Ok
                &&& post == pre.with_stack(
                    pre.stack.push(
                        Value::String(Shared { index: pre_heap.strings@.len() as usize }),
                    ),
                )
                &&& post_heap@ == (HeapView { strings: post_heap@.strings, ..pre_heap@ })
                &&& cell_added(pre_heap.strings@, post_heap.strings@)
                &&& post_heap.strings@.last().value->0@ == text
            },
            None => {
                &&& fails(
                    result,
                    VmError::UnsupportedStringConcatArgument { actual: ValueTypeInfo::Float },
                )
                &&& post == pre
                &&& post_heap@ == pre_heap@
            },
        }
    }

    /// Take the texts that the driver wrote for a
    /// [`Request::StringConcat`].
    pub fn finish_string_concat(
        &mut self,
        heap: &mut Heap,
        parts: Vec<ConcatPart>,
        texts: Vec<String>,
        size_hint: usize,
    ) -> (result: Result<(), VmError>)
        ensures
            Vm::finish_string_concat_post(
                old(self)@,
                old(heap),
                part_views(parts@),
                string_views(texts@),
                result,
                final(self)@,
                final(heap),
            ),
    {
        match join(&parts, &texts, size_hint) {
            Some(string) => {
                let shared = heap.strings.insert(string);
                self.push(Value::String(shared));
                Ok(())
            },
            None => Err(VmError::UnsupportedStringConcatArgument { actual: ValueTypeInfo::Float }),
        }
    }

    /// What [`Vm::op_await`] does: the future on top of the stack is popped
    /// and held exclusively, for the driver to wait for. A future that has
    /// completed cannot be waited for again.
    pub open spec fn await_post(
        pre: VmView,
        pre_heap: &Heap,
        result: Result<Option<Request>, VmError>,
        post: VmView,
        post_heap: &Heap,
    ) -> bool {
        if pre.frame() == 0 {
            fails_after(
                result,
                stack_empty(),
                post,
                pre,
                0,
            ) && post_heap@ == pre_heap@
        } else {
            match pre.peek(0) {
                Value::Future(shared) => if !pre_heap.futures.writable(shared) {
                    fails_after(
                        result,
                        access_error(AccessError::NotAccessibleMut),
                        post,
                        pre,
                        1,
                    ) && post_heap@ == pre_heap@
                } else if pre_heap.futures.value(shared).completed {
                    fails_after(
                        result,
                        VmError::Panic { reason: PanicReason::FutureCompleted },
                        post,
                        pre,
                        1,
                    ) && post_heap@ == pre_heap@
                } else {
                    &&& result == Ok::<Option<Request>, VmError>(
                        Some(
                            Request::Await {
                                future: shared,
                                guard: RawMut { index: shared.index },
                            },
                        ),
                    )
                    &&& post == pre.with_stack(pre.below(1))
                    &&& post_heap@ == (HeapView {
                        futures: held(pre_heap.futures@, shared.index),
                        ..pre_heap@
                    })
                },
                other => fails_after(
                    result,
                    VmError::ValueError {
                        error: ValueError::ExpectedFuture { actual: other.spec_type_info() },
                    },
                    post,
                    pre,
                    1,
                ) && post_heap@ == pre_heap@,
            }
        }
    }

    /// The `await` instruction.
    pub fn op_await(&mut self, heap: &mut Heap) -> (result: Result<Option<Request>, VmError>)
        ensures
            Vm::await_post(old(self)@, old(heap), result, final(self)@, final(heap)),
    {
        let value = self.pop()?;
        let future = match value.into_future() {
            Ok(future) => future,
            Err(error) => {
                return Err(VmError::ValueError { error });
            },
        };
        if !heap.futures.is_writable(future) {
            return Err(VmError::AccessError { error: AccessError::NotAccessibleMut });
        }
        let done = match heap.futures.get_ref(future) {
            Ok(found) => found.completed,
            Err(error) => {
                return Err(VmError::AccessError { error });
            },
        };
        if done {
            return Err(VmError::Panic { reason: PanicReason::FutureCompleted });
        }
        match heap.futures.acquire_mut(future) {
            Ok(guard) => Ok(Some(Request::Await { future, guard })),
            Err(error) => Err(VmError::AccessError { error }),
        }
    }

    /// What [`Vm::finish_await`] does: the future is marked as completed,
    /// the exclusive access to it is handed back, and its value is pushed.
    pub open spec fn finish_await_post(
        pre: VmView,
        pre_heap: &Heap,
        guard: RawMut,
        value: Value,
        post: VmView,
        post_heap: &Heap,
    ) -> bool {
        &&& post == pre.with_stack(pre.stack.push(value))
        &&& post_heap@ == (HeapView {
            futures: let_go(completed(pre_heap.futures@, guard.index), guard.index),
            ..pre_heap@
        })
    }

    /// Take the value of the future of a [`Request::Await`].
    pub fn finish_await(&mut self, heap: &mut Heap, guard: RawMut, value: Value)
        ensures
            Vm::finish_await_post(old(self)@, old(heap), guard, value, final(self)@, final(heap)),
    {
        match heap.futures.guarded_mut(&guard) {
            Some(future) => {
                future.completed = true;
            },
            None => {},
        }
        assert(heap.futures@ =~= completed(old(heap).futures@, guard.index));
        heap.futures.release_mut(guard);
        self.push(value);
    }

    /// What [`Vm::op_select`] does: `len` futures are popped. Where none of
    /// them is left to wait for, that is all. Otherwise those that are left
    /// go to the driver, each with its position among the popped. Where the
    /// instruction fails, no future stays held.
    pub open spec fn select_post(
        pre: VmView,
        pre_heap: &Heap,
        len: usize,
        result: Result<Option<Request>, VmError>,
        post: VmView,
        post_heap: &Heap,
    ) -> bool {
        match select_scan(pre_heap.futures@, pre.stack, pre.top as nat, 0, len as nat, Seq::empty()) {
            Err(error) => {
                &&& fails(result, error)
                &&& post == pre.popped(
                    select_popped(pre_heap.futures@, pre.stack, pre.top as nat, 0, len as nat) as int,
                )
                &&& post_heap@ == pre_heap@
            },
            Ok((futures, stack, pending)) => {
                &&& post == pre.with_stack(stack)
                &&& post_heap@ == (HeapView { futures, ..pre_heap@ })
                &&& if pending.len() == 0 {
                    result == Ok::<Option<Request>, VmError>(None)
                } else {
                    result matches Ok(Some(Request::Select { futures: found })) && found@
                        == pending
                }
            },
        }
    }

    /// The `select` instruction.
    pub fn op_select(&mut self, heap: &mut Heap, len: usize) -> (result: Result<Option<Request>, VmError>)
        ensures
            Vm::select_post(old(self)@, old(heap), len, result, final(self)@, final(heap)),
    {
        let mut pending: Vec<Pending> = Vec::new();
        let mut index: usize = 0;
        let ghost before = heap.futures@;
        assert(old(self)@.below(0) == old(self)@.stack);
        while index < len
            invariant
                index <= len,
                before == old(heap).futures@,
                self@ == old(self)@.popped(index as int),
                index <= old(self)@.stack.len(),
                heap@ == (HeapView { futures: heap.futures@, ..old(heap)@ }),
                only_held(before, heap.futures@, pending@, 0),
                select_scan(
                    before,
                    old(self)@.stack,
                    old(self)@.top as nat,
                    0,
                    len as nat,
                    Seq::empty(),
                )
                    == select_scan(
                    heap.futures@,
                    self@.stack,
                    self@.top as nat,
                    index as nat,
                    len as nat,
                    pending@,
                ),
                select_popped(before, old(self)@.stack, old(self)@.top as nat, 0, len as nat) == index
                    + select_popped(
                    heap.futures@,
                    self@.stack,
                    self@.top as nat,
                    index as nat,
                    len as nat,
                ),
            decreases len - index,
        {
            let ghost stack = self@.stack;
            let ghost held_before = pending@;
            let ghost cells = heap.futures@;
            let value = match self.pop() {
                Ok(value) => value,
                Err(error) => {
                    release_pending(heap, &pending, Ghost(before));
                    return Err(error);
                },
            };
            proof {
                let pre = old(self)@;
                assert(stack.drop_last() == self@.stack);
                assert(pre.below(0) == pre.stack);
                assert(pre.popped(index as int).stack.take(
                    pre.popped(index as int).stack.len() - 1,
                ) == pre.below(index + 1));
            }
            let future = match value.into_future() {
                Ok(future) => future,
                Err(error) => {
                    release_pending(heap, &pending, Ghost(before));
                    return Err(VmError::ValueError { error });
                },
            };
            if !heap.futures.is_writable(future) {
                release_pending(heap, &pending, Ghost(before));
                return Err(VmError::AccessError { error: AccessError::NotAccessibleMut });
            }
            let done = match heap.futures.get_ref(future) {
                Ok(found) => found.completed,
                Err(error) => {
                    release_pending(heap, &pending, Ghost(before));
                    return Err(VmError::AccessError { error });
                },
            };
            if !done {
                match heap.futures.acquire_mut(future) {
                    Ok(guard) => {
                        pending.push(Pending { index, future, guard });
                        proof {
                            let now = heap.futures@;
                            let all = pending@;
                            assert(cells[future.index as int] == before[future.index as int]);
                            assert forall|k: int| 0 <= k < all.len() implies {
                                &&& (#[trigger] all[k]).guard.index < now.len()
                                &&& before[all[k].guard.index as int].writable()
                                &&& now[all[k].guard.index as int] == (Cell {
                                    readers: 0,
                                    writer: true,
                                    value: before[all[k].guard.index as int].value,
                                })
                            } by {
                                if k < held_before.len() {
                                    assert(all[k] == held_before[k]);
                                }
                            }
                            assert forall|i: int| 0 <= i < now.len() implies #[trigger] now[i]
                                == before[i] || exists|k: int|
                                0 <= k < all.len() && (#[trigger] all[k]).guard.index == i by {
                                if i == future.index {
                                    assert(all[all.len() - 1].guard.index == i);
                                } else if cells[i] != before[i] {
                                    let k = choose|k: int|
                                        0 <= k < held_before.len() && (
                                        #[trigger] held_before[k]).guard.index == i;
                                    assert(all[k].guard.index == i);
                                }
                            }
                            assert forall|k: int, l: int| 0 <= k < l < all.len() implies (
                            #[trigger] all[k]).guard.index != (#[trigger] all[l]).guard.index by {
                                assert(all[k] == held_before[k]);
                                if l < held_before.len() {
                                    assert(all[l] == held_before[l]);
                                }
                            }
                        }
                    },
                    Err(error) => {
                        release_pending(heap, &pending, Ghost(before));
                        return Err(VmError::AccessError { error });
                    },
                }
            }
            index = index + 1;
        }
        if pending.len() == 0 {
            Ok(None)
        } else {
            Ok(Some(Request::Select { futures: pending }))
        }
    }

    /// What [`Vm::finish_select`] does. The exclusive accesses to all
    /// futures of the `select` are handed back. The future that completed
    /// is marked so, its value is pushed, and the branch register gets the
    /// position that the future had among those that the `select` popped.
    pub open spec fn finish_select_post(
        pre: VmView,
        pre_heap: &Heap,
        pending: Seq<Pending>,
        branch: usize,
        value: Value,
        result: Result<(), VmError>,
        post: VmView,
        post_heap: &Heap,
    ) -> bool {
        let released = all_let_go(pre_heap.futures@, pending, pending.len());
        match branch_of(pending, branch) {
            Some(winner) => {
                &&& result is Ok
                &&& post == (VmView {
                    stack: pre.stack.push(value),
                    branch: Some(branch),
                    ..pre
                })
                &&& post_heap@ == (HeapView {
                    futures: completed(released, winner.guard.index),
                    ..pre_heap@
                })
            },
            None => {
                &&& fails(result, VmError::UnexpectedSelectBranch { branch })
                &&& post == pre
                &&& post_heap@ == (HeapView { futures: released, ..pre_heap@ })
            },
        }
    }

    /// Take the first completion among the futures of a
    /// [`Request::Select`]: the position of the future that completed, as
    /// its entry in the request gives it, and the future's value.
    pub fn finish_select(&mut self, heap: &mut Heap, pending: Vec<Pending>, branch: usize, value: Value) -> (result:
        Result<(), VmError>)
        ensures
            Vm::finish_select_post(
                old(self)@,
                old(heap),
                pending@,
                branch,
                value,
                result,
                final(self)@,
                final(heap),
            ),
    {
        let ghost all = pending@;
        let mut winner: Option<usize> = None;
        let mut i: usize = 0;
        assert(all.take(0) =~= Seq::<Pending>::empty());
        while i < pending.len()
            invariant
                i <= all.len(),
                pending@ == all,
                heap@ == (HeapView {
                    futures: all_let_go(old(heap).futures@, all, i as nat),
                    ..old(heap)@
                }),
                match branch_of(all.take(i as int), branch) {
                    Some(found) => winner == Some(found.guard.index),
                    None => winner is None,
                },
            decreases all.len() - i,
        {
            assert(all.take(i + 1).drop_last() =~= all.take(i as int));
            if winner.is_none() && pending[i].index == branch {
                winner = Some(pending[i].guard.index);
            }
            heap.futures.release_mut(RawMut { index: pending[i].guard.index });
            i = i + 1;
        }
        assert(all.take(i as int) =~= all);
        match winner {
            Some(index) => {
                let ghost released = heap.futures@;
                match heap.futures.guarded_mut(&RawMut { index }) {
                    Some(future) => {
                        future.completed = true;
                    },
                    None => {},
                }
                assert(heap.futures@ =~= completed(released, index));
                self.push(value);
                self.branch = Some(branch);
                Ok(())
            },
            None => Err(VmError::UnexpectedSelectBranch { branch }),
        }
    }

    /// What the instruction `inst` does to the machine and the heap, and
    /// whether it leaves it to the machine to move on to the next
    /// instruction.
    pub open spec fn inst_post(
        inst: Inst,
        pre: VmView,
        pre_heap: &Heap,
        unit: &CompilationUnit,
        context: &Context,
        inner: Result<Option<Request>, VmError>,
        post: VmView,
        post_heap: &Heap,
        update_ip: bool,
    ) -> bool {
        let still = quiet(pre_heap, inner, post_heap, update_ip);
        let straight = update_ip;
        let same_heap = post_heap@ == pre_heap@;
        let no_request = inner is Ok ==> inner == Ok::<Option<Request>, VmError>(None);
        match inst {
            Inst::Not => still && Vm::not_post(pre, plain(inner), post),
            Inst::Add => straight && same_heap && Vm::numeric_post(
                pre,
                pre_heap,
                context,
                NumericOp::Add,
                inner,
                post,
            ),
            Inst::AddAssign { offset } => straight && same_heap && Vm::assign_post(
                pre,
                pre_heap,
                context,
                NumericOp::Add,
                offset,
                inner,
                post,
            ),
            Inst::Sub => straight && same_heap && Vm::numeric_post(
                pre,
                pre_heap,
                context,
                NumericOp::Sub,
                inner,
                post,
            ),
            Inst::SubAssign { offset } => straight && same_heap && Vm::assign_post(
                pre,
                pre_heap,
                context,
                NumericOp::Sub,
                offset,
                inner,
                post,
            ),
            Inst::Mul => straight && same_heap && Vm::numeric_post(
                pre,
                pre_heap,
                context,
                NumericOp::Mul,
                inner,
                post,
            ),
            Inst::MulAssign { offset } => straight && same_heap && Vm::assign_post(
                pre,
                pre_heap,
                context,
                NumericOp::Mul,
                offset,
                inner,
                post,
            ),
            Inst::Div => straight && same_heap && Vm::numeric_post(
                pre,
                pre_heap,
                context,
                NumericOp::Div,
                inner,
                post,
            ),
            Inst::DivAssign { offset } => straight && same_heap && Vm::assign_post(
                pre,
                pre_heap,
                context,
                NumericOp::Div,
                offset,
                inner,
                post,
            ),
            Inst::Call { hash, args } => Vm::call_fn_post(
                pre,
                pre_heap,
                unit,
                context,
                hash,
                args,
                true,
                inner,
                post,
                post_heap,
                update_ip,
            ),
            Inst::CallInstance { hash, args } => Vm::call_instance_post(
                pre,
                pre_heap,
                unit,
                context,
                hash,
                args,
                true,
                inner,
                post,
                post_heap,
                update_ip,
            ),
            Inst::CallFn { args } => Vm::call_fn_value_post(
                pre,
                pre_heap,
                unit,
                context,
                args,
                true,
                inner,
                post,
                post_heap,
                update_ip,
            ),
            Inst::LoadInstanceFn { hash } => still && Vm::load_instance_fn_post(
                pre,
                pre_heap,
                hash,
                plain(inner),
                post,
            ),
            Inst::IndexGet => straight && Vm::index_get_post(
                pre,
                pre_heap,
                unit,
                context,
                inner,
                post,
                post_heap,
            ),
            Inst::VecIndexGet { index } => still && Vm::vec_index_get_post(
                pre,
                pre_heap,
                index,
                plain(inner),
                post,
            ),
            Inst::TupleIndexGet { index } => still && Vm::tuple_index_get_post(
                pre,
                pre_heap,
                index,
                plain(inner),
                post,
            ),
            Inst::ObjectSlotIndexGet { slot } => still && Vm::object_slot_index_get_post(
                pre,
                pre_heap,
                unit,
                slot,
                plain(inner),
                post,
            ),
            Inst::IndexSet => straight && Vm::index_set_post(
                pre,
                pre_heap,
                unit,
                context,
                inner,
                post,
                post_heap,
            ),
            Inst::Return => still && Vm::return_post(pre, plain(inner), post),
            Inst::ReturnUnit => still && Vm::return_unit_post(pre, plain(inner), post),
            Inst::Await => straight && Vm::await_post(pre, pre_heap, inner, post, post_heap),
            Inst::Select { len } => straight && Vm::select_post(
                pre,
                pre_heap,
                len,
                inner,
                post,
                post_heap,
            ),
            Inst::Pop => still && if pre.frame() == 0 {
                fails(inner, stack_empty()) && post == pre
            } else {
                inner is Ok && post == pre.with_stack(pre.below(1))
            },
            Inst::PopN { count } => still && Vm::popn_post(pre, count, plain(inner), post),
            Inst::PopAndJumpIf { count, offset } => same_heap && no_request
                && Vm::pop_and_jump_post(
                pre,
                true,
                count,
                offset,
                true,
                plain(inner),
                post,
                update_ip,
            ),
            Inst::PopAndJumpIfNot { count, offset } => same_heap && no_request
                && Vm::pop_and_jump_post(
                pre,
                false,
                count,
                offset,
                true,
                plain(inner),
                post,
                update_ip,
            ),
            Inst::Clean { count } => still && Vm::clean_post(pre, count, plain(inner), post),
            Inst::Integer { number } => pushes(
                pre,
                pre_heap,
                Value::Integer(number),
                inner,
                post,
                post_heap,
                update_ip,
            ),
            Inst::Float { number } => pushes(
                pre,
                pre_heap,
                Value::Float(number),
                inner,
                post,
                post_heap,
                update_ip,
            ),
            Inst::Copy { offset } => still && Vm::copy_post(pre, offset, plain(inner), post),
            Inst::Drop { offset } => still && Vm::drop_post(pre, offset, plain(inner), post),
            Inst::Dup => still && Vm::dup_post(pre, plain(inner), post),
            Inst::Replace { offset } => still && Vm::replace_post(pre, offset, plain(inner), post),
            Inst::Gt => still && Vm::order_post(pre, BinaryOp::Gt, plain(inner), post),
            Inst::Gte => still && Vm::order_post(pre, BinaryOp::Gte, plain(inner), post),
            Inst::Lt => still && Vm::order_post(pre, BinaryOp::Lt, plain(inner), post),
            Inst::Lte => still && Vm::order_post(pre, BinaryOp::Lte, plain(inner), post),
            Inst::Eq => still && Vm::eq_post(pre, pre_heap, unit, plain(inner), post),
            Inst::Neq => still && Vm::neq_post(pre, pre_heap, unit, plain(inner), post),
            Inst::Jump { offset } => same_heap && no_request && Vm::jump_post(
                pre,
                offset,
                true,
                plain(inner),
                post,
                update_ip,
            ),
            Inst::JumpIf { offset } => same_heap && no_request && Vm::jump_if_post(
                pre,
                true,
                offset,
                true,
                plain(inner),
                post,
                update_ip,
            ),
            Inst::JumpIfNot { offset } => same_heap && no_request && Vm::jump_if_post(
                pre,
                false,
                offset,
                true,
                plain(inner),
                post,
                update_ip,
            ),
            Inst::JumpIfBranch { branch, offset } => same_heap && no_request
                && Vm::jump_if_branch_post(
                pre,
                branch,
                offset,
                true,
                plain(inner),
                post,
                update_ip,
            ),
            Inst::Unit => pushes(pre, pre_heap, Value::Unit, inner, post, post_heap, update_ip),
            Inst::Bool { value } => pushes(
                pre,
                pre_heap,
                Value::Bool(value),
                inner,
                post,
                post_heap,
                update_ip,
            ),
            Inst::Vec { count } => straight && no_request && Vm::vec_post(
                pre,
                pre_heap,
                count,
                plain(inner),
                post,
                post_heap,
            ),
            Inst::Tuple { count } => straight && no_request && Vm::tuple_post(
                pre,
                pre_heap,
                count,
                plain(inner),
                post,
                post_heap,
            ),
            Inst::Object { slot } => straight && no_request && Vm::object_post(
                pre,
                pre_heap,
                unit,
                slot,
                plain(inner),
                post,
                post_heap,
            ),
            Inst::TypedObject { ty, slot } => straight && no_request && Vm::typed_object_post(
                pre,
                pre_heap,
                unit,
                ty,
                slot,
                plain(inner),
                post,
                post_heap,
            ),
            Inst::Type { hash } => pushes(
                pre,
                pre_heap,
                Value::Type(hash),
                inner,
                post,
                post_heap,
                update_ip,
            ),
            Inst::Char { c } => pushes(pre, pre_heap, Value::Char(c), inner, post, post_heap, update_ip),
            Inst::Byte { b } => pushes(pre, pre_heap, Value::Byte(b), inner, post, post_heap, update_ip),
            Inst::String { slot } => still && Vm::string_post(pre, unit, slot, plain(inner), post),
            Inst::Bytes { slot } => straight && no_request && Vm::bytes_post(
                pre,
                pre_heap,
                unit,
                slot,
                plain(inner),
                post,
                post_heap,
            ),
            Inst::StringConcat { len, size_hint } => straight && Vm::string_concat_post(
                pre,
                pre_heap,
                unit,
                len,
                size_hint,
                inner,
                post,
                post_heap,
            ),
            Inst::Is => still && Vm::is_post(pre, pre_heap, unit, context, plain(inner), post),
            Inst::IsUnit => tests(pre, pre_heap, Value::Unit, inner, post, post_heap, update_ip),
            Inst::IsErr => still && Vm::is_err_post(pre, pre_heap, plain(inner), post),
            Inst::IsNone => still && Vm::is_none_post(pre, pre_heap, plain(inner), post),
            Inst::ResultUnwrap => still && Vm::result_unwrap_post(pre, pre_heap, plain(inner), post),
            Inst::OptionUnwrap => still && Vm::option_unwrap_post(pre, pre_heap, plain(inner), post),
            Inst::And => still && Vm::boolean_post(pre, BinaryOp::And, plain(inner), post),
            Inst::Or => still && Vm::boolean_post(pre, BinaryOp::Or, plain(inner), post),
            Inst::EqByte { byte } => tests(
                pre,
                pre_heap,
                Value::Byte(byte),
                inner,
                post,
                post_heap,
                update_ip,
            ),
            Inst::EqCharacter { character } => tests(
                pre,
                pre_heap,
                Value::Char(character),
                inner,
                post,
                post_heap,
                update_ip,
            ),
            Inst::EqInteger { integer } => tests(
                pre,
                pre_heap,
                Value::Integer(integer),
                inner,
                post,
                post_heap,
                update_ip,
            ),
            Inst::EqStaticString { slot } => still && Vm::eq_static_string_post(
                pre,
                pre_heap,
                unit,
                slot,
                plain(inner),
                post,
            ),
            Inst::MatchVec { len, exact } => still && Vm::match_vec_post(
                pre,
                pre_heap,
                len,
                exact,
                plain(inner),
                post,
            ),
            Inst::MatchTuple { tuple_like, len, exact } => still && Vm::match_tuple_post(
                pre,
                pre_heap,
                tuple_like,
                len,
                exact,
                plain(inner),
                post,
            ),
            Inst::MatchObject { object_like, slot, exact } => still && Vm::match_object_post(
                pre,
                pre_heap,
                unit,
                object_like,
                slot,
                exact,
                plain(inner),
                post,
            ),
            Inst::Yield => still && if pre.frame() == 0 {
                fails(inner, stack_empty()) && post == pre
            } else {
                inner is Ok && post == pre
            },
            Inst::Panic { reason } => still && fails(inner, VmError::Panic { reason }) && post
                == pre,
        }
    }

    /// Pop a value and push whether it is `wanted`.
    fn test(&mut self, wanted: Value) -> (result: Result<Option<Request>, VmError>)
        ensures
            old(self)@.frame() == 0 ==> fails(result, stack_empty()) && final(self)@ == old(self)@,
            old(self)@.frame() > 0 ==> {
                &&& result == Ok::<Option<Request>, VmError>(None)
                &&& final(self)@ == old(self)@.replaced(
                    1,
                    Value::Bool(old(self)@.peek(0) == wanted),
                )
            },
    {
        let value = self.pop()?;
        self.push(Value::Bool(value == wanted));
        Ok(None)
    }

    /// Do what one instruction says.
    fn dispatch(
        &mut self,
        inst: Inst,
        heap: &mut Heap,
        unit: &CompilationUnit,
        context: &Context,
        update_ip: &mut bool,
    ) -> (result: Result<Option<Request>, VmError>)
        requires
            *old(update_ip),
        ensures
            Vm::inst_post(
                inst,
                old(self)@,
                old(heap),
                unit,
                context,
                result,
                final(self)@,
                final(heap),
                *final(update_ip),
            ),
    {
        match inst {
            Inst::Not => {
                self.op_not()?;
            },
            Inst::Add => {
                return self.op_add(heap, context);
            },
            Inst::AddAssign { offset } => {
                return self.op_assign(heap, context, NumericOp::Add, offset);
            },
            Inst::Sub => {
                return self.op_sub(heap, context);
            },
            Inst::SubAssign { offset } => {
                return self.op_assign(heap, context, NumericOp::Sub, offset);
            },
            Inst::Mul => {
                return self.op_mul(heap, context);
            },
            Inst::MulAssign { offset } => {
                return self.op_assign(heap, context, NumericOp::Mul, offset);
            },
            Inst::Div => {
                return self.op_div(heap, context);
            },
            Inst::DivAssign { offset } => {
                return self.op_assign(heap, context, NumericOp::Div, offset);
            },
            Inst::Call { hash, args } => {
                return self.call_fn(heap, unit, context, hash, args, update_ip);
            },
            Inst::CallInstance { hash, args } => {
                return self.op_call_instance(heap, unit, context, hash, args, update_ip);
            },
            Inst::CallFn { args } => {
                return self.op_call_fn(heap, unit, context, args, update_ip);
            },
            Inst::LoadInstanceFn { hash } => {
                self.op_load_instance_fn(heap, hash)?;
            },
            Inst::IndexGet => {
                return self.op_index_get(heap, unit, context);
            },
            Inst::VecIndexGet { index } => {
                self.op_vec_index_get(heap, index)?;
            },
            Inst::TupleIndexGet { index } => {
                self.op_tuple_index_get(heap, index)?;
            },
            Inst::ObjectSlotIndexGet { slot } => {
                self.op_object_slot_index_get(heap, unit, slot)?;
            },
            Inst::IndexSet => {
                return self.op_index_set(heap, unit, context);
            },
            Inst::Return => {
                self.op_return()?;
            },
            Inst::ReturnUnit => {
                self.op_return_unit()?;
            },
            Inst::Await => {
                return self.op_await(heap);
            },
            Inst::Select { len } => {
                return self.op_select(heap, len);
            },
            Inst::Pop => {
                self.pop()?;
            },
            Inst::PopN { count } => {
                self.op_popn(count)?;
            },
            Inst::PopAndJumpIf { count, offset } => {
                self.op_pop_and_jump_if(count, offset, update_ip)?;
            },
            Inst::PopAndJumpIfNot { count, offset } => {
                self.op_pop_and_jump_if_not(count, offset, update_ip)?;
            },
            Inst::Clean { count } => {
                self.op_clean(count)?;
            },
            Inst::Integer { number } => {
                self.push(Value::Integer(number));
            },
            Inst::Float { number } => {
                self.push(Value::Float(number));
            },
            Inst::Copy { offset } => {
                self.op_copy(offset)?;
            },
            Inst::Drop { offset } => {
                self.op_drop(offset)?;
            },
            Inst::Dup => {
                self.op_dup()?;
            },
            Inst::Replace { offset } => {
                self.op_replace(offset)?;
            },
            Inst::Gt => {
                self.op_gt()?;
            },
            Inst::Gte => {
                self.op_gte()?;
            },
            Inst::Lt => {
                self.op_lt()?;
            },
            Inst::Lte => {
                self.op_lte()?;
            },
            Inst::Eq => {
                self.op_eq(heap, unit)?;
            },
            Inst::Neq => {
                self.op_neq(heap, unit)?;
            },
            Inst::Jump { offset } => {
                self.op_jump(offset, update_ip)?;
            },
            Inst::JumpIf { offset } => {
                self.op_jump_if(offset, update_ip)?;
            },
            Inst::JumpIfNot { offset } => {
                self.op_jump_if_not(offset, update_ip)?;
            },
            Inst::JumpIfBranch { branch, offset } => {
                self.op_jump_if_branch(branch, offset, update_ip)?;
            },
            Inst::Unit => {
                self.push(Value::Unit);
            },
            Inst::Bool { value } => {
                self.push(Value::Bool(value));
            },
            Inst::Vec { count } => {
                self.op_vec(heap, count)?;
            },
            Inst::Tuple { count } => {
                self.op_tuple(heap, count)?;
            },
            Inst::Object { slot } => {
                self.op_object(heap, unit, slot)?;
            },
            Inst::TypedObject { ty, slot } => {
                self.op_typed_object(heap, unit, ty, slot)?;
            },
            Inst::Type { hash } => {
                self.push(Value::Type(hash));
            },
            Inst::Char { c } => {
                self.push(Value::Char(c));
            },
            Inst::Byte { b } => {
                self.push(Value::Byte(b));
            },
            Inst::String { slot } => {
                self.op_string(unit, slot)?;
            },
            Inst::Bytes { slot } => {
                self.op_bytes(heap, unit, slot)?;
            },
            Inst::StringConcat { len, size_hint } => {
                return self.op_string_concat(heap, unit, len, size_hint);
            },
            Inst::Is => {
                self.op_is(heap, unit, context)?;
            },
            Inst::IsUnit => {
                return self.test(Value::Unit);
            },
            Inst::IsErr => {
                self.op_is_err(heap)?;
            },
            Inst::IsNone => {
                self.op_is_none(heap)?;
            },
            Inst::ResultUnwrap => {
                self.op_result_unwrap(heap)?;
            },
            Inst::OptionUnwrap => {
                self.op_option_unwrap(heap)?;
            },
            Inst::And => {
                self.op_and()?;
            },
            Inst::Or => {
                self.op_or()?;
            },
            Inst::EqByte { byte } => {
                return self.test(Value::Byte(byte));
            },
            Inst::EqCharacter { character } => {
                return self.test(Value::Char(character));
            },
            Inst::EqInteger { integer } => {
                return self.test(Value::Integer(integer));
            },
            Inst::EqStaticString { slot } => {
                self.op_eq_static_string(heap, unit, slot)?;
            },
            Inst::MatchVec { len, exact } => {
                self.match_vec(heap, len, exact)?;
            },
            Inst::MatchTuple { tuple_like, len, exact } => {
                self.op_match_tuple(heap, tuple_like, len, exact)?;
            },
            Inst::MatchObject { object_like, slot, exact } => {
                self.op_match_object(heap, unit, object_like, slot, exact)?;
            },
            Inst::Yield => {
                match self.stack.last() {
                    Ok(_) => {},
                    Err(error) => {
                        return Err(VmError::StackError { error });
                    },
                }
            },
            Inst::Panic { reason } => {
                return Err(VmError::Panic { reason });
            },
        }
        Ok(None)
    }

    /// Why the machine stops after an instruction, if it does.
    pub open spec fn halt_after(inst: Inst, request: Option<Request>, exited: bool) -> Option<VmHalt> {
        match request {
            Some(request) => Some(VmHalt::Request(request)),
            None => if inst is Yield {
                Some(VmHalt::Yielded)
            } else if exited {
                Some(VmHalt::Exited)
            } else {
                None
            },
        }
    }

    /// What [`Vm::step`] does. A machine that has exited stays as it is.
    /// Any other machine runs the instruction at its instruction pointer
    /// and moves on to the next one, unless the instruction itself said
    /// where to go on. Where the instruction fails, the machine stays as
    /// the instruction left it.
    #[verifier::opaque]
    pub open spec fn step_post(
        pre: VmView,
        pre_heap: &Heap,
        unit: &CompilationUnit,
        context: &Context,
        result: Result<Option<VmHalt>, VmError>,
        post: VmView,
        post_heap: &Heap,
    ) -> bool {
        if pre.exited {
            &&& result == Ok::<Option<VmHalt>, VmError>(Some(VmHalt::Exited))
            &&& post == pre
            &&& post_heap@ == pre_heap@
        } else if pre.ip >= unit.instructions().len() {
            fails(result, VmError::IpOutOfBounds) && post == pre && post_heap@ == pre_heap@
        } else {
            let inst = unit.instructions()[pre.ip as int];
            exists|inner: Result<Option<Request>, VmError>, after: VmView, update_ip: bool|
                {
                    &&& #[trigger] Vm::inst_post(
                        inst,
                        pre,
                        pre_heap,
                        unit,
                        context,
                        inner,
                        after,
                        post_heap,
                        update_ip,
                    )
                    &&& match inner {
                        Err(error) => fails(result, error) && post == after,
                        Ok(request) => if update_ip && after.ip == usize::MAX {
                            fails(result, VmError::IpOutOfBounds) && post == after
                        } else {
                            &&& post == (VmView {
                                ip: if update_ip {
                                    (after.ip + 1) as usize
                                } else {
                                    after.ip
                                },
                                ..after
                            })
                            &&& result == Ok::<Option<VmHalt>, VmError>(
                                Vm::halt_after(inst, request, after.exited),
                            )
                        },
                    }
                }
        }
    }

    /// Run one instruction. Returns why the machine stops after it, or
    /// `None` where it can go on.
    pub fn step(&mut self, heap: &mut Heap, unit: &CompilationUnit, context: &Context) -> (result:
        Result<Option<VmHalt>, VmError>)
        ensures
            Vm::step_post(old(self)@, old(heap), unit, context, result, final(self)@, final(heap)),
    {
        reveal(Vm::step_post);
        if self.exited {
            return Ok(Some(VmHalt::Exited));
        }
        let inst = match unit.instruction_at(self.ip) {
            Some(inst) => inst,
            None => {
                return Err(VmError::IpOutOfBounds);
            },
        };
        let mut update_ip = true;
        let inner = self.dispatch(inst, heap, unit, context, &mut update_ip);
        let ghost after = self@;
        let ghost witness = inner;
        assert(Vm::inst_post(
            inst,
            old(self)@,
            old(heap),
            unit,
            context,
            witness,
            after,
            heap,
            update_ip,
        ));
        let request = inner?;
        if update_ip {
            match self.ip.checked_add(1) {
                Some(ip) => {
                    self.ip = ip;
                },
                None => {
                    return Err(VmError::IpOutOfBounds);
                },
            }
        }
        match request {
            Some(request) => Ok(Some(VmHalt::Request(request))),
            None => match inst {
                Inst::Yield => Ok(Some(VmHalt::Yielded)),
                _ => if self.exited {
                    Ok(Some(VmHalt::Exited))
                } else {
                    Ok(None)
                },
            },
        }
    }

    /// The machine gets from one state to another by running `steps`
    /// instructions, after none of which it stops.
    pub open spec fn runs(
        pre: VmView,
        pre_heap: &Heap,
        unit: &CompilationUnit,
        context: &Context,
        steps: nat,
        post: VmView,
        post_heap: &Heap,
    ) -> bool
        decreases steps,
    {
        if steps == 0 {
            post == pre && post_heap@ == pre_heap@
        } else {
            exists|before: VmView, before_heap: Heap|
                {
                    &&& Vm::runs(
                        pre,
                        pre_heap,
                        unit,
                        context,
                        (steps - 1) as nat,
                        before,
                        &before_heap,
                    )
                    &&& #[trigger] Vm::step_post(
                        before,
                        &before_heap,
                        unit,
                        context,
                        Ok(None),
                        post,
                        post_heap,
                    )
                }
        }
    }

    /// A run of some instructions and one instruction more make a run.
    pub proof fn lemma_runs_extend(
        pre: VmView,
        pre_heap: &Heap,
        unit: &CompilationUnit,
        context: &Context,
        steps: nat,
        before: VmView,
        before_heap: Heap,
        post: VmView,
        post_heap: &Heap,
    )
        requires
            Vm::runs(pre, pre_heap, unit, context, steps, before, &before_heap),
            Vm::step_post(before, &before_heap, unit, context, Ok(None), post, post_heap),
        ensures
            Vm::runs(pre, pre_heap, unit, context, steps + 1, post, post_heap),
    {
        assert(((steps + 1) - 1) as nat == steps);
    }

    /// The number of instructions that a limit allows: at least one, and
    /// without a limit as many as a machine word counts.
    pub open spec fn budget(limit: Option<usize>) -> nat {
        match limit {
            Some(limit) => if limit == 0 {
                1
            } else {
                limit as nat
            },
            None => usize::MAX as nat,
        }
    }

    /// The outcome of the last instruction of a run that ended as `result`
    /// says.
    pub open spec fn stopped(result: Result<VmHalt, VmError>) -> Result<Option<VmHalt>, VmError> {
        match result {
            Ok(halt) => Ok(Some(halt)),
            Err(error) => Err(error),
        }
    }

    /// What [`Vm::run_for`] does: the machine runs instruction after
    /// instruction until one of them stops it or fails, or until as many
    /// have run as the limit allows.
    pub open spec fn run_for_post(
        pre: VmView,
        pre_heap: &Heap,
        unit: &CompilationUnit,
        context: &Context,
        limit: Option<usize>,
        result: Result<VmHalt, VmError>,
        post: VmView,
        post_heap: &Heap,
    ) -> bool {
        ||| result == Ok::<VmHalt, VmError>(VmHalt::Limited) && Vm::runs(
            pre,
            pre_heap,
            unit,
            context,
            Vm::budget(limit),
            post,
            post_heap,
        )
        ||| exists|steps: nat, before: VmView, before_heap: Heap|
            {
                &&& steps < Vm::budget(limit)
                &&& #[trigger] Vm::runs(pre, pre_heap, unit, context, steps, before, &before_heap)
                &&& Vm::step_post(
                    before,
                    &before_heap,
                    unit,
                    context,
                    Vm::stopped(result),
                    post,
                    post_heap,
                )
            }
    }

    /// Run instructions until the machine stops, at most as many as the
    /// limit allows.
    pub fn run_for(
        &mut self,
        heap: &mut Heap,
        unit: &CompilationUnit,
        context: &Context,
        limit: Option<usize>,
    ) -> (result: Result<VmHalt, VmError>)
        ensures
            Vm::run_for_post(
                old(self)@,
                old(heap),
                unit,
                context,
                limit,
                result,
                final(self)@,
                final(heap),
            ),
    {
        let budget: usize = match limit {
            Some(limit) => if limit == 0 {
                1
            } else {
                limit
            },
            None => usize::MAX,
        };
        let mut steps: usize = 0;
        while steps < budget
            invariant
                steps <= budget,
                budget == Vm::budget(limit),
                Vm::runs(old(self)@, old(heap), unit, context, steps as nat, self@, heap),
            decreases budget - steps,
        {
            let ghost before = self@;
            let ghost before_heap = *heap;
            let outcome = self.step(heap, unit, context);
            let ghost seen = outcome;
            assert(Vm::step_post(before, &before_heap, unit, context, seen, self@, heap));
            match outcome {
                Ok(None) => {},
                Ok(Some(halt)) => {
                    return Ok(halt);
                },
                Err(error) => {
                    return Err(error);
                },
            }
            proof {
                Vm::lemma_runs_extend(
                    old(self)@,
                    old(heap),
                    unit,
                    context,
                    steps as nat,
                    before,
                    before_heap,
                    self@,
                    heap,
                );
            }
            steps = steps + 1;
        }
        Ok(VmHalt::Limited)
    }

    /// What [`Vm::pop_decode`] does.
    pub open spec fn pop_decode_post<T: FromValue>(pre: VmView, result: Result<T, VmError>, post: VmView) -> bool {
        if pre.frame() == 0 {
            fails_after(
                result,
                stack_empty(),
                post,
                pre,
                0,
            )
        } else {
            match T::spec_from_value(pre.peek(0)) {
                Ok(value) => result == Ok::<T, VmError>(value) && post == pre.with_stack(
                    pre.below(1),
                ),
                Err(error) => fails_after(
                    result,
                    VmError::StackConversionError { error },
                    post,
                    pre,
                    1,
                ),
            }
        }
    }

    /// Pop the last value on the stack and evaluate it as `T`.
    pub fn pop_decode<T: FromValue>(&mut self) -> (result: Result<T, VmError>)
        ensures
            Vm::pop_decode_post(old(self)@, result, final(self)@),
    {
        let value = self.pop()?;
        match T::from_value(value) {
            Ok(value) => Ok(value),
            Err(error) => Err(VmError::StackConversionError { error }),
        }
    }

    /// What entering a function from outside does to the machine: the
    /// function with the given hash has to be code at an offset and to take
    /// as many arguments as are given. The machine goes to the offset with
    /// the arguments as its stack.
    pub open spec fn enter_post(
        pre: VmView,
        unit: &CompilationUnit,
        key: hash::Hash,
        args: Seq<Value>,
        result: Result<(), VmError>,
        post: VmView,
    ) -> bool {
        match unit.function(key) {
            None => fails(result, VmError::MissingFunction { hash: key }) && post == pre,
            Some(info) => if info.signature.args != args.len() {
                &&& fails(
                    result,
                    VmError::ArgumentCountMismatch {
                        actual: args.len() as usize,
                        expected: info.signature.args,
                    },
                )
                &&& post == pre
            } else {
                match info.kind {
                    UnitFnKind::Offset { offset, .. } => result is Ok && post == (VmView {
                        ip: offset,
                        stack: args,
                        top: 0,
                        ..pre
                    }),
                    UnitFnKind::Tuple { .. } => fails(
                        result,
                        VmError::MissingFunction { hash: key },
                    ) && post == pre,
                }
            },
        }
    }

    /// Set the machine up to run the function with the given hash on the
    /// given arguments.
    pub fn enter(&mut self, unit: &CompilationUnit, key: hash::Hash, args: &Vec<Value>) -> (result:
        Result<(), VmError>)
        ensures
            Vm::enter_post(old(self)@, unit, key, args@, result, final(self)@),
    {
        let function = match unit.lookup(key) {
            Some(function) => function,
            None => {
                return Err(VmError::MissingFunction { hash: key });
            },
        };
        if function.signature.args != args.len() {
            return Err(
                VmError::ArgumentCountMismatch {
                    actual: args.len(),
                    expected: function.signature.args,
                },
            );
        }
        let offset = match function.kind {
            UnitFnKind::Offset { offset, .. } => offset,
            UnitFnKind::Tuple { .. } => {
                return Err(VmError::MissingFunction { hash: key });
            },
        };
        self.ip = offset;
        self.stack.clear();
        let mut i: usize = 0;
        assert(args@.take(0) =~= Seq::<Value>::empty());
        while i < args.len()
            invariant
                i <= args@.len(),
                self@ == (VmView {
                    ip: offset,
                    stack: args@.take(i as int),
                    top: 0,
                    ..old(self)@
                }),
            decreases args@.len() - i,
        {
            self.stack.push(args[i]);
            assert(args@.take(i + 1) == args@.take(i as int).push(args@[i as int]));
            i = i + 1;
        }
        assert(args@.take(i as int) == args@);
        Ok(())
    }
}

/// Hand back the exclusive accesses to the pending futures, which leaves
/// the cells of futures as they were before any of them was held.
fn release_pending(heap: &mut Heap, pending: &Vec<Pending>, Ghost(before): Ghost<Seq<Cell<Future>>>)
    requires
        only_held(before, old(heap).futures@, pending@, 0),
    ensures
        final(heap)@ == (HeapView { futures: before, ..old(heap)@ }),
{
    let mut released: usize = 0;
    while released < pending.len()
        invariant
            released <= pending@.len(),
            heap@ == (HeapView { futures: heap.futures@, ..old(heap)@ }),
            only_held(before, heap.futures@, pending@, released as int),
        decreases pending@.len() - released,
    {
        let ghost cells = heap.futures@;
        let ghost index = pending@[released as int].guard.index;
        heap.futures.release_mut(RawMut { index: pending[released].guard.index });
        proof {
            let now = heap.futures@;
            assert(now[index as int] == before[index as int]);
            assert forall|i: int| 0 <= i < now.len() implies #[trigger] now[i] == before[i]
                || exists|k: int|
                released + 1 <= k < pending@.len() && (#[trigger] pending@[k]).guard.index == i by {
                if i != index && cells[i] != before[i] {
                    let k = choose|k: int|
                        released <= k < pending@.len() && (#[trigger] pending@[k]).guard.index
                            == i;
                    assert(k != released);
                }
            }
            assert forall|k: int| released + 1 <= k < pending@.len() implies {
                &&& (#[trigger] pending@[k]).guard.index < now.len()
                &&& before[pending@[k].guard.index as int].writable()
                &&& now[pending@[k].guard.index as int] == (Cell {
                    readers: 0,
                    writer: true,
                    value: before[pending@[k].guard.index as int].value,
                })
            } by {
                assert(pending@[released as int].guard.index != pending@[k].guard.index);
            }
        }
        released = released + 1;
    }
    assert(heap.futures@ =~= before);
}

/// Whether an object has all of `keys`, and where `exact` no entry more
/// than there are keys.
fn has_keys(object: &Object, keys: &Vec<String>, exact: bool) -> (outcome: bool)
    ensures
        outcome == object_matches(object@, texts(keys@), exact),
{
    if exact {
        if object.len() != keys.len() {
            return false;
        }
    } else {
        if object.len() < keys.len() {
            return false;
        }
    }
    let mut i: usize = 0;
    while i < keys.len()
        invariant
            i <= keys@.len(),
            forall|j: int| 0 <= j < i ==> position(object@, #[trigger] texts(keys@)[j]) is Some,
        decreases keys@.len() - i,
    {
        if !object.contains_key(keys[i].as_str()) {
            assert(position(object@, texts(keys@)[i as int]) is None);
            return false;
        }
        assert(texts(keys@)[i as int] == keys@[i as int]@);
        i = i + 1;
    }
    true
}

/// Once the parts of some values cannot be had, those of more values
/// cannot either, and the error is the same.
pub proof fn lemma_scan_err(heap: &Heap, unit: &CompilationUnit, pre: VmView, count: nat, more: nat)
    requires
        count <= more,
        scan_parts(heap, unit, pre, count) is Err,
    ensures
        scan_parts(heap, unit, pre, more) == scan_parts(heap, unit, pre, count),
        scan_popped(heap, unit, pre, more) == scan_popped(heap, unit, pre, count),
    decreases more - count,
{
    if count < more {
        lemma_scan_err(heap, unit, pre, count, (more - 1) as nat);
    }
}

/// How an ordering operator orders two small numbers.
fn order_u32(op: BinaryOp, a: u32, b: u32) -> (outcome: bool)
    ensures
        outcome == ordered_int(op, a as int, b as int),
{
    match op {
        BinaryOp::Gt => a > b,
        BinaryOp::Gte => a >= b,
        BinaryOp::Lt => a < b,
        _ => a <= b,
    }
}

} // verus!
