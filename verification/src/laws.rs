//! Laws of the machine: what holds of every run, whatever the program.

use vstd::prelude::*;
use vstd::string::*;
use crate::context::Context;
use crate::equality::{
    distinct_object_keys, heap_reads, lemma_eq_agrees, lemma_eq_symmetric_on_readable_values,
    reads, spec_value_ptr_eq,
};
use crate::error::VmError;
use crate::float::Float;
use crate::heap::{Future, Heap};
use crate::inst::Inst;
use crate::object::{distinct_keys, lemma_with_entry_distinct};
use crate::shared::{Cell, RawMut, Shared};
use crate::unit::CompilationUnit;
use crate::value::{FromValue, StaticString, Value};
use crate::vm::{
    branch_of, CallFrame, built_entries, exact_result, held, select_scan, text_of, NumericOp, Pending,
    Request, Vm, VmHalt, VmView,
};

verus! {

/// The value that an instruction pushes, if all it does is push a primitive
/// value.
pub open spec fn literal(inst: Inst) -> Option<Value> {
    match inst {
        Inst::Unit => Some(Value::Unit),
        Inst::Bool { value } => Some(Value::Bool(value)),
        Inst::Byte { b } => Some(Value::Byte(b)),
        Inst::Char { c } => Some(Value::Char(c)),
        Inst::Integer { number } => Some(Value::Integer(number)),
        Inst::Float { number } => Some(Value::Float(number)),
        _ => None,
    }
}

/// Pushing a primitive value and popping it again gives the value back and
/// leaves the machine and the heap as they were.
pub proof fn lemma_push_pop_round_trip(
    inst: Inst,
    pre: VmView,
    pre_heap: &Heap,
    unit: &CompilationUnit,
    context: &Context,
    pushed: Result<Option<Request>, VmError>,
    between: VmView,
    between_heap: &Heap,
    pushed_update_ip: bool,
    popped: Result<Option<Request>, VmError>,
    post: VmView,
    post_heap: &Heap,
    popped_update_ip: bool,
)
    requires
        literal(inst) is Some,
        pre.wf(),
        Vm::inst_post(
            inst,
            pre,
            pre_heap,
            unit,
            context,
            pushed,
            between,
            between_heap,
            pushed_update_ip,
        ),
        Vm::inst_post(
            Inst::Pop,
            between,
            between_heap,
            unit,
            context,
            popped,
            post,
            post_heap,
            popped_update_ip,
        ),
    ensures
        pushed == Ok::<Option<Request>, VmError>(None),
        popped == Ok::<Option<Request>, VmError>(None),
        between.frame() > 0,
        between.peek(0) == literal(inst)->0,
        post == pre,
        post_heap@ == pre_heap@,
{
    let value = literal(inst)->0;
    assert(between == pre.with_stack(pre.stack.push(value)));
    assert(between.below(1) =~= pre.stack);
}

/// A step at an instruction that pushes a primitive value pushes the value
/// and moves on.
pub proof fn lemma_step_pushes_literal(
    pre: VmView,
    pre_heap: &Heap,
    unit: &CompilationUnit,
    context: &Context,
    result: Result<Option<VmHalt>, VmError>,
    post: VmView,
    post_heap: &Heap,
)
    requires
        !pre.exited,
        pre.ip < unit.instructions().len(),
        pre.ip < usize::MAX,
        literal(unit.instructions()[pre.ip as int]) is Some,
        Vm::step_post(pre, pre_heap, unit, context, result, post, post_heap),
    ensures
        result == Ok::<Option<VmHalt>, VmError>(None),
        post == (VmView {
            ip: (pre.ip + 1) as usize,
            stack: pre.stack.push(literal(unit.instructions()[pre.ip as int])->0),
            ..pre
        }),
        post_heap@ == pre_heap@,
{
    reveal(Vm::step_post);
}

/// A step at a `pop` in a frame that holds a value pops the value and moves
/// on.
pub proof fn lemma_step_pops(
    pre: VmView,
    pre_heap: &Heap,
    unit: &CompilationUnit,
    context: &Context,
    result: Result<Option<VmHalt>, VmError>,
    post: VmView,
    post_heap: &Heap,
)
    requires
        !pre.exited,
        pre.ip < unit.instructions().len(),
        pre.ip < usize::MAX,
        unit.instructions()[pre.ip as int] == Inst::Pop,
        pre.frame() > 0,
        Vm::step_post(pre, pre_heap, unit, context, result, post, post_heap),
    ensures
        result == Ok::<Option<VmHalt>, VmError>(None),
        post == (VmView { ip: (pre.ip + 1) as usize, stack: pre.stack.drop_last(), ..pre }),
        post_heap@ == pre_heap@,
{
    reveal(Vm::step_post);
    assert(pre.below(1) =~= pre.stack.drop_last());
}

/// A run of two instructions, of which the first pushes a primitive value
/// and the second pops it, ends at its limit with the stack, the heap and
/// the registers as they were, two instructions further on.
pub proof fn lemma_run_push_pop_round_trip(
    pre: VmView,
    pre_heap: &Heap,
    unit: &CompilationUnit,
    context: &Context,
    result: Result<VmHalt, VmError>,
    post: VmView,
    post_heap: &Heap,
)
    requires
        pre.wf(),
        !pre.exited,
        pre.ip + 2 <= usize::MAX,
        pre.ip + 1 < unit.instructions().len(),
        literal(unit.instructions()[pre.ip as int]) is Some,
        unit.instructions()[pre.ip + 1] == Inst::Pop,
        Vm::run_for_post(pre, pre_heap, unit, context, Some(2), result, post, post_heap),
    ensures
        result == Ok::<VmHalt, VmError>(VmHalt::Limited),
        post == (VmView { ip: (pre.ip + 2) as usize, ..pre }),
        post_heap@ == pre_heap@,
{
    let value = literal(unit.instructions()[pre.ip as int])->0;
    let pushed = VmView { ip: (pre.ip + 1) as usize, stack: pre.stack.push(value), ..pre };
    assert(pushed.stack.drop_last() =~= pre.stack);
    assert(pushed.frame() > 0);
    if result == Ok::<VmHalt, VmError>(VmHalt::Limited) && Vm::runs(
        pre,
        pre_heap,
        unit,
        context,
        2,
        post,
        post_heap,
    ) {
        let (second, second_heap) = choose|before: VmView, before_heap: Heap|
            {
                &&& Vm::runs(pre, pre_heap, unit, context, 1, before, &before_heap)
                &&& #[trigger] Vm::step_post(
                    before,
                    &before_heap,
                    unit,
                    context,
                    Ok(None),
                    post,
                    post_heap,
                )
            };
        lemma_one_step_run(pre, pre_heap, unit, context, second, &second_heap);
        lemma_step_pops(second, &second_heap, unit, context, Ok(None), post, post_heap);
    } else {
        let (steps, before, before_heap) = choose|steps: nat, before: VmView, before_heap: Heap|
            {
                &&& steps < Vm::budget(Some(2))
                &&& #[trigger] Vm::runs(pre, pre_heap, unit, context, steps, before, &before_heap)
                &&& Vm::step_post(
                    before,
                    &before_heap,
                    unit,
                    context,
                    Vm::stopped(result),
                    post,
                    post_heap,
                )
            };
        if steps == 0 {
            lemma_step_pushes_literal(
                before,
                &before_heap,
                unit,
                context,
                Vm::stopped(result),
                post,
                post_heap,
            );
        } else {
            lemma_one_step_run(pre, pre_heap, unit, context, before, &before_heap);
            lemma_step_pops(
                before,
                &before_heap,
                unit,
                context,
                Vm::stopped(result),
                post,
                post_heap,
            );
        }
    }
}

/// A run of one instruction that pushes a primitive value leaves the value
/// pushed.
pub proof fn lemma_one_step_run(
    pre: VmView,
    pre_heap: &Heap,
    unit: &CompilationUnit,
    context: &Context,
    post: VmView,
    post_heap: &Heap,
)
    requires
        !pre.exited,
        pre.ip < unit.instructions().len(),
        pre.ip < usize::MAX,
        literal(unit.instructions()[pre.ip as int]) is Some,
        Vm::runs(pre, pre_heap, unit, context, 1, post, post_heap),
    ensures
        post == (VmView {
            ip: (pre.ip + 1) as usize,
            stack: pre.stack.push(literal(unit.instructions()[pre.ip as int])->0),
            ..pre
        }),
        post_heap@ == pre_heap@,
{
    reveal_with_fuel(Vm::runs, 2);
    let (first, first_heap) = choose|before: VmView, before_heap: Heap|
        {
            &&& Vm::runs(pre, pre_heap, unit, context, 0, before, &before_heap)
            &&& #[trigger] Vm::step_post(
                before,
                &before_heap,
                unit,
                context,
                Ok(None),
                post,
                post_heap,
            )
        };
    lemma_step_pushes_literal(first, &first_heap, unit, context, Ok(None), post, post_heap);
}

/// A `return` succeeds only from a frame that holds exactly one value: the
/// return value.
pub proof fn lemma_return_from_one_value(pre: VmView, result: Result<(), VmError>, post: VmView)
    requires
        Vm::return_post(pre, result, post),
        result is Ok,
    ensures
        pre.frame() == 1,
        post.stack == pre.stack,
        post.stack.len() > 0 && post.peek(0) == pre.peek(0),
{
}

/// Arithmetic on two integers gives the mathematical result where that is
/// an integer of the machine. Where it is not, addition and multiplication
/// fail with an overflow, subtraction with an underflow and division with a
/// division by zero.
pub proof fn lemma_integer_arithmetic(
    pre: VmView,
    heap: &Heap,
    context: &Context,
    op: NumericOp,
    a: i64,
    b: i64,
    result: Result<Option<Request>, VmError>,
    post: VmView,
)
    requires
        pre.frame() >= 2,
        pre.peek(1) == Value::Integer(a),
        pre.peek(0) == Value::Integer(b),
        Vm::numeric_post(pre, heap, context, op, result, post),
    ensures
        match exact_result(op, a as int, b as int) {
            Some(exact) => if i64::MIN <= exact <= i64::MAX {
                result == Ok::<Option<Request>, VmError>(None) && post == pre.replaced(
                    2,
                    Value::Integer(exact as i64),
                )
            } else {
                result == Err::<Option<Request>, VmError>(op.spec_error())
            },
            None => op == NumericOp::Div && b == 0 && result == Err::<Option<Request>, VmError>(
                VmError::DivideByZero,
            ),
        },
        op == NumericOp::Add && a == i64::MAX && b > 0 ==> result == Err::<
            Option<Request>,
            VmError,
        >(VmError::Overflow),
        op == NumericOp::Add && a == i64::MIN && b < 0 ==> result == Err::<
            Option<Request>,
            VmError,
        >(VmError::Overflow),
        op == NumericOp::Sub && a == i64::MIN && b > 0 ==> result == Err::<
            Option<Request>,
            VmError,
        >(VmError::Underflow),
        op == NumericOp::Sub && a == i64::MAX && b < 0 ==> result == Err::<
            Option<Request>,
            VmError,
        >(VmError::Underflow),
        op == NumericOp::Mul && (a == i64::MAX || a == i64::MIN) && (b > 1 || b < -1)
            ==> result == Err::<Option<Request>, VmError>(VmError::Overflow),
        op == NumericOp::Div && b == 0 ==> result == Err::<Option<Request>, VmError>(
            VmError::DivideByZero,
        ),
{
    if op == NumericOp::Mul && (a == i64::MAX || a == i64::MIN) && (b > 1 || b < -1) {
        assert(a * b > i64::MAX || a * b < i64::MIN) by (nonlinear_arith)
            requires
                a == i64::MAX || a == i64::MIN,
                b > 1 || b < -1,
                i64::MIN <= b <= i64::MAX,
        ;
    }
}

/// A result of arithmetic on double-precision numbers that is infinite or
/// no number fails as the same operation on integers fails when it leaves
/// their range. Any other result is pushed.
pub proof fn lemma_float_arithmetic(
    pre: VmView,
    op: NumericOp,
    value: Float,
    result: Result<(), VmError>,
    post: VmView,
)
    requires
        Vm::finish_float_post(pre, op, value, result, post),
    ensures
        value.spec_is_nan() || !value.spec_is_finite() ==> result == Err::<(), VmError>(
            op.spec_error(),
        ),
        value.spec_is_finite() ==> result is Ok && post.stack == pre.stack.push(
            Value::Float(value),
        ),
{
}

/// A string compares equal to the interned string with the same text,
/// whichever of the two comes first.
pub proof fn lemma_static_string_equality(
    heap: &Heap,
    unit: &CompilationUnit,
    string: Shared,
    interned: StaticString,
)
    requires
        heap.strings.readable(string),
        interned.slot < unit.strings().len(),
        heap.strings.value(string)@ == unit.strings()[interned.slot as int],
    ensures
        spec_value_ptr_eq(heap, unit, Value::String(string), Value::StaticString(interned)) == Ok::<
            bool,
            VmError,
        >(true),
        spec_value_ptr_eq(heap, unit, Value::StaticString(interned), Value::String(string)) == Ok::<
            bool,
            VmError,
        >(true),
{
}

/// Two interned strings of a unit in which each text has one slot are
/// equal exactly if they have the same text.
pub proof fn lemma_interned_strings_equal_by_text(
    heap: &Heap,
    unit: &CompilationUnit,
    a: StaticString,
    b: StaticString,
)
    requires
        unit.interned(),
        a.slot < unit.strings().len(),
        b.slot < unit.strings().len(),
    ensures
        spec_value_ptr_eq(heap, unit, Value::StaticString(a), Value::StaticString(b)) == Ok::<
            bool,
            VmError,
        >(unit.strings()[a.slot as int] == unit.strings()[b.slot as int]),
{
    if a.slot < b.slot {
        assert(unit.strings()[a.slot as int] != unit.strings()[b.slot as int]);
    } else if b.slot < a.slot {
        assert(unit.strings()[b.slot as int] != unit.strings()[a.slot as int]);
    }
}

/// Whether a value is a primitive that equals itself: the unit value, a
/// boolean, a character, an integer, or a double-precision number that is
/// a number.
pub open spec fn is_reflexive_primitive(value: Value) -> bool {
    match value {
        Value::Unit => true,
        Value::Bool(_) => true,
        Value::Char(_) => true,
        Value::Integer(_) => true,
        Value::Float(float) => !float.spec_is_nan(),
        _ => false,
    }
}

/// Equality is reflexive on primitives.
pub proof fn lemma_eq_reflexive_on_primitives(heap: &Heap, unit: &CompilationUnit, value: Value)
    requires
        is_reflexive_primitive(value),
    ensures
        spec_value_ptr_eq(heap, unit, value, value) == Ok::<bool, VmError>(true),
{
}

/// Going back to the frame of the caller keeps the stack, the watermark and
/// the call frames fitting together.
pub proof fn lemma_unwinding_keeps_frames(pre: VmView, post: VmView)
    requires
        pre.wf(),
        pre.frames.len() > 0 ==> {
            &&& post.frames == pre.frames.drop_last()
            &&& post.top == pre.frames.last().stack_top
        },
        pre.frames.len() == 0 ==> post.frames == pre.frames && post.top == pre.top,
        post.stack.len() >= pre.top,
    ensures
        post.wf(),
{
    if pre.frames.len() > 0 {
        let last = pre.frames.len() - 1;
        assert(pre.frames[last] == pre.frames.last());
        assert forall|i: int, j: int| 0 <= i <= j < post.frames.len() implies (
        #[trigger] post.frames[i]).stack_top <= (#[trigger] post.frames[j]).stack_top by {
            assert(post.frames[i] == pre.frames[i]);
            assert(post.frames[j] == pre.frames[j]);
        }
        if post.frames.len() > 0 {
            assert(post.frames[0] == pre.frames[0]);
            assert(post.frames.last() == pre.frames[last - 1]);
            assert(pre.frames[last - 1].stack_top <= pre.frames[last].stack_top);
        } else {
            assert(pre.frames[0].stack_top == 0);
        }
    }
}

/// Entering a call frame keeps the stack, the watermark and the call frames
/// fitting together.
pub proof fn lemma_calling_keeps_frames(pre: VmView, post: VmView, ip: usize)
    requires
        pre.wf(),
        post.frames == pre.frames.push(CallFrame { ip, stack_top: pre.top }),
        pre.top <= post.top <= post.stack.len(),
    ensures
        post.wf(),
{
    assert forall|i: int, j: int| 0 <= i <= j < post.frames.len() implies (
    #[trigger] post.frames[i]).stack_top <= (#[trigger] post.frames[j]).stack_top by {
        if j < pre.frames.len() {
            assert(post.frames[i] == pre.frames[i]);
            assert(post.frames[j] == pre.frames[j]);
        } else if i < pre.frames.len() {
            assert(post.frames[i] == pre.frames[i]);
            assert(pre.frames[i].stack_top <= pre.frames[pre.frames.len() - 1].stack_top);
        }
    }
    if pre.frames.len() > 0 {
        assert(post.frames[0] == pre.frames[0]);
    }
}

/// An instruction that succeeds keeps the stack, the watermark and the call
/// frames fitting together, and makes the machine exit only by a `return`
/// from the outermost call, after which the stack holds the return value
/// and nothing else.
#[verifier::rlimit(80)]
pub proof fn lemma_inst_keeps_frames(
    inst: Inst,
    pre: VmView,
    pre_heap: &Heap,
    unit: &CompilationUnit,
    context: &Context,
    inner: Result<Option<Request>, VmError>,
    post: VmView,
    post_heap: &Heap,
    update_ip: bool,
)
    requires
        pre.wf(),
        !pre.exited,
        inner is Ok,
        Vm::inst_post(inst, pre, pre_heap, unit, context, inner, post, post_heap, update_ip),
    ensures
        post.wf(),
        post.exited ==> {
            &&& inst == Inst::Return || inst == Inst::ReturnUnit
            &&& pre.frames.len() == 0
            &&& post.frames.len() == 0
            &&& post.stack.len() == 1
            &&& inst == Inst::Return ==> post.stack == pre.stack
            &&& inst == Inst::ReturnUnit ==> post.stack == seq![Value::Unit]
        },
{
    match inst {
        Inst::Return => {
            lemma_unwinding_keeps_frames(pre, post);
        },
        Inst::ReturnUnit => {
            if post.exited {
                assert(post.stack =~= seq![Value::Unit]);
            }
            lemma_unwinding_keeps_frames(pre, post);
        },
        Inst::Select { len } => {
            lemma_select_stays_in_frame(
                pre_heap.futures@,
                pre.stack,
                pre.top as nat,
                0,
                len as nat,
                Seq::empty(),
            );
        },
        Inst::Call { hash, args } => {
            if post.frames != pre.frames {
                lemma_calling_keeps_frames(pre, post, pre.ip);
            }
        },
        Inst::CallInstance { hash, args } => {
            if post.frames != pre.frames {
                lemma_calling_keeps_frames(pre, post, pre.ip);
            }
        },
        Inst::CallFn { args } => {
            if post.frames != pre.frames {
                lemma_calling_keeps_frames(pre, post, pre.ip);
            }
        },
        Inst::MatchObject { object_like, slot, exact } => {},
        _ => {},
    }
}

/// A `select` pops within the frame.
pub proof fn lemma_select_stays_in_frame(
    futures: Seq<Cell<Future>>,
    stack: Seq<Value>,
    top: nat,
    from: nat,
    len: nat,
    pending: Seq<Pending>,
)
    requires
        top <= stack.len(),
        select_scan(futures, stack, top, from, len, pending) is Ok,
    ensures
        top <= select_scan(futures, stack, top, from, len, pending)->Ok_0.1.len(),
    decreases len - from,
{
    if from < len {
        match stack.last() {
            Value::Future(shared) => {
                if futures[shared.index as int].value->0.completed {
                    lemma_select_stays_in_frame(
                        futures,
                        stack.drop_last(),
                        top,
                        from + 1,
                        len,
                        pending,
                    );
                } else {
                    lemma_select_stays_in_frame(
                        held(futures, shared.index),
                        stack.drop_last(),
                        top,
                        from + 1,
                        len,
                        pending.push(
                            Pending {
                                index: from as usize,
                                future: shared,
                                guard: RawMut { index: shared.index },
                            },
                        ),
                    );
                }
            },
            _ => {},
        }
    }
}

/// A machine that goes on in the same frame, with no value of the frame
/// below the watermark, keeps the stack, the watermark and the call frames
/// fitting together.
pub proof fn lemma_same_frame_keeps_frames(pre: VmView, post: VmView)
    requires
        pre.wf(),
        post.top == pre.top,
        post.frames == pre.frames,
        post.stack.len() >= pre.top,
    ensures
        post.wf(),
{
}

/// What the driver reports back keeps the stack, the watermark and the call
/// frames fitting together, whether the machine takes it or fails.
pub proof fn lemma_finish_keeps_frames(
    pre: VmView,
    pre_heap: &Heap,
    post: VmView,
    post_heap: &Heap,
    op: NumericOp,
    float: Float,
    offset: usize,
    value: Value,
    parts: Seq<crate::text::PartView>,
    texts: Seq<Seq<char>>,
    guard: RawMut,
    pending: Seq<Pending>,
    branch: usize,
    result: Result<(), VmError>,
)
    requires
        pre.wf(),
        ({
            ||| Vm::finish_float_post(pre, op, float, result, post)
            ||| Vm::finish_float_assign_post(pre, op, float, offset, result, post)
            ||| Vm::finish_assign_post(pre, offset, value, result, post)
            ||| Vm::finish_string_concat_post(pre, pre_heap, parts, texts, result, post, post_heap)
            ||| Vm::finish_await_post(pre, pre_heap, guard, value, post, post_heap)
            ||| Vm::finish_select_post(
                pre,
                pre_heap,
                pending,
                branch,
                value,
                result,
                post,
                post_heap,
            )
        }),
    ensures
        post.wf(),
{
}

/// A step that succeeds keeps the watermark and the call frames fitting
/// together. Where it makes the machine exit, the stack then holds one
/// value, the return value, and nothing else.
pub proof fn lemma_step_keeps_frames(
    pre: VmView,
    pre_heap: &Heap,
    unit: &CompilationUnit,
    context: &Context,
    result: Result<Option<VmHalt>, VmError>,
    post: VmView,
    post_heap: &Heap,
)
    requires
        pre.wf(),
        !pre.exited,
        result is Ok,
        Vm::step_post(pre, pre_heap, unit, context, result, post, post_heap),
    ensures
        post.wf(),
        result == Ok::<Option<VmHalt>, VmError>(Some(VmHalt::Exited)) <==> post.exited,
        post.exited ==> post.stack.len() == 1 && post.top == 0,
{
    reveal(Vm::step_post);
    let inst = unit.instructions()[pre.ip as int];
    let (inner, after, update_ip) = choose|
        inner: Result<Option<Request>, VmError>,
        after: VmView,
        update_ip: bool,
    |
        {
            &&& #[trigger] Vm::inst_post(
                inst,
                pre,
                pre_heap,
                unit,
                context,
                inner,
                after,
                post_heap,
                update_ip,
            )
            &&& match inner {
                Err(error) => result == Err::<Option<VmHalt>, VmError>(error),
                Ok(request) => if update_ip && after.ip == usize::MAX {
                    result == Err::<Option<VmHalt>, VmError>(VmError::IpOutOfBounds)
                } else {
                    &&& post == (VmView {
                        ip: if update_ip {
                            (after.ip + 1) as usize
                        } else {
                            after.ip
                        },
                        ..after
                    })
                    &&& result == Ok::<Option<VmHalt>, VmError>(
                        Vm::halt_after(inst, request, after.exited),
                    )
                },
            }
        };
    lemma_inst_keeps_frames(inst, pre, pre_heap, unit, context, inner, after, post_heap, update_ip);
}

/// A run of a machine that has not exited keeps the watermark and the call
/// frames fitting together, and does not make the machine exit.
pub proof fn lemma_run_keeps_frames(
    pre: VmView,
    pre_heap: &Heap,
    unit: &CompilationUnit,
    context: &Context,
    steps: nat,
    post: VmView,
    post_heap: &Heap,
)
    requires
        pre.wf(),
        !pre.exited,
        Vm::runs(pre, pre_heap, unit, context, steps, post, post_heap),
    ensures
        post.wf(),
        !post.exited,
    decreases steps,
{
    if steps > 0 {
        let (before, before_heap) = choose|before: VmView, before_heap: Heap|
            {
                &&& Vm::runs(pre, pre_heap, unit, context, (steps - 1) as nat, before, &before_heap)
                &&& #[trigger] Vm::step_post(
                    before,
                    &before_heap,
                    unit,
                    context,
                    Ok(None),
                    post,
                    post_heap,
                )
            };
        lemma_run_keeps_frames(pre, pre_heap, unit, context, (steps - 1) as nat, before, &before_heap);
        lemma_step_keeps_frames(before, &before_heap, unit, context, Ok(None), post, post_heap);
    }
}

/// When a machine that has not exited runs until its program returns, its
/// stack holds exactly the return value. Once that value is taken, the
/// stack is empty.
pub proof fn lemma_completion_balances_stack<T: FromValue>(
    pre: VmView,
    pre_heap: &Heap,
    unit: &CompilationUnit,
    context: &Context,
    limit: Option<usize>,
    between: VmView,
    between_heap: &Heap,
    decoded: Result<T, VmError>,
    post: VmView,
)
    requires
        pre.wf(),
        !pre.exited,
        Vm::run_for_post(
            pre,
            pre_heap,
            unit,
            context,
            limit,
            Ok(VmHalt::Exited),
            between,
            between_heap,
        ),
        Vm::pop_decode_post(between, decoded, post),
    ensures
        between.stack.len() == 1,
        between.top == 0,
        decoded is Ok ==> post.stack.len() == 0,
        decoded is Err ==> decoded matches Err(VmError::StackConversionError { .. }),
{
    let (steps, before, before_heap) = choose|steps: nat, before: VmView, before_heap: Heap|
        {
            &&& steps < Vm::budget(limit)
            &&& #[trigger] Vm::runs(pre, pre_heap, unit, context, steps, before, &before_heap)
            &&& Vm::step_post(
                before,
                &before_heap,
                unit,
                context,
                Vm::stopped(Ok(VmHalt::Exited)),
                between,
                between_heap,
            )
        };
    lemma_run_keeps_frames(pre, pre_heap, unit, context, steps, before, &before_heap);
    lemma_step_keeps_frames(
        before,
        &before_heap,
        unit,
        context,
        Ok(Some(VmHalt::Exited)),
        between,
        between_heap,
    );
}

/// The instructions `!=` and `==` give opposite answers on the same two
/// operands, where both have an answer.
pub proof fn lemma_neq_negates_eq(
    pre: VmView,
    heap: &Heap,
    unit: &CompilationUnit,
    eq: Result<(), VmError>,
    after_eq: VmView,
    neq: Result<(), VmError>,
    after_neq: VmView,
)
    requires
        distinct_object_keys(heap),
        Vm::eq_post(pre, heap, unit, eq, after_eq),
        Vm::neq_post(pre, heap, unit, neq, after_neq),
        eq is Ok,
        neq is Ok,
    ensures
        exists|equal: bool|
            {
                &&& after_eq == #[trigger] pre.replaced(2, Value::Bool(equal))
                &&& after_neq == pre.replaced(2, Value::Bool(!equal))
            },
{
    lemma_eq_agrees(heap, unit, pre.peek(0), pre.peek(1));
    let equal = spec_value_ptr_eq(heap, unit, pre.peek(0), pre.peek(1))->Ok_0;
    assert(after_eq == pre.replaced(2, Value::Bool(equal)));
}

/// On values of which every cell that can be reached can be read, the
/// instructions `==` and `!=` succeed and give opposite answers, unless the
/// comparison goes too deep.
pub proof fn lemma_neq_negates_eq_on_readable_values(
    pre: VmView,
    heap: &Heap,
    unit: &CompilationUnit,
    eq: Result<(), VmError>,
    after_eq: VmView,
    neq: Result<(), VmError>,
    after_neq: VmView,
)
    requires
        pre.frame() >= 2,
        distinct_object_keys(heap),
        heap_reads(heap, unit),
        reads(heap, unit, pre.peek(0)),
        reads(heap, unit, pre.peek(1)),
        Vm::eq_post(pre, heap, unit, eq, after_eq),
        Vm::neq_post(pre, heap, unit, neq, after_neq),
        eq != Err::<(), VmError>(VmError::CyclicValue),
        neq != Err::<(), VmError>(VmError::CyclicValue),
    ensures
        eq is Ok,
        neq is Ok,
        exists|equal: bool|
            {
                &&& after_eq == #[trigger] pre.replaced(2, Value::Bool(equal))
                &&& after_neq == pre.replaced(2, Value::Bool(!equal))
            },
{
    lemma_eq_symmetric_on_readable_values(heap, unit, pre.peek(0), pre.peek(1));
    lemma_neq_negates_eq(pre, heap, unit, eq, after_eq, neq, after_neq);
}

/// The entries that are built from keys and values have each key once.
pub proof fn lemma_built_entries_distinct(keys: Seq<Seq<char>>, stack: Seq<Value>, count: nat)
    ensures
        distinct_keys(built_entries(keys, stack, count)),
    decreases count,
{
    if count > 0 {
        lemma_built_entries_distinct(keys, stack, (count - 1) as nat);
        lemma_with_entry_distinct(
            built_entries(keys, stack, (count - 1) as nat),
            keys[count - 1],
            stack[stack.len() - count],
        );
    }
}

/// An instruction that succeeds leaves every object of the heap with each
/// of its keys once.
pub proof fn lemma_inst_keeps_distinct_keys(
    inst: Inst,
    pre: VmView,
    pre_heap: &Heap,
    unit: &CompilationUnit,
    context: &Context,
    inner: Result<Option<Request>, VmError>,
    post: VmView,
    post_heap: &Heap,
    update_ip: bool,
)
    requires
        distinct_object_keys(pre_heap),
        inner is Ok,
        Vm::inst_post(inst, pre, pre_heap, unit, context, inner, post, post_heap, update_ip),
    ensures
        distinct_object_keys(post_heap),
{
    match inst {
        Inst::Object { slot } => {
            let keys = unit.object_keys()[slot as int];
            lemma_built_entries_distinct(keys, pre.stack, keys.len());
            assert forall|i: int|
                0 <= i < post_heap.objects@.len() && (#[trigger] post_heap.objects@[i]).value
                    is Some implies distinct_keys(post_heap.objects@[i].value->0@) by {
                if i < pre_heap.objects@.len() {
                    assert(post_heap.objects@[i] == post_heap.objects@.drop_last()[i]);
                    assert(pre_heap.objects@[i].value is Some);
                }
            }
        },
        Inst::IndexSet => {
            match pre.peek(0) {
                Value::Object(shared) => {
                    if post_heap@ != pre_heap@ {
                        let key = text_of(pre_heap, unit, pre.peek(1))->0->Ok_0;
                        lemma_with_entry_distinct(
                            pre_heap.objects.value(shared)@,
                            key,
                            pre.peek(2),
                        );
                        assert(pre_heap.objects@[shared.index as int].value is Some);
                        assert forall|i: int|
                            0 <= i < post_heap.objects@.len() && (
                            #[trigger] post_heap.objects@[i]).value is Some implies distinct_keys(
                            post_heap.objects@[i].value->0@,
                        ) by {
                            if i != shared.index {
                                assert(pre_heap.objects@[i].value is Some);
                            }
                        }
                    }
                },
                _ => {},
            }
        },
        _ => {},
    }
}

/// A step that succeeds leaves every object of the heap with each of its
/// keys once.
pub proof fn lemma_step_keeps_distinct_keys(
    pre: VmView,
    pre_heap: &Heap,
    unit: &CompilationUnit,
    context: &Context,
    result: Result<Option<VmHalt>, VmError>,
    post: VmView,
    post_heap: &Heap,
)
    requires
        distinct_object_keys(pre_heap),
        result is Ok,
        Vm::step_post(pre, pre_heap, unit, context, result, post, post_heap),
    ensures
        distinct_object_keys(post_heap),
{
    reveal(Vm::step_post);
    if !pre.exited {
        let inst = unit.instructions()[pre.ip as int];
        let (inner, after, update_ip) = choose|
            inner: Result<Option<Request>, VmError>,
            after: VmView,
            update_ip: bool,
        |
            {
                &&& #[trigger] Vm::inst_post(
                    inst,
                    pre,
                    pre_heap,
                    unit,
                    context,
                    inner,
                    after,
                    post_heap,
                    update_ip,
                )
                &&& match inner {
                    Err(error) => result == Err::<Option<VmHalt>, VmError>(error),
                    Ok(request) => if update_ip && after.ip == usize::MAX {
                        result == Err::<Option<VmHalt>, VmError>(VmError::IpOutOfBounds)
                    } else {
                        &&& post == (VmView {
                            ip: if update_ip {
                                (after.ip + 1) as usize
                            } else {
                                after.ip
                            },
                            ..after
                        })
                        &&& result == Ok::<Option<VmHalt>, VmError>(
                            Vm::halt_after(inst, request, after.exited),
                        )
                    },
                }
            };
        lemma_inst_keeps_distinct_keys(
            inst,
            pre,
            pre_heap,
            unit,
            context,
            inner,
            after,
            post_heap,
            update_ip,
        );
    }
}

/// A run leaves every object of the heap with each of its keys once.
pub proof fn lemma_run_keeps_distinct_keys(
    pre: VmView,
    pre_heap: &Heap,
    unit: &CompilationUnit,
    context: &Context,
    steps: nat,
    post: VmView,
    post_heap: &Heap,
)
    requires
        distinct_object_keys(pre_heap),
        Vm::runs(pre, pre_heap, unit, context, steps, post, post_heap),
    ensures
        distinct_object_keys(post_heap),
    decreases steps,
{
    if steps > 0 {
        let (before, before_heap) = choose|before: VmView, before_heap: Heap|
            {
                &&& Vm::runs(pre, pre_heap, unit, context, (steps - 1) as nat, before, &before_heap)
                &&& #[trigger] Vm::step_post(
                    before,
                    &before_heap,
                    unit,
                    context,
                    Ok(None),
                    post,
                    post_heap,
                )
            };
        lemma_run_keeps_distinct_keys(
            pre,
            pre_heap,
            unit,
            context,
            (steps - 1) as nat,
            before,
            &before_heap,
        );
        lemma_step_keeps_distinct_keys(before, &before_heap, unit, context, Ok(None), post, post_heap);
    }
}

/// What a `select` finds to wait for: each future has the position at which
/// the `select` popped it, counted from the top of the stack, and no two
/// have the same.
pub open spec fn in_pop_order(whole: Seq<Value>, pending: Seq<Pending>, popped: nat) -> bool {
    &&& forall|k: int|
        0 <= k < pending.len() ==> {
            &&& (#[trigger] pending[k]).index < popped
            &&& pending[k].index < whole.len()
            &&& whole[whole.len() - 1 - pending[k].index] == Value::Future(
                pending[k].future,
            )
            &&& pending[k].guard.index == pending[k].future.index
        }
    &&& forall|k: int, l: int|
        0 <= k < l < pending.len() ==> (#[trigger] pending[k]).index < (
        #[trigger] pending[l]).index
}

/// Each future that a `select` waits for is known by the position at which
/// it was popped, whichever of the popped futures had completed before.
pub proof fn lemma_select_in_pop_order(
    whole: Seq<Value>,
    futures: Seq<Cell<Future>>,
    stack: Seq<Value>,
    top: nat,
    from: nat,
    len: nat,
    pending: Seq<Pending>,
)
    requires
        from <= len <= usize::MAX,
        from <= whole.len(),
        stack == whole.take(whole.len() - from),
        in_pop_order(whole, pending, from),
        select_scan(futures, stack, top, from, len, pending) is Ok,
    ensures
        in_pop_order(whole, select_scan(futures, stack, top, from, len, pending)->Ok_0.2, len),
        select_scan(futures, stack, top, from, len, pending)->Ok_0.1 == whole.take(
            whole.len() - len,
        ),
        len <= whole.len(),
    decreases len - from,
{
    if from < len {
        assert(stack.len() > 0);
        assert(stack.last() == whole[whole.len() - 1 - from]);
        assert(stack.drop_last() =~= whole.take(whole.len() - (from + 1)));
        match stack.last() {
            Value::Future(shared) => {
                if futures[shared.index as int].value->0.completed {
                    lemma_select_in_pop_order(
                        whole,
                        futures,
                        stack.drop_last(),
                        top,
                        from + 1,
                        len,
                        pending,
                    );
                } else {
                    let entry = Pending {
                        index: from as usize,
                        future: shared,
                        guard: RawMut { index: shared.index },
                    };
                    lemma_select_in_pop_order(
                        whole,
                        held(futures, shared.index),
                        stack.drop_last(),
                        top,
                        from + 1,
                        len,
                        pending.push(entry),
                    );
                }
            },
            _ => {},
        }
    }
}

/// After a `select`, the branch register holds the position at which the
/// future that completed first was popped.
pub proof fn lemma_select_branch_is_pop_index(
    pre: VmView,
    pre_heap: &Heap,
    len: usize,
    request: Result<Option<Request>, VmError>,
    between: VmView,
    between_heap: &Heap,
    branch: usize,
    value: Value,
    result: Result<(), VmError>,
    post: VmView,
    post_heap: &Heap,
)
    requires
        Vm::select_post(pre, pre_heap, len, request, between, between_heap),
        request matches Ok(Some(Request::Select { futures })) && Vm::finish_select_post(
            between,
            between_heap,
            futures@,
            branch,
            value,
            result,
            post,
            post_heap,
        ),
        result is Ok,
    ensures
        post.branch == Some(branch),
        post.stack == pre.stack.take(pre.stack.len() - len).push(value),
        branch < len,
        pre.stack[pre.stack.len() - 1 - branch] is Future,
{
    let scan = select_scan(
        pre_heap.futures@,
        pre.stack,
        pre.top as nat,
        0,
        len as nat,
        Seq::empty(),
    );
    assert(pre.stack.take(pre.stack.len() - 0) =~= pre.stack);
    lemma_select_in_pop_order(
        pre.stack,
        pre_heap.futures@,
        pre.stack,
        pre.top as nat,
        0,
        len as nat,
        Seq::empty(),
    );
    let pending = scan->Ok_0.2;
    lemma_branch_of(pending, branch);
}

/// The future that [`branch_of`] finds is one of the pending
/// futures and has the position that was asked for.
pub proof fn lemma_branch_of(pending: Seq<Pending>, branch: usize)
    ensures
        match branch_of(pending, branch) {
            Some(found) => exists|k: int|
                0 <= k < pending.len() && #[trigger] pending[k] == found && found.index == branch,
            None => forall|k: int| 0 <= k < pending.len() ==> (#[trigger] pending[k]).index != branch,
        },
    decreases pending.len(),
{
    if pending.len() > 0 {
        let front = pending.drop_last();
        lemma_branch_of(front, branch);
        match branch_of(front, branch) {
            Some(found) => {
                let k = choose|k: int|
                    0 <= k < front.len() && #[trigger] front[k] == found && found.index == branch;
                assert(pending[k] == found);
            },
            None => {
                assert forall|k: int| 0 <= k < front.len() implies (#[trigger] pending[k]).index
                    != branch by {
                    assert(front[k].index != branch);
                }
                if pending.last().index == branch {
                    assert(pending[pending.len() - 1] == pending.last());
                }
            },
        }
    }
}

} // verus!
