use std::rc::Rc;

use runestick::context::Context;
use runestick::error::VmError;
use runestick::hash;
use runestick::heap::Heap;
use runestick::inst::Inst;
use runestick::stack::StackError;
use runestick::stream::{GeneratorState, Stream, VmExecution};
use runestick::task::TaskState;
use runestick::unit::{CompilationUnit, UnitFnCall, UnitFnInfo, UnitFnKind, UnitFnSignature};
use runestick::value::{Value, ValueError, ValueTypeInfo};
use runestick::vm::{Vm, VmHalt};

fn unit_of(instructions: &[Inst]) -> CompilationUnit {
    let mut unit = CompilationUnit::new();
    for inst in instructions {
        unit.push_instruction(*inst);
    }
    unit
}

fn program() -> CompilationUnit {
    // fn main(a, b) { a * b }
    let mut unit = unit_of(&[Inst::Mul, Inst::Return]);
    unit.new_function(
        hash::Hash::function(&["main"]),
        UnitFnInfo {
            kind: UnitFnKind::Offset { offset: 0, call: UnitFnCall::Immediate },
            signature: UnitFnSignature { args: 2 },
        },
    );
    unit.new_function(
        hash::Hash::function(&["Pair"]),
        UnitFnInfo {
            kind: UnitFnKind::Tuple { ty: hash::Hash::of("Pair") },
            signature: UnitFnSignature { args: 2 },
        },
    );
    unit
}

#[test]
fn call_function_runs_a_function_to_completion() {
    let unit = Rc::new(program());
    let context = Rc::new(Context::new());
    let mut heap = Heap::new();
    let mut vm = Vm::new();
    vm.stack_mut().push(Value::Unit);
    let mut task = vm
        .call_function::<i64>(
            unit.clone(),
            context.clone(),
            &["main"],
            vec![Value::Integer(6), Value::Integer(7)],
        )
        .unwrap();
    assert_eq!(task.vm().ip(), 0);
    assert_eq!(
        task.vm().iter_stack_debug().clone(),
        vec![Value::Integer(6), Value::Integer(7)]
    );
    assert_eq!(task.unit().instruction_at(1), Some(Inst::Return));
    assert_eq!(task.context().option_types(), None);
    assert_eq!(task.run_to_completion(&mut heap, None), Ok(TaskState::Complete(42)));
    assert!(task.vm().stack().is_empty());
    assert!(task.vm().exited());
    task.finish();
    assert!(!vm.exited());
    assert_eq!(vm.ip(), 0);
}

#[test]
fn call_function_checks_the_function() {
    let unit = Rc::new(program());
    let context = Rc::new(Context::new());
    let mut vm = Vm::new();
    let missing = hash::Hash::function(&["nope"]);
    assert_eq!(
        vm.call_function::<i64>(unit.clone(), context.clone(), &["nope"], vec![]).err(),
        Some(VmError::MissingFunction { hash: missing })
    );
    assert_eq!(
        vm.call_function::<i64>(unit.clone(), context.clone(), &["main"], vec![Value::Unit]).err(),
        Some(VmError::ArgumentCountMismatch { actual: 1, expected: 2 })
    );
    assert_eq!(
        vm.call_function::<i64>(
            unit.clone(),
            context.clone(),
            &["Pair"],
            vec![Value::Unit, Value::Unit]
        )
        .err(),
        Some(VmError::MissingFunction { hash: hash::Hash::function(&["Pair"]) })
    );
}

#[test]
fn step_runs_one_instruction() {
    let unit = Rc::new(unit_of(&[Inst::Integer { number: 1 }, Inst::Return]));
    let context = Rc::new(Context::new());
    let mut heap = Heap::new();
    let mut vm = Vm::new();
    let mut task = vm.run::<i64>(unit, context);
    assert_eq!(task.step(&mut heap), Ok(TaskState::Pending(VmHalt::Limited)));
    assert_eq!(task.vm().ip(), 1);
    assert_eq!(task.step(&mut heap), Ok(TaskState::Complete(1)));
    assert_eq!(
        task.step(&mut heap),
        Err(VmError::StackError { error: StackError::StackEmpty })
    );
}

#[test]
fn completion_converts_the_return_value() {
    let unit = Rc::new(unit_of(&[Inst::Bool { value: true }, Inst::Return]));
    let context = Rc::new(Context::new());
    let mut heap = Heap::new();
    let mut vm = Vm::new();
    let mut task = vm.run::<i64>(unit.clone(), context.clone());
    assert_eq!(
        task.run_to_completion(&mut heap, None),
        Err(VmError::StackConversionError {
            error: ValueError::ExpectedInteger { actual: ValueTypeInfo::Bool },
        })
    );
    task.finish();
    let mut task = vm.run::<bool>(unit, context);
    assert_eq!(task.run_to_completion(&mut heap, Some(1)), Ok(TaskState::Pending(VmHalt::Limited)));
    assert_eq!(task.run_to_completion(&mut heap, Some(1)), Ok(TaskState::Complete(true)));
}

fn generator() -> Vm {
    Vm::new()
}

fn generator_unit() -> CompilationUnit {
    unit_of(&[
        Inst::Integer { number: 1 },
        Inst::Yield,
        Inst::Integer { number: 10 },
        Inst::Add,
        Inst::Yield,
        Inst::Pop,
        Inst::Integer { number: 3 },
        Inst::Return,
    ])
}

#[test]
fn stream_yields_then_completes() {
    let unit = generator_unit();
    let context = Context::new();
    let mut heap = Heap::new();
    let mut stream = Stream::new(generator());
    assert!(!stream.is_complete());
    // the value of the first resume is dropped
    assert_eq!(
        stream.resume(&mut heap, &unit, &context, Value::Integer(100), None),
        Ok(GeneratorState::Yielded(Value::Integer(1)))
    );
    // the value of a later resume is what the yield gives inside the program
    assert_eq!(
        stream.resume(&mut heap, &unit, &context, Value::Integer(5), None),
        Ok(GeneratorState::Yielded(Value::Integer(15)))
    );
    assert_eq!(
        stream.resume(&mut heap, &unit, &context, Value::Unit, None),
        Ok(GeneratorState::Complete(Value::Integer(3)))
    );
    assert!(stream.is_complete());
    assert_eq!(
        stream.resume(&mut heap, &unit, &context, Value::Unit, None),
        Err(VmError::GeneratorComplete)
    );
    assert_eq!(stream.proceed(&mut heap, &unit, &context, None), Err(VmError::GeneratorComplete));
    assert_eq!(stream.next(&mut heap, &unit, &context, None), Err(VmError::GeneratorComplete));
}

#[test]
fn stream_next_ends_with_none() {
    let unit = unit_of(&[
        Inst::Integer { number: 1 },
        Inst::Yield,
        Inst::Pop,
        Inst::Integer { number: 2 },
        Inst::Yield,
        Inst::Pop,
        Inst::ReturnUnit,
    ]);
    let context = Context::new();
    let mut heap = Heap::new();
    let mut stream = Stream::new(Vm::new());
    assert_eq!(stream.next(&mut heap, &unit, &context, None), Ok(Ok(Some(Value::Integer(1)))));
    assert_eq!(stream.next(&mut heap, &unit, &context, None), Ok(Ok(Some(Value::Integer(2)))));
    assert_eq!(stream.next(&mut heap, &unit, &context, None), Ok(Ok(None)));
    assert_eq!(stream.next(&mut heap, &unit, &context, None), Err(VmError::GeneratorComplete));
}

#[test]
fn stream_goes_on_after_a_limit() {
    let unit = generator_unit();
    let context = Context::new();
    let mut heap = Heap::new();
    let mut stream = Stream::new(Vm::new());
    assert_eq!(
        stream.resume(&mut heap, &unit, &context, Value::Unit, Some(1)),
        Ok(GeneratorState::Pending(VmHalt::Limited))
    );
    assert_eq!(
        stream.proceed(&mut heap, &unit, &context, Some(1)),
        Ok(GeneratorState::Yielded(Value::Integer(1)))
    );
    assert_eq!(
        stream.next(&mut heap, &unit, &context, Some(1)),
        Ok(Err(VmHalt::Limited))
    );
}

#[test]
fn stream_lives_in_a_heap_cell() {
    let unit = generator_unit();
    let context = Context::new();
    let mut heap = Heap::new();
    let shared = heap.streams.insert(Stream::new(Vm::new()));
    let (mut stream, guard) = heap.streams.lend(shared).unwrap();
    assert!(heap.streams.lend(shared).is_err());
    assert_eq!(
        stream.resume(&mut heap, &unit, &context, Value::Unit, None),
        Ok(GeneratorState::Yielded(Value::Integer(1)))
    );
    heap.streams.give_back(guard, stream);
    assert!(!heap.streams.get_ref(shared).unwrap().is_complete());
}

#[test]
fn execution_pops_what_was_yielded() {
    let unit = generator_unit();
    let context = Context::new();
    let mut heap = Heap::new();
    let mut execution = VmExecution::new(Vm::new());
    assert_eq!(
        execution.resume(&mut heap, &unit, &context, None),
        Ok(GeneratorState::Yielded(Value::Integer(1)))
    );
    assert!(execution.vm().stack().is_empty());
    execution.vm_mut().stack_mut().push(Value::Integer(1));
    assert_eq!(
        execution.resume(&mut heap, &unit, &context, Some(1)),
        Ok(GeneratorState::Pending(VmHalt::Limited))
    );
}

#[test]
fn failed_resume_leaves_the_stream_live() {
    let unit = unit_of(&[
        Inst::Integer { number: 1 },
        Inst::Yield,
        Inst::Not,
        Inst::Integer { number: 2 },
        Inst::Return,
    ]);
    let context = Context::new();
    let mut heap = Heap::new();
    let mut stream = Stream::new(Vm::new());
    assert_eq!(
        stream.resume(&mut heap, &unit, &context, Value::Unit, None),
        Ok(GeneratorState::Yielded(Value::Integer(1)))
    );
    assert!(stream.resume(&mut heap, &unit, &context, Value::Integer(5), None).is_err());
    assert!(!stream.is_complete());
    // the instruction that failed had popped the value of the resume
    let vm = stream.vm_mut().unwrap();
    assert_eq!(vm.ip(), 2);
    assert!(vm.stack().is_empty());
}
