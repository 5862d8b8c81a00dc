use runestick::context::{Context, Handler, OptionTypes, ResultTypes};
use runestick::error::{BinaryOp, UnaryOp, VmError};
use runestick::float::Float;
use runestick::hash;
use runestick::heap::{Future, Heap, TypedObject, TypedTuple};
use runestick::inst::{Inst, PanicReason};
use runestick::object::Object;
use runestick::protocol::Protocol;
use runestick::shared::{AccessError, RawMut, Shared};
use runestick::stack::StackError;
use runestick::text::{floats_of, ConcatPart};
use runestick::unit::{
    CompilationUnit, TypeInfo, UnitFnCall, UnitFnInfo, UnitFnKind, UnitFnSignature,
};
use runestick::value::{StaticString, Value, ValueError, ValueType, ValueTypeInfo};
use runestick::vm::{NumericOp, Pending, Request, Vm, VmHalt};

fn unit_of(instructions: &[Inst]) -> CompilationUnit {
    let mut unit = CompilationUnit::new();
    for inst in instructions {
        unit.push_instruction(*inst);
    }
    unit
}

struct Run {
    vm: Vm,
    heap: Heap,
    unit: CompilationUnit,
    context: Context,
}

impl Run {
    fn new(instructions: &[Inst]) -> Run {
        Run { vm: Vm::new(), heap: Heap::new(), unit: unit_of(instructions), context: Context::new() }
    }

    fn go(&mut self) -> Result<VmHalt, VmError> {
        self.vm.run_for(&mut self.heap, &self.unit, &self.context, None)
    }

    fn stack(&self) -> Vec<Value> {
        self.vm.iter_stack_debug().clone()
    }

    fn push(&mut self, value: Value) {
        self.vm.stack_mut().push(value);
    }
}

fn float(value: f64) -> Float {
    Float::from_bits(value.to_bits())
}

fn string(heap: &mut Heap, text: &str) -> Value {
    Value::String(heap.strings.insert(text.to_owned()))
}

fn object(heap: &mut Heap, entries: &[(&str, Value)]) -> Value {
    let mut object = Object::new();
    for (key, value) in entries {
        object.insert((*key).to_owned(), *value);
    }
    Value::Object(heap.objects.insert(object))
}

fn vector(heap: &mut Heap, values: &[Value]) -> Value {
    Value::Vec(heap.vecs.insert(values.to_vec()))
}

#[test]
fn integer_add_returns_seven() {
    let mut run = Run::new(&[
        Inst::Integer { number: 3 },
        Inst::Integer { number: 4 },
        Inst::Add,
        Inst::Return,
    ]);
    assert_eq!(run.go(), Ok(VmHalt::Exited));
    assert_eq!(run.stack(), vec![Value::Integer(7)]);
    assert_eq!(run.vm.pop_decode::<i64>(), Ok(7));
    assert!(run.vm.stack().is_empty());
}

#[test]
fn integer_add_overflows() {
    let mut run = Run::new(&[
        Inst::Integer { number: i64::MAX },
        Inst::Integer { number: 1 },
        Inst::Add,
        Inst::Return,
    ]);
    assert_eq!(run.go(), Err(VmError::Overflow));
}

#[test]
fn object_construction_pairs_first_key_with_top() {
    let mut run = Run::new(&[
        Inst::Integer { number: 2 },
        Inst::Integer { number: 1 },
        Inst::Object { slot: 0 },
        Inst::Return,
    ]);
    let slot = run.unit.new_static_object_keys(vec!["a".to_owned(), "b".to_owned()]);
    assert_eq!(slot, 0);
    assert_eq!(run.go(), Ok(VmHalt::Exited));
    let value = run.vm.pop_decode::<Value>().unwrap();
    let shared = match value {
        Value::Object(shared) => shared,
        other => panic!("not an object: {:?}", other),
    };
    let object = run.heap.objects.get_ref(shared).unwrap();
    assert_eq!(object.len(), 2);
    assert_eq!(object.get("a"), Some(Value::Integer(1)));
    assert_eq!(object.get("b"), Some(Value::Integer(2)));
    assert_eq!(object.key_at(0).map(|key| key.as_str()), Some("a"));
    assert_eq!(object.key_at(1).map(|key| key.as_str()), Some("b"));
    assert_eq!(object.key_at(2), None);
}

#[test]
fn select_reports_pop_order_index() {
    let mut run = Run::new(&[
        Inst::Select { len: 3 },
        Inst::JumpIfBranch { branch: 1, offset: 2 },
        Inst::Panic { reason: PanicReason::NotImplemented },
        Inst::Return,
    ]);
    let f0 = run.heap.futures.insert(Future { vm: None, completed: false });
    let f1 = run.heap.futures.insert(Future { vm: None, completed: false });
    let f2 = run.heap.futures.insert(Future { vm: None, completed: false });
    run.push(Value::Future(f0));
    run.push(Value::Future(f1));
    run.push(Value::Future(f2));
    let halt = run.go().unwrap();
    let pending = match halt {
        VmHalt::Request(Request::Select { futures }) => futures,
        other => panic!("no select: {:?}", other),
    };
    assert_eq!(
        pending,
        vec![
            Pending { index: 0, future: f2, guard: RawMut { index: f2.index } },
            Pending { index: 1, future: f1, guard: RawMut { index: f1.index } },
            Pending { index: 2, future: f0, guard: RawMut { index: f0.index } },
        ]
    );
    assert!(!run.heap.futures.is_writable(f1));
    assert_eq!(run.vm.ip(), 1);
    assert_eq!(run.vm.finish_select(&mut run.heap, pending, 1, Value::Integer(11)), Ok(()));
    assert_eq!(run.vm.branch(), Some(1));
    assert_eq!(run.stack(), vec![Value::Integer(11)]);
    assert!(run.heap.futures.get_ref(f1).unwrap().completed);
    assert!(!run.heap.futures.get_ref(f0).unwrap().completed);
    assert!(run.heap.futures.is_writable(f0));
    assert!(run.heap.futures.is_writable(f2));
    assert_eq!(run.go(), Ok(VmHalt::Exited));
    assert_eq!(run.vm.branch(), None);
    assert_eq!(run.vm.pop_decode::<i64>(), Ok(11));
}

#[test]
fn select_skips_completed_futures() {
    let mut run = Run::new(&[Inst::Select { len: 2 }]);
    let done = run.heap.futures.insert(Future { vm: None, completed: true });
    let open = run.heap.futures.insert(Future { vm: None, completed: false });
    run.push(Value::Future(open));
    run.push(Value::Future(done));
    let halt = run.vm.step(&mut run.heap, &run.unit, &run.context).unwrap();
    assert_eq!(
        halt,
        Some(VmHalt::Request(Request::Select {
            futures: vec![Pending { index: 1, future: open, guard: RawMut { index: open.index } }],
        }))
    );
    assert!(run.heap.futures.is_writable(done));
}

#[test]
fn select_of_completed_futures_does_nothing() {
    let mut run = Run::new(&[Inst::Select { len: 2 }]);
    let a = run.heap.futures.insert(Future { vm: None, completed: true });
    let b = run.heap.futures.insert(Future { vm: None, completed: true });
    run.push(Value::Integer(5));
    run.push(Value::Future(a));
    run.push(Value::Future(b));
    assert_eq!(run.vm.step(&mut run.heap, &run.unit, &run.context), Ok(None));
    assert_eq!(run.stack(), vec![Value::Integer(5)]);
    assert_eq!(run.vm.branch(), None);
}

#[test]
fn select_fails_on_the_same_future_twice() {
    let mut run = Run::new(&[Inst::Select { len: 2 }]);
    let a = run.heap.futures.insert(Future { vm: None, completed: false });
    run.push(Value::Future(a));
    run.push(Value::Future(a));
    assert_eq!(
        run.go(),
        Err(VmError::AccessError { error: AccessError::NotAccessibleMut })
    );
}

#[test]
fn finish_select_rejects_unknown_branch() {
    let mut run = Run::new(&[]);
    let a = run.heap.futures.insert(Future { vm: None, completed: false });
    let guard = run.heap.futures.acquire_mut(a).unwrap();
    let pending = vec![Pending { index: 0, future: a, guard }];
    assert_eq!(
        run.vm.finish_select(&mut run.heap, pending, 4, Value::Unit),
        Err(VmError::UnexpectedSelectBranch { branch: 4 })
    );
    assert!(run.heap.futures.is_writable(a));
    assert!(run.stack().is_empty());
}

#[test]
fn push_then_pop_gives_back_each_primitive() {
    let cases = [
        (Inst::Unit, Value::Unit),
        (Inst::Bool { value: true }, Value::Bool(true)),
        (Inst::Byte { b: 7 }, Value::Byte(7)),
        (Inst::Char { c: 'x' }, Value::Char('x')),
        (Inst::Integer { number: -5 }, Value::Integer(-5)),
        (Inst::Float { number: float(1.5) }, Value::Float(float(1.5))),
    ];
    for (inst, value) in cases {
        let mut run = Run::new(&[inst, Inst::Pop]);
        run.push(Value::Integer(99));
        assert_eq!(run.vm.step(&mut run.heap, &run.unit, &run.context), Ok(None));
        assert_eq!(run.stack(), vec![Value::Integer(99), value]);
        assert_eq!(run.vm.stack().peek(), Ok(value));
        assert_eq!(run.vm.step(&mut run.heap, &run.unit, &run.context), Ok(None));
        assert_eq!(run.stack(), vec![Value::Integer(99)]);
        assert_eq!(run.vm.ip(), 2);
    }
}

#[test]
fn return_needs_exactly_one_value_in_the_frame() {
    let mut run = Run::new(&[Inst::Integer { number: 1 }, Inst::Integer { number: 2 }, Inst::Return]);
    assert_eq!(
        run.go(),
        Err(VmError::StackError { error: StackError::CorruptedStackFrame })
    );
    let mut run = Run::new(&[Inst::Return]);
    assert_eq!(run.go(), Err(VmError::StackError { error: StackError::StackEmpty }));
}

#[test]
fn return_unit_needs_an_empty_frame() {
    let mut run = Run::new(&[Inst::ReturnUnit]);
    assert_eq!(run.go(), Ok(VmHalt::Exited));
    assert_eq!(run.stack(), vec![Value::Unit]);
    let mut run = Run::new(&[Inst::Unit, Inst::ReturnUnit]);
    assert_eq!(
        run.go(),
        Err(VmError::StackError { error: StackError::CorruptedStackFrame })
    );
}

#[test]
fn exited_machine_does_not_step() {
    let mut run = Run::new(&[Inst::ReturnUnit]);
    assert_eq!(run.go(), Ok(VmHalt::Exited));
    assert!(run.vm.exited());
    let ip = run.vm.ip();
    assert_eq!(
        run.vm.step(&mut run.heap, &run.unit, &run.context),
        Ok(Some(VmHalt::Exited))
    );
    assert_eq!(run.vm.ip(), ip);
    assert_eq!(run.stack(), vec![Value::Unit]);
}

#[test]
fn immediate_call_pushes_and_pops_a_frame() {
    // fn double(x) { x + x }; main: double(21)
    let key = hash::Hash::function(&["double"]);
    let mut run = Run::new(&[
        Inst::Integer { number: 21 },
        Inst::Call { hash: key, args: 1 },
        Inst::Return,
        // double:
        Inst::Copy { offset: 0 },
        Inst::Add,
        Inst::Return,
    ]);
    assert!(run.unit.new_function(
        key,
        UnitFnInfo {
            kind: UnitFnKind::Offset { offset: 3, call: UnitFnCall::Immediate },
            signature: UnitFnSignature { args: 1 },
        },
    ));
    assert_eq!(run.vm.step(&mut run.heap, &run.unit, &run.context), Ok(None));
    assert_eq!(run.vm.step(&mut run.heap, &run.unit, &run.context), Ok(None));
    assert_eq!(run.vm.ip(), 3);
    assert_eq!(run.vm.stack().stack_top(), 0);
    assert_eq!(run.go(), Ok(VmHalt::Exited));
    assert_eq!(run.vm.pop_decode::<i64>(), Ok(42));
    assert!(run.vm.stack().is_empty());
}

#[test]
fn call_frame_isolates_the_callers_values() {
    let key = hash::Hash::function(&["f"]);
    let mut run = Run::new(&[
        Inst::Integer { number: 1 },
        Inst::Integer { number: 2 },
        Inst::Call { hash: key, args: 1 },
        Inst::Return,
        // f: tries to pop two values but owns only one
        Inst::PopN { count: 2 },
        Inst::ReturnUnit,
    ]);
    run.unit.new_function(
        key,
        UnitFnInfo {
            kind: UnitFnKind::Offset { offset: 4, call: UnitFnCall::Immediate },
            signature: UnitFnSignature { args: 1 },
        },
    );
    assert_eq!(
        run.go(),
        Err(VmError::StackError { error: StackError::StackOutOfBounds })
    );
    assert_eq!(run.vm.stack().stack_top(), 1);
}

#[test]
fn call_checks_argument_count() {
    let key = hash::Hash::function(&["f"]);
    let mut run = Run::new(&[Inst::Call { hash: key, args: 2 }]);
    run.unit.new_function(
        key,
        UnitFnInfo {
            kind: UnitFnKind::Offset { offset: 0, call: UnitFnCall::Immediate },
            signature: UnitFnSignature { args: 1 },
        },
    );
    assert_eq!(
        run.go(),
        Err(VmError::ArgumentCountMismatch { actual: 2, expected: 1 })
    );
}

#[test]
fn call_of_unknown_function_fails() {
    let key = hash::Hash::function(&["nowhere"]);
    let mut run = Run::new(&[Inst::Call { hash: key, args: 0 }]);
    assert_eq!(run.go(), Err(VmError::MissingFunction { hash: key }));
}

#[test]
fn call_of_native_function_goes_to_the_driver() {
    let key = hash::Hash::function(&["print"]);
    let mut run = Run::new(&[Inst::Call { hash: key, args: 1 }, Inst::Return]);
    assert!(run.context.install_handler(key, Handler { id: 3 }));
    assert!(!run.context.install_handler(key, Handler { id: 4 }));
    run.push(Value::Integer(1));
    assert_eq!(
        run.go(),
        Ok(VmHalt::Request(Request::Call { handler: Handler { id: 3 }, args: 1 }))
    );
    assert_eq!(run.vm.ip(), 1);
    assert_eq!(run.stack(), vec![Value::Integer(1)]);
}

#[test]
fn call_constructs_typed_tuple() {
    let key = hash::Hash::function(&["Point"]);
    let ty = hash::Hash::of("Point");
    let mut run = Run::new(&[
        Inst::Integer { number: 1 },
        Inst::Integer { number: 2 },
        Inst::Call { hash: key, args: 2 },
        Inst::Return,
    ]);
    run.unit.new_function(
        key,
        UnitFnInfo { kind: UnitFnKind::Tuple { ty }, signature: UnitFnSignature { args: 2 } },
    );
    assert_eq!(run.go(), Ok(VmHalt::Exited));
    let shared = match run.stack()[0] {
        Value::TypedTuple(shared) => shared,
        other => panic!("no typed tuple: {:?}", other),
    };
    let tuple = run.heap.typed_tuples.get_ref(shared).unwrap();
    assert_eq!(tuple.ty, ty);
    assert_eq!(tuple.tuple, vec![Value::Integer(2), Value::Integer(1)]);
}

#[test]
fn async_call_makes_a_future_with_its_own_machine() {
    let key = hash::Hash::function(&["work"]);
    let mut run = Run::new(&[
        Inst::Integer { number: 1 },
        Inst::Integer { number: 2 },
        Inst::Call { hash: key, args: 2 },
        Inst::Await,
        Inst::Return,
        // work(a, b): a - b
        Inst::Sub,
        Inst::Return,
    ]);
    run.unit.new_function(
        key,
        UnitFnInfo {
            kind: UnitFnKind::Offset { offset: 5, call: UnitFnCall::Async },
            signature: UnitFnSignature { args: 2 },
        },
    );
    let halt = run.go().unwrap();
    let (future, guard) = match halt {
        VmHalt::Request(Request::Await { future, guard }) => (future, guard),
        other => panic!("no await: {:?}", other),
    };
    assert_eq!(run.vm.ip(), 4);
    assert!(run.stack().is_empty());
    assert!(!run.heap.futures.is_readable(future));
    let mut inner = run.heap.take_machine(&guard).unwrap();
    assert!(run.heap.take_machine(&guard).is_none());
    assert!(run.heap.take_machine(&RawMut { index: 7 }).is_none());
    run.heap.return_machine(&guard, inner);
    run.heap.return_machine(&RawMut { index: 7 }, Vm::new());
    let mut inner = run.heap.take_machine(&guard).unwrap();
    assert_eq!(inner.ip(), 5);
    assert_eq!(inner.iter_stack_debug().clone(), vec![Value::Integer(1), Value::Integer(2)]);
    assert_eq!(
        inner.run_for(&mut run.heap, &run.unit, &run.context, None),
        Ok(VmHalt::Exited)
    );
    let value = inner.pop_decode::<Value>().unwrap();
    assert_eq!(value, Value::Integer(-1));
    run.vm.finish_await(&mut run.heap, guard, value);
    assert!(run.heap.futures.get_ref(future).unwrap().completed);
    assert_eq!(run.go(), Ok(VmHalt::Exited));
    assert_eq!(run.vm.pop_decode::<i64>(), Ok(-1));
}

#[test]
fn await_fails_on_completed_or_held_future_and_on_other_values() {
    let mut run = Run::new(&[Inst::Await]);
    let done = run.heap.futures.insert(Future { vm: None, completed: true });
    run.push(Value::Future(done));
    assert_eq!(
        run.go(),
        Err(VmError::Panic { reason: PanicReason::FutureCompleted })
    );

    let mut run = Run::new(&[Inst::Await]);
    let held = run.heap.futures.insert(Future { vm: None, completed: false });
    let _guard = run.heap.futures.acquire_mut(held).unwrap();
    run.push(Value::Future(held));
    assert_eq!(
        run.go(),
        Err(VmError::AccessError { error: AccessError::NotAccessibleMut })
    );

    let mut run = Run::new(&[Inst::Await]);
    run.push(Value::Integer(1));
    assert_eq!(
        run.go(),
        Err(VmError::ValueError {
            error: ValueError::ExpectedFuture { actual: ValueTypeInfo::Integer },
        })
    );
}

#[test]
fn arithmetic_on_integers() {
    let cases = [
        (Inst::Add, 3, 4, Ok(7)),
        (Inst::Sub, 3, 4, Ok(-1)),
        (Inst::Mul, -3, 4, Ok(-12)),
        (Inst::Div, 7, 2, Ok(3)),
        (Inst::Div, -7, 2, Ok(-3)),
        (Inst::Div, 7, -2, Ok(-3)),
        (Inst::Div, -7, -2, Ok(3)),
        (Inst::Add, i64::MAX, 1, Err(VmError::Overflow)),
        (Inst::Add, i64::MIN, -1, Err(VmError::Overflow)),
        (Inst::Sub, i64::MIN, 1, Err(VmError::Underflow)),
        (Inst::Sub, i64::MAX, -1, Err(VmError::Underflow)),
        (Inst::Mul, i64::MAX, 2, Err(VmError::Overflow)),
        (Inst::Mul, i64::MIN, -1, Err(VmError::Overflow)),
        (Inst::Div, 1, 0, Err(VmError::DivideByZero)),
        (Inst::Div, i64::MIN, -1, Err(VmError::DivideByZero)),
    ];
    for (inst, a, b, expected) in cases {
        let mut run = Run::new(&[inst]);
        run.push(Value::Integer(a));
        run.push(Value::Integer(b));
        let outcome = run.vm.step(&mut run.heap, &run.unit, &run.context);
        match expected {
            Ok(value) => {
                assert_eq!(outcome, Ok(None));
                assert_eq!(run.stack(), vec![Value::Integer(value)]);
            }
            Err(error) => assert_eq!(outcome, Err(error)),
        }
    }
}

#[test]
fn arithmetic_on_floats_goes_to_the_driver() {
    let mut run = Run::new(&[Inst::Mul]);
    run.push(Value::Float(float(1.5)));
    run.push(Value::Float(float(2.0)));
    assert_eq!(
        run.go(),
        Ok(VmHalt::Request(Request::Float {
            op: NumericOp::Mul,
            lhs: float(1.5),
            rhs: float(2.0),
        }))
    );
    assert!(run.stack().is_empty());
    assert_eq!(run.vm.finish_float(NumericOp::Mul, float(1.5 * 2.0)), Ok(()));
    assert_eq!(run.stack(), vec![Value::Float(float(3.0))]);
}

#[test]
fn float_results_that_are_not_finite_fail() {
    let mut vm = Vm::new();
    assert_eq!(vm.finish_float(NumericOp::Add, float(f64::INFINITY)), Err(VmError::Overflow));
    assert_eq!(vm.finish_float(NumericOp::Sub, float(f64::NEG_INFINITY)), Err(VmError::Underflow));
    assert_eq!(vm.finish_float(NumericOp::Mul, float(f64::NAN)), Err(VmError::Overflow));
    assert_eq!(vm.finish_float(NumericOp::Div, float(1.0 / 0.0)), Err(VmError::DivideByZero));
    assert_eq!(vm.finish_float(NumericOp::Div, float(0.0 / 0.0)), Err(VmError::DivideByZero));
    assert!(vm.stack().is_empty());
    assert_eq!(vm.finish_float(NumericOp::Div, float(f64::MAX)), Ok(()));
    assert_eq!(vm.finish_float(NumericOp::Div, float(-0.0)), Ok(()));
}

#[test]
fn arithmetic_on_other_values_asks_for_the_method() {
    let mut run = Run::new(&[Inst::Add]);
    let text = string(&mut run.heap, "ab");
    run.push(text);
    run.push(Value::Integer(1));
    assert_eq!(
        run.vm.step(&mut run.heap, &run.unit, &run.context),
        Err(VmError::UnsupportedBinaryOperation {
            op: BinaryOp::Add,
            lhs: ValueTypeInfo::String,
            rhs: ValueTypeInfo::Integer,
        })
    );

    let mut run = Run::new(&[Inst::Add]);
    let key = Protocol::Add.method(ValueType::String.type_hash());
    assert_eq!(key, hash::Hash::instance_function(hash::Hash::of("String"), hash::Hash::of("add")));
    run.context.install_handler(key, Handler { id: 9 });
    let text = string(&mut run.heap, "ab");
    run.push(text);
    run.push(Value::Integer(1));
    assert_eq!(
        run.vm.step(&mut run.heap, &run.unit, &run.context),
        Ok(Some(VmHalt::Request(Request::Call { handler: Handler { id: 9 }, args: 1 })))
    );
    assert_eq!(run.stack(), vec![Value::Integer(1), text]);
}

#[test]
fn assign_stores_into_the_slot() {
    let mut run = Run::new(&[Inst::AddAssign { offset: 1 }]);
    run.push(Value::Integer(10));
    run.push(Value::Integer(20));
    run.push(Value::Integer(5));
    assert_eq!(run.vm.step(&mut run.heap, &run.unit, &run.context), Ok(None));
    assert_eq!(run.stack(), vec![Value::Integer(15), Value::Integer(20)]);

    let mut run = Run::new(&[Inst::SubAssign { offset: 0 }]);
    run.push(Value::Integer(i64::MIN));
    run.push(Value::Integer(1));
    assert_eq!(run.go(), Err(VmError::Underflow));

    let mut run = Run::new(&[Inst::MulAssign { offset: 1 }]);
    run.push(Value::Integer(1));
    run.push(Value::Integer(1));
    assert_eq!(
        run.go(),
        Err(VmError::StackError { error: StackError::StackOutOfBounds })
    );

    let mut run = Run::new(&[Inst::DivAssign { offset: 0 }]);
    run.push(Value::Float(float(1.0)));
    run.push(Value::Float(float(4.0)));
    assert_eq!(
        run.go(),
        Ok(VmHalt::Request(Request::FloatAssign {
            op: NumericOp::Div,
            lhs: float(1.0),
            rhs: float(4.0),
            offset: 0,
        }))
    );
    assert_eq!(run.vm.finish_float_assign(NumericOp::Div, float(0.25), 0), Ok(()));
    assert_eq!(run.stack(), vec![Value::Float(float(0.25))]);
    assert_eq!(
        run.vm.finish_float_assign(NumericOp::Div, float(f64::NAN), 0),
        Err(VmError::DivideByZero)
    );
    assert_eq!(
        run.vm.finish_float_assign(NumericOp::Div, float(1.0), 1),
        Err(VmError::StackError { error: StackError::StackOutOfBounds })
    );
}

#[test]
fn assign_through_a_method_keeps_the_target() {
    let mut run = Run::new(&[Inst::AddAssign { offset: 0 }]);
    let key = Protocol::AddAssign.method(ValueType::String.type_hash());
    run.context.install_handler(key, Handler { id: 2 });
    let text = string(&mut run.heap, "ab");
    run.push(text);
    run.push(Value::Integer(1));
    assert_eq!(
        run.go(),
        Ok(VmHalt::Request(Request::CallAssign {
            handler: Handler { id: 2 },
            args: 1,
            offset: 0,
            value: text,
        }))
    );
    assert_eq!(run.stack(), vec![text, Value::Integer(1), text]);
    // the native function takes its argument and the receiver and leaves a result
    run.vm.stack_mut().popn(2).unwrap();
    run.push(Value::Unit);
    assert_eq!(run.vm.finish_assign(0, text), Ok(()));
    assert_eq!(run.stack(), vec![text]);
    assert_eq!(
        Vm::new().finish_assign(0, text),
        Err(VmError::StackError { error: StackError::StackEmpty })
    );
}

#[test]
fn comparisons_order_same_kinds_only() {
    let cases = [
        (Inst::Lt, Value::Integer(1), Value::Integer(2), true),
        (Inst::Lt, Value::Integer(2), Value::Integer(2), false),
        (Inst::Lte, Value::Integer(2), Value::Integer(2), true),
        (Inst::Gt, Value::Integer(3), Value::Integer(2), true),
        (Inst::Gte, Value::Integer(1), Value::Integer(2), false),
        (Inst::Lt, Value::Char('a'), Value::Char('b'), true),
        (Inst::Gt, Value::Char('a'), Value::Char('b'), false),
        (Inst::Lt, Value::Bool(false), Value::Bool(true), true),
        (Inst::Gte, Value::Bool(false), Value::Bool(true), false),
        (Inst::Lte, Value::Bool(true), Value::Bool(true), true),
        (Inst::Lt, Value::Float(float(-1.0)), Value::Float(float(0.5)), true),
        (Inst::Gt, Value::Float(float(-1.0)), Value::Float(float(0.5)), false),
        (Inst::Gte, Value::Float(float(0.0)), Value::Float(float(-0.0)), true),
        (Inst::Lte, Value::Float(float(f64::NAN)), Value::Float(float(1.0)), false),
        (Inst::Gte, Value::Float(float(f64::NAN)), Value::Float(float(1.0)), false),
    ];
    for (inst, a, b, expected) in cases {
        let mut run = Run::new(&[inst]);
        run.push(a);
        run.push(b);
        assert_eq!(run.vm.step(&mut run.heap, &run.unit, &run.context), Ok(None));
        assert_eq!(run.stack(), vec![Value::Bool(expected)], "{:?} {:?} {:?}", a, inst, b);
    }
    let mut run = Run::new(&[Inst::Lt]);
    run.push(Value::Integer(1));
    run.push(Value::Float(float(2.0)));
    assert_eq!(
        run.go(),
        Err(VmError::UnsupportedBinaryOperation {
            op: BinaryOp::Lt,
            lhs: ValueTypeInfo::Integer,
            rhs: ValueTypeInfo::Float,
        })
    );
    let mut run = Run::new(&[Inst::Gte]);
    run.push(Value::Byte(1));
    run.push(Value::Byte(2));
    assert_eq!(
        run.go(),
        Err(VmError::UnsupportedBinaryOperation {
            op: BinaryOp::Gte,
            lhs: ValueTypeInfo::Byte,
            rhs: ValueTypeInfo::Byte,
        })
    );
}

#[test]
fn boolean_operators_need_booleans() {
    let mut run = Run::new(&[Inst::And, Inst::Or, Inst::Not]);
    run.push(Value::Bool(false));
    run.push(Value::Bool(true));
    run.push(Value::Bool(false));
    assert_eq!(run.vm.step(&mut run.heap, &run.unit, &run.context), Ok(None));
    assert_eq!(run.stack(), vec![Value::Bool(false), Value::Bool(false)]);
    assert_eq!(run.vm.step(&mut run.heap, &run.unit, &run.context), Ok(None));
    assert_eq!(run.stack(), vec![Value::Bool(false)]);
    assert_eq!(run.vm.step(&mut run.heap, &run.unit, &run.context), Ok(None));
    assert_eq!(run.stack(), vec![Value::Bool(true)]);

    let mut run = Run::new(&[Inst::Or]);
    run.push(Value::Bool(false));
    run.push(Value::Unit);
    assert_eq!(
        run.go(),
        Err(VmError::UnsupportedBinaryOperation {
            op: BinaryOp::Or,
            lhs: ValueTypeInfo::Bool,
            rhs: ValueTypeInfo::Unit,
        })
    );
    let mut run = Run::new(&[Inst::Not]);
    run.push(Value::Integer(0));
    assert_eq!(
        run.go(),
        Err(VmError::UnsupportedUnaryOperation { op: UnaryOp::Not, operand: ValueTypeInfo::Integer })
    );
}

#[test]
fn stack_shuffling() {
    let mut run = Run::new(&[
        Inst::Copy { offset: 2 },
        Inst::Dup,
        Inst::Replace { offset: 1 },
        Inst::Clean { count: 2 },
        Inst::Drop { offset: 1 },
        Inst::PopN { count: 2 },
    ]);
    run.push(Value::Integer(1));
    run.push(Value::Integer(2));
    run.push(Value::Integer(3));
    let mut step = |run: &mut Run| {
        assert_eq!(run.vm.step(&mut run.heap, &run.unit, &run.context), Ok(None));
        run.stack().iter().map(|v| i64::from_value_of(*v)).collect::<Vec<i64>>()
    };
    assert_eq!(step(&mut run), vec![1, 2, 3, 1]);
    assert_eq!(step(&mut run), vec![1, 2, 3, 1, 1]);
    assert_eq!(step(&mut run), vec![1, 2, 1, 1]);
    assert_eq!(step(&mut run), vec![1, 1]);
    assert_eq!(step(&mut run), vec![1, 1]);
    assert_eq!(step(&mut run), Vec::<i64>::new());
}

trait Plain {
    fn from_value_of(value: Value) -> i64;
}

impl Plain for i64 {
    fn from_value_of(value: Value) -> i64 {
        match value {
            Value::Integer(number) => number,
            other => panic!("no integer: {:?}", other),
        }
    }
}

#[test]
fn stack_shuffling_errors() {
    for inst in [
        Inst::Copy { offset: 1 },
        Inst::Drop { offset: 1 },
        Inst::Replace { offset: 0 },
        Inst::Clean { count: 1 },
        Inst::PopN { count: 2 },
    ] {
        let mut run = Run::new(&[inst]);
        run.push(Value::Unit);
        assert_eq!(
            run.go(),
            Err(VmError::StackError { error: StackError::StackOutOfBounds }),
            "{:?}",
            inst
        );
    }
    for inst in [Inst::Dup, Inst::Pop, Inst::Clean { count: 0 }, Inst::Replace { offset: 0 }] {
        let mut run = Run::new(&[inst]);
        assert_eq!(
            run.go(),
            Err(VmError::StackError { error: StackError::StackEmpty }),
            "{:?}",
            inst
        );
    }
}

#[test]
fn jumps() {
    let mut run = Run::new(&[
        Inst::Jump { offset: 2 },
        Inst::Panic { reason: PanicReason::NotImplemented },
        Inst::Bool { value: false },
        Inst::JumpIf { offset: -2 },
        Inst::Bool { value: false },
        Inst::JumpIfNot { offset: 2 },
        Inst::Panic { reason: PanicReason::UnmatchedPattern },
        Inst::Integer { number: 1 },
        Inst::Integer { number: 2 },
        Inst::Bool { value: true },
        Inst::PopAndJumpIf { count: 1, offset: 2 },
        Inst::Panic { reason: PanicReason::NotImplemented },
        Inst::Bool { value: true },
        Inst::PopAndJumpIfNot { count: 1, offset: 2 },
        Inst::Return,
    ]);
    assert_eq!(run.go(), Ok(VmHalt::Exited));
    assert_eq!(run.stack(), vec![Value::Integer(1)]);
}

#[test]
fn jump_errors() {
    let mut run = Run::new(&[Inst::Jump { offset: -1 }]);
    assert_eq!(run.go(), Err(VmError::IpOutOfBounds));
    let mut run = Run::new(&[Inst::Jump { offset: isize::MIN }]);
    assert_eq!(run.go(), Err(VmError::IpOutOfBounds));
    let mut run = Run::new(&[Inst::Jump { offset: 5 }]);
    assert_eq!(run.go(), Err(VmError::IpOutOfBounds));
    let mut run = Run::new(&[Inst::JumpIf { offset: 1 }]);
    run.push(Value::Integer(1));
    assert_eq!(
        run.go(),
        Err(VmError::ValueError {
            error: ValueError::ExpectedBoolean { actual: ValueTypeInfo::Integer },
        })
    );
    let mut run = Run::new(&[Inst::PopAndJumpIf { count: 3, offset: 1 }]);
    run.push(Value::Bool(true));
    assert_eq!(
        run.go(),
        Err(VmError::StackError { error: StackError::StackOutOfBounds })
    );
    let mut run = Run::new(&[Inst::Panic { reason: PanicReason::UnmatchedPattern }]);
    assert_eq!(
        run.go(),
        Err(VmError::Panic { reason: PanicReason::UnmatchedPattern })
    );
    let mut run = Run::new(&[]);
    assert_eq!(run.go(), Err(VmError::IpOutOfBounds));
}

#[test]
fn jump_if_branch_only_jumps_on_its_branch() {
    let mut run = Run::new(&[
        Inst::JumpIfBranch { branch: 0, offset: 2 },
        Inst::Unit,
        Inst::Return,
    ]);
    assert_eq!(run.vm.step(&mut run.heap, &run.unit, &run.context), Ok(None));
    assert_eq!(run.vm.ip(), 1);
    assert_eq!(run.vm.branch(), None);
}

#[test]
fn modify_ip_moves_both_ways() {
    let mut vm = Vm::new();
    assert_eq!(vm.modify_ip(5), Ok(()));
    assert_eq!(vm.ip(), 5);
    assert_eq!(vm.modify_ip(-3), Ok(()));
    assert_eq!(vm.ip(), 2);
    assert_eq!(vm.modify_ip(-3), Err(VmError::IpOutOfBounds));
    assert_eq!(vm.ip(), 2);
    assert_eq!(vm.modify_ip(isize::MAX), Ok(()));
    assert_eq!(vm.ip(), 2 + isize::MAX as usize);
    assert_eq!(vm.modify_ip(isize::MAX), Err(VmError::IpOutOfBounds));
    assert_eq!(vm.modify_ip(isize::MIN), Ok(()));
    assert_eq!(vm.ip(), 1);
}

#[test]
fn clear_resets_the_machine() {
    let mut run = Run::new(&[Inst::Integer { number: 1 }, Inst::Return]);
    assert_eq!(run.go(), Ok(VmHalt::Exited));
    run.vm.clear();
    assert_eq!(run.vm.ip(), 0);
    assert!(!run.vm.exited());
    assert!(run.vm.stack().is_empty());
    assert_eq!(run.go(), Ok(VmHalt::Exited));
}

#[test]
fn limit_stops_the_run() {
    let mut run = Run::new(&[Inst::Jump { offset: 0 }]);
    assert_eq!(
        run.vm.run_for(&mut run.heap, &run.unit, &run.context, Some(1000)),
        Ok(VmHalt::Limited)
    );
    let mut run = Run::new(&[Inst::Unit, Inst::Unit, Inst::Unit, Inst::Unit]);
    assert_eq!(
        run.vm.run_for(&mut run.heap, &run.unit, &run.context, Some(3)),
        Ok(VmHalt::Limited)
    );
    assert_eq!(run.vm.ip(), 3);
    assert_eq!(
        run.vm.run_for(&mut run.heap, &run.unit, &run.context, Some(0)),
        Ok(VmHalt::Limited)
    );
    assert_eq!(run.vm.ip(), 4);
}

#[test]
fn vec_and_tuple_keep_push_order() {
    let mut run = Run::new(&[Inst::Vec { count: 2 }, Inst::Tuple { count: 2 }]);
    run.push(Value::Integer(9));
    run.push(Value::Integer(1));
    run.push(Value::Integer(2));
    assert_eq!(run.vm.step(&mut run.heap, &run.unit, &run.context), Ok(None));
    let vec = match run.stack()[1] {
        Value::Vec(shared) => shared,
        other => panic!("no vec: {:?}", other),
    };
    assert_eq!(
        run.heap.vecs.get_ref(vec).unwrap(),
        &vec![Value::Integer(1), Value::Integer(2)]
    );
    assert_eq!(run.vm.step(&mut run.heap, &run.unit, &run.context), Ok(None));
    let tuple = match run.stack()[0] {
        Value::Tuple(shared) => shared,
        other => panic!("no tuple: {:?}", other),
    };
    assert_eq!(
        run.heap.tuples.get_ref(tuple).unwrap(),
        &vec![Value::Integer(9), Value::Vec(vec)]
    );
    let mut run = Run::new(&[Inst::Vec { count: 1 }]);
    assert_eq!(run.go(), Err(VmError::StackError { error: StackError::StackEmpty }));
}

#[test]
fn typed_object_carries_its_type() {
    let ty = hash::Hash::of("Point");
    let mut run = Run::new(&[Inst::TypedObject { ty, slot: 0 }, Inst::Type { hash: ty }, Inst::Is]);
    run.unit.new_static_object_keys(vec!["x".to_owned()]);
    run.push(Value::Integer(4));
    assert_eq!(run.vm.step(&mut run.heap, &run.unit, &run.context), Ok(None));
    let shared = match run.stack()[0] {
        Value::TypedObject(shared) => shared,
        other => panic!("no typed object: {:?}", other),
    };
    assert_eq!(run.heap.typed_objects.get_ref(shared).unwrap().ty, ty);
    assert_eq!(
        run.heap.typed_objects.get_ref(shared).unwrap().object.get("x"),
        Some(Value::Integer(4))
    );
    assert_eq!(run.go(), Err(VmError::IpOutOfBounds));
    assert_eq!(run.stack(), vec![Value::Bool(true)]);

    let mut run = Run::new(&[Inst::Object { slot: 3 }]);
    assert_eq!(run.go(), Err(VmError::MissingStaticObjectKeys { slot: 3 }));
    let mut run = Run::new(&[Inst::TypedObject { ty, slot: 0 }]);
    assert_eq!(run.go(), Err(VmError::MissingStaticObjectKeys { slot: 0 }));
}

#[test]
fn strings_and_bytes_come_from_the_unit() {
    let mut run = Run::new(&[Inst::String { slot: 0 }, Inst::Bytes { slot: 0 }]);
    assert_eq!(run.unit.new_static_string("hello"), 0);
    assert_eq!(run.unit.new_static_string("world"), 1);
    assert_eq!(run.unit.new_static_string("hello"), 0);
    assert_eq!(run.unit.new_static_bytes(vec![1, 2, 3]), 0);
    assert_eq!(run.vm.step(&mut run.heap, &run.unit, &run.context), Ok(None));
    assert_eq!(run.vm.step(&mut run.heap, &run.unit, &run.context), Ok(None));
    assert_eq!(run.stack()[0], Value::StaticString(StaticString { slot: 0 }));
    let bytes = match run.stack()[1] {
        Value::Bytes(shared) => shared,
        other => panic!("no bytes: {:?}", other),
    };
    assert_eq!(run.heap.bytes.get_ref(bytes).unwrap(), &vec![1u8, 2, 3]);
    let mut run = Run::new(&[Inst::String { slot: 0 }]);
    assert_eq!(run.go(), Err(VmError::MissingStaticString { slot: 0 }));
    let mut run = Run::new(&[Inst::Bytes { slot: 1 }]);
    assert_eq!(run.go(), Err(VmError::MissingStaticBytes { slot: 1 }));
}

#[test]
fn string_concat_joins_texts_top_first() {
    let mut run = Run::new(&[Inst::StringConcat { len: 3, size_hint: 8 }]);
    run.unit.new_static_string("!");
    let text = string(&mut run.heap, "n=");
    run.push(Value::StaticString(StaticString { slot: 0 }));
    run.push(Value::Integer(-120));
    run.push(text);
    assert_eq!(run.vm.step(&mut run.heap, &run.unit, &run.context), Ok(None));
    let shared = match run.stack()[0] {
        Value::String(shared) => shared,
        other => panic!("no string: {:?}", other),
    };
    assert_eq!(run.heap.strings.get_ref(shared).unwrap(), "n=-120!");
}

#[test]
fn string_concat_formats_integers_in_decimal() {
    for (number, text) in [
        (0i64, "0"),
        (7, "7"),
        (10, "10"),
        (-1, "-1"),
        (i64::MAX, "9223372036854775807"),
        (i64::MIN, "-9223372036854775808"),
    ] {
        let mut run = Run::new(&[Inst::StringConcat { len: 1, size_hint: 0 }]);
        run.push(Value::Integer(number));
        assert_eq!(run.vm.step(&mut run.heap, &run.unit, &run.context), Ok(None));
        let shared = match run.stack()[0] {
            Value::String(shared) => shared,
            other => panic!("no string: {:?}", other),
        };
        assert_eq!(run.heap.strings.get_ref(shared).unwrap(), text);
    }
}

#[test]
fn string_concat_hands_floats_to_the_driver() {
    let mut run = Run::new(&[Inst::StringConcat { len: 3, size_hint: 0 }]);
    run.push(Value::Float(float(2.5)));
    run.push(Value::Integer(1));
    run.push(Value::Float(float(0.5)));
    let halt = run.go().unwrap();
    let parts = match halt {
        VmHalt::Request(Request::StringConcat { parts, size_hint: 0 }) => parts,
        other => panic!("no concat: {:?}", other),
    };
    assert_eq!(
        parts,
        vec![
            ConcatPart::Float(float(0.5)),
            ConcatPart::Text("1".to_owned()),
            ConcatPart::Float(float(2.5)),
        ]
    );
    assert!(run.stack().is_empty());
    assert_eq!(floats_of(&parts), vec![float(0.5), float(2.5)]);
    assert_eq!(
        run.vm.finish_string_concat(
            &mut run.heap,
            parts,
            vec!["0.5".to_owned(), "2.5".to_owned()],
            0
        ),
        Ok(())
    );
    let shared = match run.stack()[0] {
        Value::String(shared) => shared,
        other => panic!("no string: {:?}", other),
    };
    assert_eq!(run.heap.strings.get_ref(shared).unwrap(), "0.512.5");
    assert_eq!(
        run.vm.finish_string_concat(
            &mut run.heap,
            vec![ConcatPart::Float(float(1.0))],
            vec![],
            0
        ),
        Err(VmError::UnsupportedStringConcatArgument { actual: ValueTypeInfo::Float })
    );
}

#[test]
fn string_concat_rejects_other_values() {
    let mut run = Run::new(&[Inst::StringConcat { len: 2, size_hint: 0 }]);
    run.push(Value::Bool(true));
    run.push(Value::Integer(1));
    assert_eq!(
        run.go(),
        Err(VmError::UnsupportedStringConcatArgument { actual: ValueTypeInfo::Bool })
    );
    let mut run = Run::new(&[Inst::StringConcat { len: 2, size_hint: 0 }]);
    run.push(Value::Integer(1));
    assert_eq!(run.go(), Err(VmError::StackError { error: StackError::StackEmpty }));
}

#[test]
fn equality_is_structural() {
    let mut run = Run::new(&[]);
    run.unit.new_static_string("abc");
    run.unit.new_static_string("abd");
    let heap = &mut run.heap;
    let abc = string(heap, "abc");
    let abc2 = string(heap, "abc");
    let abd = string(heap, "abd");
    let v1 = vector(heap, &[Value::Integer(1), abc]);
    let v2 = vector(heap, &[Value::Integer(1), abc2]);
    let v3 = vector(heap, &[Value::Integer(1), abd]);
    let v4 = vector(heap, &[Value::Integer(1)]);
    let o1 = object(heap, &[("a", v1), ("b", Value::Unit)]);
    let o2 = object(heap, &[("b", Value::Unit), ("a", v2)]);
    let o3 = object(heap, &[("b", Value::Unit), ("a", v3)]);
    let o4 = object(heap, &[("b", Value::Unit), ("c", v2)]);
    let t1 = Value::Tuple(heap.tuples.insert(vec![Value::Integer(1), v1]));
    let t2 = Value::Tuple(heap.tuples.insert(vec![Value::Integer(1), v2]));
    let t3 = Value::Tuple(heap.tuples.insert(vec![Value::Integer(1), v3]));
    let t4 = Value::Tuple(heap.tuples.insert(vec![]));
    let s0 = Value::StaticString(StaticString { slot: 0 });
    let s1 = Value::StaticString(StaticString { slot: 1 });
    let nan = Value::Float(float(f64::NAN));
    let cases = [
        (t1, t1, true),
        (t1, t2, true),
        (t1, t3, false),
        (t1, t4, false),
        (t4, t4, true),
        (t1, v1, false),
        (Value::Unit, Value::Unit, true),
        (Value::Bool(true), Value::Bool(true), true),
        (Value::Bool(true), Value::Bool(false), false),
        (Value::Char('a'), Value::Char('a'), true),
        (Value::Integer(3), Value::Integer(3), true),
        (Value::Integer(3), Value::Integer(4), false),
        (Value::Float(float(0.0)), Value::Float(float(-0.0)), true),
        (Value::Float(float(1.5)), Value::Float(float(1.5)), true),
        (nan, nan, false),
        (Value::Byte(1), Value::Byte(1), false),
        (Value::Integer(1), Value::Float(float(1.0)), false),
        (Value::Unit, Value::Bool(false), false),
        (abc, abc2, true),
        (abc, abd, false),
        (abc, s0, true),
        (s0, abc, true),
        (abc, s1, false),
        (s0, s0, true),
        (s0, s1, false),
        (v1, v1, true),
        (v1, v2, true),
        (v1, v3, false),
        (v1, v4, false),
        (o1, o2, true),
        (o2, o1, true),
        (o1, o3, false),
        (o1, o4, false),
        (o4, o1, false),
        (v1, o1, false),
    ];
    for (a, b, expected) in cases {
        assert_eq!(
            run.vm.value_ptr_eq(&run.heap, &run.unit, &a, &b),
            Ok(expected),
            "{:?} == {:?}",
            a,
            b
        );
        assert_eq!(
            run.vm.value_ptr_eq(&run.heap, &run.unit, &b, &a),
            Ok(expected),
            "{:?} == {:?}",
            b,
            a
        );
    }
}

#[test]
fn eq_and_neq_instructions_negate_each_other() {
    for (a, b, equal) in [
        (Value::Integer(1), Value::Integer(1), true),
        (Value::Integer(1), Value::Integer(2), false),
        (Value::Unit, Value::Integer(2), false),
    ] {
        let mut run = Run::new(&[Inst::Eq]);
        run.push(a);
        run.push(b);
        assert_eq!(run.vm.step(&mut run.heap, &run.unit, &run.context), Ok(None));
        assert_eq!(run.stack(), vec![Value::Bool(equal)]);
        let mut run = Run::new(&[Inst::Neq]);
        run.push(a);
        run.push(b);
        assert_eq!(run.vm.step(&mut run.heap, &run.unit, &run.context), Ok(None));
        assert_eq!(run.stack(), vec![Value::Bool(!equal)]);
    }
}

#[test]
fn equality_of_a_value_that_holds_itself_fails() {
    let mut run = Run::new(&[]);
    let a = run.heap.vecs.insert(vec![]);
    run.heap.vecs.get_mut(a).unwrap().push(Value::Vec(a));
    let b = run.heap.vecs.insert(vec![Value::Vec(a)]);
    assert_eq!(
        run.vm.value_ptr_eq(&run.heap, &run.unit, &Value::Vec(a), &Value::Vec(b)),
        Err(VmError::CyclicValue)
    );
}

#[test]
fn equality_fails_on_cells_that_cannot_be_read() {
    let mut run = Run::new(&[]);
    let a = run.heap.strings.insert("a".to_owned());
    let b = run.heap.strings.insert("a".to_owned());
    let _guard = run.heap.strings.acquire_mut(b).unwrap();
    assert_eq!(
        run.vm.value_ptr_eq(&run.heap, &run.unit, &Value::String(a), &Value::String(b)),
        Err(VmError::AccessError { error: AccessError::NotAccessibleRef })
    );
    assert_eq!(
        run.vm.value_ptr_eq(
            &run.heap,
            &run.unit,
            &Value::String(a),
            &Value::StaticString(StaticString { slot: 0 })
        ),
        Err(VmError::MissingStaticString { slot: 0 })
    );
    assert_eq!(
        run.vm.value_ptr_eq(
            &run.heap,
            &run.unit,
            &Value::Vec(Shared { index: 4 }),
            &Value::Vec(Shared { index: 4 })
        ),
        Err(VmError::AccessError { error: AccessError::NotAccessibleRef })
    );
}

#[test]
fn index_get_on_objects_gives_an_option() {
    let mut run = Run::new(&[Inst::IndexGet, Inst::IndexGet]);
    let o = object(&mut run.heap, &[("a", Value::Integer(1))]);
    let missing = string(&mut run.heap, "b");
    run.unit.new_static_string("a");
    run.push(missing);
    run.push(o);
    run.push(Value::StaticString(StaticString { slot: 0 }));
    run.push(o);
    assert_eq!(run.vm.step(&mut run.heap, &run.unit, &run.context), Ok(None));
    let found = match run.stack()[2] {
        Value::Option(shared) => shared,
        other => panic!("no option: {:?}", other),
    };
    assert_eq!(run.heap.options.get_ref(found).unwrap(), &Some(Value::Integer(1)));
    run.vm.stack_mut().pop().unwrap();
    assert_eq!(run.vm.step(&mut run.heap, &run.unit, &run.context), Ok(None));
    let found = match run.stack()[0] {
        Value::Option(shared) => shared,
        other => panic!("no option: {:?}", other),
    };
    assert_eq!(run.heap.options.get_ref(found).unwrap(), &None);
}

#[test]
fn index_get_falls_back_to_the_method() {
    let mut run = Run::new(&[Inst::IndexGet]);
    let v = vector(&mut run.heap, &[Value::Integer(1)]);
    run.push(Value::Integer(0));
    run.push(v);
    assert_eq!(
        run.vm.step(&mut run.heap, &run.unit, &run.context),
        Err(VmError::UnsupportedIndexGet {
            target_type: ValueTypeInfo::Vec,
            index_type: ValueTypeInfo::Integer,
        })
    );
    let mut run = Run::new(&[Inst::IndexGet]);
    run.context.install_handler(
        Protocol::IndexGet.method(ValueType::Vec.type_hash()),
        Handler { id: 1 },
    );
    let v = vector(&mut run.heap, &[Value::Integer(1)]);
    run.push(Value::Integer(0));
    run.push(v);
    assert_eq!(
        run.go(),
        Ok(VmHalt::Request(Request::Call { handler: Handler { id: 1 }, args: 1 }))
    );
    assert_eq!(run.stack(), vec![Value::Integer(0), v]);
    // an object with an index that is no string goes the same way
    let mut run = Run::new(&[Inst::IndexGet]);
    let o = object(&mut run.heap, &[]);
    run.push(Value::Integer(0));
    run.push(o);
    assert_eq!(
        run.go(),
        Err(VmError::UnsupportedIndexGet {
            target_type: ValueTypeInfo::Object,
            index_type: ValueTypeInfo::Integer,
        })
    );
}

#[test]
fn index_set_on_objects_is_seen_through_every_copy() {
    let mut run = Run::new(&[Inst::Copy { offset: 0 }, Inst::IndexSet]);
    let o = object(&mut run.heap, &[("a", Value::Integer(1))]);
    let key = string(&mut run.heap, "b");
    run.push(Value::Integer(5));
    run.push(key);
    run.push(o);
    assert_eq!(run.vm.step(&mut run.heap, &run.unit, &run.context), Ok(None));
    // the copy is the target; the first handle stays below the value and the index
    run.vm.stack_mut().pop().unwrap();
    assert_eq!(run.vm.step(&mut run.heap, &run.unit, &run.context), Ok(None));
    assert!(run.stack().is_empty());
    let shared = match o {
        Value::Object(shared) => shared,
        _ => unreachable!(),
    };
    let object = run.heap.objects.get_ref(shared).unwrap();
    assert_eq!(object.get("a"), Some(Value::Integer(1)));
    assert_eq!(object.get("b"), Some(Value::Integer(5)));
    assert_eq!(object.len(), 2);
}

#[test]
fn index_set_on_typed_objects_needs_the_field() {
    let mut run = Run::new(&[Inst::IndexSet, Inst::IndexSet]);
    let mut fields = Object::new();
    fields.insert("x".to_owned(), Value::Integer(1));
    let typed = run.heap.typed_objects.insert(TypedObject { ty: hash::Hash::of("P"), object: fields });
    run.unit.new_static_string("x");
    let y = string(&mut run.heap, "y");
    run.push(Value::Integer(3));
    run.push(y);
    run.push(Value::TypedObject(typed));
    run.push(Value::Integer(2));
    run.push(Value::StaticString(StaticString { slot: 0 }));
    run.push(Value::TypedObject(typed));
    assert_eq!(run.vm.step(&mut run.heap, &run.unit, &run.context), Ok(None));
    assert_eq!(
        run.heap.typed_objects.get_ref(typed).unwrap().object.get("x"),
        Some(Value::Integer(2))
    );
    assert_eq!(
        run.vm.step(&mut run.heap, &run.unit, &run.context),
        Err(VmError::MissingStructField)
    );
}

#[test]
fn index_set_errors() {
    let mut run = Run::new(&[Inst::IndexSet]);
    run.push(Value::Integer(3));
    run.push(Value::Integer(0));
    run.push(Value::Integer(1));
    assert_eq!(
        run.go(),
        Err(VmError::UnsupportedIndexSet {
            target_type: ValueTypeInfo::Integer,
            index_type: ValueTypeInfo::Integer,
            value_type: ValueTypeInfo::Integer,
        })
    );
    let mut run = Run::new(&[Inst::IndexSet]);
    let o = object(&mut run.heap, &[]);
    let key = string(&mut run.heap, "k");
    let shared = match o {
        Value::Object(shared) => shared,
        _ => unreachable!(),
    };
    let _guard = run.heap.objects.acquire_ref(shared).unwrap();
    run.push(Value::Integer(3));
    run.push(key);
    run.push(o);
    assert_eq!(
        run.go(),
        Err(VmError::AccessError { error: AccessError::NotAccessibleMut })
    );
    let mut run = Run::new(&[Inst::IndexSet]);
    run.context.install_handler(
        Protocol::IndexSet.method(ValueType::Integer.type_hash()),
        Handler { id: 8 },
    );
    run.push(Value::Integer(3));
    run.push(Value::Integer(0));
    run.push(Value::Integer(1));
    assert_eq!(
        run.go(),
        Ok(VmHalt::Request(Request::Call { handler: Handler { id: 8 }, args: 2 }))
    );
    assert_eq!(run.stack(), vec![Value::Integer(3), Value::Integer(0), Value::Integer(1)]);
}

#[test]
fn vec_index_get() {
    let mut run = Run::new(&[Inst::VecIndexGet { index: 1 }]);
    let v = vector(&mut run.heap, &[Value::Integer(1), Value::Integer(2)]);
    run.push(v);
    assert_eq!(run.vm.step(&mut run.heap, &run.unit, &run.context), Ok(None));
    assert_eq!(run.stack(), vec![Value::Integer(2)]);
    let mut run = Run::new(&[Inst::VecIndexGet { index: 2 }]);
    let v = vector(&mut run.heap, &[Value::Integer(1), Value::Integer(2)]);
    run.push(v);
    assert_eq!(run.go(), Err(VmError::VecIndexMissing { index: 2 }));
    let mut run = Run::new(&[Inst::VecIndexGet { index: 0 }]);
    run.push(Value::Unit);
    assert_eq!(
        run.go(),
        Err(VmError::UnsupportedVecIndexGet { target_type: ValueTypeInfo::Unit })
    );
}

#[test]
fn tuple_index_get_treats_wrappers_as_tuples() {
    let mut run = Run::new(&[]);
    let tuple = Value::Tuple(run.heap.tuples.insert(vec![Value::Integer(1), Value::Integer(2)]));
    let ok = Value::Result(run.heap.results.insert(Ok(Value::Integer(3))));
    let err = Value::Result(run.heap.results.insert(Err(Value::Integer(4))));
    let some = Value::Option(run.heap.options.insert(Some(Value::Integer(5))));
    let none = Value::Option(run.heap.options.insert(None));
    let typed = Value::TypedTuple(run.heap.typed_tuples.insert(TypedTuple {
        ty: hash::Hash::of("T"),
        tuple: vec![Value::Integer(6), Value::Integer(7)],
    }));
    let cases = [
        (tuple, 1, Ok(Value::Integer(2))),
        (tuple, 2, Err(VmError::TupleIndexMissing { index: 2 })),
        (ok, 0, Ok(Value::Integer(3))),
        (err, 0, Ok(Value::Integer(4))),
        (ok, 1, Err(VmError::TupleIndexMissing { index: 1 })),
        (some, 0, Ok(Value::Integer(5))),
        (none, 0, Err(VmError::TupleIndexMissing { index: 0 })),
        (typed, 1, Ok(Value::Integer(7))),
        (
            Value::Integer(1),
            0,
            Err(VmError::UnsupportedTupleIndexGet { target_type: ValueTypeInfo::Integer }),
        ),
    ];
    for (value, index, expected) in cases {
        let mut vm = Vm::new();
        vm.stack_mut().push(value);
        let outcome = vm.op_tuple_index_get(&run.heap, index);
        match expected {
            Ok(found) => {
                assert_eq!(outcome, Ok(()));
                assert_eq!(vm.iter_stack_debug().clone(), vec![found]);
            }
            Err(error) => assert_eq!(outcome, Err(error)),
        }
    }
}

#[test]
fn match_tuple_counts_fields() {
    let mut run = Run::new(&[]);
    let tuple = Value::Tuple(run.heap.tuples.insert(vec![Value::Integer(1), Value::Integer(2)]));
    let ok = Value::Result(run.heap.results.insert(Ok(Value::Integer(3))));
    let none = Value::Option(run.heap.options.insert(None));
    let typed = Value::TypedTuple(run.heap.typed_tuples.insert(TypedTuple {
        ty: hash::Hash::of("T"),
        tuple: vec![Value::Integer(6)],
    }));
    let cases = [
        (tuple, false, 2, true, true),
        (tuple, false, 1, true, false),
        (tuple, false, 1, false, true),
        (tuple, false, 3, false, false),
        (ok, false, 1, true, false),
        (ok, true, 1, true, true),
        (none, true, 0, true, true),
        (none, true, 1, false, false),
        (typed, true, 1, true, true),
        (typed, false, 1, true, false),
        (Value::Unit, true, 0, false, false),
    ];
    for (value, tuple_like, len, exact, expected) in cases {
        let mut vm = Vm::new();
        vm.stack_mut().push(value);
        assert_eq!(vm.op_match_tuple(&run.heap, tuple_like, len, exact), Ok(()));
        assert_eq!(
            vm.iter_stack_debug().clone(),
            vec![Value::Bool(expected)],
            "{:?} {} {} {}",
            value,
            tuple_like,
            len,
            exact
        );
    }
}

#[test]
fn match_vec_counts_elements() {
    let mut run = Run::new(&[
        Inst::MatchVec { len: 2, exact: true },
        Inst::MatchVec { len: 1, exact: false },
        Inst::MatchVec { len: 3, exact: false },
        Inst::MatchVec { len: 0, exact: false },
    ]);
    let v = vector(&mut run.heap, &[Value::Unit, Value::Unit]);
    for expected in [true, true, false] {
        run.push(v);
        assert_eq!(run.vm.step(&mut run.heap, &run.unit, &run.context), Ok(None));
        assert_eq!(run.vm.stack_mut().pop(), Ok(Value::Bool(expected)));
    }
    run.push(Value::Integer(1));
    assert_eq!(run.vm.step(&mut run.heap, &run.unit, &run.context), Ok(None));
    assert_eq!(run.vm.stack_mut().pop(), Ok(Value::Bool(false)));
}

#[test]
fn match_object_checks_keys() {
    let mut run = Run::new(&[]);
    run.unit.new_static_object_keys(vec!["a".to_owned(), "b".to_owned()]);
    let both = object(&mut run.heap, &[("b", Value::Unit), ("a", Value::Unit)]);
    let more = object(&mut run.heap, &[("b", Value::Unit), ("a", Value::Unit), ("c", Value::Unit)]);
    let other = object(&mut run.heap, &[("b", Value::Unit), ("c", Value::Unit)]);
    let mut fields = Object::new();
    fields.insert("a".to_owned(), Value::Unit);
    fields.insert("b".to_owned(), Value::Unit);
    let typed = Value::TypedObject(
        run.heap.typed_objects.insert(TypedObject { ty: hash::Hash::of("T"), object: fields }),
    );
    let cases = [
        (both, false, true, true),
        (both, false, false, true),
        (more, false, true, false),
        (more, false, false, true),
        (other, false, true, false),
        (other, false, false, false),
        (typed, false, true, false),
        (typed, true, true, true),
        (Value::Unit, true, false, false),
    ];
    for (value, object_like, exact, expected) in cases {
        let mut vm = Vm::new();
        vm.stack_mut().push(value);
        assert_eq!(vm.op_match_object(&run.heap, &run.unit, object_like, 0, exact), Ok(()));
        assert_eq!(
            vm.iter_stack_debug().clone(),
            vec![Value::Bool(expected)],
            "{:?} {} {}",
            value,
            object_like,
            exact
        );
    }
    let mut vm = Vm::new();
    vm.stack_mut().push(both);
    assert_eq!(
        vm.op_match_object(&run.heap, &run.unit, false, 1, true),
        Err(VmError::MissingStaticObjectKeys { slot: 1 })
    );
    let mut vm = Vm::new();
    vm.stack_mut().push(typed);
    assert_eq!(vm.on_object_keys(&run.heap, &run.unit, false, 0, true), Ok(None));
}

#[test]
fn object_slot_index_get() {
    let mut run = Run::new(&[]);
    run.unit.new_static_string("a");
    run.unit.new_static_string("z");
    let o = object(&mut run.heap, &[("a", Value::Integer(1))]);
    let mut vm = Vm::new();
    vm.stack_mut().push(o);
    assert_eq!(vm.op_object_slot_index_get(&run.heap, &run.unit, 0), Ok(()));
    assert_eq!(vm.iter_stack_debug().clone(), vec![Value::Integer(1)]);
    vm.stack_mut().push(o);
    assert_eq!(
        vm.op_object_slot_index_get(&run.heap, &run.unit, 1),
        Err(VmError::ObjectIndexMissing { slot: 1 })
    );
    vm.stack_mut().push(o);
    assert_eq!(
        vm.op_object_slot_index_get(&run.heap, &run.unit, 2),
        Err(VmError::MissingStaticString { slot: 2 })
    );
    vm.stack_mut().push(Value::Unit);
    assert_eq!(
        vm.op_object_slot_index_get(&run.heap, &run.unit, 0),
        Err(VmError::UnsupportedObjectSlotIndexGet { target_type: ValueTypeInfo::Unit })
    );
}

#[test]
fn unwraps_and_tests() {
    let mut run = Run::new(&[]);
    let ok = Value::Result(run.heap.results.insert(Ok(Value::Integer(3))));
    let err = Value::Result(run.heap.results.insert(Err(Value::Bool(true))));
    let some = Value::Option(run.heap.options.insert(Some(Value::Integer(5))));
    let none = Value::Option(run.heap.options.insert(None));
    let mut vm = Vm::new();
    vm.stack_mut().push(ok);
    assert_eq!(vm.op_result_unwrap(&run.heap), Ok(()));
    assert_eq!(vm.stack_mut().pop(), Ok(Value::Integer(3)));
    vm.stack_mut().push(err);
    assert_eq!(
        vm.op_result_unwrap(&run.heap),
        Err(VmError::ExpectedResultOk { error: ValueTypeInfo::Bool })
    );
    vm.stack_mut().push(some);
    assert_eq!(vm.op_option_unwrap(&run.heap), Ok(()));
    assert_eq!(vm.stack_mut().pop(), Ok(Value::Integer(5)));
    vm.stack_mut().push(none);
    assert_eq!(vm.op_option_unwrap(&run.heap), Err(VmError::ExpectedOptionSome));
    vm.stack_mut().push(some);
    assert_eq!(
        vm.op_result_unwrap(&run.heap),
        Err(VmError::ValueError {
            error: ValueError::ExpectedResult { actual: ValueTypeInfo::Option },
        })
    );
    vm.stack_mut().push(ok);
    assert_eq!(
        vm.op_option_unwrap(&run.heap),
        Err(VmError::ValueError {
            error: ValueError::ExpectedOption { actual: ValueTypeInfo::Result },
        })
    );
    for (value, is_err) in [(ok, false), (err, true)] {
        vm.stack_mut().push(value);
        assert_eq!(vm.op_is_err(&run.heap), Ok(()));
        assert_eq!(vm.stack_mut().pop(), Ok(Value::Bool(is_err)));
    }
    for (value, is_none) in [(some, false), (none, true)] {
        vm.stack_mut().push(value);
        assert_eq!(vm.op_is_none(&run.heap), Ok(()));
        assert_eq!(vm.stack_mut().pop(), Ok(Value::Bool(is_none)));
    }
}

#[test]
fn pattern_tests_never_fail_on_other_kinds() {
    let cases = [
        (Inst::IsUnit, Value::Unit, true),
        (Inst::IsUnit, Value::Integer(0), false),
        (Inst::EqByte { byte: 3 }, Value::Byte(3), true),
        (Inst::EqByte { byte: 3 }, Value::Byte(4), false),
        (Inst::EqByte { byte: 3 }, Value::Integer(3), false),
        (Inst::EqCharacter { character: 'a' }, Value::Char('a'), true),
        (Inst::EqCharacter { character: 'a' }, Value::Char('b'), false),
        (Inst::EqCharacter { character: 'a' }, Value::Unit, false),
        (Inst::EqInteger { integer: -1 }, Value::Integer(-1), true),
        (Inst::EqInteger { integer: -1 }, Value::Integer(1), false),
        (Inst::EqInteger { integer: 1 }, Value::Byte(1), false),
        (Inst::EqStaticString { slot: 0 }, Value::Integer(1), false),
        (Inst::EqStaticString { slot: 7 }, Value::Integer(1), false),
        (
            Inst::EqStaticString { slot: 0 },
            Value::StaticString(StaticString { slot: 0 }),
            true,
        ),
        (
            Inst::EqStaticString { slot: 0 },
            Value::StaticString(StaticString { slot: 1 }),
            false,
        ),
    ];
    for (inst, value, expected) in cases {
        let mut run = Run::new(&[inst]);
        run.unit.new_static_string("abc");
        run.unit.new_static_string("xyz");
        run.push(value);
        assert_eq!(run.vm.step(&mut run.heap, &run.unit, &run.context), Ok(None));
        assert_eq!(run.stack(), vec![Value::Bool(expected)], "{:?} {:?}", inst, value);
    }
    let mut run = Run::new(&[Inst::EqStaticString { slot: 0 }, Inst::EqStaticString { slot: 0 }]);
    run.unit.new_static_string("abc");
    let same = string(&mut run.heap, "abc");
    let other = string(&mut run.heap, "abd");
    run.push(other);
    run.push(same);
    assert_eq!(run.vm.step(&mut run.heap, &run.unit, &run.context), Ok(None));
    assert_eq!(run.vm.stack_mut().pop(), Ok(Value::Bool(true)));
    assert_eq!(run.vm.step(&mut run.heap, &run.unit, &run.context), Ok(None));
    assert_eq!(run.vm.stack_mut().pop(), Ok(Value::Bool(false)));
    let mut run = Run::new(&[Inst::EqStaticString { slot: 3 }]);
    let text = string(&mut run.heap, "abc");
    run.push(text);
    assert_eq!(run.go(), Err(VmError::MissingStaticString { slot: 3 }));
}

#[test]
fn is_dispatch() {
    let mut run = Run::new(&[]);
    let point = hash::Hash::of("Point");
    let some_type = hash::Hash::of("Some");
    let none_type = hash::Hash::of("None");
    let ok_type = hash::Hash::of("Ok");
    let err_type = hash::Hash::of("Err");
    let int_type = hash::Hash::of("int");
    let text_type = hash::Hash::of("String");
    run.unit.new_type(int_type, TypeInfo { value_type: ValueType::Integer });
    run.context.install_type(text_type, TypeInfo { value_type: ValueType::String });
    let typed_tuple = Value::TypedTuple(
        run.heap.typed_tuples.insert(TypedTuple { ty: point, tuple: vec![] }),
    );
    let typed_object = Value::TypedObject(
        run.heap.typed_objects.insert(TypedObject { ty: point, object: Object::new() }),
    );
    let some = Value::Option(run.heap.options.insert(Some(Value::Unit)));
    let none = Value::Option(run.heap.options.insert(None));
    let ok = Value::Result(run.heap.results.insert(Ok(Value::Unit)));
    let err = Value::Result(run.heap.results.insert(Err(Value::Unit)));
    let text = string(&mut run.heap, "t");

    let missing = |hash| Err(VmError::MissingType { hash });
    let check = |run: &Run, value: Value, test: Value| {
        let mut vm = Vm::new();
        vm.stack_mut().push(value);
        vm.stack_mut().push(test);
        vm.op_is(&run.heap, &run.unit, &run.context).map(|()| vm.iter_stack_debug().clone())
    };
    let yes = Ok(vec![Value::Bool(true)]);
    let no = Ok(vec![Value::Bool(false)]);
    assert_eq!(check(&run, typed_tuple, Value::Type(point)), yes);
    assert_eq!(check(&run, typed_tuple, Value::Type(int_type)), no);
    assert_eq!(check(&run, typed_object, Value::Type(point)), yes);
    assert_eq!(check(&run, typed_object, Value::Type(text_type)), no);
    assert_eq!(check(&run, some, Value::Type(some_type)), missing(some_type));
    assert_eq!(check(&run, ok, Value::Type(ok_type)), missing(ok_type));
    run.context.install_option_types(OptionTypes { some_type, none_type });
    run.context.install_result_types(ResultTypes { ok_type, err_type });
    assert_eq!(check(&run, some, Value::Type(some_type)), yes);
    assert_eq!(check(&run, some, Value::Type(none_type)), no);
    assert_eq!(check(&run, none, Value::Type(none_type)), yes);
    assert_eq!(check(&run, none, Value::Type(some_type)), no);
    assert_eq!(check(&run, ok, Value::Type(ok_type)), yes);
    assert_eq!(check(&run, ok, Value::Type(err_type)), no);
    assert_eq!(check(&run, err, Value::Type(err_type)), yes);
    assert_eq!(check(&run, Value::Integer(1), Value::Type(int_type)), yes);
    assert_eq!(check(&run, Value::Integer(1), Value::Type(text_type)), no);
    assert_eq!(check(&run, text, Value::Type(text_type)), yes);
    assert_eq!(
        check(&run, Value::StaticString(StaticString { slot: 0 }), Value::Type(text_type)),
        yes
    );
    assert_eq!(check(&run, Value::Integer(1), Value::Type(point)), missing(point));
    assert_eq!(
        check(&run, Value::Integer(1), Value::Integer(2)),
        Err(VmError::UnsupportedIs {
            value_type: ValueTypeInfo::Integer,
            test_type: ValueTypeInfo::Integer,
        })
    );
}

#[test]
fn instance_calls_hash_against_the_receiver() {
    let name = hash::Hash::of("len");
    let key = hash::Hash::instance_function(ValueType::Vec.type_hash(), name);
    let mut run = Run::new(&[Inst::CallInstance { hash: name, args: 0 }]);
    let v = vector(&mut run.heap, &[]);
    run.push(v);
    assert_eq!(
        run.vm.step(&mut run.heap, &run.unit, &run.context),
        Err(VmError::MissingInstanceFunction { instance: ValueTypeInfo::Vec, hash: key })
    );
    run.context.install_handler(key, Handler { id: 5 });
    run.vm.clear();
    run.push(v);
    assert_eq!(
        run.go(),
        Ok(VmHalt::Request(Request::Call { handler: Handler { id: 5 }, args: 0 }))
    );
    let mut run = Run::new(&[Inst::CallInstance { hash: name, args: 0 }]);
    assert_eq!(run.go(), Err(VmError::StackError { error: StackError::StackEmpty }));

    let mut run = Run::new(&[Inst::LoadInstanceFn { hash: name }, Inst::CallFn { args: 0 }]);
    run.context.install_handler(key, Handler { id: 5 });
    let v = vector(&mut run.heap, &[]);
    run.push(v);
    assert_eq!(run.vm.step(&mut run.heap, &run.unit, &run.context), Ok(None));
    assert_eq!(run.stack(), vec![Value::Type(key)]);
    assert_eq!(
        run.go(),
        Ok(VmHalt::Request(Request::Call { handler: Handler { id: 5 }, args: 0 }))
    );
    let mut run = Run::new(&[Inst::CallFn { args: 0 }]);
    run.push(Value::Integer(1));
    assert_eq!(
        run.go(),
        Err(VmError::UnsupportedCallFn { actual_type: ValueTypeInfo::Integer })
    );
}

#[test]
fn instance_call_of_unit_function_enters_it() {
    let name = hash::Hash::of("get");
    let ty = hash::Hash::of("Point");
    let key = hash::Hash::instance_function(ty, name);
    let mut run = Run::new(&[
        Inst::CallInstance { hash: name, args: 1 },
        Inst::Return,
        Inst::Pop,
        Inst::Integer { number: 8 },
        Inst::Return,
    ]);
    run.unit.new_function(
        key,
        UnitFnInfo {
            kind: UnitFnKind::Offset { offset: 2, call: UnitFnCall::Immediate },
            signature: UnitFnSignature { args: 1 },
        },
    );
    let receiver = run.heap.typed_tuples.insert(TypedTuple { ty, tuple: vec![] });
    run.push(Value::TypedTuple(receiver));
    assert_eq!(run.go(), Ok(VmHalt::Exited));
    assert_eq!(run.stack(), vec![Value::Integer(8)]);
}

#[test]
fn custom_panic_keeps_the_reason() {
    assert_eq!(
        VmError::custom_panic("out of cheese"),
        VmError::CustomPanic { reason: "out of cheese".to_owned() }
    );
}

#[test]
fn yield_hands_the_top_value_out() {
    let mut run = Run::new(&[Inst::Integer { number: 1 }, Inst::Yield, Inst::Return]);
    assert_eq!(run.go(), Ok(VmHalt::Yielded));
    assert_eq!(run.stack(), vec![Value::Integer(1)]);
    assert_eq!(run.vm.ip(), 2);
    assert_eq!(run.go(), Ok(VmHalt::Exited));
    let mut run = Run::new(&[Inst::Yield]);
    assert_eq!(run.go(), Err(VmError::StackError { error: StackError::StackEmpty }));
}

#[test]
fn pop_decode_converts_or_fails() {
    let mut vm = Vm::new();
    vm.stack_mut().push(Value::Bool(true));
    assert_eq!(
        vm.pop_decode::<i64>(),
        Err(VmError::StackConversionError {
            error: ValueError::ExpectedInteger { actual: ValueTypeInfo::Bool },
        })
    );
    vm.stack_mut().push(Value::Bool(true));
    assert_eq!(vm.pop_decode::<bool>(), Ok(true));
    vm.stack_mut().push(Value::Unit);
    assert_eq!(vm.pop_decode::<()>(), Ok(()));
    vm.stack_mut().push(Value::Byte(2));
    assert_eq!(vm.pop_decode::<u8>(), Ok(2));
    vm.stack_mut().push(Value::Char('c'));
    assert_eq!(vm.pop_decode::<char>(), Ok('c'));
    vm.stack_mut().push(Value::Float(float(2.0)));
    assert_eq!(vm.pop_decode::<Float>(), Ok(float(2.0)));
    vm.stack_mut().push(Value::Float(float(2.0)));
    assert_eq!(
        vm.pop_decode::<()>(),
        Err(VmError::StackConversionError {
            error: ValueError::ExpectedUnit { actual: ValueTypeInfo::Float },
        })
    );
    vm.stack_mut().push(Value::Unit);
    assert_eq!(
        vm.pop_decode::<u8>(),
        Err(VmError::StackConversionError {
            error: ValueError::ExpectedByte { actual: ValueTypeInfo::Unit },
        })
    );
    vm.stack_mut().push(Value::Unit);
    assert_eq!(
        vm.pop_decode::<char>(),
        Err(VmError::StackConversionError {
            error: ValueError::ExpectedChar { actual: ValueTypeInfo::Unit },
        })
    );
    vm.stack_mut().push(Value::Unit);
    assert_eq!(
        vm.pop_decode::<Float>(),
        Err(VmError::StackConversionError {
            error: ValueError::ExpectedFloat { actual: ValueTypeInfo::Unit },
        })
    );
    vm.stack_mut().push(Value::Unit);
    assert_eq!(
        vm.pop_decode::<bool>(),
        Err(VmError::StackConversionError {
            error: ValueError::ExpectedBoolean { actual: ValueTypeInfo::Unit },
        })
    );
    assert_eq!(
        vm.pop_decode::<Value>(),
        Err(VmError::StackError { error: StackError::StackEmpty })
    );
}

#[test]
fn value_types_of_typed_values_come_from_the_heap() {
    let mut heap = Heap::new();
    let ty = hash::Hash::of("Point");
    let typed = heap.typed_tuples.insert(TypedTuple { ty, tuple: vec![] });
    assert_eq!(Value::TypedTuple(typed).value_type(&heap), Ok(ValueType::TypedTuple(ty)));
    assert_eq!(
        Value::TypedTuple(Shared { index: 9 }).value_type(&heap),
        Err(AccessError::NotAccessibleRef)
    );
    assert_eq!(
        Value::TypedObject(Shared { index: 0 }).value_type(&heap),
        Err(AccessError::NotAccessibleRef)
    );
    assert_eq!(Value::Integer(1).value_type(&heap), Ok(ValueType::Integer));
    assert_eq!(ValueType::TypedTuple(ty).type_hash(), ty);
    assert_eq!(ValueType::Integer.type_hash(), hash::Hash::of("int"));
    assert_eq!(Value::Stream(Shared { index: 0 }).type_info(), ValueTypeInfo::Stream);
    assert_eq!(
        Value::Integer(1).into_stream(),
        Err(ValueError::ExpectedStream { actual: ValueTypeInfo::Integer })
    );
}

#[test]
fn failed_instance_call_leaves_the_machine_alone() {
    let name = hash::Hash::of("get");
    let ty = hash::Hash::of("Point");
    let key = hash::Hash::instance_function(ty, name);
    let mut run = Run::new(&[Inst::Unit, Inst::CallInstance { hash: name, args: 2 }]);
    run.unit.new_function(
        key,
        UnitFnInfo {
            kind: UnitFnKind::Offset { offset: 0, call: UnitFnCall::Immediate },
            signature: UnitFnSignature { args: 1 },
        },
    );
    let receiver = Value::TypedTuple(run.heap.typed_tuples.insert(TypedTuple { ty, tuple: vec![] }));
    run.vm.modify_ip(1).unwrap();
    run.push(Value::Integer(1));
    run.push(receiver);
    assert_eq!(
        run.vm.step(&mut run.heap, &run.unit, &run.context),
        Err(VmError::ArgumentCountMismatch { actual: 2, expected: 1 })
    );
    assert_eq!(run.vm.ip(), 1);
    assert_eq!(run.stack(), vec![Value::Integer(1), receiver]);
    assert_eq!(run.vm.stack().stack_top(), 0);

    let mut run = Run::new(&[Inst::Unit, Inst::CallInstance { hash: name, args: 0 }]);
    run.vm.modify_ip(1).unwrap();
    run.push(Value::Integer(1));
    let missing = hash::Hash::instance_function(ValueType::Integer.type_hash(), name);
    assert_eq!(
        run.vm.step(&mut run.heap, &run.unit, &run.context),
        Err(VmError::MissingInstanceFunction { instance: ValueTypeInfo::Integer, hash: missing })
    );
    assert_eq!(run.vm.ip(), 1);
    assert_eq!(run.stack(), vec![Value::Integer(1)]);
}

#[test]
fn failed_call_leaves_the_machine_alone() {
    let key = hash::Hash::function(&["f"]);
    let mut run = Run::new(&[Inst::Unit, Inst::Call { hash: key, args: 2 }]);
    run.unit.new_function(
        key,
        UnitFnInfo {
            kind: UnitFnKind::Offset { offset: 0, call: UnitFnCall::Immediate },
            signature: UnitFnSignature { args: 1 },
        },
    );
    run.vm.modify_ip(1).unwrap();
    run.push(Value::Integer(1));
    run.push(Value::Integer(2));
    assert_eq!(
        run.vm.step(&mut run.heap, &run.unit, &run.context),
        Err(VmError::ArgumentCountMismatch { actual: 2, expected: 1 })
    );
    assert_eq!(run.vm.ip(), 1);
    assert_eq!(run.stack(), vec![Value::Integer(1), Value::Integer(2)]);
    assert!(!run.vm.exited());

    let other = hash::Hash::function(&["g"]);
    let mut run = Run::new(&[Inst::Unit, Inst::Call { hash: other, args: 1 }]);
    run.vm.modify_ip(1).unwrap();
    run.push(Value::Integer(1));
    assert_eq!(
        run.vm.step(&mut run.heap, &run.unit, &run.context),
        Err(VmError::MissingFunction { hash: other })
    );
    assert_eq!(run.vm.ip(), 1);
    assert_eq!(run.stack(), vec![Value::Integer(1)]);
}

#[test]
fn call_takes_its_arguments_from_the_callers_frame_only() {
    let key = hash::Hash::function(&["f"]);
    let inner = hash::Hash::function(&["g"]);
    let mut run = Run::new(&[
        Inst::Integer { number: 1 },
        Inst::Integer { number: 2 },
        Inst::Call { hash: key, args: 1 },
        Inst::Return,
        // f(x): calls g with two arguments, of which its frame holds one
        Inst::Call { hash: inner, args: 2 },
        Inst::Return,
        // g(a, b)
        Inst::Add,
        Inst::Return,
    ]);
    run.unit.new_function(
        key,
        UnitFnInfo {
            kind: UnitFnKind::Offset { offset: 4, call: UnitFnCall::Immediate },
            signature: UnitFnSignature { args: 1 },
        },
    );
    run.unit.new_function(
        inner,
        UnitFnInfo {
            kind: UnitFnKind::Offset { offset: 6, call: UnitFnCall::Immediate },
            signature: UnitFnSignature { args: 2 },
        },
    );
    assert_eq!(
        run.go(),
        Err(VmError::StackError { error: StackError::StackOutOfBounds })
    );
    assert_eq!(run.vm.ip(), 4);
    assert_eq!(run.vm.stack().stack_top(), 1);
    assert_eq!(run.stack(), vec![Value::Integer(1), Value::Integer(2)]);
}

#[test]
fn missing_struct_field_leaves_the_typed_object_alone() {
    let mut run = Run::new(&[Inst::IndexSet]);
    let mut fields = Object::new();
    fields.insert("x".to_owned(), Value::Integer(1));
    let typed = run.heap.typed_objects.insert(TypedObject { ty: hash::Hash::of("P"), object: fields });
    let y = string(&mut run.heap, "y");
    run.push(Value::Unit);
    run.push(Value::Integer(3));
    run.push(y);
    run.push(Value::TypedObject(typed));
    assert_eq!(
        run.vm.step(&mut run.heap, &run.unit, &run.context),
        Err(VmError::MissingStructField)
    );
    assert_eq!(run.stack(), vec![Value::Unit]);
    let object = &run.heap.typed_objects.get_ref(typed).unwrap().object;
    assert_eq!(object.len(), 1);
    assert_eq!(object.get("x"), Some(Value::Integer(1)));
    assert_eq!(object.get("y"), None);
    assert!(run.heap.typed_objects.is_writable(typed));
}

#[test]
fn object_of_a_missing_slot_leaves_the_stack_alone() {
    for inst in [Inst::Object { slot: 2 }, Inst::TypedObject { ty: hash::Hash::of("P"), slot: 2 }] {
        let mut run = Run::new(&[inst]);
        run.unit.new_static_object_keys(vec!["a".to_owned()]);
        run.push(Value::Integer(1));
        run.push(Value::Integer(2));
        assert_eq!(
            run.vm.step(&mut run.heap, &run.unit, &run.context),
            Err(VmError::MissingStaticObjectKeys { slot: 2 })
        );
        assert_eq!(run.stack(), vec![Value::Integer(1), Value::Integer(2)]);
        assert_eq!(run.vm.ip(), 0);
        assert_eq!(run.heap.objects.len(), 0);
        assert_eq!(run.heap.typed_objects.len(), 0);
    }
}

#[test]
fn failed_select_lets_every_future_go() {
    let mut run = Run::new(&[Inst::Select { len: 3 }]);
    let a = run.heap.futures.insert(Future { vm: None, completed: false });
    let b = run.heap.futures.insert(Future { vm: None, completed: false });
    run.push(Value::Integer(7));
    run.push(Value::Integer(8));
    run.push(Value::Future(a));
    run.push(Value::Future(b));
    assert_eq!(
        run.go(),
        Err(VmError::ValueError {
            error: ValueError::ExpectedFuture { actual: ValueTypeInfo::Integer },
        })
    );
    assert!(run.heap.futures.is_writable(a));
    assert!(run.heap.futures.is_writable(b));
    assert_eq!(run.stack(), vec![Value::Integer(7)]);
    assert_eq!(run.vm.ip(), 0);
    assert_eq!(run.vm.branch(), None);
}

#[test]
fn failed_instructions_keep_what_they_have_not_popped() {
    let mut run = Run::new(&[Inst::Lt]);
    run.push(Value::Integer(1));
    run.push(Value::Unit);
    run.push(Value::Integer(2));
    assert!(run.go().is_err());
    assert_eq!(run.stack(), vec![Value::Integer(1)]);
    let mut run = Run::new(&[Inst::Add]);
    run.push(Value::Integer(1));
    assert_eq!(run.go(), Err(VmError::StackError { error: StackError::StackEmpty }));
    assert!(run.stack().is_empty());
    let mut run = Run::new(&[Inst::StringConcat { len: 3, size_hint: 0 }]);
    run.push(Value::Integer(1));
    run.push(Value::Bool(true));
    run.push(Value::Integer(2));
    assert!(run.go().is_err());
    assert_eq!(run.stack(), vec![Value::Integer(1)]);
    assert_eq!(run.heap.strings.len(), 0);
    let mut run = Run::new(&[Inst::Integer { number: 1 }, Inst::Integer { number: 2 }, Inst::Return]);
    assert!(run.go().is_err());
    assert_eq!(run.stack(), vec![Value::Integer(1)]);
    assert_eq!(run.vm.ip(), 2);
}
