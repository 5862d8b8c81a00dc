use runestick::stack::{Stack, StackError};
use runestick::value::Value;

fn stack_of(values: &[i64]) -> Stack {
    let mut stack = Stack::new();
    for value in values {
        stack.push(Value::Integer(*value));
    }
    stack
}

fn ints(stack: &Stack) -> Vec<i64> {
    stack
        .values()
        .iter()
        .map(|value| match value {
            Value::Integer(number) => *number,
            other => panic!("no integer: {:?}", other),
        })
        .collect()
}

#[test]
fn new_stack_is_empty() {
    let stack = Stack::new();
    assert!(stack.is_empty());
    assert_eq!(stack.len(), 0);
    assert_eq!(stack.stack_top(), 0);
    assert_eq!(stack.last(), Err(StackError::StackEmpty));
    assert_eq!(stack.peek(), Err(StackError::StackEmpty));
}

#[test]
fn push_and_pop_are_last_in_first_out() {
    let mut stack = stack_of(&[1, 2, 3]);
    assert_eq!(stack.len(), 3);
    assert_eq!(stack.last(), Ok(Value::Integer(3)));
    assert_eq!(stack.peek(), Ok(Value::Integer(3)));
    assert_eq!(stack.pop(), Ok(Value::Integer(3)));
    assert_eq!(stack.pop(), Ok(Value::Integer(2)));
    assert_eq!(stack.pop(), Ok(Value::Integer(1)));
    assert_eq!(stack.pop(), Err(StackError::StackEmpty));
    assert!(stack.is_empty());
}

#[test]
fn at_offset_counts_from_the_top() {
    let mut stack = stack_of(&[10, 20, 30]);
    assert_eq!(stack.at_offset(0), Ok(Value::Integer(30)));
    assert_eq!(stack.at_offset(1), Ok(Value::Integer(20)));
    assert_eq!(stack.at_offset(2), Ok(Value::Integer(10)));
    assert_eq!(stack.at_offset(3), Err(StackError::StackOutOfBounds));
    assert_eq!(stack.at_offset(usize::MAX), Err(StackError::StackOutOfBounds));
    *stack.at_offset_mut(2).unwrap() = Value::Integer(11);
    assert_eq!(ints(&stack), vec![11, 20, 30]);
    assert_eq!(stack.at_offset_mut(3).err(), Some(StackError::StackOutOfBounds));
}

#[test]
fn popn_pops_within_the_frame() {
    let mut stack = stack_of(&[1, 2, 3, 4]);
    assert_eq!(stack.popn(0), Ok(()));
    assert_eq!(stack.popn(2), Ok(()));
    assert_eq!(ints(&stack), vec![1, 2]);
    assert_eq!(stack.popn(3), Err(StackError::StackOutOfBounds));
    assert_eq!(ints(&stack), vec![1, 2]);
    assert_eq!(stack.popn(2), Ok(()));
    assert!(stack.is_empty());
}

#[test]
fn watermark_fences_off_the_caller() {
    let mut stack = stack_of(&[1, 2, 3, 4]);
    assert_eq!(stack.push_stack_top(1), Ok(0));
    assert_eq!(stack.stack_top(), 3);
    assert_eq!(stack.at_offset(0), Ok(Value::Integer(4)));
    assert_eq!(stack.at_offset(1), Err(StackError::StackOutOfBounds));
    assert_eq!(stack.popn(2), Err(StackError::StackOutOfBounds));
    assert_eq!(stack.check_stack_top(), Err(StackError::CorruptedStackFrame));
    assert_eq!(stack.pop_stack_top(0), Err(StackError::CorruptedStackFrame));
    assert_eq!(stack.stack_top(), 3);
    assert_eq!(stack.pop(), Ok(Value::Integer(4)));
    assert_eq!(stack.pop(), Err(StackError::StackEmpty));
    assert_eq!(stack.last(), Err(StackError::StackEmpty));
    assert_eq!(stack.peek(), Err(StackError::StackEmpty));
    assert_eq!(stack.len(), 3);
    assert_eq!(stack.check_stack_top(), Ok(()));
    assert_eq!(stack.pop_stack_top(0), Ok(()));
    assert_eq!(stack.stack_top(), 0);
    assert_eq!(stack.pop(), Ok(Value::Integer(3)));
}

#[test]
fn push_stack_top_needs_enough_values() {
    let mut stack = stack_of(&[1]);
    assert_eq!(stack.push_stack_top(2), Err(StackError::StackOutOfBounds));
    assert_eq!(stack.stack_top(), 0);
    assert_eq!(stack.push_stack_top(0), Ok(0));
    assert_eq!(stack.stack_top(), 1);
    assert_eq!(stack.push_stack_top(0), Ok(1));
}

#[test]
fn push_stack_top_stays_within_the_frame() {
    let mut stack = stack_of(&[1, 2, 3, 4]);
    assert_eq!(stack.push_stack_top(1), Ok(0));
    assert_eq!(stack.stack_top(), 3);
    // the stack holds four values, the frame one
    assert_eq!(stack.push_stack_top(2), Err(StackError::StackOutOfBounds));
    assert_eq!(stack.stack_top(), 3);
    assert_eq!(stack.push_stack_top(1), Ok(3));
    assert_eq!(stack.stack_top(), 3);
    assert_eq!(ints(&stack), vec![1, 2, 3, 4]);
}

#[test]
fn reverse_and_clear() {
    let mut stack = stack_of(&[1, 2, 3]);
    stack.reverse();
    assert_eq!(ints(&stack), vec![3, 2, 1]);
    stack.push_stack_top(1).unwrap();
    stack.clear();
    assert!(stack.is_empty());
    assert_eq!(stack.stack_top(), 0);
    stack.reverse();
    assert!(stack.is_empty());
}
