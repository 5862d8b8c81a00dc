//! The value stack, with a watermark that fences off the current call frame.
//!
//! Every operation but [`Stack::push`] works within the current frame: the
//! values above the watermark. Reaching below it fails with a
//! [`StackError`].

use vstd::prelude::*;
use crate::value::Value;

verus! {

/// A stack operation reached outside the current call frame.
#[derive(Clone, Copy, Debug, PartialEq, Eq, Structural)]
pub enum StackError {
    /// The current frame holds no value.
    StackEmpty,
    /// The current frame holds fewer values than were asked for.
    StackOutOfBounds,
    /// A frame ended while values were left in it.
    CorruptedStackFrame,
}

/// The number of values above the watermark.
pub open spec fn frame_len(values: Seq<Value>, top: nat) -> nat {
    if values.len() >= top {
        (values.len() - top) as nat
    } else {
        0
    }
}

/// A growable stack of values with a watermark.
#[derive(Debug)]
pub struct Stack {
    stack: Vec<Value>,
    stack_top: usize,
}

/// A stack, as contracts speak of it.
pub struct StackView {
    /// The values, from the bottom up.
    pub values: Seq<Value>,
    /// The watermark: the length of the stack below the current frame.
    pub top: usize,
}

impl View for Stack {
    type V = StackView;

    closed spec fn view(&self) -> StackView {
        StackView { values: self.stack@, top: self.stack_top }
    }
}

impl Stack {
    /// The watermark: the length of the stack below the current frame.
    pub open spec fn top(&self) -> usize {
        self@.top
    }

    /// The number of values in the current frame.
    pub open spec fn frame(&self) -> nat {
        frame_len(self@.values, self@.top as nat)
    }

    /// An empty stack with the watermark at the bottom.
    pub fn new() -> (stack: Stack)
        ensures
            stack@.values == Seq::<Value>::empty(),
            stack.top() == 0,
    {
        Stack { stack: Vec::new(), stack_top: 0 }
    }

    /// The number of values on the whole stack.
    pub fn len(&self) -> (len: usize)
        ensures
            len == self@.values.len(),
    {
        self.stack.len()
    }

    /// Whether the whole stack is empty.
    pub fn is_empty(&self) -> (empty: bool)
        ensures
            empty == (self@.values.len() == 0),
    {
        self.stack.len() == 0
    }

    /// The watermark.
    pub fn stack_top(&self) -> (top: usize)
        ensures
            top == self.top(),
    {
        self.stack_top
    }

    /// Every value on the stack, from the bottom up.
    pub fn values(&self) -> (values: &Vec<Value>)
        ensures
            values@ == self@.values,
    {
        &self.stack
    }

    /// Drop every value and put the watermark at the bottom.
    pub fn clear(&mut self)
        ensures
            final(self)@.values == Seq::<Value>::empty(),
            final(self).top() == 0,
    {
        self.stack.clear();
        self.stack_top = 0;
    }

    /// Push a value.
    pub fn push(&mut self, value: Value)
        ensures
            final(self)@.values == old(self)@.values.push(value),
            final(self).top() == old(self).top(),
    {
        self.stack.push(value);
    }

    /// Pop the top value of the current frame.
    pub fn pop(&mut self) -> (result: Result<Value, StackError>)
        ensures
            final(self).top() == old(self).top(),
            match result {
                Ok(value) => {
                    &&& old(self).frame() > 0
                    &&& value == old(self)@.values.last()
                    &&& final(self)@.values == old(self)@.values.drop_last()
                },
                Err(error) => {
                    &&& old(self).frame() == 0
                    &&& error == StackError::StackEmpty
                    &&& final(self)@.values == old(self)@.values
                },
            },
    {
        if self.stack.len() <= self.stack_top {
            return Err(StackError::StackEmpty);
        }
        match self.stack.pop() {
            Some(value) => Ok(value),
            None => Err(StackError::StackEmpty),
        }
    }

    /// Pop `count` values of the current frame.
    pub fn popn(&mut self, count: usize) -> (result: Result<(), StackError>)
        ensures
            final(self).top() == old(self).top(),
            match result {
                Ok(()) => {
                    &&& old(self).frame() >= count
                    &&& final(self)@.values == old(self)@.values.take(old(self)@.values.len() - count)
                },
                Err(error) => {
                    &&& old(self).frame() < count
                    &&& error == StackError::StackOutOfBounds
                    &&& final(self)@.values == old(self)@.values
                },
            },
    {
        let len = self.stack.len();
        let frame = if len >= self.stack_top {
            len - self.stack_top
        } else {
            0
        };
        if frame < count {
            return Err(StackError::StackOutOfBounds);
        }
        self.stack.truncate(len - count);
        Ok(())
    }

    /// The top value of the current frame.
    pub fn last(&self) -> (result: Result<Value, StackError>)
        ensures
            match result {
                Ok(value) => self.frame() > 0 && value == self@.values.last(),
                Err(error) => self.frame() == 0 && error == StackError::StackEmpty,
            },
    {
        let len = self.stack.len();
        if len <= self.stack_top {
            return Err(StackError::StackEmpty);
        }
        Ok(self.stack[len - 1])
    }

    /// The top value of the current frame.
    pub fn peek(&self) -> (result: Result<Value, StackError>)
        ensures
            match result {
                Ok(value) => self.frame() > 0 && value == self@.values.last(),
                Err(error) => self.frame() == 0 && error == StackError::StackEmpty,
            },
    {
        self.last()
    }

    /// The value `offset` places below the top of the current frame:
    /// offset 0 is the top.
    pub fn at_offset(&self, offset: usize) -> (result: Result<Value, StackError>)
        ensures
            match result {
                Ok(value) => {
                    &&& offset < self.frame()
                    &&& value == self@.values[self@.values.len() - 1 - offset]
                },
                Err(error) => offset >= self.frame() && error == StackError::StackOutOfBounds,
            },
    {
        let len = self.stack.len();
        if len <= self.stack_top || len - self.stack_top <= offset {
            return Err(StackError::StackOutOfBounds);
        }
        Ok(self.stack[len - 1 - offset])
    }

    /// The slot `offset` places below the top of the current frame, for
    /// writing.
    pub fn at_offset_mut(&mut self, offset: usize) -> (result: Result<&mut Value, StackError>)
        ensures
            final(self).top() == old(self).top(),
            match result {
                Ok(slot) => {
                    &&& offset < old(self).frame()
                    &&& *slot == old(self)@.values[old(self)@.values.len() - 1 - offset]
                    &&& final(self)@.values == old(self)@.values.update(
                        old(self)@.values.len() - 1 - offset,
                        *final(slot),
                    )
                },
                Err(error) => {
                    &&& offset >= old(self).frame()
                    &&& error == StackError::StackOutOfBounds
                    &&& final(self)@.values == old(self)@.values
                },
            },
    {
        let len = self.stack.len();
        if len <= self.stack_top || len - self.stack_top <= offset {
            return Err(StackError::StackOutOfBounds);
        }
        Ok(&mut self.stack[len - 1 - offset])
    }

    /// Turn the whole stack upside down.
    pub fn reverse(&mut self)
        ensures
            final(self)@.values == old(self)@.values.reverse(),
            final(self).top() == old(self).top(),
    {
        let mut reversed: Vec<Value> = Vec::with_capacity(self.stack.len());
        let len = self.stack.len();
        let mut i: usize = len;
        while i > 0
            invariant
                i <= len,
                len == self.stack@.len(),
                self.stack@ == old(self).stack@,
                reversed@.len() == len - i,
                forall|j: int| 0 <= j < reversed@.len() ==> reversed@[j] == self.stack@[len - 1 - j],
            decreases i,
        {
            i = i - 1;
            reversed.push(self.stack[i]);
        }
        assert(reversed@ =~= old(self)@.values.reverse());
        self.stack = reversed;
    }

    /// Start a frame that holds the top `args` values of the current frame.
    /// Returns the watermark of the frame that is left.
    pub fn push_stack_top(&mut self, args: usize) -> (result: Result<usize, StackError>)
        ensures
            final(self)@.values == old(self)@.values,
            match result {
                Ok(previous) => {
                    &&& args <= old(self).frame()
                    &&& previous == old(self).top()
                    &&& final(self).top() == old(self)@.values.len() - args
                },
                Err(error) => {
                    &&& args > old(self).frame()
                    &&& error == StackError::StackOutOfBounds
                    &&& final(self).top() == old(self).top()
                },
            },
    {
        let len = self.stack.len();
        let frame = if len >= self.stack_top {
            len - self.stack_top
        } else {
            0
        };
        if args > frame {
            return Err(StackError::StackOutOfBounds);
        }
        let previous = self.stack_top;
        self.stack_top = len - args;
        Ok(previous)
    }

    /// End the current frame, which has to be empty, and put the watermark
    /// back to `stack_top`.
    pub fn pop_stack_top(&mut self, stack_top: usize) -> (result: Result<(), StackError>)
        ensures
            final(self)@.values == old(self)@.values,
            match result {
                Ok(()) => old(self)@.values.len() == old(self).top() && final(self).top() == stack_top,
                Err(error) => {
                    &&& old(self)@.values.len() != old(self).top()
                    &&& error == StackError::CorruptedStackFrame
                    &&& final(self).top() == old(self).top()
                },
            },
    {
        if self.stack.len() != self.stack_top {
            return Err(StackError::CorruptedStackFrame);
        }
        self.stack_top = stack_top;
        Ok(())
    }

    /// Check that the current frame is empty.
    pub fn check_stack_top(&self) -> (result: Result<(), StackError>)
        ensures
            match result {
                Ok(()) => self@.values.len() == self.top(),
                Err(error) => self@.values.len() != self.top() && error
                    == StackError::CorruptedStackFrame,
            },
    {
        if self.stack.len() != self.stack_top {
            return Err(StackError::CorruptedStackFrame);
        }
        Ok(())
    }
}

} // verus!
