//! Generators: machines that hand out one value after another.

use vstd::prelude::*;
use crate::context::Context;
use crate::error::VmError;
use crate::heap::Heap;
use crate::unit::CompilationUnit;
use crate::value::Value;
use crate::vm::{Vm, VmHalt, VmView};

verus! {

/// What a generator did when it was resumed.
#[derive(Debug, PartialEq)]
pub enum GeneratorState {
    /// The generator yielded this value and can be resumed again.
    Yielded(Value),
    /// The generator returned this value and is complete.
    Complete(Value),
    /// The machine of the generator stopped before it yielded or returned.
    /// Once the driver has done what the halt asks for, the generator goes
    /// on with [`Stream::proceed`].
    Pending(VmHalt),
}

/// The execution of a machine that can yield.
#[derive(Debug)]
pub struct VmExecution {
    vm: Vm,
}

impl View for VmExecution {
    type V = VmView;

    closed spec fn view(&self) -> VmView {
        self.vm@
    }
}

impl VmExecution {
    /// What [`VmExecution::resume`] makes of the halt of the machine: the
    /// value that a yield or a return left on top of the stack is popped
    /// and handed out. Any other halt is handed on.
    pub open spec fn resumed(
        halt: Result<VmHalt, VmError>,
        between: VmView,
        result: Result<GeneratorState, VmError>,
        post: VmView,
    ) -> bool {
        match halt {
            Ok(VmHalt::Exited) => if between.frame() == 0 {
                result == Err::<GeneratorState, VmError>(crate::vm::stack_empty()) && post
                    == between
            } else {
                &&& result == Ok::<GeneratorState, VmError>(
                    GeneratorState::Complete(between.peek(0)),
                )
                &&& post == between.with_stack(between.below(1))
            },
            Ok(VmHalt::Yielded) => if between.frame() == 0 {
                result == Err::<GeneratorState, VmError>(crate::vm::stack_empty()) && post
                    == between
            } else {
                &&& result == Ok::<GeneratorState, VmError>(
                    GeneratorState::Yielded(between.peek(0)),
                )
                &&& post == between.with_stack(between.below(1))
            },
            Ok(halt) => result == Ok::<GeneratorState, VmError>(GeneratorState::Pending(halt))
                && post == between,
            Err(error) => result == Err::<GeneratorState, VmError>(error) && post == between,
        }
    }

    /// What [`VmExecution::resume`] does: the machine runs until it stops,
    /// at most as many instructions as the limit allows.
    pub open spec fn resume_post(
        pre: VmView,
        pre_heap: &Heap,
        unit: &CompilationUnit,
        context: &Context,
        limit: Option<usize>,
        result: Result<GeneratorState, VmError>,
        post: VmView,
        post_heap: &Heap,
    ) -> bool {
        exists|halt: Result<VmHalt, VmError>, between: VmView|
            {
                &&& #[trigger] Vm::run_for_post(
                    pre,
                    pre_heap,
                    unit,
                    context,
                    limit,
                    halt,
                    between,
                    post_heap,
                )
                &&& VmExecution::resumed(halt, between, result, post)
            }
    }

    /// Wrap a machine.
    pub fn new(vm: Vm) -> (execution: VmExecution)
        ensures
            execution@ == vm@,
    {
        VmExecution { vm }
    }

    /// The machine.
    pub fn vm(&self) -> (vm: &Vm)
        ensures
            vm@ == self@,
    {
        &self.vm
    }

    /// The machine, for the driver to work on.
    pub fn vm_mut(&mut self) -> (vm: &mut Vm)
        ensures
            vm@ == old(self)@,
            final(self)@ == final(vm)@,
    {
        &mut self.vm
    }

    /// Run the machine until it yields, returns or stops for another
    /// reason.
    pub fn resume(
        &mut self,
        heap: &mut Heap,
        unit: &CompilationUnit,
        context: &Context,
        limit: Option<usize>,
    ) -> (result: Result<GeneratorState, VmError>)
        ensures
            VmExecution::resume_post(
                old(self)@,
                old(heap),
                unit,
                context,
                limit,
                result,
                final(self)@,
                final(heap),
            ),
    {
        let halt = self.vm.run_for(heap, unit, context, limit);
        let ghost between = self.vm@;
        let ghost seen = halt;
        assert(Vm::run_for_post(old(self)@, old(heap), unit, context, limit, seen, between, heap));
        match halt {
            Ok(VmHalt::Exited) => {
                let value = self.vm.pop_decode::<Value>()?;
                Ok(GeneratorState::Complete(value))
            },
            Ok(VmHalt::Yielded) => {
                let value = self.vm.pop_decode::<Value>()?;
                Ok(GeneratorState::Yielded(value))
            },
            Ok(halt) => Ok(GeneratorState::Pending(halt)),
            Err(error) => Err(error),
        }
    }
}

/// The state of a stream, as contracts speak of it.
pub struct StreamView {
    /// The machine of the stream, unless it has run to its end.
    pub execution: Option<VmView>,
    /// Whether the stream was never resumed.
    pub first: bool,
}

/// A stream with a stored virtual machine.
#[derive(Debug)]
pub struct Stream {
    execution: Option<VmExecution>,
    first: bool,
}

impl View for Stream {
    type V = StreamView;

    closed spec fn view(&self) -> StreamView {
        StreamView {
            execution: match self.execution {
                Some(execution) => Some(execution@),
                None => None,
            },
            first: self.first,
        }
    }
}

impl Stream {
    /// What going on with a stream does. A stream whose machine has run to
    /// its end cannot go on. Any other runs its machine, from the state
    /// `start`, and loses the machine when the program returns. After a
    /// yield, and after an error, the stream keeps its machine.
    pub open spec fn driven(
        pre: StreamView,
        start: VmView,
        pre_heap: &Heap,
        unit: &CompilationUnit,
        context: &Context,
        limit: Option<usize>,
        result: Result<GeneratorState, VmError>,
        post: StreamView,
        post_heap: &Heap,
    ) -> bool {
        exists|after: VmView|
            {
                &&& #[trigger] VmExecution::resume_post(
                    start,
                    pre_heap,
                    unit,
                    context,
                    limit,
                    result,
                    after,
                    post_heap,
                )
                &&& post == (StreamView {
                    execution: if result matches Ok(GeneratorState::Complete(_)) {
                        None
                    } else {
                        Some(after)
                    },
                    first: false,
                })
            }
    }

    /// What [`Stream::resume`] does: a stream that was resumed before gets
    /// `value` pushed on its stack, and then the stream goes on.
    pub open spec fn resume_post(
        pre: StreamView,
        pre_heap: &Heap,
        unit: &CompilationUnit,
        context: &Context,
        value: Value,
        limit: Option<usize>,
        result: Result<GeneratorState, VmError>,
        post: StreamView,
        post_heap: &Heap,
    ) -> bool {
        match pre.execution {
            None => result == Err::<GeneratorState, VmError>(VmError::GeneratorComplete) && post
                == pre && post_heap@ == pre_heap@,
            Some(vm) => Stream::driven(
                pre,
                if pre.first {
                    vm
                } else {
                    vm.with_stack(vm.stack.push(value))
                },
                pre_heap,
                unit,
                context,
                limit,
                result,
                post,
                post_heap,
            ),
        }
    }

    /// What [`Stream::proceed`] does: the stream goes on from where its
    /// machine stopped.
    pub open spec fn proceed_post(
        pre: StreamView,
        pre_heap: &Heap,
        unit: &CompilationUnit,
        context: &Context,
        limit: Option<usize>,
        result: Result<GeneratorState, VmError>,
        post: StreamView,
        post_heap: &Heap,
    ) -> bool {
        match pre.execution {
            None => result == Err::<GeneratorState, VmError>(VmError::GeneratorComplete) && post
                == pre && post_heap@ == pre_heap@,
            Some(vm) => Stream::driven(
                pre,
                vm,
                pre_heap,
                unit,
                context,
                limit,
                result,
                post,
                post_heap,
            ),
        }
    }

    /// Construct a stream from a virtual machine.
    pub fn new(vm: Vm) -> (stream: Stream)
        ensures
            stream@ == (StreamView { execution: Some(vm@), first: true }),
    {
        Stream { execution: Some(VmExecution::new(vm)), first: true }
    }

    /// Whether the machine of the stream has run to its end.
    pub fn is_complete(&self) -> (complete: bool)
        ensures
            complete == (self@.execution is None),
    {
        self.execution.is_none()
    }

    /// The machine of the stream, for the driver to work on; `None` once
    /// the machine has run to its end.
    pub fn vm_mut(&mut self) -> (vm: Option<&mut Vm>)
        ensures
            match vm {
                Some(vm) => {
                    &&& old(self)@.execution == Some(vm@)
                    &&& final(self)@ == (StreamView {
                        execution: Some(final(vm)@),
                        first: old(self)@.first,
                    })
                },
                None => old(self)@.execution is None && final(self)@ == old(self)@,
            },
    {
        match &mut self.execution {
            Some(execution) => Some(execution.vm_mut()),
            None => None,
        }
    }

    /// Go on with the machine of the stream.
    fn drive(
        &mut self,
        heap: &mut Heap,
        unit: &CompilationUnit,
        context: &Context,
        limit: Option<usize>,
    ) -> (result: Result<GeneratorState, VmError>)
        requires
            old(self)@.execution is Some,
        ensures
            Stream::driven(
                old(self)@,
                old(self)@.execution->0,
                old(heap),
                unit,
                context,
                limit,
                result,
                final(self)@,
                final(heap),
            ),
    {
        self.first = false;
        let result = match &mut self.execution {
            Some(execution) => execution.resume(heap, unit, context, limit),
            None => Err(VmError::GeneratorComplete),
        };
        let ghost after = self@.execution->0;
        let ghost seen = result;
        assert(VmExecution::resume_post(
            old(self)@.execution->0,
            old(heap),
            unit,
            context,
            limit,
            seen,
            after,
            heap,
        ));
        match result {
            Ok(GeneratorState::Complete(value)) => {
                self.execution = None;
                Ok(GeneratorState::Complete(value))
            },
            other => other,
        }
    }

    /// Resume the stream with a value. The first time a stream is resumed,
    /// the value is dropped: there is no `yield` yet that waits for it.
    pub fn resume(
        &mut self,
        heap: &mut Heap,
        unit: &CompilationUnit,
        context: &Context,
        value: Value,
        limit: Option<usize>,
    ) -> (result: Result<GeneratorState, VmError>)
        ensures
            Stream::resume_post(
                old(self)@,
                old(heap),
                unit,
                context,
                value,
                limit,
                result,
                final(self)@,
                final(heap),
            ),
    {
        let first = self.first;
        match &mut self.execution {
            Some(execution) => {
                if !first {
                    execution.vm_mut().stack_mut().push(value);
                }
            },
            None => {
                return Err(VmError::GeneratorComplete);
            },
        }
        self.drive(heap, unit, context, limit)
    }

    /// Go on with a stream whose machine stopped before it yielded or
    /// returned.
    pub fn proceed(
        &mut self,
        heap: &mut Heap,
        unit: &CompilationUnit,
        context: &Context,
        limit: Option<usize>,
    ) -> (result: Result<GeneratorState, VmError>)
        ensures
            Stream::proceed_post(
                old(self)@,
                old(heap),
                unit,
                context,
                limit,
                result,
                final(self)@,
                final(heap),
            ),
    {
        if self.execution.is_none() {
            return Err(VmError::GeneratorComplete);
        }
        self.drive(heap, unit, context, limit)
    }

    /// What [`Stream::next`] does: the stream is resumed with the unit
    /// value. A yielded value is handed out, a return ends the stream.
    pub open spec fn next_post(
        pre: StreamView,
        pre_heap: &Heap,
        unit: &CompilationUnit,
        context: &Context,
        limit: Option<usize>,
        result: Result<Result<Option<Value>, VmHalt>, VmError>,
        post: StreamView,
        post_heap: &Heap,
    ) -> bool {
        exists|state: Result<GeneratorState, VmError>|
            {
                &&& #[trigger] Stream::resume_post(
                    pre,
                    pre_heap,
                    unit,
                    context,
                    Value::Unit,
                    limit,
                    state,
                    post,
                    post_heap,
                )
                &&& result == match state {
                    Ok(GeneratorState::Yielded(value)) => Ok::<
                        Result<Option<Value>, VmHalt>,
                        VmError,
                    >(Ok(Some(value))),
                    Ok(GeneratorState::Complete(_)) => Ok(Ok(None)),
                    Ok(GeneratorState::Pending(halt)) => Ok(Err(halt)),
                    Err(error) => Err(error),
                }
            }
    }

    /// Get the next value produced by this stream: `Ok(Some(..))` for a
    /// value, `Ok(None)` at the end, and the halt where the machine stopped
    /// before it came to either.
    pub fn next(
        &mut self,
        heap: &mut Heap,
        unit: &CompilationUnit,
        context: &Context,
        limit: Option<usize>,
    ) -> (result: Result<Result<Option<Value>, VmHalt>, VmError>)
        ensures
            Stream::next_post(
                old(self)@,
                old(heap),
                unit,
                context,
                limit,
                result,
                final(self)@,
                final(heap),
            ),
    {
        let state = self.resume(heap, unit, context, Value::Unit, limit);
        let ghost seen = state;
        assert(Stream::resume_post(
            old(self)@,
            old(heap),
            unit,
            context,
            Value::Unit,
            limit,
            seen,
            self@,
            heap,
        ));
        match state {
            Ok(GeneratorState::Yielded(value)) => Ok(Ok(Some(value))),
            Ok(GeneratorState::Complete(_)) => Ok(Ok(None)),
            Ok(GeneratorState::Pending(halt)) => Ok(Err(halt)),
            Err(error) => Err(error),
        }
    }
}

} // verus!
