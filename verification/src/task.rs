//! Tasks: a machine bound to the program it runs.

use vstd::prelude::*;
use std::marker::PhantomData;
use std::rc::Rc;
use crate::context::Context;
use crate::error::VmError;
use crate::hash;
use crate::heap::Heap;
use crate::unit::CompilationUnit;
use crate::value::{FromValue, Value};
use crate::vm::{Vm, VmHalt, VmView};

verus! {

/// How far a task has come.
#[derive(Debug, PartialEq)]
pub enum TaskState<T> {
    /// The program has returned this value.
    Complete(T),
    /// The machine stopped before the program returned. Once the driver has
    /// done what the halt asks for, the task can go on.
    Pending(VmHalt),
}

/// The task of a unit being run.
pub struct Task<'a, T> {
    /// The virtual machine associated with the task.
    pub vm: &'a mut Vm,
    /// The compilation unit.
    pub unit: Rc<CompilationUnit>,
    /// Functions collection associated with the task.
    pub context: Rc<Context>,
    /// Marker holding output type.
    pub _marker: PhantomData<T>,
}

impl<'a, T: FromValue> Task<'a, T> {
    /// The state of the machine of the task.
    pub open spec fn machine(&self) -> VmView {
        self.vm@
    }

    /// The unit of the task.
    pub open spec fn program(&self) -> CompilationUnit {
        *self.unit
    }

    /// The context of the task.
    pub open spec fn world(&self) -> Context {
        *self.context
    }

    /// Get access to the underlying virtual machine.
    pub fn vm(&self) -> (vm: &Vm)
        ensures
            vm@ == self.machine(),
    {
        &*self.vm
    }

    /// Get access to the used compilation unit.
    pub fn unit(&self) -> (unit: &CompilationUnit)
        ensures
            *unit == self.program(),
    {
        &*self.unit
    }

    /// Get access to the used context.
    pub fn context(&self) -> (context: &Context)
        ensures
            *context == self.world(),
    {
        &*self.context
    }
}

impl<'a, T: FromValue> Task<'a, T> {
    /// What the machine's last value is converted to once the program has
    /// returned.
    pub open spec fn decoded(
        between: VmView,
        result: Result<TaskState<T>, VmError>,
        post: VmView,
    ) -> bool {
        match result {
            Ok(TaskState::Complete(value)) => Vm::pop_decode_post(
                between,
                Ok::<T, VmError>(value),
                post,
            ),
            Ok(TaskState::Pending(_)) => false,
            Err(error) => Vm::pop_decode_post(between, Err::<T, VmError>(error), post),
        }
    }

    /// What [`Task::run_to_completion`] does with the outcome of the run:
    /// where the program has returned, the value that is left on the stack
    /// is popped and converted. Any other halt is handed on, and so is an
    /// error, with the machine as the run left it.
    pub open spec fn settled(
        halt: Result<VmHalt, VmError>,
        between: VmView,
        result: Result<TaskState<T>, VmError>,
        post: VmView,
    ) -> bool {
        match halt {
            Ok(VmHalt::Exited) => Self::decoded(between, result, post),
            Ok(halt) => result == Ok::<TaskState<T>, VmError>(TaskState::Pending(halt)) && post
                == between,
            Err(error) => result == Err::<TaskState<T>, VmError>(error) && post == between,
        }
    }

    /// Take the outcome of a run.
    fn settle(&mut self, halt: Result<VmHalt, VmError>) -> (result: Result<TaskState<T>, VmError>)
        ensures
            Self::settled(halt, old(self).machine(), result, final(self).machine()),
            final(self).program() == old(self).program(),
            final(self).world() == old(self).world(),
    {
        match halt {
            Ok(VmHalt::Exited) => {
                let value = self.vm.pop_decode::<T>()?;
                Ok(TaskState::Complete(value))
            },
            Ok(halt) => Ok(TaskState::Pending(halt)),
            Err(error) => Err(error),
        }
    }

    /// Run the given task until the program returns or the machine stops
    /// for another reason, at most as many instructions as the limit
    /// allows.
    pub fn run_to_completion(&mut self, heap: &mut Heap, limit: Option<usize>) -> (result: Result<
        TaskState<T>,
        VmError,
    >)
        ensures
            final(self).program() == old(self).program(),
            final(self).world() == old(self).world(),
            exists|halt: Result<VmHalt, VmError>, between: VmView|
                {
                    &&& #[trigger] Vm::run_for_post(
                        old(self).machine(),
                        old(heap),
                        &old(self).program(),
                        &old(self).world(),
                        limit,
                        halt,
                        between,
                        final(heap),
                    )
                    &&& Self::settled(halt, between, result, final(self).machine())
                },
    {
        let halt = self.vm.run_for(heap, &*self.unit, &*self.context, limit);
        let ghost between = self.vm@;
        let ghost seen = halt;
        assert(Vm::run_for_post(
            old(self).machine(),
            old(heap),
            &old(self).program(),
            &old(self).world(),
            limit,
            seen,
            between,
            heap,
        ));
        self.settle(halt)
    }

    /// Step the given task by one instruction.
    pub fn step(&mut self, heap: &mut Heap) -> (result: Result<TaskState<T>, VmError>)
        ensures
            final(self).program() == old(self).program(),
            final(self).world() == old(self).world(),
            exists|halt: Result<VmHalt, VmError>, between: VmView|
                {
                    &&& #[trigger] Vm::run_for_post(
                        old(self).machine(),
                        old(heap),
                        &old(self).program(),
                        &old(self).world(),
                        Some(1),
                        halt,
                        between,
                        final(heap),
                    )
                    &&& Self::settled(halt, between, result, final(self).machine())
                },
    {
        let halt = self.vm.run_for(heap, &*self.unit, &*self.context, Some(1));
        let ghost between = self.vm@;
        let ghost seen = halt;
        assert(Vm::run_for_post(
            old(self).machine(),
            old(heap),
            &old(self).program(),
            &old(self).world(),
            Some(1),
            seen,
            between,
            heap,
        ));
        self.settle(halt)
    }

    /// End the task: the machine is reset.
    pub fn finish(self)
        ensures
            final(self.vm)@ == (VmView { branch: self.machine().branch, ..Vm::fresh() }),
    {
        self.vm.clear();
    }
}

impl Vm {
    /// Call the given function in the given compilation unit.
    pub fn call_function<'a, T: FromValue>(
        &'a mut self,
        unit: Rc<CompilationUnit>,
        context: Rc<Context>,
        name: &[&str],
        args: Vec<Value>,
    ) -> (result: Result<Task<'a, T>, VmError>)
        ensures
            match result {
                Ok(task) => {
                    &&& Vm::enter_post(
                        old(self)@,
                        &*unit,
                        hash::Hash::spec_function(hash::path_bytes(name@)),
                        args@,
                        Ok(()),
                        task.machine(),
                    )
                    &&& task.program() == *unit
                    &&& task.world() == *context
                    &&& final(self)@ == final(task.vm)@
                },
                Err(error) => Vm::enter_post(
                    old(self)@,
                    &*unit,
                    hash::Hash::spec_function(hash::path_bytes(name@)),
                    args@,
                    Err(error),
                    final(self)@,
                ),
            },
    {
        let key = hash::Hash::function(name);
        match self.enter(&*unit, key, &args) {
            Ok(()) => Ok(Task { vm: self, unit, context, _marker: PhantomData }),
            Err(error) => Err(error),
        }
    }

    /// Run the given program on the virtual machine.
    pub fn run<'a, T: FromValue>(&'a mut self, unit: Rc<CompilationUnit>, context: Rc<Context>) -> (task:
        Task<'a, T>)
        ensures
            task.machine() == old(self)@,
            task.program() == *unit,
            task.world() == *context,
            final(self)@ == final(task.vm)@,
    {
        Task { vm: self, unit, context, _marker: PhantomData }
    }
}

} // verus!
