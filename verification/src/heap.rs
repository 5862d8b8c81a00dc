//! The heap: one slab of shared cells for each kind of shared value.

use vstd::prelude::*;
use crate::hash;
use crate::object::Object;
use crate::shared::{Cell, RawMut, Slab};
use crate::value::Value;
use crate::stream::Stream;
use crate::vm::Vm;

verus! {

/// A tuple that carries the hash of its type.
#[derive(Debug)]
pub struct TypedTuple {
    /// The hash of the type.
    pub ty: hash::Hash,
    /// The fields, in order.
    pub tuple: Vec<Value>,
}

/// An object that carries the hash of its type.
#[derive(Debug)]
pub struct TypedObject {
    /// The hash of the type.
    pub ty: hash::Hash,
    /// The fields.
    pub object: Object,
}

/// A value that is still being computed.
#[derive(Debug)]
pub struct Future {
    /// The machine of an asynchronous call that computes the value. A
    /// future without a machine belongs to the driver.
    pub vm: Option<Vm>,
    /// Whether the value was handed out.
    pub completed: bool,
}

/// The cells of every kind of shared value. A [`Value`] names its cell by
/// the variant it is and the handle it holds.
#[derive(Debug)]
pub struct Heap {
    /// The cells of strings.
    pub strings: Slab<String>,
    /// The cells of byte sequences.
    pub bytes: Slab<Vec<u8>>,
    /// The cells of vectors.
    pub vecs: Slab<Vec<Value>>,
    /// The cells of tuples.
    pub tuples: Slab<Vec<Value>>,
    /// The cells of objects.
    pub objects: Slab<Object>,
    /// The cells of typed tuples.
    pub typed_tuples: Slab<TypedTuple>,
    /// The cells of typed objects.
    pub typed_objects: Slab<TypedObject>,
    /// The cells of optional values.
    pub options: Slab<Option<Value>>,
    /// The cells of result values.
    pub results: Slab<Result<Value, Value>>,
    /// The cells of futures.
    pub futures: Slab<Future>,
    /// The cells of streams.
    pub streams: Slab<Stream>,
}

/// The cells of a heap, as contracts speak of them.
pub struct HeapView {
    /// The cells of strings.
    pub strings: Seq<Cell<String>>,
    /// The cells of byte sequences.
    pub bytes: Seq<Cell<Vec<u8>>>,
    /// The cells of vectors.
    pub vecs: Seq<Cell<Vec<Value>>>,
    /// The cells of tuples.
    pub tuples: Seq<Cell<Vec<Value>>>,
    /// The cells of objects.
    pub objects: Seq<Cell<Object>>,
    /// The cells of typed tuples.
    pub typed_tuples: Seq<Cell<TypedTuple>>,
    /// The cells of typed objects.
    pub typed_objects: Seq<Cell<TypedObject>>,
    /// The cells of optional values.
    pub options: Seq<Cell<Option<Value>>>,
    /// The cells of result values.
    pub results: Seq<Cell<Result<Value, Value>>>,
    /// The cells of futures.
    pub futures: Seq<Cell<Future>>,
    /// The cells of streams.
    pub streams: Seq<Cell<Stream>>,
}

impl View for Heap {
    type V = HeapView;

    open spec fn view(&self) -> HeapView {
        HeapView {
            strings: self.strings@,
            bytes: self.bytes@,
            vecs: self.vecs@,
            tuples: self.tuples@,
            objects: self.objects@,
            typed_tuples: self.typed_tuples@,
            typed_objects: self.typed_objects@,
            options: self.options@,
            results: self.results@,
            futures: self.futures@,
            streams: self.streams@,
        }
    }
}

impl Heap {
    /// A heap without cells.
    pub fn new() -> (heap: Heap)
        ensures
            heap@ == (HeapView {
                strings: Seq::empty(),
                bytes: Seq::empty(),
                vecs: Seq::empty(),
                tuples: Seq::empty(),
                objects: Seq::empty(),
                typed_tuples: Seq::empty(),
                typed_objects: Seq::empty(),
                options: Seq::empty(),
                results: Seq::empty(),
                futures: Seq::empty(),
                streams: Seq::empty(),
            }),
    {
        Heap {
            strings: Slab::new(),
            bytes: Slab::new(),
            vecs: Slab::new(),
            tuples: Slab::new(),
            objects: Slab::new(),
            typed_tuples: Slab::new(),
            typed_objects: Slab::new(),
            options: Slab::new(),
            results: Slab::new(),
            futures: Slab::new(),
            streams: Slab::new(),
        }
    }
}

/// The cells of futures after the machine of the one at `index` was set to
/// `vm`. A position without a future changes nothing.
pub open spec fn with_machine(futures: Seq<Cell<Future>>, index: usize, vm: Option<Vm>) -> Seq<
    Cell<Future>,
> {
    if index < futures.len() && futures[index as int].value is Some {
        futures.update(
            index as int,
            Cell {
                readers: futures[index as int].readers,
                writer: futures[index as int].writer,
                value: Some(Future { vm, completed: futures[index as int].value->0.completed }),
            },
        )
    } else {
        futures
    }
}

impl Heap {
    /// Take the machine out of a future that is held exclusively, to run
    /// it. `None` where the future has no machine: it belongs to the driver,
    /// or its machine is out already.
    pub fn take_machine(&mut self, guard: &RawMut) -> (vm: Option<Vm>)
        ensures
            vm == if guard.index < old(self)@.futures.len() && old(
                self,
            )@.futures[guard.index as int].value is Some {
                old(self)@.futures[guard.index as int].value->0.vm
            } else {
                None
            },
            final(self)@ == (HeapView {
                futures: with_machine(old(self)@.futures, guard.index, None),
                ..old(self)@
            }),
    {
        let vm = match self.futures.guarded_mut(guard) {
            Some(future) => future.vm.take(),
            None => None,
        };
        assert(self.futures@ =~= with_machine(old(self)@.futures, guard.index, None));
        vm
    }

    /// Put a machine back into the future it was taken from, where the wait
    /// for the future is given up before the machine has run to its end.
    pub fn return_machine(&mut self, guard: &RawMut, vm: Vm)
        ensures
            final(self)@ == (HeapView {
                futures: with_machine(old(self)@.futures, guard.index, Some(vm)),
                ..old(self)@
            }),
    {
        match self.futures.guarded_mut(guard) {
            Some(future) => {
                future.vm = Some(vm);
            },
            None => {},
        }
        assert(self.futures@ =~= with_machine(old(self)@.futures, guard.index, Some(vm)));
    }
}

impl Heap {
    /// Drop every cell. Handles made before no longer name anything.
    pub fn clear(&mut self)
        ensures
            final(self)@ == (HeapView {
                strings: Seq::empty(),
                bytes: Seq::empty(),
                vecs: Seq::empty(),
                tuples: Seq::empty(),
                objects: Seq::empty(),
                typed_tuples: Seq::empty(),
                typed_objects: Seq::empty(),
                options: Seq::empty(),
                results: Seq::empty(),
                futures: Seq::empty(),
                streams: Seq::empty(),
            }),
    {
        self.strings.clear();
        self.bytes.clear();
        self.vecs.clear();
        self.tuples.clear();
        self.objects.clear();
        self.typed_tuples.clear();
        self.typed_objects.clear();
        self.options.clear();
        self.results.clear();
        self.futures.clear();
        self.streams.clear();
    }
}

} // verus!
