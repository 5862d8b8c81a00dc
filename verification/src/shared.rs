//! Shared cells with runtime access accounting.
//!
//! Every value that lives outside the stack sits in a cell of a [`Slab`] and
//! is named by a [`Shared`] handle, which may be copied freely. A cell grants
//! shared read access and exclusive write access, and checks each request
//! when it is made: a request that the cell's state forbids fails with an
//! [`AccessError`].

use vstd::prelude::*;

verus! {

/// A handle to a cell of a [`Slab`].
#[derive(Clone, Copy, Debug, PartialEq, Eq, Structural)]
pub struct Shared {
    /// The position of the cell in its slab.
    pub index: usize,
}

/// A request for access that a cell's state forbids.
#[derive(Clone, Copy, Debug, PartialEq, Eq, Structural)]
pub enum AccessError {
    /// The value cannot be read: it is held exclusively, was moved out, or
    /// the handle names no cell.
    NotAccessibleRef,
    /// The value cannot be written: it is held in some way, was moved out, or
    /// the handle names no cell.
    NotAccessibleMut,
    /// The value cannot be moved out: it is held in some way, was moved out
    /// before, or the handle names no cell.
    NotAccessibleTake,
}

/// The token of a held shared access. The cell stays readable, and not
/// writable, until the token is handed back.
#[derive(Debug, PartialEq)]
pub struct RawRef {
    /// The position of the held cell.
    pub index: usize,
}

/// The token of a held exclusive access. Nothing else can reach the cell
/// until the token is handed back.
#[derive(Debug, PartialEq)]
pub struct RawMut {
    /// The position of the held cell.
    pub index: usize,
}

/// One cell: a value and the accesses that are held on it.
#[derive(Debug)]
pub struct Cell<T> {
    /// How many shared accesses are held.
    pub readers: usize,
    /// Whether the exclusive access is held.
    pub writer: bool,
    /// The value; `None` once it was moved out.
    pub value: Option<T>,
}

impl<T> Cell<T> {
    /// A shared access can be granted.
    pub open spec fn readable(self) -> bool {
        self.value is Some && !self.writer
    }

    /// The exclusive access can be granted.
    pub open spec fn writable(self) -> bool {
        self.value is Some && !self.writer && self.readers == 0
    }
}

/// A cell on which nothing is held and that holds a value.
pub open spec fn is_fresh<T>(cell: Cell<T>) -> bool {
    cell.readers == 0 && !cell.writer && cell.value is Some
}

/// `post` is `pre` with one more cell at the end, on which nothing is held.
pub open spec fn cell_added<T>(pre: Seq<Cell<T>>, post: Seq<Cell<T>>) -> bool {
    &&& post.len() == pre.len() + 1
    &&& post.drop_last() =~= pre
    &&& is_fresh(post.last())
}

/// `post` is `pre` but for the value in the cell at `index`, which was
/// writable.
pub open spec fn cell_rewritten<T>(pre: Seq<Cell<T>>, post: Seq<Cell<T>>, index: int) -> bool {
    &&& 0 <= index < pre.len()
    &&& pre[index].writable()
    &&& post.len() == pre.len()
    &&& is_fresh(post[index])
    &&& forall|i: int| 0 <= i < pre.len() && i != index ==> post[i] == pre[i]
}

/// A growable store of cells.
#[derive(Debug)]
pub struct Slab<T> {
    cells: Vec<Cell<T>>,
}

impl<T> View for Slab<T> {
    type V = Seq<Cell<T>>;

    closed spec fn view(&self) -> Seq<Cell<T>> {
        self.cells@
    }
}

impl<T> Slab<T> {
    /// The handle names a cell that can be read.
    pub open spec fn readable(&self, shared: Shared) -> bool {
        shared.index < self@.len() && self@[shared.index as int].readable()
    }

    /// The handle names a cell that can be written.
    pub open spec fn writable(&self, shared: Shared) -> bool {
        shared.index < self@.len() && self@[shared.index as int].writable()
    }

    /// The value behind a handle.
    pub open spec fn value(&self, shared: Shared) -> T {
        self@[shared.index as int].value->0
    }

    /// A slab without cells.
    pub fn new() -> (slab: Slab<T>)
        ensures
            slab@ == Seq::<Cell<T>>::empty(),
    {
        Slab { cells: Vec::new() }
    }

    /// The number of cells.
    pub fn len(&self) -> (len: usize)
        ensures
            len == self@.len(),
    {
        self.cells.len()
    }

    /// Drop every cell. Handles made before no longer name anything.
    pub fn clear(&mut self)
        ensures
            final(self)@ == Seq::<Cell<T>>::empty(),
    {
        self.cells.clear();
    }

    /// Put a value into a new cell, on which nothing is held.
    pub fn insert(&mut self, value: T) -> (shared: Shared)
        ensures
            shared.index == old(self)@.len(),
            final(self)@ == old(self)@.push(Cell { readers: 0, writer: false, value: Some(value) }),
    {
        let index = self.cells.len();
        self.cells.push(Cell { readers: 0, writer: false, value: Some(value) });
        Shared { index }
    }

    /// Whether the value behind a handle can be read.
    pub fn is_readable(&self, shared: Shared) -> (readable: bool)
        ensures
            readable == self.readable(shared),
    {
        if shared.index >= self.cells.len() {
            return false;
        }
        let cell = &self.cells[shared.index];
        cell.value.is_some() && !cell.writer
    }

    /// Whether the value behind a handle can be written.
    pub fn is_writable(&self, shared: Shared) -> (writable: bool)
        ensures
            writable == self.writable(shared),
    {
        if shared.index >= self.cells.len() {
            return false;
        }
        let cell = &self.cells[shared.index];
        cell.value.is_some() && !cell.writer && cell.readers == 0
    }

    /// Read the value behind a handle.
    pub fn get_ref(&self, shared: Shared) -> (result: Result<&T, AccessError>)
        ensures
            match result {
                Ok(value) => self.readable(shared) && *value == self.value(shared),
                Err(error) => !self.readable(shared) && error == AccessError::NotAccessibleRef,
            },
    {
        if shared.index >= self.cells.len() {
            return Err(AccessError::NotAccessibleRef);
        }
        let cell = &self.cells[shared.index];
        if cell.writer {
            return Err(AccessError::NotAccessibleRef);
        }
        match &cell.value {
            Some(value) => Ok(value),
            None => Err(AccessError::NotAccessibleRef),
        }
    }

    /// Reach the value behind a handle for writing.
    pub fn get_mut(&mut self, shared: Shared) -> (result: Result<&mut T, AccessError>)
        ensures
            match result {
                Ok(value) => {
                    &&& old(self).writable(shared)
                    &&& *value == old(self).value(shared)
                    &&& final(self)@ == old(self)@.update(
                        shared.index as int,
                        Cell { readers: 0, writer: false, value: Some(*final(value)) },
                    )
                },
                Err(error) => {
                    &&& !old(self).writable(shared)
                    &&& error == AccessError::NotAccessibleMut
                    &&& final(self)@ == old(self)@
                },
            },
    {
        if shared.index >= self.cells.len() {
            return Err(AccessError::NotAccessibleMut);
        }
        let cell = &mut self.cells[shared.index];
        if cell.writer || cell.readers != 0 {
            return Err(AccessError::NotAccessibleMut);
        }
        match &mut cell.value {
            Some(value) => Ok(value),
            None => Err(AccessError::NotAccessibleMut),
        }
    }

    /// Move the value behind a handle out of its cell. The cell stays, empty:
    /// no later access to it succeeds.
    pub fn take(&mut self, shared: Shared) -> (result: Result<T, AccessError>)
        ensures
            match result {
                Ok(value) => {
                    &&& old(self).writable(shared)
                    &&& value == old(self).value(shared)
                    &&& final(self)@ == old(self)@.update(
                        shared.index as int,
                        Cell { readers: 0, writer: false, value: None },
                    )
                },
                Err(error) => {
                    &&& !old(self).writable(shared)
                    &&& error == AccessError::NotAccessibleTake
                    &&& final(self)@ == old(self)@
                },
            },
    {
        if shared.index >= self.cells.len() {
            return Err(AccessError::NotAccessibleTake);
        }
        let cell = &mut self.cells[shared.index];
        if cell.writer || cell.readers != 0 {
            return Err(AccessError::NotAccessibleTake);
        }
        match cell.value.take() {
            Some(value) => Ok(value),
            None => Err(AccessError::NotAccessibleTake),
        }
    }

    /// Hold the exclusive access to a cell beyond the current borrow. Until
    /// the token is handed back with [`Slab::release_mut`], the cell can
    /// only be reached through the token.
    pub fn acquire_mut(&mut self, shared: Shared) -> (result: Result<RawMut, AccessError>)
        ensures
            match result {
                Ok(guard) => {
                    &&& old(self).writable(shared)
                    &&& guard.index == shared.index
                    &&& final(self)@ == old(self)@.update(
                        shared.index as int,
                        Cell { readers: 0, writer: true, value: old(self)@[shared.index as int].value },
                    )
                },
                Err(error) => {
                    &&& !old(self).writable(shared)
                    &&& error == AccessError::NotAccessibleMut
                    &&& final(self)@ == old(self)@
                },
            },
    {
        if shared.index >= self.cells.len() {
            return Err(AccessError::NotAccessibleMut);
        }
        let cell = &mut self.cells[shared.index];
        if cell.writer || cell.readers != 0 || cell.value.is_none() {
            return Err(AccessError::NotAccessibleMut);
        }
        cell.writer = true;
        Ok(RawMut { index: shared.index })
    }

    /// Hand back a held exclusive access. A token that names no cell is
    /// dropped and nothing changes.
    pub fn release_mut(&mut self, guard: RawMut)
        ensures
            guard.index < old(self)@.len() ==> final(self)@ == old(self)@.update(
                guard.index as int,
                Cell {
                    readers: old(self)@[guard.index as int].readers,
                    writer: false,
                    value: old(self)@[guard.index as int].value,
                },
            ),
            guard.index >= old(self)@.len() ==> final(self)@ == old(self)@,
    {
        if guard.index < self.cells.len() {
            let cell = &mut self.cells[guard.index];
            cell.writer = false;
        }
    }

    /// Read the value of a cell that is held exclusively, through the token.
    pub fn guarded_ref(&self, guard: &RawMut) -> (result: Option<&T>)
        ensures
            match result {
                Some(value) => {
                    &&& guard.index < self@.len()
                    &&& self@[guard.index as int].value == Some(*value)
                },
                None => guard.index >= self@.len() || self@[guard.index as int].value is None,
            },
    {
        if guard.index >= self.cells.len() {
            return None;
        }
        self.cells[guard.index].value.as_ref()
    }

    /// Reach the value of a cell that is held exclusively, through the token.
    pub fn guarded_mut(&mut self, guard: &RawMut) -> (result: Option<&mut T>)
        ensures
            match result {
                Some(value) => {
                    &&& guard.index < old(self)@.len()
                    &&& old(self)@[guard.index as int].value == Some(*value)
                    &&& final(self)@ == old(self)@.update(
                        guard.index as int,
                        Cell {
                            readers: old(self)@[guard.index as int].readers,
                            writer: old(self)@[guard.index as int].writer,
                            value: Some(*final(value)),
                        },
                    )
                },
                None => {
                    &&& guard.index >= old(self)@.len() || old(self)@[guard.index as int].value is None
                    &&& final(self)@ == old(self)@
                },
            },
    {
        if guard.index >= self.cells.len() {
            return None;
        }
        let cell = &mut self.cells[guard.index];
        match &mut cell.value {
            Some(value) => Some(value),
            None => None,
        }
    }

    /// Move the value out of a cell for a while: the cell is held
    /// exclusively and stays empty until the value is handed back with
    /// [`Slab::give_back`].
    pub fn lend(&mut self, shared: Shared) -> (result: Result<(T, RawMut), AccessError>)
        ensures
            match result {
                Ok((value, guard)) => {
                    &&& old(self).writable(shared)
                    &&& value == old(self).value(shared)
                    &&& guard.index == shared.index
                    &&& final(self)@ == old(self)@.update(
                        shared.index as int,
                        Cell { readers: 0, writer: true, value: None },
                    )
                },
                Err(error) => {
                    &&& !old(self).writable(shared)
                    &&& error == AccessError::NotAccessibleMut
                    &&& final(self)@ == old(self)@
                },
            },
    {
        if shared.index >= self.cells.len() {
            return Err(AccessError::NotAccessibleMut);
        }
        let cell = &mut self.cells[shared.index];
        if cell.writer || cell.readers != 0 {
            return Err(AccessError::NotAccessibleMut);
        }
        match cell.value.take() {
            Some(value) => {
                cell.writer = true;
                Ok((value, RawMut { index: shared.index }))
            },
            None => Err(AccessError::NotAccessibleMut),
        }
    }

    /// Hand back a value that was moved out with [`Slab::lend`], and the
    /// exclusive access with it. A token that names no cell is dropped with
    /// the value and nothing changes.
    pub fn give_back(&mut self, guard: RawMut, value: T)
        ensures
            guard.index < old(self)@.len() ==> final(self)@ == old(self)@.update(
                guard.index as int,
                Cell {
                    readers: old(self)@[guard.index as int].readers,
                    writer: false,
                    value: Some(value),
                },
            ),
            guard.index >= old(self)@.len() ==> final(self)@ == old(self)@,
    {
        if guard.index < self.cells.len() {
            let cell = &mut self.cells[guard.index];
            cell.writer = false;
            cell.value = Some(value);
        }
    }

    /// Hold a shared access to a cell beyond the current borrow. Until the
    /// token is handed back with [`Slab::release_ref`], the cell cannot be
    /// written or emptied.
    pub fn acquire_ref(&mut self, shared: Shared) -> (result: Result<RawRef, AccessError>)
        ensures
            match result {
                Ok(guard) => {
                    &&& old(self).readable(shared)
                    &&& old(self)@[shared.index as int].readers < usize::MAX
                    &&& guard.index == shared.index
                    &&& final(self)@ == old(self)@.update(
                        shared.index as int,
                        Cell {
                            readers: (old(self)@[shared.index as int].readers + 1) as usize,
                            writer: false,
                            value: old(self)@[shared.index as int].value,
                        },
                    )
                },
                Err(error) => {
                    &&& !old(self).readable(shared) || old(self)@[shared.index as int].readers
                        == usize::MAX
                    &&& error == AccessError::NotAccessibleRef
                    &&& final(self)@ == old(self)@
                },
            },
    {
        if shared.index >= self.cells.len() {
            return Err(AccessError::NotAccessibleRef);
        }
        let cell = &mut self.cells[shared.index];
        if cell.writer || cell.value.is_none() || cell.readers == usize::MAX {
            return Err(AccessError::NotAccessibleRef);
        }
        cell.readers = cell.readers + 1;
        Ok(RawRef { index: shared.index })
    }

    /// Hand back a held shared access. A token that names no cell, or a cell
    /// on which no shared access is held, is dropped and nothing changes.
    pub fn release_ref(&mut self, guard: RawRef)
        ensures
            guard.index < old(self)@.len() && old(self)@[guard.index as int].readers > 0
                ==> final(self)@ == old(self)@.update(
                guard.index as int,
                Cell {
                    readers: (old(self)@[guard.index as int].readers - 1) as usize,
                    writer: old(self)@[guard.index as int].writer,
                    value: old(self)@[guard.index as int].value,
                },
            ),
            !(guard.index < old(self)@.len() && old(self)@[guard.index as int].readers > 0)
                ==> final(self)@ == old(self)@,
    {
        if guard.index < self.cells.len() {
            let cell = &mut self.cells[guard.index];
            if cell.readers > 0 {
                cell.readers = cell.readers - 1;
            }
        }
    }
}

} // verus!
