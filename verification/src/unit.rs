//! The compilation unit: the program and its tables, as the machine reads
//! them.

use vstd::prelude::*;
use vstd::string::*;
use crate::error::VmError;
use crate::hash;
use crate::inst::Inst;
use crate::table::Table;
use crate::value::ValueType;

verus! {

/// How a function at an offset is entered.
#[derive(Clone, Copy, Debug, PartialEq, Eq, Structural)]
pub enum UnitFnCall {
    /// In a new call frame of the calling machine.
    Immediate,
    /// In a machine of its own, behind a future.
    Async,
}

/// What a function of the unit is.
#[derive(Clone, Copy, Debug, PartialEq, Eq, Structural)]
pub enum UnitFnKind {
    /// Code at an offset in the program.
    Offset { offset: usize, call: UnitFnCall },
    /// The constructor of a typed tuple.
    Tuple { ty: hash::Hash },
}

/// What a call has to provide.
#[derive(Clone, Copy, Debug, PartialEq, Eq, Structural)]
pub struct UnitFnSignature {
    /// The number of arguments.
    pub args: usize,
}

/// A function of the unit.
#[derive(Clone, Copy, Debug, PartialEq, Eq, Structural)]
pub struct UnitFnInfo {
    /// What the function is.
    pub kind: UnitFnKind,
    /// What a call has to provide.
    pub signature: UnitFnSignature,
}

/// A type, as `is` needs to know it.
#[derive(Clone, Copy, Debug, PartialEq, Eq, Structural)]
pub struct TypeInfo {
    /// The type of the values that are of this type.
    pub value_type: ValueType,
}

/// The texts of a sequence of strings.
pub open spec fn texts(strings: Seq<String>) -> Seq<Seq<char>> {
    Seq::new(strings.len(), |i: int| strings[i]@)
}

/// The position of the first string with the given text.
pub open spec fn text_position(strings: Seq<Seq<char>>, text: Seq<char>) -> Option<int>
    decreases strings.len(),
{
    if strings.len() == 0 {
        None
    } else {
        match text_position(strings.drop_last(), text) {
            Some(i) => Some(i),
            None => if strings.last() == text {
                Some(strings.len() - 1)
            } else {
                None
            },
        }
    }
}

/// What [`text_position`] finds is a string with the text, and the first one.
pub proof fn lemma_text_position(strings: Seq<Seq<char>>, text: Seq<char>)
    ensures
        match text_position(strings, text) {
            Some(i) => {
                &&& 0 <= i < strings.len()
                &&& strings[i] == text
                &&& forall|j: int| 0 <= j < i ==> #[trigger] strings[j] != text
            },
            None => forall|j: int| 0 <= j < strings.len() ==> #[trigger] strings[j] != text,
        },
    decreases strings.len(),
{
    if strings.len() > 0 {
        let front = strings.drop_last();
        lemma_text_position(front, text);
        assert forall|j: int| 0 <= j < front.len() implies #[trigger] strings[j] == front[j] by {}
        match text_position(front, text) {
            Some(i) => {},
            None => {
                assert forall|j: int| 0 <= j < front.len() implies #[trigger] strings[j]
                    != text by {
                    assert(front[j] != text);
                }
            },
        }
    }
}

/// A program with its tables of functions, types, strings, bytes and
/// object keys.
#[derive(Debug)]
pub struct CompilationUnit {
    instructions: Vec<Inst>,
    functions: Table<UnitFnInfo>,
    types: Table<TypeInfo>,
    static_strings: Vec<String>,
    static_bytes: Vec<Vec<u8>>,
    static_object_keys: Vec<Vec<String>>,
}

impl CompilationUnit {
    /// The instructions, in order.
    pub closed spec fn instructions(&self) -> Seq<Inst> {
        self.instructions@
    }

    /// The function with the given hash.
    pub closed spec fn function(&self, key: hash::Hash) -> Option<UnitFnInfo> {
        self.functions.spec_get(key)
    }

    /// The type with the given hash.
    pub closed spec fn type_info(&self, key: hash::Hash) -> Option<TypeInfo> {
        self.types.spec_get(key)
    }

    /// The texts of the static strings, by slot.
    pub closed spec fn strings(&self) -> Seq<Seq<char>> {
        texts(self.static_strings@)
    }

    /// The static byte sequences, by slot.
    pub closed spec fn bytes(&self) -> Seq<Seq<u8>> {
        Seq::new(self.static_bytes@.len(), |i: int| self.static_bytes@[i]@)
    }

    /// The static object keys, by slot: at each slot the texts of the keys,
    /// in order.
    pub closed spec fn object_keys(&self) -> Seq<Seq<Seq<char>>> {
        Seq::new(self.static_object_keys@.len(), |i: int| texts(self.static_object_keys@[i]@))
    }

    /// No two static strings have the same text: a text has one slot.
    pub open spec fn interned(&self) -> bool {
        forall|i: int, j: int|
            0 <= i < j < self.strings().len() ==> #[trigger] self.strings()[i]
                != #[trigger] self.strings()[j]
    }

    /// A unit without instructions and with empty tables.
    pub fn new() -> (unit: CompilationUnit)
        ensures
            unit.interned(),
            unit.instructions() == Seq::<Inst>::empty(),
            unit.strings() == Seq::<Seq<char>>::empty(),
            unit.bytes() == Seq::<Seq<u8>>::empty(),
            unit.object_keys() == Seq::<Seq<Seq<char>>>::empty(),
            forall|key: hash::Hash| unit.function(key) is None,
            forall|key: hash::Hash| unit.type_info(key) is None,
    {
        CompilationUnit {
            instructions: Vec::new(),
            functions: Table::new(),
            types: Table::new(),
            static_strings: Vec::new(),
            static_bytes: Vec::new(),
            static_object_keys: Vec::new(),
        }
    }

    /// Append an instruction. Returns its offset.
    pub fn push_instruction(&mut self, inst: Inst) -> (offset: usize)
        ensures
            offset == old(self).instructions().len(),
            final(self).instructions() == old(self).instructions().push(inst),
            final(self).strings() == old(self).strings(),
            final(self).bytes() == old(self).bytes(),
            final(self).object_keys() == old(self).object_keys(),
            forall|key: hash::Hash| final(self).function(key) == old(self).function(key),
            forall|key: hash::Hash| final(self).type_info(key) == old(self).type_info(key),
    {
        let offset = self.instructions.len();
        self.instructions.push(inst);
        offset
    }

    /// Enter a function under `key`, unless the hash is taken. Returns
    /// whether the entry was made.
    pub fn new_function(&mut self, key: hash::Hash, info: UnitFnInfo) -> (inserted: bool)
        ensures
            inserted == old(self).function(key).is_none(),
            forall|other: hash::Hash|
                final(self).function(other) == if inserted && other == key {
                    Some(info)
                } else {
                    old(self).function(other)
                },
            final(self).instructions() == old(self).instructions(),
            final(self).strings() == old(self).strings(),
            final(self).bytes() == old(self).bytes(),
            final(self).object_keys() == old(self).object_keys(),
            forall|other: hash::Hash| final(self).type_info(other) == old(self).type_info(other),
    {
        let inserted = self.functions.insert(key, info);
        proof {
            if inserted {
                assert(self.functions@.drop_last() == old(self).functions@);
            }
        }
        inserted
    }

    /// Enter a type under `key`, unless the hash is taken. Returns whether
    /// the entry was made.
    pub fn new_type(&mut self, key: hash::Hash, info: TypeInfo) -> (inserted: bool)
        ensures
            inserted == old(self).type_info(key).is_none(),
            forall|other: hash::Hash|
                final(self).type_info(other) == if inserted && other == key {
                    Some(info)
                } else {
                    old(self).type_info(other)
                },
            final(self).instructions() == old(self).instructions(),
            final(self).strings() == old(self).strings(),
            final(self).bytes() == old(self).bytes(),
            final(self).object_keys() == old(self).object_keys(),
            forall|other: hash::Hash| final(self).function(other) == old(self).function(other),
    {
        let inserted = self.types.insert(key, info);
        proof {
            if inserted {
                assert(self.types@.drop_last() == old(self).types@);
            }
        }
        inserted
    }

    /// Intern a string: the slot of the static string with this text, which
    /// is entered if there is none yet.
    pub fn new_static_string(&mut self, text: &str) -> (slot: usize)
        ensures
            match text_position(old(self).strings(), text@) {
                Some(i) => slot == i && final(self).strings() == old(self).strings(),
                None => slot == old(self).strings().len() && final(self).strings() == old(
                    self,
                ).strings().push(text@),
            },
            old(self).interned() ==> final(self).interned(),
            final(self).instructions() == old(self).instructions(),
            final(self).bytes() == old(self).bytes(),
            final(self).object_keys() == old(self).object_keys(),
            forall|key: hash::Hash| final(self).function(key) == old(self).function(key),
            forall|key: hash::Hash| final(self).type_info(key) == old(self).type_info(key),
    {
        let wanted = text.to_owned();
        let mut i: usize = 0;
        while i < self.static_strings.len()
            invariant
                i <= self.static_strings@.len(),
                wanted@ == text@,
                forall|j: int| 0 <= j < i ==> #[trigger] self.strings()[j] != text@,
            decreases self.static_strings@.len() - i,
        {
            if self.static_strings[i] == wanted {
                proof {
                    assert(self.strings()[i as int] == text@);
                    lemma_text_position(self.strings(), text@);
                }
                return i;
            }
            assert(self.strings()[i as int] != text@);
            i = i + 1;
        }
        proof {
            lemma_text_position(self.strings(), text@);
        }
        self.static_strings.push(wanted);
        assert(self.strings() =~= old(self).strings().push(text@));
        i
    }

    /// Enter a static byte sequence. Returns its slot.
    pub fn new_static_bytes(&mut self, bytes: Vec<u8>) -> (slot: usize)
        ensures
            slot == old(self).bytes().len(),
            final(self).bytes() == old(self).bytes().push(bytes@),
            final(self).instructions() == old(self).instructions(),
            final(self).strings() == old(self).strings(),
            final(self).object_keys() == old(self).object_keys(),
            forall|key: hash::Hash| final(self).function(key) == old(self).function(key),
            forall|key: hash::Hash| final(self).type_info(key) == old(self).type_info(key),
    {
        let slot = self.static_bytes.len();
        self.static_bytes.push(bytes);
        assert(self.bytes() =~= old(self).bytes().push(bytes@));
        slot
    }

    /// Enter a sequence of static object keys. Returns its slot.
    pub fn new_static_object_keys(&mut self, keys: Vec<String>) -> (slot: usize)
        ensures
            slot == old(self).object_keys().len(),
            final(self).object_keys() == old(self).object_keys().push(texts(keys@)),
            final(self).instructions() == old(self).instructions(),
            final(self).strings() == old(self).strings(),
            final(self).bytes() == old(self).bytes(),
            forall|key: hash::Hash| final(self).function(key) == old(self).function(key),
            forall|key: hash::Hash| final(self).type_info(key) == old(self).type_info(key),
    {
        let slot = self.static_object_keys.len();
        self.static_object_keys.push(keys);
        assert(self.object_keys() =~= old(self).object_keys().push(texts(keys@)));
        slot
    }

    /// The instruction at `ip`.
    pub fn instruction_at(&self, ip: usize) -> (inst: Option<Inst>)
        ensures
            inst == if ip < self.instructions().len() {
                Some(self.instructions()[ip as int])
            } else {
                None
            },
    {
        if ip < self.instructions.len() {
            Some(self.instructions[ip])
        } else {
            None
        }
    }

    /// The function with the given hash.
    pub fn lookup(&self, key: hash::Hash) -> (info: Option<UnitFnInfo>)
        ensures
            info == self.function(key),
    {
        self.functions.get(key)
    }

    /// The type with the given hash.
    pub fn lookup_type(&self, key: hash::Hash) -> (info: Option<TypeInfo>)
        ensures
            info == self.type_info(key),
    {
        self.types.get(key)
    }

    /// The static string at `slot`.
    pub fn lookup_string(&self, slot: usize) -> (result: Result<&String, VmError>)
        ensures
            match result {
                Ok(string) => slot < self.strings().len() && string@ == self.strings()[slot as int],
                Err(error) => slot >= self.strings().len() && error
                    == (VmError::MissingStaticString { slot }),
            },
    {
        if slot < self.static_strings.len() {
            Ok(&self.static_strings[slot])
        } else {
            Err(VmError::MissingStaticString { slot })
        }
    }

    /// The static bytes at `slot`.
    pub fn lookup_bytes(&self, slot: usize) -> (result: Result<&Vec<u8>, VmError>)
        ensures
            match result {
                Ok(bytes) => slot < self.bytes().len() && bytes@ == self.bytes()[slot as int],
                Err(error) => slot >= self.bytes().len() && error
                    == (VmError::MissingStaticBytes { slot }),
            },
    {
        if slot < self.static_bytes.len() {
            Ok(&self.static_bytes[slot])
        } else {
            Err(VmError::MissingStaticBytes { slot })
        }
    }

    /// The static object keys at `slot`, in order.
    pub fn lookup_object_keys(&self, slot: usize) -> (keys: Option<&Vec<String>>)
        ensures
            match keys {
                Some(keys) => slot < self.object_keys().len() && texts(keys@)
                    == self.object_keys()[slot as int],
                None => slot >= self.object_keys().len(),
            },
    {
        if slot < self.static_object_keys.len() {
            Some(&self.static_object_keys[slot])
        } else {
            None
        }
    }
}

} // verus!
