//! The context: what the machine knows of the world outside the program.

use vstd::prelude::*;
use crate::hash;
use crate::table::Table;
use crate::unit::TypeInfo;

verus! {

/// A native function, named by its position in the driver's own table.
#[derive(Clone, Copy, Debug, PartialEq, Eq, Structural)]
pub struct Handler {
    /// The position in the driver's table of native functions.
    pub id: usize,
}

/// The types of the two forms of an optional value.
#[derive(Clone, Copy, Debug, PartialEq, Eq, Structural)]
pub struct OptionTypes {
    /// The type of an optional value that holds a value.
    pub some_type: hash::Hash,
    /// The type of an empty optional value.
    pub none_type: hash::Hash,
}

/// The types of the two forms of a result.
#[derive(Clone, Copy, Debug, PartialEq, Eq, Structural)]
pub struct ResultTypes {
    /// The type of a success.
    pub ok_type: hash::Hash,
    /// The type of an error.
    pub err_type: hash::Hash,
}

/// The native functions and types that a program can reach.
#[derive(Debug)]
pub struct Context {
    handlers: Table<Handler>,
    types: Table<TypeInfo>,
    option_types: Option<OptionTypes>,
    result_types: Option<ResultTypes>,
}

impl Context {
    /// The native function with the given hash.
    pub closed spec fn handler(&self, key: hash::Hash) -> Option<Handler> {
        self.handlers.spec_get(key)
    }

    /// The type with the given hash.
    pub closed spec fn type_info(&self, key: hash::Hash) -> Option<TypeInfo> {
        self.types.spec_get(key)
    }

    /// The types of optional values, once they are known.
    pub closed spec fn spec_option_types(&self) -> Option<OptionTypes> {
        self.option_types
    }

    /// The types of results, once they are known.
    pub closed spec fn spec_result_types(&self) -> Option<ResultTypes> {
        self.result_types
    }

    /// A context that knows nothing.
    pub fn new() -> (context: Context)
        ensures
            forall|key: hash::Hash| context.handler(key) is None,
            forall|key: hash::Hash| context.type_info(key) is None,
            context.spec_option_types() is None,
            context.spec_result_types() is None,
    {
        Context {
            handlers: Table::new(),
            types: Table::new(),
            option_types: None,
            result_types: None,
        }
    }

    /// Enter a native function under `key`, unless the hash is taken.
    /// Returns whether the entry was made.
    pub fn install_handler(&mut self, key: hash::Hash, handler: Handler) -> (inserted: bool)
        ensures
            inserted == old(self).handler(key).is_none(),
            forall|other: hash::Hash|
                final(self).handler(other) == if inserted && other == key {
                    Some(handler)
                } else {
                    old(self).handler(other)
                },
            forall|other: hash::Hash| final(self).type_info(other) == old(self).type_info(other),
            final(self).spec_option_types() == old(self).spec_option_types(),
            final(self).spec_result_types() == old(self).spec_result_types(),
    {
        let inserted = self.handlers.insert(key, handler);
        proof {
            if inserted {
                assert(self.handlers@.drop_last() == old(self).handlers@);
            }
        }
        inserted
    }

    /// Enter a type under `key`, unless the hash is taken. Returns whether
    /// the entry was made.
    pub fn install_type(&mut self, key: hash::Hash, info: TypeInfo) -> (inserted: bool)
        ensures
            inserted == old(self).type_info(key).is_none(),
            forall|other: hash::Hash|
                final(self).type_info(other) == if inserted && other == key {
                    Some(info)
                } else {
                    old(self).type_info(other)
                },
            forall|other: hash::Hash| final(self).handler(other) == old(self).handler(other),
            final(self).spec_option_types() == old(self).spec_option_types(),
            final(self).spec_result_types() == old(self).spec_result_types(),
    {
        let inserted = self.types.insert(key, info);
        proof {
            if inserted {
                assert(self.types@.drop_last() == old(self).types@);
            }
        }
        inserted
    }

    /// Make the types of optional values known.
    pub fn install_option_types(&mut self, types: OptionTypes)
        ensures
            final(self).spec_option_types() == Some(types),
            final(self).spec_result_types() == old(self).spec_result_types(),
            forall|key: hash::Hash| final(self).handler(key) == old(self).handler(key),
            forall|key: hash::Hash| final(self).type_info(key) == old(self).type_info(key),
    {
        self.option_types = Some(types);
    }

    /// Make the types of results known.
    pub fn install_result_types(&mut self, types: ResultTypes)
        ensures
            final(self).spec_result_types() == Some(types),
            final(self).spec_option_types() == old(self).spec_option_types(),
            forall|key: hash::Hash| final(self).handler(key) == old(self).handler(key),
            forall|key: hash::Hash| final(self).type_info(key) == old(self).type_info(key),
    {
        self.result_types = Some(types);
    }

    /// The native function with the given hash.
    pub fn lookup(&self, key: hash::Hash) -> (found: Option<Handler>)
        ensures
            found == self.handler(key),
    {
        self.handlers.get(key)
    }

    /// The type with the given hash.
    pub fn lookup_type(&self, key: hash::Hash) -> (info: Option<TypeInfo>)
        ensures
            info == self.type_info(key),
    {
        self.types.get(key)
    }

    /// The types of optional values, once they are known.
    pub fn option_types(&self) -> (types: Option<OptionTypes>)
        ensures
            types == self.spec_option_types(),
    {
        self.option_types
    }

    /// The types of results, once they are known.
    pub fn result_types(&self) -> (types: Option<ResultTypes>)
        ensures
            types == self.spec_result_types(),
    {
        self.result_types
    }
}

} // verus!
