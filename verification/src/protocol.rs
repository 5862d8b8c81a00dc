//! The names under which operators look for methods.

use vstd::prelude::*;
use vstd::string::*;
use crate::hash;

verus! {

/// An operator that a type can define by a method.
#[derive(Clone, Copy, Debug, PartialEq, Eq, Structural)]
pub enum Protocol {
    /// `a + b`
    Add,
    /// `a - b`
    Sub,
    /// `a * b`
    Mul,
    /// `a / b`
    Div,
    /// `a += b`
    AddAssign,
    /// `a -= b`
    SubAssign,
    /// `a *= b`
    MulAssign,
    /// `a /= b`
    DivAssign,
    /// `a[b]`
    IndexGet,
    /// `a[b] = c`
    IndexSet,
}

impl Protocol {
    /// The hash of the method's name.
    pub open spec fn spec_name(self) -> hash::Hash {
        match self {
            Protocol::Add => hash::Hash::spec_of("add".spec_bytes()),
            Protocol::Sub => hash::Hash::spec_of("sub".spec_bytes()),
            Protocol::Mul => hash::Hash::spec_of("mul".spec_bytes()),
            Protocol::Div => hash::Hash::spec_of("div".spec_bytes()),
            Protocol::AddAssign => hash::Hash::spec_of("add_assign".spec_bytes()),
            Protocol::SubAssign => hash::Hash::spec_of("sub_assign".spec_bytes()),
            Protocol::MulAssign => hash::Hash::spec_of("mul_assign".spec_bytes()),
            Protocol::DivAssign => hash::Hash::spec_of("div_assign".spec_bytes()),
            Protocol::IndexGet => hash::Hash::spec_of("index_get".spec_bytes()),
            Protocol::IndexSet => hash::Hash::spec_of("index_set".spec_bytes()),
        }
    }

    /// The hash under which a type with hash `ty` registers the method.
    pub open spec fn spec_method(self, ty: hash::Hash) -> hash::Hash {
        hash::Hash::spec_instance_function(ty, self.spec_name())
    }

    /// The hash of the method's name.
    pub fn name(self) -> (name: hash::Hash)
        ensures
            name == self.spec_name(),
    {
        match self {
            Protocol::Add => hash::Hash::of("add"),
            Protocol::Sub => hash::Hash::of("sub"),
            Protocol::Mul => hash::Hash::of("mul"),
            Protocol::Div => hash::Hash::of("div"),
            Protocol::AddAssign => hash::Hash::of("add_assign"),
            Protocol::SubAssign => hash::Hash::of("sub_assign"),
            Protocol::MulAssign => hash::Hash::of("mul_assign"),
            Protocol::DivAssign => hash::Hash::of("div_assign"),
            Protocol::IndexGet => hash::Hash::of("index_get"),
            Protocol::IndexSet => hash::Hash::of("index_set"),
        }
    }

    /// The hash under which a type with hash `ty` registers the method.
    pub fn method(self, ty: hash::Hash) -> (method: hash::Hash)
        ensures
            method == self.spec_method(ty),
    {
        hash::Hash::instance_function(ty, self.name())
    }
}

} // verus!
