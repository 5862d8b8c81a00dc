//! A stack-based virtual machine for a small dynamically typed scripting
//! language, together with the scope bookkeeping its compiler needs.
//!
//! The machine ([`vm::Vm`]) runs the instructions ([`inst::Inst`]) of a
//! compilation unit ([`unit::CompilationUnit`]) on a stack of values
//! ([`stack::Stack`], [`value::Value`]). Values that are shared live in the
//! cells of a heap ([`heap::Heap`], [`shared::Slab`]), which check every
//! access when it is made. What only the world outside can do, the machine
//! hands to its driver as a request ([`vm::Request`]).
//!
//! Tasks ([`task::Task`]) and streams ([`stream::Stream`]) bind a machine to
//! the program it runs. The scope stack of the indexer
//! ([`index_scopes::IndexScopes`]) finds the variables that closures capture
//! and the functions that are generators. The laws that hold of every run
//! are proved in [`laws`].

pub mod ast;
pub mod context;
pub mod equality;
pub mod error;
pub mod float;
pub mod hash;
pub mod heap;
pub mod index_scopes;
pub mod inst;
pub mod laws;
pub mod number;
pub mod object;
pub mod protocol;
pub mod shared;
pub mod span;
pub mod stack;
pub mod stream;
pub mod table;
pub mod task;
pub mod text;
pub mod token;
pub mod unit;
pub mod value;
pub mod vm;
