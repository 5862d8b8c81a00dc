//! 64-bit identifiers for functions, types and methods.
//!
//! Every function, type and instance method the machine can reach is named by
//! a [`Hash`]. Hashes of names are FNV-1a over the UTF-8 bytes of the name;
//! a path is hashed component by component with a separator after each one,
//! so that `["ab", "c"]` and `["a", "bc"]` differ.

use vstd::prelude::*;
use vstd::string::*;

verus! {

/// The FNV-1a offset basis for 64-bit hashes.
pub const FNV_OFFSET: u64 = 0xcbf2_9ce4_8422_2325;

/// The FNV-1a prime for 64-bit hashes.
pub const FNV_PRIME: u64 = 0x0000_0100_0000_01b3;

/// The byte mixed in after every component of a path.
pub const PATH_SEPARATOR: u8 = 0xff;

/// The state from which the hash of an instance function starts.
pub const INSTANCE_SEED: u64 = 0x5ea7_7b1e_5ea7_7b1e;

/// One FNV-1a round over a 64-bit word.
pub open spec fn mix_word(state: u64, word: u64) -> u64 {
    (state ^ word).wrapping_mul(FNV_PRIME)
}

/// FNV-1a over `bytes`, starting from `state`.
pub open spec fn mix_bytes(state: u64, bytes: Seq<u8>) -> u64
    decreases bytes.len(),
{
    if bytes.len() == 0 {
        state
    } else {
        mix_word(mix_bytes(state, bytes.drop_last()), bytes.last() as u64)
    }
}

/// The state after hashing every component of `path`, each followed by the
/// separator.
pub open spec fn mix_path(state: u64, path: Seq<Seq<u8>>) -> u64
    decreases path.len(),
{
    if path.len() == 0 {
        state
    } else {
        mix_word(mix_bytes(mix_path(state, path.drop_last()), path.last()), PATH_SEPARATOR as u64)
    }
}

/// The UTF-8 bytes of every component of a path.
pub open spec fn path_bytes(path: Seq<&str>) -> Seq<Seq<u8>> {
    Seq::new(path.len(), |i: int| path[i].spec_bytes())
}

/// A 64-bit identifier for a function path, a type, or a `(type, method)` pair.
#[derive(Clone, Copy, Debug, PartialEq, Eq, Structural, Hash)]
pub struct Hash(pub u64);

impl Hash {
    /// The hash of a single name with the given UTF-8 bytes.
    pub open spec fn spec_of(bytes: Seq<u8>) -> Hash {
        Hash(mix_bytes(FNV_OFFSET, bytes))
    }

    /// The hash of a function path with the given components.
    pub open spec fn spec_function(path: Seq<Seq<u8>>) -> Hash {
        Hash(mix_path(FNV_OFFSET, path))
    }

    /// The hash of the method `name` on the type identified by `ty`.
    pub open spec fn spec_instance_function(ty: Hash, name: Hash) -> Hash {
        Hash(mix_word(mix_word(INSTANCE_SEED, ty.0), name.0))
    }

    /// Wrap a raw 64-bit identifier.
    pub fn new(value: u64) -> (hash: Hash)
        ensures
            hash == Hash(value),
    {
        Hash(value)
    }

    /// The raw 64-bit identifier.
    pub fn into_inner(self) -> (value: u64)
        ensures
            value == self.0,
    {
        self.0
    }

    /// Hash a single name.
    pub fn of(name: &str) -> (hash: Hash)
        ensures
            hash == Hash::spec_of(name.spec_bytes()),
    {
        Hash(hash_bytes(FNV_OFFSET, name.as_bytes()))
    }

    /// Hash a function path, given as its components from the outermost
    /// module to the function's own name.
    pub fn function(path: &[&str]) -> (hash: Hash)
        ensures
            hash == Hash::spec_function(path_bytes(path@)),
    {
        let mut state: u64 = FNV_OFFSET;
        let mut i: usize = 0;
        while i < path.len()
            invariant
                i <= path.len(),
                state == mix_path(FNV_OFFSET, path_bytes(path@).take(i as int)),
            decreases path.len() - i,
        {
            let ghost done = path_bytes(path@).take(i as int);
            let ghost next = path_bytes(path@).take(i + 1);
            assert(next.drop_last() == done);
            assert(next.last() == path@[i as int].spec_bytes());
            state = hash_bytes(state, path[i].as_bytes());
            state = (state ^ (PATH_SEPARATOR as u64)).wrapping_mul(FNV_PRIME);
            i = i + 1;
        }
        assert(path_bytes(path@).take(i as int) == path_bytes(path@));
        Hash(state)
    }

    /// Combine the hash of a type with the hash of a method name into the hash
    /// under which that instance method is registered.
    pub fn instance_function(ty: Hash, name: Hash) -> (hash: Hash)
        ensures
            hash == Hash::spec_instance_function(ty, name),
    {
        let state = (INSTANCE_SEED ^ ty.0).wrapping_mul(FNV_PRIME);
        Hash((state ^ name.0).wrapping_mul(FNV_PRIME))
    }
}

/// FNV-1a over a byte slice, starting from `state`.
fn hash_bytes(state: u64, bytes: &[u8]) -> (out: u64)
    ensures
        out == mix_bytes(state, bytes@),
{
    let mut out: u64 = state;
    let mut i: usize = 0;
    while i < bytes.len()
        invariant
            i <= bytes.len(),
            out == mix_bytes(state, bytes@.take(i as int)),
        decreases bytes.len() - i,
    {
        assert(bytes@.take(i + 1).drop_last() == bytes@.take(i as int));
        out = (out ^ (bytes[i] as u64)).wrapping_mul(FNV_PRIME);
        i = i + 1;
    }
    assert(bytes@.take(i as int) == bytes@);
    out
}

} // verus!
