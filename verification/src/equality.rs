//! Structural equality of values.
//!
//! Two values are equal if they are the same primitive, strings with the
//! same text, vectors or tuples with equal elements in the same order, or
//! objects with the same keys and equal values under them. Values of any other two
//! kinds differ. Comparing reads the cells it passes through, so it fails
//! where one of them cannot be read.

use vstd::prelude::*;
use vstd::string::*;
use crate::error::VmError;
use crate::heap::Heap;
use crate::object::{distinct_keys, lemma_position, lemma_position_is, lookup, position, Object};
use crate::shared::AccessError;
use crate::unit::CompilationUnit;
use crate::value::Value;

verus! {

/// The error of reading a cell that cannot be read.
pub open spec fn not_readable() -> VmError {
    VmError::AccessError { error: AccessError::NotAccessibleRef }
}

/// The text of the static string at `slot`.
pub open spec fn static_text(unit: &CompilationUnit, slot: usize) -> Result<Seq<char>, VmError> {
    if slot < unit.strings().len() {
        Ok(unit.strings()[slot as int])
    } else {
        Err(VmError::MissingStaticString { slot })
    }
}

/// How deep a comparison may go: as deep as the heap has vectors, tuples
/// and objects.
pub open spec fn depth_limit(heap: &Heap) -> nat {
    if heap.vecs@.len() + heap.tuples@.len() + heap.objects@.len() <= usize::MAX {
        heap.vecs@.len() + heap.tuples@.len() + heap.objects@.len()
    } else {
        usize::MAX as nat
    }
}

/// Whether two values are equal, looking at most `depth` vectors, tuples or
/// objects deep.
pub open spec fn values_eq(heap: &Heap, unit: &CompilationUnit, a: Value, b: Value, depth: nat) -> Result<
    bool,
    VmError,
>
    decreases depth, 0nat, 0nat,
{
    match (a, b) {
        (Value::Unit, Value::Unit) => Ok(true),
        (Value::Char(a), Value::Char(b)) => Ok(a == b),
        (Value::Bool(a), Value::Bool(b)) => Ok(a == b),
        (Value::Integer(a), Value::Integer(b)) => Ok(a == b),
        (Value::Float(a), Value::Float(b)) => Ok(a.spec_numeric_eq(b)),
        (Value::Vec(a), Value::Vec(b)) => if !heap.vecs.readable(a) || !heap.vecs.readable(b) {
            Err(not_readable())
        } else if heap.vecs.value(a)@.len() != heap.vecs.value(b)@.len() {
            Ok(false)
        } else if depth == 0 {
            Err(VmError::CyclicValue)
        } else {
            elements_eq(
                heap,
                unit,
                heap.vecs.value(a)@,
                heap.vecs.value(b)@,
                0,
                (depth - 1) as nat,
            )
        },
        (Value::Tuple(a), Value::Tuple(b)) => if !heap.tuples.readable(a) || !heap.tuples.readable(
            b,
        ) {
            Err(not_readable())
        } else if heap.tuples.value(a)@.len() != heap.tuples.value(b)@.len() {
            Ok(false)
        } else if depth == 0 {
            Err(VmError::CyclicValue)
        } else {
            elements_eq(
                heap,
                unit,
                heap.tuples.value(a)@,
                heap.tuples.value(b)@,
                0,
                (depth - 1) as nat,
            )
        },
        (Value::Object(a), Value::Object(b)) => if !heap.objects.readable(a)
            || !heap.objects.readable(b) {
            Err(not_readable())
        } else if heap.objects.value(a)@.len() != heap.objects.value(b)@.len() {
            Ok(false)
        } else if depth == 0 {
            Err(VmError::CyclicValue)
        } else {
            entries_eq(
                heap,
                unit,
                heap.objects.value(a)@,
                heap.objects.value(b)@,
                0,
                (depth - 1) as nat,
            )
        },
        (Value::String(a), Value::String(b)) => if !heap.strings.readable(a)
            || !heap.strings.readable(b) {
            Err(not_readable())
        } else {
            Ok(heap.strings.value(a)@ == heap.strings.value(b)@)
        },
        (Value::StaticString(a), Value::String(b)) => if !heap.strings.readable(b) {
            Err(not_readable())
        } else {
            match static_text(unit, a.slot) {
                Ok(text) => Ok(text == heap.strings.value(b)@),
                Err(error) => Err(error),
            }
        },
        (Value::String(a), Value::StaticString(b)) => if !heap.strings.readable(a) {
            Err(not_readable())
        } else {
            match static_text(unit, b.slot) {
                Ok(text) => Ok(heap.strings.value(a)@ == text),
                Err(error) => Err(error),
            }
        },
        (Value::StaticString(a), Value::StaticString(b)) => Ok(a == b),
        _ => Ok(false),
    }
}

/// Whether two sequences of one length are equal from position `from` on.
/// The elements are compared in order, up to the first pair that differs or
/// cannot be compared.
pub open spec fn elements_eq(
    heap: &Heap,
    unit: &CompilationUnit,
    a: Seq<Value>,
    b: Seq<Value>,
    from: nat,
    depth: nat,
) -> Result<bool, VmError>
    decreases depth, 1nat, a.len() - from,
{
    if from >= a.len() {
        Ok(true)
    } else {
        match values_eq(heap, unit, a[from as int], b[from as int], depth) {
            Ok(true) => elements_eq(heap, unit, a, b, from + 1, depth),
            other => other,
        }
    }
}

/// Whether each entry of `a` from position `from` on has an equal value
/// under its key in `b`. The entries are compared in order, up to the first
/// that has no partner, differs from it or cannot be compared with it.
pub open spec fn entries_eq(
    heap: &Heap,
    unit: &CompilationUnit,
    a: Seq<(Seq<char>, Value)>,
    b: Seq<(Seq<char>, Value)>,
    from: nat,
    depth: nat,
) -> Result<bool, VmError>
    decreases depth, 1nat, a.len() - from,
{
    if from >= a.len() {
        Ok(true)
    } else {
        match lookup(b, a[from as int].0) {
            None => Ok(false),
            Some(value) => match values_eq(heap, unit, a[from as int].1, value, depth) {
                Ok(true) => entries_eq(heap, unit, a, b, from + 1, depth),
                other => other,
            },
        }
    }
}

/// Whether two values are equal.
pub open spec fn spec_value_ptr_eq(heap: &Heap, unit: &CompilationUnit, a: Value, b: Value) -> Result<
    bool,
    VmError,
> {
    values_eq(heap, unit, a, b, depth_limit(heap))
}

/// Compare two sequences of one length, element by element.
fn elements_equal(
    heap: &Heap,
    unit: &CompilationUnit,
    a: &Vec<Value>,
    b: &Vec<Value>,
    depth: usize,
) -> (result: Result<bool, VmError>)
    requires
        a@.len() == b@.len(),
    ensures
        result == elements_eq(heap, unit, a@, b@, 0, depth as nat),
    decreases depth, 1nat,
{
    let mut i: usize = 0;
    while i < a.len()
        invariant
            i <= a@.len(),
            a@.len() == b@.len(),
            elements_eq(heap, unit, a@, b@, 0, depth as nat) == elements_eq(
                heap,
                unit,
                a@,
                b@,
                i as nat,
                depth as nat,
            ),
        decreases a@.len() - i,
    {
        match values_equal(heap, unit, a[i], b[i], depth) {
            Ok(true) => {},
            other => {
                return other;
            },
        }
        i = i + 1;
    }
    Ok(true)
}

/// Compare the entries of one object with their partners in another.
fn entries_equal(
    heap: &Heap,
    unit: &CompilationUnit,
    a: &Object,
    b: &Object,
    depth: usize,
) -> (result: Result<bool, VmError>)
    ensures
        result == entries_eq(heap, unit, a@, b@, 0, depth as nat),
    decreases depth, 1nat,
{
    let mut i: usize = 0;
    let len = a.len();
    while i < len
        invariant
            i <= len,
            len == a@.len(),
            entries_eq(heap, unit, a@, b@, 0, depth as nat) == entries_eq(
                heap,
                unit,
                a@,
                b@,
                i as nat,
                depth as nat,
            ),
        decreases len - i,
    {
        let key = match a.key_at(i) {
            Some(key) => key,
            None => {
                return Ok(true);
            },
        };
        let value = match a.value_at(i) {
            Some(value) => value,
            None => {
                return Ok(true);
            },
        };
        let partner = match b.get(key.as_str()) {
            Some(partner) => partner,
            None => {
                return Ok(false);
            },
        };
        match values_equal(heap, unit, value, partner, depth) {
            Ok(true) => {},
            other => {
                return other;
            },
        }
        i = i + 1;
    }
    Ok(true)
}

/// Compare two values, looking at most `depth` vectors, tuples or objects
/// deep.
pub fn values_equal(heap: &Heap, unit: &CompilationUnit, a: Value, b: Value, depth: usize) -> (result:
    Result<bool, VmError>)
    ensures
        result == values_eq(heap, unit, a, b, depth as nat),
    decreases depth, 0nat,
{
    match (a, b) {
        (Value::Unit, Value::Unit) => Ok(true),
        (Value::Char(a), Value::Char(b)) => Ok(a == b),
        (Value::Bool(a), Value::Bool(b)) => Ok(a == b),
        (Value::Integer(a), Value::Integer(b)) => Ok(a == b),
        (Value::Float(a), Value::Float(b)) => Ok(a.numeric_eq(b)),
        (Value::Vec(a), Value::Vec(b)) => {
            let a = match heap.vecs.get_ref(a) {
                Ok(a) => a,
                Err(error) => {
                    return Err(VmError::AccessError { error });
                },
            };
            let b = match heap.vecs.get_ref(b) {
                Ok(b) => b,
                Err(error) => {
                    return Err(VmError::AccessError { error });
                },
            };
            if a.len() != b.len() {
                return Ok(false);
            }
            if depth == 0 {
                return Err(VmError::CyclicValue);
            }
            elements_equal(heap, unit, a, b, depth - 1)
        },
        (Value::Tuple(a), Value::Tuple(b)) => {
            let a = match heap.tuples.get_ref(a) {
                Ok(a) => a,
                Err(error) => {
                    return Err(VmError::AccessError { error });
                },
            };
            let b = match heap.tuples.get_ref(b) {
                Ok(b) => b,
                Err(error) => {
                    return Err(VmError::AccessError { error });
                },
            };
            if a.len() != b.len() {
                return Ok(false);
            }
            if depth == 0 {
                return Err(VmError::CyclicValue);
            }
            elements_equal(heap, unit, a, b, depth - 1)
        },
        (Value::Object(a), Value::Object(b)) => {
            let a = match heap.objects.get_ref(a) {
                Ok(a) => a,
                Err(error) => {
                    return Err(VmError::AccessError { error });
                },
            };
            let b = match heap.objects.get_ref(b) {
                Ok(b) => b,
                Err(error) => {
                    return Err(VmError::AccessError { error });
                },
            };
            if a.len() != b.len() {
                return Ok(false);
            }
            if depth == 0 {
                return Err(VmError::CyclicValue);
            }
            entries_equal(heap, unit, a, b, depth - 1)
        },
        (Value::String(a), Value::String(b)) => {
            let a = match heap.strings.get_ref(a) {
                Ok(a) => a,
                Err(error) => {
                    return Err(VmError::AccessError { error });
                },
            };
            let b = match heap.strings.get_ref(b) {
                Ok(b) => b,
                Err(error) => {
                    return Err(VmError::AccessError { error });
                },
            };
            Ok(*a == *b)
        },
        (Value::StaticString(a), Value::String(b)) => {
            let b = match heap.strings.get_ref(b) {
                Ok(b) => b,
                Err(error) => {
                    return Err(VmError::AccessError { error });
                },
            };
            let a = unit.lookup_string(a.slot)?;
            Ok(*a == *b)
        },
        (Value::String(a), Value::StaticString(b)) => {
            let a = match heap.strings.get_ref(a) {
                Ok(a) => a,
                Err(error) => {
                    return Err(VmError::AccessError { error });
                },
            };
            let b = unit.lookup_string(b.slot)?;
            Ok(*a == *b)
        },
        (Value::StaticString(a), Value::StaticString(b)) => Ok(a.slot == b.slot),
        _ => Ok(false),
    }
}

/// The depth to which a comparison on this heap may go.
pub fn depth_of(heap: &Heap) -> (depth: usize)
    ensures
        depth == depth_limit(heap),
{
    match heap.vecs.len().checked_add(heap.tuples.len()) {
        Some(depth) => match depth.checked_add(heap.objects.len()) {
            Some(depth) => depth,
            None => usize::MAX,
        },
        None => usize::MAX,
    }
}

/// Every object of the heap has each of its keys once.
pub open spec fn distinct_object_keys(heap: &Heap) -> bool {
    forall|i: int|
        0 <= i < heap.objects@.len() && (#[trigger] heap.objects@[i]).value is Some
            ==> distinct_keys(heap.objects@[i].value->0@)
}

/// Two sequences of one length are equal from a position on exactly if each
/// pair of elements from there on is.
pub proof fn lemma_elements_eq(
    heap: &Heap,
    unit: &CompilationUnit,
    a: Seq<Value>,
    b: Seq<Value>,
    from: nat,
    depth: nat,
)
    requires
        a.len() == b.len(),
    ensures
        elements_eq(heap, unit, a, b, from, depth) == Ok::<bool, VmError>(true) <==> forall|i: int|
            from <= i < a.len() ==> #[trigger] values_eq(heap, unit, a[i], b[i], depth) == Ok::<
                bool,
                VmError,
            >(true),
    decreases a.len() - from,
{
    let yes = Ok::<bool, VmError>(true);
    if from < a.len() {
        lemma_elements_eq(heap, unit, a, b, from + 1, depth);
        let head = values_eq(heap, unit, a[from as int], b[from as int], depth);
        if elements_eq(heap, unit, a, b, from, depth) == yes {
            assert(head == yes);
            assert forall|i: int| from <= i < a.len() implies #[trigger] values_eq(
                heap,
                unit,
                a[i],
                b[i],
                depth,
            ) == yes by {
                if i > from {
                    assert(from + 1 <= i);
                }
            }
        }
        if forall|i: int|
            from <= i < a.len() ==> #[trigger] values_eq(heap, unit, a[i], b[i], depth) == yes {
            assert(head == yes);
            assert forall|i: int| from + 1 <= i < a.len() implies #[trigger] values_eq(
                heap,
                unit,
                a[i],
                b[i],
                depth,
            ) == yes by {
                assert(from <= i);
            }
        }
    }
}

/// Each entry of one object from a position on has an equal partner in
/// another exactly if each entry from there on has a partner under its key
/// and is equal to it.
pub proof fn lemma_entries_eq(
    heap: &Heap,
    unit: &CompilationUnit,
    a: Seq<(Seq<char>, Value)>,
    b: Seq<(Seq<char>, Value)>,
    from: nat,
    depth: nat,
)
    ensures
        entries_eq(heap, unit, a, b, from, depth) == Ok::<bool, VmError>(true) <==> forall|i: int|
            from <= i < a.len() ==> has_equal_partner(heap, unit, #[trigger] a[i], b, depth),
    decreases a.len() - from,
{
    if from < a.len() {
        lemma_entries_eq(heap, unit, a, b, from + 1, depth);
        assert(has_equal_partner(heap, unit, a[from as int], b, depth) <==> (lookup(
            b,
            a[from as int].0,
        ) matches Some(value) && values_eq(heap, unit, a[from as int].1, value, depth) == Ok::<
            bool,
            VmError,
        >(true)));
    }
}

/// An entry has a partner under its key among `others`, and the two values
/// are equal.
pub open spec fn has_equal_partner(
    heap: &Heap,
    unit: &CompilationUnit,
    entry: (Seq<char>, Value),
    others: Seq<(Seq<char>, Value)>,
    depth: nat,
) -> bool {
    lookup(others, entry.0) matches Some(value) && values_eq(heap, unit, entry.1, value, depth)
        == Ok::<bool, VmError>(true)
}

/// The keys of a sequence of entries.
pub open spec fn keys_of(entries: Seq<(Seq<char>, Value)>) -> Seq<Seq<char>> {
    Seq::new(entries.len(), |i: int| entries[i].0)
}

/// Two objects with as many entries as each other, and each key once: if
/// every key of the first is a key of the second, every key of the second
/// is a key of the first.
pub proof fn lemma_same_keys(a: Seq<(Seq<char>, Value)>, b: Seq<(Seq<char>, Value)>)
    requires
        a.len() == b.len(),
        distinct_keys(a),
        distinct_keys(b),
        forall|i: int| 0 <= i < a.len() ==> position(b, (#[trigger] a[i]).0) is Some,
    ensures
        forall|j: int| 0 <= j < b.len() ==> position(a, (#[trigger] b[j]).0) is Some,
{
    let ka = keys_of(a);
    let kb = keys_of(b);
    assert(ka.no_duplicates()) by {
        assert forall|i: int, j: int| 0 <= i < ka.len() && 0 <= j < ka.len() && i != j implies ka[i]
            != ka[j] by {
            assert(a[i].0 != a[j].0);
        }
    }
    assert(kb.no_duplicates()) by {
        assert forall|i: int, j: int| 0 <= i < kb.len() && 0 <= j < kb.len() && i != j implies kb[i]
            != kb[j] by {
            assert(b[i].0 != b[j].0);
        }
    }
    ka.unique_seq_to_set();
    kb.unique_seq_to_set();
    vstd::seq_lib::seq_to_set_is_finite(ka);
    vstd::seq_lib::seq_to_set_is_finite(kb);
    assert(ka.to_set().subset_of(kb.to_set())) by {
        assert forall|key: Seq<char>| ka.to_set().contains(key) implies kb.to_set().contains(
            key,
        ) by {
            let i = choose|i: int| 0 <= i < ka.len() && ka[i] == key;
            assert(a[i].0 == key);
            lemma_position(b, key);
            let j = position(b, key)->0;
            assert(kb[j] == key);
        }
    }
    vstd::set_lib::lemma_subset_equality(ka.to_set(), kb.to_set());
    assert forall|j: int| 0 <= j < b.len() implies position(a, (#[trigger] b[j]).0) is Some by {
        let key = b[j].0;
        assert(kb[j] == key);
        assert(kb.to_set().contains(key));
        assert(ka.to_set().contains(key));
        let i = choose|i: int| 0 <= i < ka.len() && ka[i] == key;
        assert(a[i].0 == key);
        lemma_position(a, key);
    }
}

/// Equality is symmetric: if a value equals another, the other equals it.
pub proof fn lemma_eq_symmetric(heap: &Heap, unit: &CompilationUnit, a: Value, b: Value, depth: nat)
    requires
        distinct_object_keys(heap),
        values_eq(heap, unit, a, b, depth) == Ok::<bool, VmError>(true),
    ensures
        values_eq(heap, unit, b, a, depth) == Ok::<bool, VmError>(true),
    decreases depth,
{
    match (a, b) {
        (Value::Vec(x), Value::Vec(y)) => {
            let xs = heap.vecs.value(x)@;
            let ys = heap.vecs.value(y)@;
            let inner = (depth - 1) as nat;
            lemma_elements_eq(heap, unit, xs, ys, 0, inner);
            lemma_elements_eq(heap, unit, ys, xs, 0, inner);
            assert forall|i: int| 0 <= i < ys.len() implies #[trigger] values_eq(
                heap,
                unit,
                ys[i],
                xs[i],
                inner,
            ) == Ok::<bool, VmError>(true) by {
                assert(values_eq(heap, unit, xs[i], ys[i], inner) == Ok::<bool, VmError>(true));
                lemma_eq_symmetric(heap, unit, xs[i], ys[i], inner);
            }
        },
        (Value::Tuple(x), Value::Tuple(y)) => {
            let xs = heap.tuples.value(x)@;
            let ys = heap.tuples.value(y)@;
            let inner = (depth - 1) as nat;
            lemma_elements_eq(heap, unit, xs, ys, 0, inner);
            lemma_elements_eq(heap, unit, ys, xs, 0, inner);
            assert forall|i: int| 0 <= i < ys.len() implies #[trigger] values_eq(
                heap,
                unit,
                ys[i],
                xs[i],
                inner,
            ) == Ok::<bool, VmError>(true) by {
                assert(values_eq(heap, unit, xs[i], ys[i], inner) == Ok::<bool, VmError>(true));
                lemma_eq_symmetric(heap, unit, xs[i], ys[i], inner);
            }
        },
        (Value::Object(x), Value::Object(y)) => {
            let xs = heap.objects.value(x)@;
            let ys = heap.objects.value(y)@;
            let inner = (depth - 1) as nat;
            assert(distinct_keys(xs)) by {
                assert(heap.objects@[x.index as int].value is Some);
            }
            assert(distinct_keys(ys)) by {
                assert(heap.objects@[y.index as int].value is Some);
            }
            lemma_entries_eq(heap, unit, xs, ys, 0, inner);
            lemma_entries_eq(heap, unit, ys, xs, 0, inner);
            assert forall|i: int| 0 <= i < xs.len() implies position(ys, (#[trigger] xs[i]).0)
                is Some by {
                assert(has_equal_partner(heap, unit, xs[i], ys, inner));
            }
            lemma_same_keys(xs, ys);
            assert forall|j: int| 0 <= j < ys.len() implies has_equal_partner(
                heap,
                unit,
                #[trigger] ys[j],
                xs,
                inner,
            ) by {
                let key = ys[j].0;
                lemma_position(xs, key);
                let i = position(xs, key)->0;
                assert(has_equal_partner(heap, unit, xs[i], ys, inner));
                lemma_position(ys, key);
                assert forall|k: int| 0 <= k < j implies (#[trigger] ys[k]).0 != key by {
                    assert(ys[k].0 != ys[j].0);
                }
                lemma_position_is(ys, key, j);
                assert(lookup(ys, xs[i].0) == Some(ys[j].1));
                lemma_eq_symmetric(heap, unit, xs[i].1, ys[j].1, inner);
            }
        },
        _ => {},
    }
}

/// A value names a cell that can be read, or an interned string that its
/// unit has, or is a primitive.
pub open spec fn reads(heap: &Heap, unit: &CompilationUnit, value: Value) -> bool {
    match value {
        Value::String(shared) => heap.strings.readable(shared),
        Value::StaticString(string) => string.slot < unit.strings().len(),
        Value::Vec(shared) => heap.vecs.readable(shared),
        Value::Tuple(shared) => heap.tuples.readable(shared),
        Value::Object(shared) => heap.objects.readable(shared),
        _ => true,
    }
}

/// Every value of a sequence [`reads`].
pub open spec fn all_read(heap: &Heap, unit: &CompilationUnit, values: Seq<Value>) -> bool {
    forall|j: int| 0 <= j < values.len() ==> reads(heap, unit, #[trigger] values[j])
}

/// Every value of a sequence of entries [`reads`].
pub open spec fn all_entries_read(
    heap: &Heap,
    unit: &CompilationUnit,
    entries: Seq<(Seq<char>, Value)>,
) -> bool {
    forall|j: int| 0 <= j < entries.len() ==> reads(heap, unit, (#[trigger] entries[j]).1)
}

/// Every value that a vector, a tuple or an object of the heap holds
/// [`reads`]: whatever can be reached from a value that reads can be read.
pub open spec fn heap_reads(heap: &Heap, unit: &CompilationUnit) -> bool {
    &&& forall|i: int|
        0 <= i < heap.vecs@.len() && (#[trigger] heap.vecs@[i]).value is Some ==> all_read(
            heap,
            unit,
            heap.vecs@[i].value->0@,
        )
    &&& forall|i: int|
        0 <= i < heap.tuples@.len() && (#[trigger] heap.tuples@[i]).value is Some ==> all_read(
            heap,
            unit,
            heap.tuples@[i].value->0@,
        )
    &&& forall|i: int|
        0 <= i < heap.objects@.len() && (#[trigger] heap.objects@[i]).value is Some
            ==> all_entries_read(heap, unit, heap.objects@[i].value->0@)
}

/// A comparison has an answer, or it went too deep.
pub open spec fn answers(result: Result<bool, VmError>) -> bool {
    result is Ok || result == Err::<bool, VmError>(VmError::CyclicValue)
}

/// Where every cell that can be reached can be read, a comparison fails
/// only by going too deep.
pub proof fn lemma_readable_values_compare(
    heap: &Heap,
    unit: &CompilationUnit,
    a: Value,
    b: Value,
    depth: nat,
)
    requires
        heap_reads(heap, unit),
        reads(heap, unit, a),
        reads(heap, unit, b),
    ensures
        answers(values_eq(heap, unit, a, b, depth)),
    decreases depth, 0nat, 0nat,
{
    match (a, b) {
        (Value::Vec(x), Value::Vec(y)) => {
            let xs = heap.vecs.value(x)@;
            let ys = heap.vecs.value(y)@;
            assert(heap.vecs@[x.index as int].value is Some);
            assert(heap.vecs@[y.index as int].value is Some);
            if xs.len() == ys.len() && depth > 0 {
                lemma_readable_elements_compare(heap, unit, xs, ys, 0, (depth - 1) as nat);
            }
        },
        (Value::Tuple(x), Value::Tuple(y)) => {
            let xs = heap.tuples.value(x)@;
            let ys = heap.tuples.value(y)@;
            assert(heap.tuples@[x.index as int].value is Some);
            assert(heap.tuples@[y.index as int].value is Some);
            if xs.len() == ys.len() && depth > 0 {
                lemma_readable_elements_compare(heap, unit, xs, ys, 0, (depth - 1) as nat);
            }
        },
        (Value::Object(x), Value::Object(y)) => {
            let xs = heap.objects.value(x)@;
            let ys = heap.objects.value(y)@;
            assert(heap.objects@[x.index as int].value is Some);
            assert(heap.objects@[y.index as int].value is Some);
            if xs.len() == ys.len() && depth > 0 {
                lemma_readable_entries_compare(heap, unit, xs, ys, 0, (depth - 1) as nat);
            }
        },
        _ => {},
    }
}

/// Where every cell that can be reached can be read, a comparison of two
/// sequences fails only by going too deep.
pub proof fn lemma_readable_elements_compare(
    heap: &Heap,
    unit: &CompilationUnit,
    a: Seq<Value>,
    b: Seq<Value>,
    from: nat,
    depth: nat,
)
    requires
        heap_reads(heap, unit),
        all_read(heap, unit, a),
        all_read(heap, unit, b),
        a.len() == b.len(),
    ensures
        answers(elements_eq(heap, unit, a, b, from, depth)),
    decreases depth, 1nat, a.len() - from,
{
    if from < a.len() {
        lemma_readable_values_compare(heap, unit, a[from as int], b[from as int], depth);
        lemma_readable_elements_compare(heap, unit, a, b, from + 1, depth);
    }
}

/// Where every cell that can be reached can be read, a comparison of the
/// entries of two objects fails only by going too deep.
pub proof fn lemma_readable_entries_compare(
    heap: &Heap,
    unit: &CompilationUnit,
    a: Seq<(Seq<char>, Value)>,
    b: Seq<(Seq<char>, Value)>,
    from: nat,
    depth: nat,
)
    requires
        heap_reads(heap, unit),
        all_entries_read(heap, unit, a),
        all_entries_read(heap, unit, b),
    ensures
        answers(entries_eq(heap, unit, a, b, from, depth)),
    decreases depth, 1nat, a.len() - from,
{
    if from < a.len() {
        let key = a[from as int].0;
        lemma_position(b, key);
        match position(b, key) {
            Some(at) => {
                lemma_readable_values_compare(heap, unit, a[from as int].1, b[at].1, depth);
            },
            None => {},
        }
        lemma_readable_entries_compare(heap, unit, a, b, from + 1, depth);
    }
}

/// Equality is symmetric on values of which every cell that can be reached
/// can be read, unless the comparison goes too deep, as only a value that
/// holds itself makes it do.
pub proof fn lemma_eq_symmetric_on_readable_values(
    heap: &Heap,
    unit: &CompilationUnit,
    a: Value,
    b: Value,
)
    requires
        distinct_object_keys(heap),
        heap_reads(heap, unit),
        reads(heap, unit, a),
        reads(heap, unit, b),
        spec_value_ptr_eq(heap, unit, a, b) != Err::<bool, VmError>(VmError::CyclicValue),
        spec_value_ptr_eq(heap, unit, b, a) != Err::<bool, VmError>(VmError::CyclicValue),
    ensures
        spec_value_ptr_eq(heap, unit, a, b) is Ok,
        spec_value_ptr_eq(heap, unit, a, b) == spec_value_ptr_eq(heap, unit, b, a),
{
    lemma_readable_values_compare(heap, unit, a, b, depth_limit(heap));
    lemma_readable_values_compare(heap, unit, b, a, depth_limit(heap));
    lemma_eq_agrees(heap, unit, a, b);
}

/// Two comparisons of the same two values, one each way round, agree where
/// both have an answer.
pub proof fn lemma_eq_agrees(heap: &Heap, unit: &CompilationUnit, a: Value, b: Value)
    requires
        distinct_object_keys(heap),
        spec_value_ptr_eq(heap, unit, a, b) is Ok,
        spec_value_ptr_eq(heap, unit, b, a) is Ok,
    ensures
        spec_value_ptr_eq(heap, unit, a, b) == spec_value_ptr_eq(heap, unit, b, a),
{
    let depth = depth_limit(heap);
    let forth = values_eq(heap, unit, a, b, depth);
    let back = values_eq(heap, unit, b, a, depth);
    if forth == Ok::<bool, VmError>(true) {
        lemma_eq_symmetric(heap, unit, a, b, depth);
    }
    if back == Ok::<bool, VmError>(true) {
        lemma_eq_symmetric(heap, unit, b, a, depth);
    }
    match (forth, back) {
        (Ok(x), Ok(y)) => {
            assert(x == y);
        },
        _ => {},
    }
}

} // verus!
