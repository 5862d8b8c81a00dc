use runestick::hash;
use runestick::protocol::Protocol;
use runestick::value::ValueType;

#[test]
fn hash_of_a_name_is_fnv1a() {
    assert_eq!(hash::Hash::of(""), hash::Hash::new(0xcbf2_9ce4_8422_2325));
    assert_eq!(hash::Hash::of("a"), hash::Hash::new(0xaf63_dc4c_8601_ec8c));
    assert_eq!(hash::Hash::of("foobar"), hash::Hash::new(0x8594_4171_f739_67e8));
    assert_eq!(hash::Hash::of("a").into_inner(), 0xaf63_dc4c_8601_ec8c);
}

#[test]
fn path_components_are_kept_apart() {
    let ab_c = hash::Hash::function(&["ab", "c"]);
    let a_bc = hash::Hash::function(&["a", "bc"]);
    let abc = hash::Hash::function(&["abc"]);
    assert!(ab_c != a_bc);
    assert!(ab_c != abc);
    assert!(a_bc != abc);
    assert_eq!(ab_c, hash::Hash::function(&["ab", "c"]));
    assert_eq!(hash::Hash::function(&[]), hash::Hash::new(0xcbf2_9ce4_8422_2325));
    // one component: the name's hash, with the separator mixed in
    let expected = (0xaf63_dc4c_8601_ec8cu64 ^ 0xff).wrapping_mul(0x0000_0100_0000_01b3);
    assert_eq!(hash::Hash::function(&["a"]), hash::Hash::new(expected));
}

#[test]
fn instance_function_depends_on_type_and_name() {
    let ty = hash::Hash::of("String");
    let other = hash::Hash::of("Vec");
    let len = hash::Hash::of("len");
    let push = hash::Hash::of("push");
    let key = hash::Hash::instance_function(ty, len);
    assert!(key != hash::Hash::instance_function(other, len));
    assert!(key != hash::Hash::instance_function(ty, push));
    assert!(key != hash::Hash::instance_function(len, ty));
    assert_eq!(key, hash::Hash::instance_function(ty, len));
    let seed = 0x5ea7_7b1e_5ea7_7b1eu64;
    let prime = 0x0000_0100_0000_01b3u64;
    let expected = ((seed ^ ty.0).wrapping_mul(prime) ^ len.0).wrapping_mul(prime);
    assert_eq!(key, hash::Hash::new(expected));
}

#[test]
fn protocols_have_their_names() {
    let names = [
        (Protocol::Add, "add"),
        (Protocol::Sub, "sub"),
        (Protocol::Mul, "mul"),
        (Protocol::Div, "div"),
        (Protocol::AddAssign, "add_assign"),
        (Protocol::SubAssign, "sub_assign"),
        (Protocol::MulAssign, "mul_assign"),
        (Protocol::DivAssign, "div_assign"),
        (Protocol::IndexGet, "index_get"),
        (Protocol::IndexSet, "index_set"),
    ];
    for (protocol, name) in names {
        assert_eq!(protocol.name(), hash::Hash::of(name));
        assert_eq!(
            protocol.method(ValueType::Object.type_hash()),
            hash::Hash::instance_function(hash::Hash::of("Object"), hash::Hash::of(name))
        );
    }
}

#[test]
fn value_types_have_their_hashes() {
    let names = [
        (ValueType::Unit, "unit"),
        (ValueType::Bool, "bool"),
        (ValueType::Byte, "byte"),
        (ValueType::Char, "char"),
        (ValueType::Integer, "int"),
        (ValueType::Float, "float"),
        (ValueType::String, "String"),
        (ValueType::Bytes, "Bytes"),
        (ValueType::Vec, "Vec"),
        (ValueType::Tuple, "Tuple"),
        (ValueType::Object, "Object"),
        (ValueType::Type, "Type"),
        (ValueType::Future, "Future"),
        (ValueType::Stream, "Stream"),
        (ValueType::Option, "Option"),
        (ValueType::Result, "Result"),
    ];
    for (ty, name) in names {
        assert_eq!(ty.type_hash(), hash::Hash::of(name));
    }
    let point = hash::Hash::of("Point");
    assert_eq!(ValueType::TypedTuple(point).type_hash(), point);
    assert_eq!(ValueType::TypedObject(point).type_hash(), point);
}
