use cpm_priv_map::alloc_type::AllocType;
use cpm_priv_map::object_id::ObjectID;

#[test]
fn test_serialize_object_id() {
    let object_id = ObjectID::new(
        AllocType::Global,
        "/path/to/file".to_string(),
        "42".to_string(),
        "my_object".to_string(),
    );

    let serialized = object_id.encode_compact();
    assert_eq!(serialized, "GLOBAL|/path/to/file|42|my_object");
}

#[test]
fn test_deserialize_object_id() {
    let serialized = "GLOBAL|/path/to/file|42|my_object";

    let deserialized = ObjectID::decode_compact(serialized);
    assert_eq!(
        deserialized,
        ObjectID::new(
            AllocType::Global,
            "/path/to/file".to_string(),
            "42".to_string(),
            "my_object".to_string(),
        )
    );
}

#[test]
fn test_object_id_structured_round_trip() {
    let object_id = ObjectID::new(
        AllocType::Heap,
        "/a/b.c".to_string(),
        "42".to_string(),
        "x".to_string(),
    );
    let round_tripped = ObjectID::decode_compact(object_id.encode_compact().as_str());
    assert_eq!(round_tripped, object_id);
}

#[test]
fn test_object_id_fallback_bare_name() {
    let decoded = ObjectID::decode_compact("bare_name");
    assert_eq!(*decoded.alloc_type(), AllocType::Other);
    assert_eq!(decoded.path(), "");
    assert_eq!(decoded.lineno(), "");
    assert_eq!(decoded.name(), "bare_name");
}

#[test]
fn test_object_id_fallback_wrong_part_count() {
    // Two separators make three parts: not a structured identifier.
    let decoded = ObjectID::decode_compact("HEAP|/a/b.c|42");
    assert_eq!(*decoded.alloc_type(), AllocType::Other);
    assert_eq!(decoded.path(), "");
    assert_eq!(decoded.lineno(), "");
    assert_eq!(decoded.name(), "HEAP|/a/b.c|42");

    // Four separators make five parts: also the fallback.
    let decoded = ObjectID::decode_compact("HEAP|/a/b.c|42|x|y");
    assert_eq!(decoded.name(), "HEAP|/a/b.c|42|x|y");
}

#[test]
fn test_object_id_empty_fields_round_trip() {
    let object_id = ObjectID::new(
        AllocType::Other,
        "".to_string(),
        "".to_string(),
        "".to_string(),
    );
    assert_eq!(object_id.encode_compact(), "OTHER|||");
    let round_tripped = ObjectID::decode_compact("OTHER|||");
    assert_eq!(round_tripped, object_id);
}

#[test]
fn test_object_id_unknown_token_classifies_other() {
    let decoded = ObjectID::decode_compact("frobnicate|/a/b.c|7|y");
    assert_eq!(*decoded.alloc_type(), AllocType::Other);
    assert_eq!(decoded.path(), "/a/b.c");
    assert_eq!(decoded.lineno(), "7");
    assert_eq!(decoded.name(), "y");
}

#[test]
fn test_object_id_allocator_token_classifies_heap() {
    let decoded = ObjectID::decode_compact("kmalloc_reserve|/net/core.c|100|skb");
    assert_eq!(*decoded.alloc_type(), AllocType::Heap);
}

#[test]
fn test_unknown_allocator_warning() {
    let allocators = vec![
        "kmalloc_reserve",      // Known allocator
        "unknown_allocator_1",  // Unknown allocator
        "xdr_alloc_bvec",       // Known allocator
        "unknown_allocator_2",  // Unknown allocator
    ];

    for allocator in allocators {
        let alloc_type: AllocType = allocator.parse().unwrap();
        if allocator.starts_with("unknown") {
            assert_eq!(alloc_type, AllocType::Other);
        }
    }
}

#[test]
fn test_alloc_type_to_string() {
    assert_eq!(AllocType::Global.token(), "GLOBAL");
    assert_eq!(AllocType::Local.token(), "LOCAL");
    assert_eq!(AllocType::Heap.token(), "HEAP");
    assert_eq!(AllocType::StackFrame.token(), "STACK_FRAME");
    assert_eq!(AllocType::StackRegion.token(), "STACK_REGION");
    assert_eq!(AllocType::IO.token(), "IO");
    assert_eq!(AllocType::Other.token(), "OTHER");
}

#[test]
fn test_alloc_type_from_str() {
    assert_eq!("GLOBAL".parse::<AllocType>().unwrap(), AllocType::Global);
    assert_eq!("LOCAL".parse::<AllocType>().unwrap(), AllocType::Local);
    assert_eq!("HEAP".parse::<AllocType>().unwrap(), AllocType::Heap);
    assert_eq!(
        "STACK_FRAME".parse::<AllocType>().unwrap(),
        AllocType::StackFrame
    );
    assert_eq!(
        "STACK_REGION".parse::<AllocType>().unwrap(),
        AllocType::StackRegion
    );
    assert_eq!("IO".parse::<AllocType>().unwrap(), AllocType::IO);
    assert_eq!("OTHER".parse::<AllocType>().unwrap(), AllocType::Other);
}

#[test]
fn test_classify_totality_examples() {
    assert_eq!(AllocType::classify("GLOBAL"), AllocType::Global);
    assert_eq!(AllocType::classify("kmalloc_reserve"), AllocType::Heap);
    assert_eq!(AllocType::classify("frobnicate"), AllocType::Other);
    assert_eq!(AllocType::classify(""), AllocType::Other);
    // An unrecognized token still classifies, but is reported as unknown so
    // a caller may log the diagnostic.
    assert!(!AllocType::is_recognized("frobnicate"));
    assert!(AllocType::is_recognized("OTHER"));
    assert!(AllocType::is_recognized("__alloc_skb"));
}
