use cpm_priv_map::alloc_type::AllocType;
use cpm_priv_map::codec::{
    decode_call_context, decode_callret, decode_context_field, decode_object, decode_principal,
    decode_priv_map, decode_rw,
};
use cpm_priv_map::document::DocValue;
use cpm_priv_map::encode::{encode_call_context, encode_context_field, encode_priv_map};
use cpm_priv_map::model::{
    CPMPrivMap, CallContextSubField, CallRetPrivField, Context, ContextField,
    ContextSimpleString, Object, ObjectDomain, Principal, Privilege, RWPrivField, SubjectDomain,
};
use cpm_priv_map::object_id::ObjectID;

fn text(s: &str) -> DocValue {
    DocValue::Text(s.to_string())
}

fn text_list(xs: &[&str]) -> DocValue {
    DocValue::List(xs.iter().map(|s| text(s)).collect())
}

fn record(entries: Vec<(&str, DocValue)>) -> DocValue {
    DocValue::Record(entries.into_iter().map(|(k, v)| (k.to_string(), v)).collect())
}

#[test]
fn test_deserialize_empty_execution_context() {
    let doc = record(vec![
        ("principal", DocValue::Null),
        ("subject", text("main_domain")),
        ("execution_context", DocValue::Null),
    ]);
    let result = decode_principal(&doc).unwrap();
    assert_eq!(
        result,
        Principal {
            subject: "main_domain".to_string(),
            execution_context: ContextField::All, // Expecting default to "All"
        }
    );
}

#[test]
fn test_deserialize_empty_object_context() {
    let doc = record(vec![
        ("objects", text_list(&["object1", "object2"])),
        ("object_context", DocValue::Null),
    ]);
    let result = decode_object(&doc).unwrap();
    assert_eq!(
        result,
        Object::new(
            vec!["object1".to_string(), "object2".to_string()],
            ContextField::All, // Expecting default to "All"
        )
    );
}

#[test]
fn test_deserialize_callret_priv_field_all() {
    let doc = text("all");
    let result = decode_callret(Some(&doc), "can_call").unwrap();
    assert_eq!(result, CallRetPrivField::All);
}

#[test]
fn test_deserialize_callret_priv_field_list() {
    let doc = text_list(&["domain1", "domain2"]);
    let result = decode_callret(Some(&doc), "can_call").unwrap();
    assert_eq!(
        result,
        CallRetPrivField::List(vec!["domain1".to_string(), "domain2".to_string()])
    );
}

#[test]
fn test_deserialize_callret_priv_field_empty_list() {
    let doc = DocValue::List(vec![]);
    let result = decode_callret(Some(&doc), "can_call").unwrap();
    assert_eq!(result, CallRetPrivField::List(vec![]));
}

#[test]
fn test_deserialize_rw_priv_field_all() {
    let doc = text("all");
    let result = decode_rw(Some(&doc), "can_read").unwrap();
    assert_eq!(result, RWPrivField::All);
}

#[test]
fn test_deserialize_rw_priv_field_list() {
    let doc = DocValue::List(vec![record(vec![(
        "objects",
        text_list(&["object1", "object2"]),
    )])]);
    let result = decode_rw(Some(&doc), "can_read").unwrap();
    assert_eq!(
        result,
        RWPrivField::List(vec![Object::new(
            vec!["object1".to_string(), "object2".to_string()],
            ContextField::All,
        )])
    );
}

#[test]
fn test_deserialize_rw_priv_field_empty_list() {
    let doc = DocValue::List(vec![]);
    let result = decode_rw(Some(&doc), "can_read").unwrap();
    assert_eq!(result, RWPrivField::List(vec![]));
}

#[test]
fn test_deserialize_call_context_sub_field_all() {
    let doc = text_list(&["all"]);
    let result = decode_call_context(&doc, "call_context").unwrap();
    assert_eq!(result, CallContextSubField::All);
}

#[test]
fn test_deserialize_call_context_sub_field_list() {
    let doc = text_list(&["domain1", "domain2"]);
    let result = decode_call_context(&doc, "call_context").unwrap();
    assert_eq!(
        result,
        CallContextSubField::List(vec!["domain1".to_string(), "domain2".to_string()])
    );
}

#[test]
fn test_deserialize_call_context_sub_field_empty_list() {
    let doc = DocValue::List(vec![]);
    let result = decode_call_context(&doc, "call_context").unwrap();
    assert_eq!(result, CallContextSubField::List(vec![]));
}

#[test]
fn test_serialize_call_context_sub_field_all() {
    let value = CallContextSubField::All;
    let doc = encode_call_context(&value);
    assert_eq!(doc, text_list(&["all"]));
}

#[test]
fn test_serialize_call_context_sub_field_list() {
    let value = CallContextSubField::List(vec!["domain1".to_string(), "domain2".to_string()]);
    let doc = encode_call_context(&value);
    assert_eq!(doc, text_list(&["domain1", "domain2"]));
}

#[test]
fn test_deserialize_context_field_all() {
    let doc = text("all");
    let result = decode_context_field(Some(&doc), "execution_context").unwrap();
    assert_eq!(result, ContextField::All);
}

#[test]
fn test_deserialize_context_field_context() {
    let doc = record(vec![
        ("call_context", text_list(&["domain1", "domain2"])),
        ("uid", text("root")),
        ("gid", text("group1")),
    ]);
    let result = decode_context_field(Some(&doc), "execution_context").unwrap();
    assert_eq!(
        result,
        ContextField::Context(Context::new(
            Some(CallContextSubField::List(vec![
                "domain1".to_string(),
                "domain2".to_string()
            ])),
            Some(ContextSimpleString::Literal("root".to_string())),
            Some(ContextSimpleString::Literal("group1".to_string())),
        ))
    );
}

#[test]
fn test_deserialize_context_field_missing_fields() {
    let doc = record(vec![("call_context", text_list(&["domain1", "domain2"]))]);
    let result = decode_context_field(Some(&doc), "execution_context").unwrap();
    assert_eq!(
        result,
        ContextField::Context(Context::new(
            Some(CallContextSubField::List(vec![
                "domain1".to_string(),
                "domain2".to_string()
            ])),
            Some(ContextSimpleString::All),
            Some(ContextSimpleString::All),
        ))
    );
}

#[test]
fn test_sentinel_spelled_literally_normalizes() {
    // A uid holding the literal string "all", a caller list holding exactly
    // ["all"], and an absent sub-field all encode to forms the grammar reads
    // as unrestricted: re-decoding their encodings yields the unrestricted
    // variants.
    let ctx = ContextField::Context(Context::new(
        Some(CallContextSubField::List(vec!["all".to_string()])),
        Some(ContextSimpleString::Literal("all".to_string())),
        None,
    ));
    let doc = encode_context_field(&ctx);
    let re_decoded = decode_context_field(Some(&doc), "execution_context").unwrap();
    assert_eq!(
        re_decoded,
        ContextField::Context(Context::new(
            Some(CallContextSubField::All),
            Some(ContextSimpleString::All),
            Some(ContextSimpleString::All),
        ))
    );
}

#[test]
fn test_null_context_sub_fields_decode_unrestricted() {
    // An explicitly null sub-key decodes to unrestricted, exactly like a
    // missing one: a decoded sub-field is never absent.
    let doc = record(vec![
        ("call_context", DocValue::Null),
        ("uid", DocValue::Null),
        ("gid", DocValue::Null),
    ]);
    let result = decode_context_field(Some(&doc), "object_context").unwrap();
    assert_eq!(
        result,
        ContextField::Context(Context::new(
            Some(CallContextSubField::All),
            Some(ContextSimpleString::All),
            Some(ContextSimpleString::All),
        ))
    );
}

#[test]
fn test_deserialize_invalid_data() {
    let doc = text("invalid_data");
    let result = decode_call_context(&doc, "call_context");
    assert!(result.is_err());
}

#[test]
fn test_deserialize_full_cpm_priv_map() {
    let doc = record(vec![
        (
            "object_map",
            DocValue::List(vec![record(vec![
                ("name", text("domain1")),
                ("objects", text_list(&["object1", "object2"])),
            ])]),
        ),
        (
            "subject_map",
            DocValue::List(vec![record(vec![
                ("name", text("subject1")),
                ("subjects", text_list(&["subject1", "subject2"])),
            ])]),
        ),
        (
            "privileges",
            DocValue::List(vec![record(vec![
                (
                    "principal",
                    record(vec![
                        ("subject", text("subject1")),
                        ("execution_context", text("all")),
                    ]),
                ),
                ("can_call", text("all")),
                ("can_return", text("all")),
                ("can_read", text("all")),
                ("can_write", text("all")),
            ])]),
        ),
    ]);
    let result = decode_priv_map(&doc).unwrap();
    assert_eq!(
        result,
        CPMPrivMap {
            object_map: vec![ObjectDomain::new(
                "domain1".to_string(),
                vec![
                    ObjectID::new(
                        AllocType::Other, // Default alloc_type for fallback
                        "".to_string(),   // Default empty path
                        "".to_string(),   // Default empty line number
                        "object1".to_string()
                    ),
                    ObjectID::new(
                        AllocType::Other, // Default alloc_type for fallback
                        "".to_string(),   // Default empty path
                        "".to_string(),   // Default empty line number
                        "object2".to_string()
                    ),
                ]
            )],
            subject_map: vec![SubjectDomain::new(
                "subject1".to_string(),
                vec!["subject1".to_string(), "subject2".to_string()],
            )],
            privileges: vec![Privilege {
                principal: Principal {
                    subject: "subject1".to_string(),
                    execution_context: ContextField::All,
                },
                can_call: CallRetPrivField::All,
                can_return: CallRetPrivField::All,
                can_read: RWPrivField::All,
                can_write: RWPrivField::All,
            }],
        }
    );
}

#[test]
fn test_serialize_deserialize_cpm_priv_map() {
    let doc = record(vec![
        (
            "object_map",
            DocValue::List(vec![record(vec![
                ("name", text("domain1")),
                ("objects", text_list(&["object1", "object2"])),
            ])]),
        ),
        (
            "subject_map",
            DocValue::List(vec![record(vec![
                ("name", text("subject1")),
                ("subjects", text_list(&["subject1", "subject2"])),
            ])]),
        ),
        (
            "privileges",
            DocValue::List(vec![record(vec![
                (
                    "principal",
                    record(vec![
                        ("subject", text("subject1")),
                        ("execution_context", text("all")),
                    ]),
                ),
                ("can_call", text("all")),
                ("can_return", text("all")),
                ("can_read", text("all")),
                ("can_write", text("all")),
            ])]),
        ),
    ]);

    // Decode the document into a CPMPrivMap
    let deserialized = decode_priv_map(&doc).unwrap();

    // Encode the CPMPrivMap back into a document
    let encoded = encode_priv_map(&deserialized);

    // Decode the encoded document again to ensure consistency
    let re_deserialized = decode_priv_map(&encoded).unwrap();

    // Assert that the re-decoded map matches the original decoded map
    assert_eq!(deserialized, re_deserialized);

    // Check that decoding the original document twice gives the same map
    let normalized_input = decode_priv_map(&doc).unwrap();
    let normalized_serialized = decode_priv_map(&encoded).unwrap();
    assert_eq!(normalized_input, normalized_serialized);
}
