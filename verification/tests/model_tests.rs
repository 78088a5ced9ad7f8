use cpm_priv_map::alloc_type::AllocType;
use cpm_priv_map::codec::{
    decode_callret, decode_context_field, decode_priv_map, decode_privilege, decode_rw,
    decode_string_list, DocShape,
};
use cpm_priv_map::diagnostics::scan_unknown_alloc_tokens;
use cpm_priv_map::document::DocValue;
use cpm_priv_map::encode::encode_priv_map;
use cpm_priv_map::model::{
    CPMPrivMap, CallRetPrivField, ContextField, ObjectDomain, Principal, Privilege, RWPrivField,
    SubjectDomain,
};
use cpm_priv_map::object_id::ObjectID;

fn text(s: &str) -> DocValue {
    DocValue::Text(s.to_string())
}

fn text_list(xs: &[&str]) -> DocValue {
    DocValue::List(xs.iter().map(|s| text(s)).collect())
}

fn record(entries: Vec<(&str, DocValue)>) -> DocValue {
    DocValue::Record(entries.into_iter().map(|(k, v)| (k.to_string(), v)).collect())
}

fn object_id(alloc: AllocType, path: &str, lineno: &str, name: &str) -> ObjectID {
    ObjectID::new(alloc, path.to_string(), lineno.to_string(), name.to_string())
}

#[test]
fn test_empty_list_is_distinct_from_all() {
    let empty = decode_callret(Some(&DocValue::List(vec![])), "can_call").unwrap();
    let all = decode_callret(Some(&text("all")), "can_call").unwrap();
    assert_eq!(empty, CallRetPrivField::List(vec![]));
    assert_eq!(all, CallRetPrivField::All);
    assert_ne!(empty, all);
}

#[test]
fn test_absent_axes_default_to_unrestricted() {
    // A privilege with only a principal: all four axes resolve to
    // unrestricted.
    let doc = record(vec![(
        "principal",
        record(vec![("subject", text("s1"))]),
    )]);
    let p = decode_privilege(&doc).unwrap();
    assert_eq!(p.can_call, CallRetPrivField::All);
    assert_eq!(p.can_return, CallRetPrivField::All);
    assert_eq!(p.can_read, RWPrivField::All);
    assert_eq!(p.can_write, RWPrivField::All);
    assert_eq!(p.principal.execution_context, ContextField::All);
}

#[test]
fn test_end_to_end_defaults_and_round_trip() {
    // One subject domain, one privilege with can_return and can_write
    // omitted: decoding, re-encoding and re-decoding yields an identical
    // map, and the omitted axes resolve to unrestricted.
    let doc = record(vec![
        ("object_map", DocValue::List(vec![])),
        (
            "subject_map",
            DocValue::List(vec![record(vec![
                ("name", text("s1")),
                ("subjects", text_list(&["s1", "s2"])),
            ])]),
        ),
        (
            "privileges",
            DocValue::List(vec![record(vec![
                (
                    "principal",
                    record(vec![
                        ("subject", text("s1")),
                        ("execution_context", text("all")),
                    ]),
                ),
                ("can_call", text("all")),
                ("can_read", text("all")),
            ])]),
        ),
    ]);
    let decoded = decode_priv_map(&doc).unwrap();
    assert_eq!(decoded.privileges[0].can_return, CallRetPrivField::All);
    assert_eq!(decoded.privileges[0].can_write, RWPrivField::All);
    let re_decoded = decode_priv_map(&encode_priv_map(&decoded)).unwrap();
    assert_eq!(decoded, re_decoded);
}

#[test]
fn test_save_shape_round_trip_programmatic() {
    // Building a map programmatically and re-decoding its encoded document
    // yields an equal map.
    let mut map = CPMPrivMap::new();
    let mut domain = ObjectDomain::new_empty("domain1".to_string());
    domain.add_object(object_id(AllocType::Global, "/path/to/file", "42", "object1"));
    map.add_object_domain(domain);
    let mut subjects = SubjectDomain::new_empty("group".to_string());
    subjects.add_subject("s1".to_string());
    subjects.add_subjects(vec!["s2".to_string(), "s3".to_string()]);
    map.add_subject_domain(subjects);
    map.add_privilege(Privilege {
        principal: Principal {
            subject: "s1".to_string(),
            execution_context: ContextField::All,
        },
        can_call: CallRetPrivField::List(vec![]),
        can_return: CallRetPrivField::All,
        can_read: RWPrivField::All,
        can_write: RWPrivField::All,
    });
    let reloaded = decode_priv_map(&encode_priv_map(&map)).unwrap();
    assert_eq!(map, reloaded);
}

#[test]
fn test_malformed_union_fields_are_errors() {
    // A string other than the sentinel.
    let e = decode_callret(Some(&text("some")), "can_call").unwrap_err();
    assert_eq!(e.field(), "can_call");
    assert_eq!(e.found(), DocShape::Text);
    // A mapping where a sequence or the sentinel is expected.
    let e = decode_rw(Some(&record(vec![])), "can_read").unwrap_err();
    assert_eq!(e.field(), "can_read");
    assert_eq!(e.found(), DocShape::Record);
    // A sequence where a context is expected.
    let e = decode_context_field(Some(&DocValue::List(vec![])), "execution_context").unwrap_err();
    assert_eq!(e.field(), "execution_context");
    assert_eq!(e.found(), DocShape::List);
    // A non-string element inside a string list.
    let e = decode_string_list(&DocValue::List(vec![DocValue::Null]), "subjects").unwrap_err();
    assert_eq!(e.field(), "subjects");
    assert_eq!(e.found(), DocShape::Null);
    // A required key that is missing altogether.
    let e = decode_privilege(&record(vec![("can_call", text("all"))])).unwrap_err();
    assert_eq!(e.field(), "principal");
    assert_eq!(e.found(), DocShape::Missing);
}

#[test]
fn test_scan_reports_unknown_alloc_tokens() {
    // Structured identifiers with unrecognized tokens are collected for the
    // warning; recognized tokens, bare names and malformed entries are not.
    let doc = record(vec![
        (
            "object_map",
            DocValue::List(vec![record(vec![
                ("name", text("d")),
                (
                    "objects",
                    text_list(&[
                        "frobnicate|/a.c|1|x",
                        "GLOBAL|/b.c|2|y",
                        "kmalloc_reserve|/c.c|3|z",
                        "bare_name",
                    ]),
                ),
            ])]),
        ),
        ("subject_map", DocValue::List(vec![])),
        ("privileges", DocValue::List(vec![])),
    ]);
    assert_eq!(scan_unknown_alloc_tokens(&doc), vec!["frobnicate".to_string()]);
    assert!(scan_unknown_alloc_tokens(&text("not a map")).is_empty());
}

#[test]
fn test_map_decode_requires_all_three_keys() {
    let doc = record(vec![
        ("subject_map", DocValue::List(vec![])),
        ("privileges", DocValue::List(vec![])),
    ]);
    assert!(decode_priv_map(&doc).is_err());

    let doc = record(vec![
        ("object_map", DocValue::List(vec![])),
        ("subject_map", DocValue::List(vec![])),
        ("privileges", DocValue::List(vec![])),
    ]);
    let map = decode_priv_map(&doc).unwrap();
    assert_eq!(map, CPMPrivMap::new());
}

#[test]
fn test_privilege_requires_principal_subject() {
    let doc = record(vec![("can_call", text("all"))]);
    assert!(decode_privilege(&doc).is_err());
    let doc = record(vec![("principal", record(vec![]))]);
    assert!(decode_privilege(&doc).is_err());
}

#[test]
fn test_object_domain_accessors() {
    let mut domain = ObjectDomain::new(
        "d".to_string(),
        vec![
            object_id(AllocType::Global, "/a.c", "1", "x"),
            object_id(AllocType::Heap, "/b.c", "2", "y"),
            object_id(AllocType::Heap, "/c.c", "3", "x"),
        ],
    );
    assert_eq!(domain.name(), "d");
    assert_eq!(domain.objects().len(), 3);
    assert_eq!(domain.get_object(1).unwrap().name(), "y");
    assert!(domain.get_object(3).is_none());
    // The getters return the first match in order.
    assert_eq!(domain.get_object_by_name("x").unwrap().path(), "/a.c");
    assert_eq!(domain.get_object_by_path("/b.c").unwrap().name(), "y");
    assert_eq!(domain.get_object_by_lineno("3").unwrap().name(), "x");
    assert_eq!(
        domain.get_object_by_alloc_type(&AllocType::Heap).unwrap().name(),
        "y"
    );
    assert!(domain.get_object_by_name("z").is_none());

    // Removal removes every equal object and keeps order.
    domain.add_object(object_id(AllocType::Global, "/a.c", "1", "x"));
    domain.remove_object(&object_id(AllocType::Global, "/a.c", "1", "x"));
    assert_eq!(domain.objects().len(), 2);
    assert_eq!(domain.get_object(0).unwrap().name(), "y");

    domain.set_objects(vec![object_id(AllocType::IO, "/d.c", "4", "w")]);
    assert_eq!(domain.objects().len(), 1);
    domain.clear_objects();
    assert!(domain.objects().is_empty());
}

#[test]
fn test_subject_domain_accessors() {
    let domain = SubjectDomain::new(
        "grp".to_string(),
        vec!["a".to_string(), "b".to_string()],
    );
    assert_eq!(domain.name(), "grp");
    assert_eq!(domain.subjects(), &vec!["a".to_string(), "b".to_string()]);
}

#[test]
fn test_privilege_accessors() {
    let p = Privilege {
        principal: Principal {
            subject: "s".to_string(),
            execution_context: ContextField::All,
        },
        can_call: CallRetPrivField::All,
        can_return: CallRetPrivField::List(vec!["t".to_string()]),
        can_read: RWPrivField::All,
        can_write: RWPrivField::List(vec![]),
    };
    assert_eq!(p.principal().subject(), "s");
    assert_eq!(p.principal().execution_context(), &ContextField::All);
    assert_eq!(p.can_call(), &CallRetPrivField::All);
    assert_eq!(
        p.can_return(),
        &CallRetPrivField::List(vec!["t".to_string()])
    );
    assert_eq!(p.can_read(), &RWPrivField::All);
    assert_eq!(p.can_write(), &RWPrivField::List(vec![]));
}
