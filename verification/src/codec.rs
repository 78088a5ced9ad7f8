//! The codec between the generic document tree and the typed model.
//!
//! The textual grammar is deliberately permissive: every permission or
//! context axis may appear as an absent key, the sentinel token `"all"`, or
//! an explicit enumeration. One decode rule reconciles those shapes into the
//! closed variant set, applied uniformly to every axis: absent or null means
//! unrestricted, the sentinel means unrestricted, a sequence means an
//! explicit enumeration (the empty sequence included, as a distinct "grant
//! nothing" value), and any other shape is a hard `MalformedField` failure.
//! Encoding is the inverse: unrestricted becomes the sentinel, an
//! enumeration becomes the literal sequence, even if empty.

use vstd::prelude::*;

use crate::alloc_type::str_eq;
use crate::document::{record_entries_view, spec_lookup, DocValue, DocValueView};
use crate::model::{
    CPMPrivMap, CPMPrivMapView, CallContextSubField, CallContextSubFieldView, CallRetPrivField,
    CallRetPrivFieldView, Context, ContextField, ContextFieldView, ContextSimpleString,
    ContextSimpleStringView, ContextView, Object, ObjectDomain, ObjectDomainView, ObjectView,
    Principal, PrincipalView, Privilege, PrivilegeView, RWPrivField, RWPrivFieldView,
    SubjectDomain, SubjectDomainView,
};
use crate::object_id::{spec_decode_object_id, ObjectID, ObjectIDView};

verus! {

broadcast use vstd::std_specs::vec::group_vec_axioms;

/// The shape of an optionally-present document value, for reporting what a
/// failed decode actually found.
#[derive(Clone, Copy, Debug, PartialEq, Eq, Structural, Hash)]
pub enum DocShape {
    Missing,
    Null,
    Text,
    List,
    Record,
}

/// The shape of an optionally-present document value.
pub open spec fn spec_shape(v: Option<DocValueView>) -> DocShape {
    match v {
        None => DocShape::Missing,
        Some(DocValueView::Null) => DocShape::Null,
        Some(DocValueView::Text(_)) => DocShape::Text,
        Some(DocValueView::List(_)) => DocShape::List,
        Some(DocValueView::Record(_)) => DocShape::Record,
    }
}

/// The shape of a document value.
fn doc_shape(v: &DocValue) -> (r: DocShape)
    ensures
        r == spec_shape(Some(v@)),
{
    match v {
        DocValue::Null => DocShape::Null,
        DocValue::Text(_) => DocShape::Text,
        DocValue::List(_) => DocShape::List,
        DocValue::Record(_) => DocShape::Record,
    }
}

/// Why a decode failed: a union-typed field held a shape outside
/// {absent, sentinel, sequence/mapping as the field requires}. The payload
/// names the field and the unexpected shape that was found there.
#[derive(Debug, PartialEq)]
pub enum DecodeError {
    MalformedField(String, DocShape),
}

impl DecodeError {
    /// The name of the field that failed to decode.
    pub fn field(&self) -> (r: &str)
        ensures
            self matches DecodeError::MalformedField(f, _) && r@ == f@,
    {
        match self {
            DecodeError::MalformedField(f, _) => f.as_str(),
        }
    }

    /// The unexpected shape that was found at the field.
    pub fn found(&self) -> (r: DocShape)
        ensures
            self matches DecodeError::MalformedField(_, sh) && r == sh,
    {
        match self {
            DecodeError::MalformedField(_, sh) => *sh,
        }
    }
}

/// The view of an optional document value (an absent key is `None`).
pub open spec fn opt_view(v: Option<&DocValue>) -> Option<DocValueView> {
    match v {
        Some(d) => Some(d@),
        None => None,
    }
}

/// Every element of the sequence is a string scalar.
pub open spec fn all_texts(xs: Seq<DocValueView>) -> bool {
    forall|i: int| 0 <= i < xs.len() ==> xs[i] is Text
}

/// The contents of a sequence of string scalars.
pub open spec fn texts_of(xs: Seq<DocValueView>) -> Seq<Seq<char>> {
    Seq::new(xs.len(), |i: int| xs[i]->Text_0)
}

/// Decoding a sequence of string scalars; any other shape, or any
/// non-string element, fails.
pub open spec fn spec_decode_string_list(v: DocValueView) -> Option<Seq<Seq<char>>> {
    match v {
        DocValueView::List(xs) => if all_texts(xs) {
            Some(texts_of(xs))
        } else {
            None
        },
        _ => None,
    }
}

/// Decodes a document sequence of string scalars.
pub fn decode_string_list(v: &DocValue, field: &str) -> (r: Result<Vec<String>, DecodeError>)
    ensures
        r is Ok <==> spec_decode_string_list(v@) is Some,
        r matches Ok(xs) ==> xs.deep_view() == spec_decode_string_list(v@)->Some_0,
        r matches Err(e) ==> (e matches DecodeError::MalformedField(f, _) && f@ == field@),
{
    match v {
        DocValue::List(xs) => {
            let ghost dvs = v@->List_0;
            proof {
                assert(dvs.len() == xs@.len());
            }
            let mut out: Vec<String> = Vec::new();
            let mut i: usize = 0;
            while i < xs.len()
                invariant
                    0 <= i <= xs.len(),
                    v@ == DocValueView::List(dvs),
                    xs@.len() == dvs.len(),
                    forall|j: int| 0 <= j < dvs.len() ==> #[trigger] dvs[j] == xs@[j]@,
                    forall|j: int| 0 <= j < i ==> #[trigger] dvs[j] is Text,
                    out.deep_view().len() == i,
                    forall|j: int| 0 <= j < i ==> #[trigger] out.deep_view()[j] == dvs[j]->Text_0,
                decreases xs.len() - i,
            {
                match &xs[i] {
                    DocValue::Text(s) => {
                        let ghost out_before = out.deep_view();
                        out.push(s.clone());
                        proof {
                            assert(dvs[i as int] == xs@[i as int]@);
                            assert(out.deep_view() =~= out_before.push(dvs[i as int]->Text_0));
                        }
                    },
                    other => {
                        proof {
                            assert(dvs[i as int] == xs@[i as int]@);
                            assert(!(dvs[i as int] is Text));
                            assert(!all_texts(dvs));
                        }
                        return Err(
                            DecodeError::MalformedField(String::from_str(field), doc_shape(other)),
                        );
                    },
                }
                i = i + 1;
            }
            proof {
                assert(all_texts(dvs));
                assert(out.deep_view() =~= texts_of(dvs));
            }
            Ok(out)
        },
        _ => Err(DecodeError::MalformedField(String::from_str(field), doc_shape(v))),
    }
}

/// Decoding a call/return permission axis: absent or null or the sentinel
/// means unrestricted; a sequence of strings is an explicit enumeration;
/// anything else fails.
pub open spec fn spec_decode_callret(v: Option<DocValueView>) -> Option<CallRetPrivFieldView> {
    match v {
        None => Some(CallRetPrivFieldView::All),
        Some(DocValueView::Null) => Some(CallRetPrivFieldView::All),
        Some(DocValueView::Text(s)) => if s == "all"@ {
            Some(CallRetPrivFieldView::All)
        } else {
            None
        },
        Some(dv) => match spec_decode_string_list(dv) {
            Some(xs) => Some(CallRetPrivFieldView::List(xs)),
            None => None,
        },
    }
}

/// Decodes a call/return permission axis.
pub fn decode_callret(v: Option<&DocValue>, field: &str) -> (r: Result<
    CallRetPrivField,
    DecodeError,
>)
    ensures
        r is Ok <==> spec_decode_callret(opt_view(v)) is Some,
        r matches Ok(f) ==> f@ == spec_decode_callret(opt_view(v))->Some_0,
        r matches Err(e) ==> (e matches DecodeError::MalformedField(f, _) && f@ == field@),
{
    match v {
        None => Ok(CallRetPrivField::All),
        Some(d) => match d {
            DocValue::Null => Ok(CallRetPrivField::All),
            DocValue::Text(s) => {
                if str_eq(s.as_str(), "all") {
                    Ok(CallRetPrivField::All)
                } else {
                    Err(DecodeError::MalformedField(String::from_str(field), DocShape::Text))
                }
            },
            DocValue::List(_) => {
                match decode_string_list(d, field) {
                    Ok(xs) => Ok(CallRetPrivField::List(xs)),
                    Err(e) => Err(e),
                }
            },
            DocValue::Record(_) => Err(
                DecodeError::MalformedField(String::from_str(field), DocShape::Record),
            ),
        },
    }
}

/// Decoding a scalar context value: the sentinel means unrestricted, any
/// other string is a literal, any non-string shape fails.
pub open spec fn spec_decode_context_simple(v: DocValueView) -> Option<ContextSimpleStringView> {
    match v {
        DocValueView::Text(s) => if s == "all"@ {
            Some(ContextSimpleStringView::All)
        } else {
            Some(ContextSimpleStringView::Literal(s))
        },
        _ => None,
    }
}

/// Decodes a scalar context value (a uid or gid).
pub fn decode_context_simple(v: &DocValue, field: &str) -> (r: Result<
    ContextSimpleString,
    DecodeError,
>)
    ensures
        r is Ok <==> spec_decode_context_simple(v@) is Some,
        r matches Ok(c) ==> c@ == spec_decode_context_simple(v@)->Some_0,
        r matches Err(e) ==> (e matches DecodeError::MalformedField(f, _) && f@ == field@),
{
    match v {
        DocValue::Text(s) => {
            if str_eq(s.as_str(), "all") {
                Ok(ContextSimpleString::All)
            } else {
                Ok(ContextSimpleString::Literal(s.clone()))
            }
        },
        _ => Err(DecodeError::MalformedField(String::from_str(field), doc_shape(v))),
    }
}

/// Decoding the caller set of a context: it must be a sequence of strings;
/// the one-element sequence holding the sentinel means unrestricted, any
/// other sequence (the empty one included) is an explicit enumeration.
pub open spec fn spec_decode_call_context(v: DocValueView) -> Option<CallContextSubFieldView> {
    match spec_decode_string_list(v) {
        Some(xs) => if xs == seq!["all"@] {
            Some(CallContextSubFieldView::All)
        } else {
            Some(CallContextSubFieldView::List(xs))
        },
        None => None,
    }
}

/// Decodes the caller set of a context.
pub fn decode_call_context(v: &DocValue, field: &str) -> (r: Result<
    CallContextSubField,
    DecodeError,
>)
    ensures
        r is Ok <==> spec_decode_call_context(v@) is Some,
        r matches Ok(c) ==> c@ == spec_decode_call_context(v@)->Some_0,
        r matches Err(e) ==> (e matches DecodeError::MalformedField(f, _) && f@ == field@),
{
    let xs = match decode_string_list(v, field) {
        Ok(xs) => xs,
        Err(e) => {
            return Err(e);
        },
    };
    let ghost xsv = xs.deep_view();
    if xs.len() == 1 && str_eq(xs[0].as_str(), "all") {
        proof {
            assert(xsv =~= seq!["all"@]);
        }
        Ok(CallContextSubField::All)
    } else {
        proof {
            if xsv == seq!["all"@] {
                assert(xsv.len() == 1);
                assert(xsv[0] == "all"@);
            }
        }
        Ok(CallContextSubField::List(xs))
    }
}

/// Decoding the optional caller-set key of a context mapping: an absent key
/// or an explicit null means unrestricted — a decoded sub-field is never
/// absent — and anything else must decode as a caller set.
pub open spec fn spec_decode_cc_field(o: Option<DocValueView>) -> Option<
    Option<CallContextSubFieldView>,
> {
    match o {
        None => Some(Some(CallContextSubFieldView::All)),
        Some(DocValueView::Null) => Some(Some(CallContextSubFieldView::All)),
        Some(dv) => match spec_decode_call_context(dv) {
            Some(c) => Some(Some(c)),
            None => None,
        },
    }
}

/// Decoding an optional scalar context key (uid or gid), with the same
/// absent/null rule as the caller set.
pub open spec fn spec_decode_simple_field(o: Option<DocValueView>) -> Option<
    Option<ContextSimpleStringView>,
> {
    match o {
        None => Some(Some(ContextSimpleStringView::All)),
        Some(DocValueView::Null) => Some(Some(ContextSimpleStringView::All)),
        Some(dv) => match spec_decode_context_simple(dv) {
            Some(c) => Some(Some(c)),
            None => None,
        },
    }
}

/// Decoding a context: a mapping whose three keys are each independently
/// optional and default to unrestricted.
pub open spec fn spec_decode_context(v: DocValueView) -> Option<ContextView> {
    match v {
        DocValueView::Record(es) => {
            let cc = spec_decode_cc_field(spec_lookup(es, "call_context"@));
            let uid = spec_decode_simple_field(spec_lookup(es, "uid"@));
            let gid = spec_decode_simple_field(spec_lookup(es, "gid"@));
            if cc is Some && uid is Some && gid is Some {
                Some(
                    ContextView {
                        call_context: cc->Some_0,
                        uid: uid->Some_0,
                        gid: gid->Some_0,
                    },
                )
            } else {
                None
            }
        },
        _ => None,
    }
}

/// Decodes a context mapping. Keys other than the three known ones are
/// ignored.
pub fn decode_context(v: &DocValue, field: &str) -> (r: Result<Context, DecodeError>)
    ensures
        r is Ok <==> spec_decode_context(v@) is Some,
        r matches Ok(c) ==> c@ == spec_decode_context(v@)->Some_0,
        r matches Err(e) ==> e is MalformedField,
{
    match v {
        DocValue::Record(es) => {
            let ghost evs = record_entries_view(es@);
            proof {
                assert(v@ == DocValueView::Record(evs));
            }
            let cc: Option<CallContextSubField> = match crate::document::lookup(
                es,
                "call_context",
            ) {
                None => Some(CallContextSubField::All),
                Some(d) => match d {
                    DocValue::Null => Some(CallContextSubField::All),
                    _ => match decode_call_context(d, "call_context") {
                        Ok(c) => Some(c),
                        Err(e) => {
                            return Err(e);
                        },
                    },
                },
            };
            let uid: Option<ContextSimpleString> = match crate::document::lookup(es, "uid") {
                None => Some(ContextSimpleString::All),
                Some(d) => match d {
                    DocValue::Null => Some(ContextSimpleString::All),
                    _ => match decode_context_simple(d, "uid") {
                        Ok(c) => Some(c),
                        Err(e) => {
                            return Err(e);
                        },
                    },
                },
            };
            let gid: Option<ContextSimpleString> = match crate::document::lookup(es, "gid") {
                None => Some(ContextSimpleString::All),
                Some(d) => match d {
                    DocValue::Null => Some(ContextSimpleString::All),
                    _ => match decode_context_simple(d, "gid") {
                        Ok(c) => Some(c),
                        Err(e) => {
                            return Err(e);
                        },
                    },
                },
            };
            Ok(Context::new(cc, uid, gid))
        },
        _ => Err(DecodeError::MalformedField(String::from_str(field), doc_shape(v))),
    }
}

/// Decoding a context field: absent, null or the sentinel means
/// unrestricted; a mapping is a scoped context; anything else fails.
pub open spec fn spec_decode_context_field(v: Option<DocValueView>) -> Option<ContextFieldView> {
    match v {
        None => Some(ContextFieldView::All),
        Some(DocValueView::Null) => Some(ContextFieldView::All),
        Some(DocValueView::Text(s)) => if s == "all"@ {
            Some(ContextFieldView::All)
        } else {
            None
        },
        Some(dv) => match spec_decode_context(dv) {
            Some(c) => Some(ContextFieldView::Context(c)),
            None => None,
        },
    }
}

/// Decodes a context field (an execution or object context).
pub fn decode_context_field(v: Option<&DocValue>, field: &str) -> (r: Result<
    ContextField,
    DecodeError,
>)
    ensures
        r is Ok <==> spec_decode_context_field(opt_view(v)) is Some,
        r matches Ok(f) ==> f@ == spec_decode_context_field(opt_view(v))->Some_0,
        r matches Err(e) ==> e is MalformedField,
{
    match v {
        None => Ok(ContextField::All),
        Some(d) => match d {
            DocValue::Null => Ok(ContextField::All),
            DocValue::Text(s) => {
                if str_eq(s.as_str(), "all") {
                    Ok(ContextField::All)
                } else {
                    Err(DecodeError::MalformedField(String::from_str(field), DocShape::Text))
                }
            },
            DocValue::Record(_) => {
                match decode_context(d, field) {
                    Ok(c) => Ok(ContextField::Context(c)),
                    Err(e) => Err(e),
                }
            },
            DocValue::List(_) => Err(
                DecodeError::MalformedField(String::from_str(field), DocShape::List),
            ),
        },
    }
}

/// Decoding one access grant: a mapping with a required sequence of object
/// domain names and an optional object context.
pub open spec fn spec_decode_object(v: DocValueView) -> Option<ObjectView> {
    match v {
        DocValueView::Record(es) => {
            let objs = match spec_lookup(es, "objects"@) {
                Some(x) => spec_decode_string_list(x),
                None => None,
            };
            let ctx = spec_decode_context_field(spec_lookup(es, "object_context"@));
            if objs is Some && ctx is Some {
                Some(ObjectView { objects: objs->Some_0, object_context: ctx->Some_0 })
            } else {
                None
            }
        },
        _ => None,
    }
}

/// Decodes one access grant.
pub fn decode_object(v: &DocValue) -> (r: Result<Object, DecodeError>)
    ensures
        r is Ok <==> spec_decode_object(v@) is Some,
        r matches Ok(o) ==> o@ == spec_decode_object(v@)->Some_0,
        r matches Err(e) ==> e is MalformedField,
{
    match v {
        DocValue::Record(es) => {
            let ghost evs = record_entries_view(es@);
            proof {
                assert(v@ == DocValueView::Record(evs));
            }
            let objs = match crate::document::lookup(es, "objects") {
                Some(d) => match decode_string_list(d, "objects") {
                    Ok(xs) => xs,
                    Err(e) => {
                        return Err(e);
                    },
                },
                None => {
                    return Err(
                        DecodeError::MalformedField(String::from_str("objects"), DocShape::Missing),
                    );
                },
            };
            let ctx = match decode_context_field(
                crate::document::lookup(es, "object_context"),
                "object_context",
            ) {
                Ok(c) => c,
                Err(e) => {
                    return Err(e);
                },
            };
            Ok(Object::new(objs, ctx))
        },
        _ => Err(DecodeError::MalformedField(String::from_str("objects"), doc_shape(v))),
    }
}

/// Every element decodes as an access grant.
pub open spec fn all_objects_ok(xs: Seq<DocValueView>) -> bool {
    forall|i: int| 0 <= i < xs.len() ==> #[trigger] spec_decode_object(xs[i]) is Some
}

/// The decoded access grants of a sequence.
pub open spec fn objects_of(xs: Seq<DocValueView>) -> Seq<ObjectView> {
    Seq::new(xs.len(), |i: int| spec_decode_object(xs[i])->Some_0)
}

/// Decoding a read/write permission axis: absent, null or the sentinel
/// means unrestricted; a sequence of access grants is an explicit
/// enumeration; anything else fails.
pub open spec fn spec_decode_rw(v: Option<DocValueView>) -> Option<RWPrivFieldView> {
    match v {
        None => Some(RWPrivFieldView::All),
        Some(DocValueView::Null) => Some(RWPrivFieldView::All),
        Some(DocValueView::Text(s)) => if s == "all"@ {
            Some(RWPrivFieldView::All)
        } else {
            None
        },
        Some(DocValueView::List(xs)) => if all_objects_ok(xs) {
            Some(RWPrivFieldView::List(objects_of(xs)))
        } else {
            None
        },
        Some(DocValueView::Record(_)) => None,
    }
}

/// Decodes a read/write permission axis.
pub fn decode_rw(v: Option<&DocValue>, field: &str) -> (r: Result<RWPrivField, DecodeError>)
    ensures
        r is Ok <==> spec_decode_rw(opt_view(v)) is Some,
        r matches Ok(f) ==> f@ == spec_decode_rw(opt_view(v))->Some_0,
        r matches Err(e) ==> e is MalformedField,
{
    match v {
        None => Ok(RWPrivField::All),
        Some(d) => match d {
            DocValue::Null => Ok(RWPrivField::All),
            DocValue::Text(s) => {
                if str_eq(s.as_str(), "all") {
                    Ok(RWPrivField::All)
                } else {
                    Err(DecodeError::MalformedField(String::from_str(field), DocShape::Text))
                }
            },
            DocValue::List(xs) => {
                let ghost dvs = d@->List_0;
                proof {
                    assert(dvs.len() == xs@.len());
                }
                let mut out: Vec<Object> = Vec::new();
                let mut i: usize = 0;
                while i < xs.len()
                    invariant
                        0 <= i <= xs.len(),
                        opt_view(v) == Some(DocValueView::List(dvs)),
                        d@ == DocValueView::List(dvs),
                        xs@.len() == dvs.len(),
                        forall|j: int| 0 <= j < dvs.len() ==> #[trigger] dvs[j] == xs@[j]@,
                        forall|j: int|
                            0 <= j < i ==> #[trigger] spec_decode_object(dvs[j]) is Some,
                        out.deep_view().len() == i,
                        forall|j: int|
                            0 <= j < i ==> #[trigger] out.deep_view()[j] == spec_decode_object(
                                dvs[j],
                            )->Some_0,
                    decreases xs.len() - i,
                {
                    match decode_object(&xs[i]) {
                        Ok(o) => {
                            let ghost out_before = out.deep_view();
                            proof {
                                assert(dvs[i as int] == xs@[i as int]@);
                            }
                            let ghost ov = o@;
                            out.push(o);
                            proof {
                                assert(out.deep_view() =~= out_before.push(ov));
                            }
                        },
                        Err(e) => {
                            proof {
                                assert(dvs[i as int] == xs@[i as int]@);
                                assert(spec_decode_object(dvs[i as int]) is None);
                                assert(!all_objects_ok(dvs));
                            }
                            return Err(e);
                        },
                    }
                    i = i + 1;
                }
                proof {
                    assert(all_objects_ok(dvs));
                    assert(out.deep_view() =~= objects_of(dvs));
                }
                Ok(RWPrivField::List(out))
            },
            DocValue::Record(_) => Err(
                DecodeError::MalformedField(String::from_str(field), DocShape::Record),
            ),
        },
    }
}

/// Decoding a principal: a mapping with a required subject name and an
/// optional execution context.
pub open spec fn spec_decode_principal(v: DocValueView) -> Option<PrincipalView> {
    match v {
        DocValueView::Record(es) => match spec_lookup(es, "subject"@) {
            Some(DocValueView::Text(s)) => match spec_decode_context_field(
                spec_lookup(es, "execution_context"@),
            ) {
                Some(ec) => Some(PrincipalView { subject: s, execution_context: ec }),
                None => None,
            },
            _ => None,
        },
        _ => None,
    }
}

/// Decodes a principal.
pub fn decode_principal(v: &DocValue) -> (r: Result<Principal, DecodeError>)
    ensures
        r is Ok <==> spec_decode_principal(v@) is Some,
        r matches Ok(p) ==> p@ == spec_decode_principal(v@)->Some_0,
        r matches Err(e) ==> e is MalformedField,
{
    match v {
        DocValue::Record(es) => {
            let ghost evs = record_entries_view(es@);
            proof {
                assert(v@ == DocValueView::Record(evs));
            }
            let subject = match crate::document::lookup(es, "subject") {
                Some(d) => match d {
                    DocValue::Text(s) => s.clone(),
                    other => {
                        return Err(
                            DecodeError::MalformedField(
                                String::from_str("subject"),
                                doc_shape(other),
                            ),
                        );
                    },
                },
                None => {
                    return Err(
                        DecodeError::MalformedField(String::from_str("subject"), DocShape::Missing),
                    );
                },
            };
            let ec = match decode_context_field(
                crate::document::lookup(es, "execution_context"),
                "execution_context",
            ) {
                Ok(c) => c,
                Err(e) => {
                    return Err(e);
                },
            };
            Ok(Principal { subject, execution_context: ec })
        },
        _ => Err(DecodeError::MalformedField(String::from_str("principal"), doc_shape(v))),
    }
}

/// Decoding one privilege: a mapping with a required principal and four
/// permission axes that each default to unrestricted when absent.
pub open spec fn spec_decode_privilege(v: DocValueView) -> Option<PrivilegeView> {
    match v {
        DocValueView::Record(es) => {
            let principal = match spec_lookup(es, "principal"@) {
                Some(p) => spec_decode_principal(p),
                None => None,
            };
            let can_call = spec_decode_callret(spec_lookup(es, "can_call"@));
            let can_return = spec_decode_callret(spec_lookup(es, "can_return"@));
            let can_read = spec_decode_rw(spec_lookup(es, "can_read"@));
            let can_write = spec_decode_rw(spec_lookup(es, "can_write"@));
            if principal is Some && can_call is Some && can_return is Some && can_read is Some
                && can_write is Some {
                Some(
                    PrivilegeView {
                        principal: principal->Some_0,
                        can_call: can_call->Some_0,
                        can_return: can_return->Some_0,
                        can_read: can_read->Some_0,
                        can_write: can_write->Some_0,
                    },
                )
            } else {
                None
            }
        },
        _ => None,
    }
}

/// Decodes one privilege.
pub fn decode_privilege(v: &DocValue) -> (r: Result<Privilege, DecodeError>)
    ensures
        r is Ok <==> spec_decode_privilege(v@) is Some,
        r matches Ok(p) ==> p@ == spec_decode_privilege(v@)->Some_0,
        r matches Err(e) ==> e is MalformedField,
{
    match v {
        DocValue::Record(es) => {
            let ghost evs = record_entries_view(es@);
            proof {
                assert(v@ == DocValueView::Record(evs));
            }
            let principal = match crate::document::lookup(es, "principal") {
                Some(d) => match decode_principal(d) {
                    Ok(p) => p,
                    Err(e) => {
                        return Err(e);
                    },
                },
                None => {
                    return Err(
                        DecodeError::MalformedField(
                            String::from_str("principal"),
                            DocShape::Missing,
                        ),
                    );
                },
            };
            let can_call = match decode_callret(
                crate::document::lookup(es, "can_call"),
                "can_call",
            ) {
                Ok(f) => f,
                Err(e) => {
                    return Err(e);
                },
            };
            let can_return = match decode_callret(
                crate::document::lookup(es, "can_return"),
                "can_return",
            ) {
                Ok(f) => f,
                Err(e) => {
                    return Err(e);
                },
            };
            let can_read = match decode_rw(crate::document::lookup(es, "can_read"), "can_read") {
                Ok(f) => f,
                Err(e) => {
                    return Err(e);
                },
            };
            let can_write = match decode_rw(crate::document::lookup(es, "can_write"), "can_write") {
                Ok(f) => f,
                Err(e) => {
                    return Err(e);
                },
            };
            Ok(Privilege { principal, can_call, can_return, can_read, can_write })
        },
        _ => Err(DecodeError::MalformedField(String::from_str("principal"), doc_shape(v))),
    }
}

/// The decoded object identifiers of a sequence of compact strings.
pub open spec fn object_ids_of(strs: Seq<Seq<char>>) -> Seq<ObjectIDView> {
    Seq::new(strs.len(), |i: int| spec_decode_object_id(strs[i]))
}

/// Decoding an object domain: a mapping with a required name and a required
/// sequence of compact object identifier strings. Identifier decoding is
/// total, so only the mapping shape can fail.
pub open spec fn spec_decode_object_domain(v: DocValueView) -> Option<ObjectDomainView> {
    match v {
        DocValueView::Record(es) => match spec_lookup(es, "name"@) {
            Some(DocValueView::Text(n)) => {
                let strs = match spec_lookup(es, "objects"@) {
                    Some(x) => spec_decode_string_list(x),
                    None => None,
                };
                match strs {
                    Some(ss) => Some(ObjectDomainView { name: n, objects: object_ids_of(ss) }),
                    None => None,
                }
            },
            _ => None,
        },
        _ => None,
    }
}

/// Decodes an object domain.
pub fn decode_object_domain(v: &DocValue) -> (r: Result<ObjectDomain, DecodeError>)
    ensures
        r is Ok <==> spec_decode_object_domain(v@) is Some,
        r matches Ok(d) ==> d@ == spec_decode_object_domain(v@)->Some_0,
        r matches Err(e) ==> e is MalformedField,
{
    match v {
        DocValue::Record(es) => {
            let ghost evs = record_entries_view(es@);
            proof {
                assert(v@ == DocValueView::Record(evs));
            }
            let name = match crate::document::lookup(es, "name") {
                Some(d) => match d {
                    DocValue::Text(s) => s.clone(),
                    other => {
                        return Err(
                            DecodeError::MalformedField(String::from_str("name"), doc_shape(other)),
                        );
                    },
                },
                None => {
                    return Err(
                        DecodeError::MalformedField(String::from_str("name"), DocShape::Missing),
                    );
                },
            };
            let strs = match crate::document::lookup(es, "objects") {
                Some(d) => match decode_string_list(d, "objects") {
                    Ok(xs) => xs,
                    Err(e) => {
                        return Err(e);
                    },
                },
                None => {
                    return Err(
                        DecodeError::MalformedField(String::from_str("objects"), DocShape::Missing),
                    );
                },
            };
            let ghost strs_v = strs.deep_view();
            let mut ids: Vec<ObjectID> = Vec::new();
            let mut i: usize = 0;
            while i < strs.len()
                invariant
                    0 <= i <= strs.len(),
                    strs_v == strs.deep_view(),
                    strs_v.len() == strs@.len(),
                    ids.deep_view().len() == i,
                    forall|j: int|
                        0 <= j < i ==> #[trigger] ids.deep_view()[j] == spec_decode_object_id(
                            strs_v[j],
                        ),
                decreases strs.len() - i,
            {
                let ghost ids_before = ids.deep_view();
                let id = ObjectID::decode_compact(strs[i].as_str());
                ids.push(id);
                proof {
                    assert(strs_v[i as int] == strs@[i as int]@);
                    assert(ids.deep_view() =~= ids_before.push(
                        spec_decode_object_id(strs_v[i as int]),
                    ));
                }
                i = i + 1;
            }
            proof {
                assert(ids.deep_view() =~= object_ids_of(strs_v));
            }
            Ok(ObjectDomain::new(name, ids))
        },
        _ => Err(DecodeError::MalformedField(String::from_str("name"), doc_shape(v))),
    }
}

/// Decoding a subject domain: a mapping with a required name and a required
/// sequence of subject names.
pub open spec fn spec_decode_subject_domain(v: DocValueView) -> Option<SubjectDomainView> {
    match v {
        DocValueView::Record(es) => match spec_lookup(es, "name"@) {
            Some(DocValueView::Text(n)) => {
                let subs = match spec_lookup(es, "subjects"@) {
                    Some(x) => spec_decode_string_list(x),
                    None => None,
                };
                match subs {
                    Some(ss) => Some(SubjectDomainView { name: n, subjects: ss }),
                    None => None,
                }
            },
            _ => None,
        },
        _ => None,
    }
}

/// Decodes a subject domain.
pub fn decode_subject_domain(v: &DocValue) -> (r: Result<SubjectDomain, DecodeError>)
    ensures
        r is Ok <==> spec_decode_subject_domain(v@) is Some,
        r matches Ok(d) ==> d@ == spec_decode_subject_domain(v@)->Some_0,
        r matches Err(e) ==> e is MalformedField,
{
    match v {
        DocValue::Record(es) => {
            let ghost evs = record_entries_view(es@);
            proof {
                assert(v@ == DocValueView::Record(evs));
            }
            let name = match crate::document::lookup(es, "name") {
                Some(d) => match d {
                    DocValue::Text(s) => s.clone(),
                    other => {
                        return Err(
                            DecodeError::MalformedField(String::from_str("name"), doc_shape(other)),
                        );
                    },
                },
                None => {
                    return Err(
                        DecodeError::MalformedField(String::from_str("name"), DocShape::Missing),
                    );
                },
            };
            let subs = match crate::document::lookup(es, "subjects") {
                Some(d) => match decode_string_list(d, "subjects") {
                    Ok(xs) => xs,
                    Err(e) => {
                        return Err(e);
                    },
                },
                None => {
                    return Err(
                        DecodeError::MalformedField(
                            String::from_str("subjects"),
                            DocShape::Missing,
                        ),
                    );
                },
            };
            Ok(SubjectDomain::new(name, subs))
        },
        _ => Err(DecodeError::MalformedField(String::from_str("name"), doc_shape(v))),
    }
}

/// Every element decodes as an object domain.
pub open spec fn all_object_domains_ok(xs: Seq<DocValueView>) -> bool {
    forall|i: int| 0 <= i < xs.len() ==> #[trigger] spec_decode_object_domain(xs[i]) is Some
}

/// The decoded object domains of a sequence.
pub open spec fn object_domains_of(xs: Seq<DocValueView>) -> Seq<ObjectDomainView> {
    Seq::new(xs.len(), |i: int| spec_decode_object_domain(xs[i])->Some_0)
}

/// Every element decodes as a subject domain.
pub open spec fn all_subject_domains_ok(xs: Seq<DocValueView>) -> bool {
    forall|i: int| 0 <= i < xs.len() ==> #[trigger] spec_decode_subject_domain(xs[i]) is Some
}

/// The decoded subject domains of a sequence.
pub open spec fn subject_domains_of(xs: Seq<DocValueView>) -> Seq<SubjectDomainView> {
    Seq::new(xs.len(), |i: int| spec_decode_subject_domain(xs[i])->Some_0)
}

/// Every element decodes as a privilege.
pub open spec fn all_privileges_ok(xs: Seq<DocValueView>) -> bool {
    forall|i: int| 0 <= i < xs.len() ==> #[trigger] spec_decode_privilege(xs[i]) is Some
}

/// The decoded privileges of a sequence.
pub open spec fn privileges_of(xs: Seq<DocValueView>) -> Seq<PrivilegeView> {
    Seq::new(xs.len(), |i: int| spec_decode_privilege(xs[i])->Some_0)
}

/// Decoding the object-domain list of a document.
pub open spec fn spec_decode_object_domains(v: Option<DocValueView>) -> Option<
    Seq<ObjectDomainView>,
> {
    match v {
        Some(DocValueView::List(xs)) => if all_object_domains_ok(xs) {
            Some(object_domains_of(xs))
        } else {
            None
        },
        _ => None,
    }
}

/// Decoding the subject-domain list of a document.
pub open spec fn spec_decode_subject_domains(v: Option<DocValueView>) -> Option<
    Seq<SubjectDomainView>,
> {
    match v {
        Some(DocValueView::List(xs)) => if all_subject_domains_ok(xs) {
            Some(subject_domains_of(xs))
        } else {
            None
        },
        _ => None,
    }
}

/// Decoding the privilege list of a document.
pub open spec fn spec_decode_privileges(v: Option<DocValueView>) -> Option<Seq<PrivilegeView>> {
    match v {
        Some(DocValueView::List(xs)) => if all_privileges_ok(xs) {
            Some(privileges_of(xs))
        } else {
            None
        },
        _ => None,
    }
}

/// Decodes the object-domain list of a document.
pub fn decode_object_domains(v: Option<&DocValue>, field: &str) -> (r: Result<
    Vec<ObjectDomain>,
    DecodeError,
>)
    ensures
        r is Ok <==> spec_decode_object_domains(opt_view(v)) is Some,
        r matches Ok(ds) ==> ds.deep_view() == spec_decode_object_domains(opt_view(v))->Some_0,
        r matches Err(e) ==> e is MalformedField,
{
    match v {
        Some(d) => match d {
            DocValue::List(xs) => {
                let ghost dvs = d@->List_0;
                let mut out: Vec<ObjectDomain> = Vec::new();
                let mut i: usize = 0;
                while i < xs.len()
                    invariant
                        0 <= i <= xs.len(),
                        opt_view(v) == Some(DocValueView::List(dvs)),
                        d@ == DocValueView::List(dvs),
                        xs@.len() == dvs.len(),
                        forall|j: int| 0 <= j < dvs.len() ==> #[trigger] dvs[j] == xs@[j]@,
                        out.deep_view().len() == i,
                        forall|j: int|
                            0 <= j < i ==> #[trigger] spec_decode_object_domain(dvs[j]) is Some,
                        forall|j: int|
                            0 <= j < i ==> #[trigger] out.deep_view()[j]
                                == spec_decode_object_domain(dvs[j])->Some_0,
                    decreases xs.len() - i,
                {
                    match decode_object_domain(&xs[i]) {
                        Ok(dom) => {
                            let ghost out_before = out.deep_view();
                            let ghost domv = dom@;
                            proof {
                                assert(dvs[i as int] == xs@[i as int]@);
                            }
                            out.push(dom);
                            proof {
                                assert(out.deep_view() =~= out_before.push(domv));
                            }
                        },
                        Err(e) => {
                            proof {
                                assert(dvs[i as int] == xs@[i as int]@);
                                assert(spec_decode_object_domain(dvs[i as int]) is None);
                                assert(!all_object_domains_ok(dvs));
                            }
                            return Err(e);
                        },
                    }
                    i = i + 1;
                }
                proof {
                    assert(all_object_domains_ok(dvs));
                    assert(out.deep_view() =~= object_domains_of(dvs));
                }
                Ok(out)
            },
            _ => Err(DecodeError::MalformedField(String::from_str(field), doc_shape(d))),
        },
        None => Err(DecodeError::MalformedField(String::from_str(field), DocShape::Missing)),
    }
}

/// Decodes the subject-domain list of a document.
pub fn decode_subject_domains(v: Option<&DocValue>, field: &str) -> (r: Result<
    Vec<SubjectDomain>,
    DecodeError,
>)
    ensures
        r is Ok <==> spec_decode_subject_domains(opt_view(v)) is Some,
        r matches Ok(ds) ==> ds.deep_view() == spec_decode_subject_domains(opt_view(v))->Some_0,
        r matches Err(e) ==> e is MalformedField,
{
    match v {
        Some(d) => match d {
            DocValue::List(xs) => {
                let ghost dvs = d@->List_0;
                let mut out: Vec<SubjectDomain> = Vec::new();
                let mut i: usize = 0;
                while i < xs.len()
                    invariant
                        0 <= i <= xs.len(),
                        opt_view(v) == Some(DocValueView::List(dvs)),
                        d@ == DocValueView::List(dvs),
                        xs@.len() == dvs.len(),
                        forall|j: int| 0 <= j < dvs.len() ==> #[trigger] dvs[j] == xs@[j]@,
                        out.deep_view().len() == i,
                        forall|j: int|
                            0 <= j < i ==> #[trigger] spec_decode_subject_domain(dvs[j]) is Some,
                        forall|j: int|
                            0 <= j < i ==> #[trigger] out.deep_view()[j]
                                == spec_decode_subject_domain(dvs[j])->Some_0,
                    decreases xs.len() - i,
                {
                    match decode_subject_domain(&xs[i]) {
                        Ok(dom) => {
                            let ghost out_before = out.deep_view();
                            let ghost domv = dom@;
                            proof {
                                assert(dvs[i as int] == xs@[i as int]@);
                            }
                            out.push(dom);
                            proof {
                                assert(out.deep_view() =~= out_before.push(domv));
                            }
                        },
                        Err(e) => {
                            proof {
                                assert(dvs[i as int] == xs@[i as int]@);
                                assert(spec_decode_subject_domain(dvs[i as int]) is None);
                                assert(!all_subject_domains_ok(dvs));
                            }
                            return Err(e);
                        },
                    }
                    i = i + 1;
                }
                proof {
                    assert(all_subject_domains_ok(dvs));
                    assert(out.deep_view() =~= subject_domains_of(dvs));
                }
                Ok(out)
            },
            _ => Err(DecodeError::MalformedField(String::from_str(field), doc_shape(d))),
        },
        None => Err(DecodeError::MalformedField(String::from_str(field), DocShape::Missing)),
    }
}

/// Decodes the privilege list of a document.
pub fn decode_privileges(v: Option<&DocValue>, field: &str) -> (r: Result<
    Vec<Privilege>,
    DecodeError,
>)
    ensures
        r is Ok <==> spec_decode_privileges(opt_view(v)) is Some,
        r matches Ok(ps) ==> ps.deep_view() == spec_decode_privileges(opt_view(v))->Some_0,
        r matches Err(e) ==> e is MalformedField,
{
    match v {
        Some(d) => match d {
            DocValue::List(xs) => {
                let ghost dvs = d@->List_0;
                let mut out: Vec<Privilege> = Vec::new();
                let mut i: usize = 0;
                while i < xs.len()
                    invariant
                        0 <= i <= xs.len(),
                        opt_view(v) == Some(DocValueView::List(dvs)),
                        d@ == DocValueView::List(dvs),
                        xs@.len() == dvs.len(),
                        forall|j: int| 0 <= j < dvs.len() ==> #[trigger] dvs[j] == xs@[j]@,
                        out.deep_view().len() == i,
                        forall|j: int|
                            0 <= j < i ==> #[trigger] spec_decode_privilege(dvs[j]) is Some,
                        forall|j: int|
                            0 <= j < i ==> #[trigger] out.deep_view()[j] == spec_decode_privilege(
                                dvs[j],
                            )->Some_0,
                    decreases xs.len() - i,
                {
                    match decode_privilege(&xs[i]) {
                        Ok(p) => {
                            let ghost out_before = out.deep_view();
                            let ghost pv = p@;
                            proof {
                                assert(dvs[i as int] == xs@[i as int]@);
                            }
                            out.push(p);
                            proof {
                                assert(out.deep_view() =~= out_before.push(pv));
                            }
                        },
                        Err(e) => {
                            proof {
                                assert(dvs[i as int] == xs@[i as int]@);
                                assert(spec_decode_privilege(dvs[i as int]) is None);
                                assert(!all_privileges_ok(dvs));
                            }
                            return Err(e);
                        },
                    }
                    i = i + 1;
                }
                proof {
                    assert(all_privileges_ok(dvs));
                    assert(out.deep_view() =~= privileges_of(dvs));
                }
                Ok(out)
            },
            _ => Err(DecodeError::MalformedField(String::from_str(field), doc_shape(d))),
        },
        None => Err(DecodeError::MalformedField(String::from_str(field), DocShape::Missing)),
    }
}

/// Decoding a whole privilege map: a mapping whose three required keys each
/// hold a sequence of the corresponding entities. No partial map is ever
/// produced: one malformed entity fails the whole decode.
pub open spec fn spec_decode_priv_map(v: DocValueView) -> Option<CPMPrivMapView> {
    match v {
        DocValueView::Record(es) => {
            let om = spec_decode_object_domains(spec_lookup(es, "object_map"@));
            let sm = spec_decode_subject_domains(spec_lookup(es, "subject_map"@));
            let pv = spec_decode_privileges(spec_lookup(es, "privileges"@));
            if om is Some && sm is Some && pv is Some {
                Some(
                    CPMPrivMapView {
                        object_map: om->Some_0,
                        subject_map: sm->Some_0,
                        privileges: pv->Some_0,
                    },
                )
            } else {
                None
            }
        },
        _ => None,
    }
}

/// Decodes a whole privilege map from a parsed document.
pub fn decode_priv_map(v: &DocValue) -> (r: Result<CPMPrivMap, DecodeError>)
    ensures
        r is Ok <==> spec_decode_priv_map(v@) is Some,
        r matches Ok(m) ==> m@ == spec_decode_priv_map(v@)->Some_0,
        r matches Err(e) ==> e is MalformedField,
{
    match v {
        DocValue::Record(es) => {
            let ghost evs = record_entries_view(es@);
            proof {
                assert(v@ == DocValueView::Record(evs));
            }
            let object_map = match decode_object_domains(
                crate::document::lookup(es, "object_map"),
                "object_map",
            ) {
                Ok(ds) => ds,
                Err(e) => {
                    return Err(e);
                },
            };
            let subject_map = match decode_subject_domains(
                crate::document::lookup(es, "subject_map"),
                "subject_map",
            ) {
                Ok(ds) => ds,
                Err(e) => {
                    return Err(e);
                },
            };
            let privileges = match decode_privileges(
                crate::document::lookup(es, "privileges"),
                "privileges",
            ) {
                Ok(ps) => ps,
                Err(e) => {
                    return Err(e);
                },
            };
            Ok(CPMPrivMap { object_map, subject_map, privileges })
        },
        _ => Err(DecodeError::MalformedField(String::from_str("object_map"), DocShape::Missing)),
    }
}

} // verus!
