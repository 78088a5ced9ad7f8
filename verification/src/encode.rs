//! Encoding the typed model back into the generic document tree.
//!
//! Encoding is the inverse of the decode rules: an unrestricted axis becomes
//! the sentinel token, an enumeration becomes the literal sequence even if
//! empty. The caller set of a context is the one asymmetric case: its
//! unrestricted value serializes as the one-element sequence holding the
//! sentinel, because the grammar nests it inside a sequence-typed slot.
//! Optional context keys are always written, an absent value as null.

use vstd::prelude::*;

use crate::document::{record_entries_view, DocValue, DocValueView};
use crate::model::{
    CPMPrivMap, CPMPrivMapView, CallContextSubField, CallContextSubFieldView, CallRetPrivField,
    CallRetPrivFieldView, Context, ContextField, ContextFieldView, ContextSimpleString,
    ContextSimpleStringView, ContextView, Object, ObjectDomain, ObjectDomainView, ObjectView,
    Principal, PrincipalView, Privilege, PrivilegeView, RWPrivField, RWPrivFieldView,
    SubjectDomain, SubjectDomainView,
};
use crate::object_id::spec_encode_object_id;

verus! {

broadcast use vstd::std_specs::vec::group_vec_axioms;

/// A sequence of strings as a document sequence of string scalars.
pub open spec fn spec_encode_string_list(xs: Seq<Seq<char>>) -> DocValueView {
    DocValueView::List(Seq::new(xs.len(), |i: int| DocValueView::Text(xs[i])))
}

/// Encoding a call/return permission axis.
pub open spec fn spec_encode_callret(f: CallRetPrivFieldView) -> DocValueView {
    match f {
        CallRetPrivFieldView::All => DocValueView::Text("all"@),
        CallRetPrivFieldView::List(xs) => spec_encode_string_list(xs),
    }
}

/// Encoding a scalar context value.
pub open spec fn spec_encode_context_simple(c: ContextSimpleStringView) -> DocValueView {
    match c {
        ContextSimpleStringView::All => DocValueView::Text("all"@),
        ContextSimpleStringView::Literal(s) => DocValueView::Text(s),
    }
}

/// Encoding the caller set of a context; unrestricted becomes the
/// one-element sequence holding the sentinel.
pub open spec fn spec_encode_call_context(c: CallContextSubFieldView) -> DocValueView {
    match c {
        CallContextSubFieldView::All => DocValueView::List(seq![DocValueView::Text("all"@)]),
        CallContextSubFieldView::List(xs) => spec_encode_string_list(xs),
    }
}

/// Encoding a context: all three keys are written, an absent sub-field as
/// null.
pub open spec fn spec_encode_context(c: ContextView) -> DocValueView {
    DocValueView::Record(
        seq![
            (
                "call_context"@,
                match c.call_context {
                    None => DocValueView::Null,
                    Some(cc) => spec_encode_call_context(cc),
                },
            ),
            (
                "uid"@,
                match c.uid {
                    None => DocValueView::Null,
                    Some(u) => spec_encode_context_simple(u),
                },
            ),
            (
                "gid"@,
                match c.gid {
                    None => DocValueView::Null,
                    Some(g) => spec_encode_context_simple(g),
                },
            ),
        ],
    )
}

/// Encoding a context field.
pub open spec fn spec_encode_context_field(f: ContextFieldView) -> DocValueView {
    match f {
        ContextFieldView::All => DocValueView::Text("all"@),
        ContextFieldView::Context(c) => spec_encode_context(c),
    }
}

/// Encoding one access grant.
pub open spec fn spec_encode_object(o: ObjectView) -> DocValueView {
    DocValueView::Record(
        seq![
            ("objects"@, spec_encode_string_list(o.objects)),
            ("object_context"@, spec_encode_context_field(o.object_context)),
        ],
    )
}

/// Encoding a read/write permission axis.
pub open spec fn spec_encode_rw(f: RWPrivFieldView) -> DocValueView {
    match f {
        RWPrivFieldView::All => DocValueView::Text("all"@),
        RWPrivFieldView::List(xs) => DocValueView::List(
            Seq::new(xs.len(), |i: int| spec_encode_object(xs[i])),
        ),
    }
}

/// Encoding a principal.
pub open spec fn spec_encode_principal(p: PrincipalView) -> DocValueView {
    DocValueView::Record(
        seq![
            ("subject"@, DocValueView::Text(p.subject)),
            ("execution_context"@, spec_encode_context_field(p.execution_context)),
        ],
    )
}

/// Encoding one privilege: all five keys are written.
pub open spec fn spec_encode_privilege(p: PrivilegeView) -> DocValueView {
    DocValueView::Record(
        seq![
            ("principal"@, spec_encode_principal(p.principal)),
            ("can_call"@, spec_encode_callret(p.can_call)),
            ("can_return"@, spec_encode_callret(p.can_return)),
            ("can_read"@, spec_encode_rw(p.can_read)),
            ("can_write"@, spec_encode_rw(p.can_write)),
        ],
    )
}

/// Encoding an object domain: each identifier in its compact string form.
pub open spec fn spec_encode_object_domain(d: ObjectDomainView) -> DocValueView {
    DocValueView::Record(
        seq![
            ("name"@, DocValueView::Text(d.name)),
            (
                "objects"@,
                DocValueView::List(
                    Seq::new(
                        d.objects.len(),
                        |i: int| DocValueView::Text(spec_encode_object_id(d.objects[i])),
                    ),
                ),
            ),
        ],
    )
}

/// Encoding a subject domain.
pub open spec fn spec_encode_subject_domain(d: SubjectDomainView) -> DocValueView {
    DocValueView::Record(
        seq![
            ("name"@, DocValueView::Text(d.name)),
            ("subjects"@, spec_encode_string_list(d.subjects)),
        ],
    )
}

/// Encoding a whole privilege map.
pub open spec fn spec_encode_priv_map(m: CPMPrivMapView) -> DocValueView {
    DocValueView::Record(
        seq![
            (
                "object_map"@,
                DocValueView::List(
                    Seq::new(
                        m.object_map.len(),
                        |i: int| spec_encode_object_domain(m.object_map[i]),
                    ),
                ),
            ),
            (
                "subject_map"@,
                DocValueView::List(
                    Seq::new(
                        m.subject_map.len(),
                        |i: int| spec_encode_subject_domain(m.subject_map[i]),
                    ),
                ),
            ),
            (
                "privileges"@,
                DocValueView::List(
                    Seq::new(m.privileges.len(), |i: int| spec_encode_privilege(m.privileges[i])),
                ),
            ),
        ],
    )
}

/// Encodes a list of strings as a document sequence of string scalars.
pub fn encode_string_list(xs: &Vec<String>) -> (r: DocValue)
    ensures
        r@ == spec_encode_string_list(xs.deep_view()),
{
    let mut out: Vec<DocValue> = Vec::new();
    let mut i: usize = 0;
    while i < xs.len()
        invariant
            0 <= i <= xs.len(),
            out@.len() == i,
            forall|j: int| 0 <= j < i ==> #[trigger] out@[j]@ == DocValueView::Text(xs@[j]@),
        decreases xs.len() - i,
    {
        out.push(DocValue::Text(xs[i].clone()));
        i = i + 1;
    }
    let r = DocValue::List(out);
    proof {
        let lhs = r@->List_0;
        assert(r@ is List);
        assert(lhs.len() == out@.len());
        let rhs = spec_encode_string_list(xs.deep_view())->List_0;
        assert(rhs.len() == xs@.len());
        assert forall|j: int| 0 <= j < lhs.len() implies lhs[j] == rhs[j] by {
            assert(lhs[j] == out@[j]@);
            assert(out@[j]@ == DocValueView::Text(xs@[j]@));
            assert(rhs[j] == DocValueView::Text(xs.deep_view()[j]));
            assert(xs.deep_view()[j] == xs@[j]@);
        }
        assert(lhs =~= rhs);
        assert(r@ =~~= spec_encode_string_list(xs.deep_view()));
    }
    r
}

/// Encodes a call/return permission axis.
pub fn encode_callret(f: &CallRetPrivField) -> (r: DocValue)
    ensures
        r@ == spec_encode_callret(f@),
{
    match f {
        CallRetPrivField::All => DocValue::Text(String::from_str("all")),
        CallRetPrivField::List(xs) => encode_string_list(xs),
    }
}

/// Encodes a scalar context value.
pub fn encode_context_simple(c: &ContextSimpleString) -> (r: DocValue)
    ensures
        r@ == spec_encode_context_simple(c@),
{
    match c {
        ContextSimpleString::All => DocValue::Text(String::from_str("all")),
        ContextSimpleString::Literal(s) => DocValue::Text(s.clone()),
    }
}

/// Encodes the caller set of a context.
pub fn encode_call_context(c: &CallContextSubField) -> (r: DocValue)
    ensures
        r@ == spec_encode_call_context(c@),
{
    match c {
        CallContextSubField::All => {
            let mut out: Vec<DocValue> = Vec::new();
            out.push(DocValue::Text(String::from_str("all")));
            let r = DocValue::List(out);
            proof {
                let lhs = r@->List_0;
                assert(lhs.len() == 1);
                assert(lhs[0] == out@[0]@);
                assert(lhs[0] == DocValueView::Text("all"@));
                assert(lhs =~= seq![DocValueView::Text("all"@)]);
                assert(r@ =~~= spec_encode_call_context(c@));
            }
            r
        },
        CallContextSubField::List(xs) => encode_string_list(xs),
    }
}

/// Encodes a context.
pub fn encode_context(c: &Context) -> (r: DocValue)
    ensures
        r@ == spec_encode_context(c@),
{
    let cc = match c.call_context() {
        None => DocValue::Null,
        Some(x) => encode_call_context(x),
    };
    let uid = match c.uid() {
        None => DocValue::Null,
        Some(x) => encode_context_simple(x),
    };
    let gid = match c.gid() {
        None => DocValue::Null,
        Some(x) => encode_context_simple(x),
    };
    let mut rec: Vec<(String, DocValue)> = Vec::new();
    rec.push((String::from_str("call_context"), cc));
    rec.push((String::from_str("uid"), uid));
    rec.push((String::from_str("gid"), gid));
    let r = DocValue::Record(rec);
    proof {
        let lhs = r@->Record_0;
        let rhs = spec_encode_context(c@)->Record_0;
        assert(lhs.len() == 3);
        assert(lhs[0] == (rec@[0].0@, rec@[0].1@));
        assert(lhs[0] == rhs[0]);
        assert(lhs[1] == (rec@[1].0@, rec@[1].1@));
        assert(lhs[1] == rhs[1]);
        assert(lhs[2] == (rec@[2].0@, rec@[2].1@));
        assert(lhs[2] == rhs[2]);
        assert(lhs =~= rhs);
        assert(r@ =~~= spec_encode_context(c@));
    }
    r
}

/// Encodes a context field.
pub fn encode_context_field(f: &ContextField) -> (r: DocValue)
    ensures
        r@ == spec_encode_context_field(f@),
{
    match f {
        ContextField::All => DocValue::Text(String::from_str("all")),
        ContextField::Context(c) => encode_context(c),
    }
}

/// Encodes one access grant.
pub fn encode_object(o: &Object) -> (r: DocValue)
    ensures
        r@ == spec_encode_object(o@),
{
    let objs = encode_string_list(o.objects());
    let ctx = encode_context_field(o.object_context());
    let mut rec: Vec<(String, DocValue)> = Vec::new();
    rec.push((String::from_str("objects"), objs));
    rec.push((String::from_str("object_context"), ctx));
    let r = DocValue::Record(rec);
    proof {
        let lhs = r@->Record_0;
        let rhs = spec_encode_object(o@)->Record_0;
        assert(lhs.len() == 2);
        assert(lhs[0] == (rec@[0].0@, rec@[0].1@));
        assert(lhs[0] == rhs[0]);
        assert(lhs[1] == (rec@[1].0@, rec@[1].1@));
        assert(lhs[1] == rhs[1]);
        assert(lhs =~= rhs);
        assert(r@ =~~= spec_encode_object(o@));
    }
    r
}

/// Encodes a read/write permission axis.
pub fn encode_rw(f: &RWPrivField) -> (r: DocValue)
    ensures
        r@ == spec_encode_rw(f@),
{
    match f {
        RWPrivField::All => DocValue::Text(String::from_str("all")),
        RWPrivField::List(xs) => {
            let mut out: Vec<DocValue> = Vec::new();
            let mut i: usize = 0;
            while i < xs.len()
                invariant
                    0 <= i <= xs.len(),
                    out@.len() == i,
                    forall|j: int|
                        0 <= j < i ==> #[trigger] out@[j]@ == spec_encode_object(xs@[j]@),
                decreases xs.len() - i,
            {
                out.push(encode_object(&xs[i]));
                i = i + 1;
            }
            let r = DocValue::List(out);
            proof {
                let lhs = r@->List_0;
                let rhs = spec_encode_rw(f@)->List_0;
                assert(f@->List_0 =~= xs.deep_view());
                assert(lhs.len() == out@.len());
                assert(rhs.len() == xs.deep_view().len());
                assert forall|j: int| 0 <= j < lhs.len() implies lhs[j] == rhs[j] by {
                    assert(lhs[j] == out@[j]@);
                    assert(out@[j]@ == spec_encode_object(xs@[j]@));
                    assert(xs.deep_view()[j] == xs@[j]@);
                    assert(rhs[j] == spec_encode_object(f@->List_0[j]));
                }
                assert(lhs =~= rhs);
                assert(r@ =~~= spec_encode_rw(f@));
            }
            r
        },
    }
}

/// Encodes a principal.
pub fn encode_principal(p: &Principal) -> (r: DocValue)
    ensures
        r@ == spec_encode_principal(p@),
{
    let ec = encode_context_field(&p.execution_context);
    let mut rec: Vec<(String, DocValue)> = Vec::new();
    rec.push((String::from_str("subject"), DocValue::Text(p.subject.clone())));
    rec.push((String::from_str("execution_context"), ec));
    let r = DocValue::Record(rec);
    proof {
        let lhs = r@->Record_0;
        let rhs = spec_encode_principal(p@)->Record_0;
        assert(lhs.len() == 2);
        assert(lhs[0] == (rec@[0].0@, rec@[0].1@));
        assert(lhs[0] == rhs[0]);
        assert(lhs[1] == (rec@[1].0@, rec@[1].1@));
        assert(lhs[1] == rhs[1]);
        assert(lhs =~= rhs);
        assert(r@ =~~= spec_encode_principal(p@));
    }
    r
}

/// Encodes one privilege.
pub fn encode_privilege(p: &Privilege) -> (r: DocValue)
    ensures
        r@ == spec_encode_privilege(p@),
{
    let principal = encode_principal(&p.principal);
    let can_call = encode_callret(&p.can_call);
    let can_return = encode_callret(&p.can_return);
    let can_read = encode_rw(&p.can_read);
    let can_write = encode_rw(&p.can_write);
    let mut rec: Vec<(String, DocValue)> = Vec::new();
    rec.push((String::from_str("principal"), principal));
    rec.push((String::from_str("can_call"), can_call));
    rec.push((String::from_str("can_return"), can_return));
    rec.push((String::from_str("can_read"), can_read));
    rec.push((String::from_str("can_write"), can_write));
    let r = DocValue::Record(rec);
    proof {
        let lhs = r@->Record_0;
        let rhs = spec_encode_privilege(p@)->Record_0;
        assert(lhs.len() == 5);
        assert(lhs[0] == (rec@[0].0@, rec@[0].1@));
        assert(lhs[0] == rhs[0]);
        assert(lhs[1] == (rec@[1].0@, rec@[1].1@));
        assert(lhs[1] == rhs[1]);
        assert(lhs[2] == (rec@[2].0@, rec@[2].1@));
        assert(lhs[2] == rhs[2]);
        assert(lhs[3] == (rec@[3].0@, rec@[3].1@));
        assert(lhs[3] == rhs[3]);
        assert(lhs[4] == (rec@[4].0@, rec@[4].1@));
        assert(lhs[4] == rhs[4]);
        assert(lhs =~= rhs);
        assert(r@ =~~= spec_encode_privilege(p@));
    }
    r
}

/// Encodes an object domain.
pub fn encode_object_domain(d: &ObjectDomain) -> (r: DocValue)
    ensures
        r@ == spec_encode_object_domain(d@),
{
    let objs = d.objects();
    let mut out: Vec<DocValue> = Vec::new();
    let mut i: usize = 0;
    while i < objs.len()
        invariant
            0 <= i <= objs.len(),
            objs.deep_view() == d@.objects,
            objs.deep_view().len() == objs@.len(),
            out@.len() == i,
            forall|j: int|
                0 <= j < i ==> #[trigger] out@[j]@ == DocValueView::Text(
                    spec_encode_object_id(d@.objects[j]),
                ),
        decreases objs.len() - i,
    {
        let s = objs[i].encode_compact();
        proof {
            assert(objs.deep_view()[i as int] == objs@[i as int]@);
        }
        out.push(DocValue::Text(s));
        i = i + 1;
    }
    let name = d.name();
    let mut rec: Vec<(String, DocValue)> = Vec::new();
    rec.push((String::from_str("name"), DocValue::Text(String::from_str(name))));
    rec.push((String::from_str("objects"), DocValue::List(out)));
    let r = DocValue::Record(rec);
    proof {
        let lhs = r@->Record_0;
        let rhs = spec_encode_object_domain(d@)->Record_0;
        let ilhs = rec@[1].1@->List_0;
        let irhs = rhs[1].1->List_0;
        assert(ilhs.len() == out@.len());
        assert(irhs.len() == d@.objects.len());
        assert forall|j: int| 0 <= j < ilhs.len() implies ilhs[j] == irhs[j] by {
            assert(ilhs[j] == out@[j]@);
            assert(out@[j]@ == DocValueView::Text(spec_encode_object_id(d@.objects[j])));
            assert(irhs[j] == DocValueView::Text(spec_encode_object_id(d@.objects[j])));
        }
        assert(ilhs =~= irhs);
        assert(rec@[1].1@ =~~= rhs[1].1);
        assert(lhs.len() == 2);
        assert(lhs[0] == (rec@[0].0@, rec@[0].1@));
        assert(lhs[0] == rhs[0]);
        assert(lhs[1] == (rec@[1].0@, rec@[1].1@));
        assert(lhs[1] == rhs[1]);
        assert(lhs =~= rhs);
        assert(r@ =~~= spec_encode_object_domain(d@));
    }
    r
}

/// Encodes a subject domain.
pub fn encode_subject_domain(d: &SubjectDomain) -> (r: DocValue)
    ensures
        r@ == spec_encode_subject_domain(d@),
{
    let subs = encode_string_list(d.subjects());
    let name = d.name();
    let mut rec: Vec<(String, DocValue)> = Vec::new();
    rec.push((String::from_str("name"), DocValue::Text(String::from_str(name))));
    rec.push((String::from_str("subjects"), subs));
    let r = DocValue::Record(rec);
    proof {
        let lhs = r@->Record_0;
        let rhs = spec_encode_subject_domain(d@)->Record_0;
        assert(lhs.len() == 2);
        assert(lhs[0] == (rec@[0].0@, rec@[0].1@));
        assert(lhs[0] == rhs[0]);
        assert(lhs[1] == (rec@[1].0@, rec@[1].1@));
        assert(lhs[1] == rhs[1]);
        assert(lhs =~= rhs);
        assert(r@ =~~= spec_encode_subject_domain(d@));
    }
    r
}

/// Encodes a whole privilege map back into the document shape that decoding
/// accepts.
pub fn encode_priv_map(m: &CPMPrivMap) -> (r: DocValue)
    ensures
        r@ == spec_encode_priv_map(m@),
{
    let mut oms: Vec<DocValue> = Vec::new();
    let mut i: usize = 0;
    while i < m.object_map.len()
        invariant
            0 <= i <= m.object_map.len(),
            m@.object_map == m.object_map.deep_view(),
            m@.object_map.len() == m.object_map@.len(),
            oms@.len() == i,
            forall|j: int|
                0 <= j < i ==> #[trigger] oms@[j]@ == spec_encode_object_domain(m@.object_map[j]),
        decreases m.object_map.len() - i,
    {
        oms.push(encode_object_domain(&m.object_map[i]));
        i = i + 1;
    }
    let mut sms: Vec<DocValue> = Vec::new();
    let mut i: usize = 0;
    while i < m.subject_map.len()
        invariant
            0 <= i <= m.subject_map.len(),
            m@.subject_map == m.subject_map.deep_view(),
            m@.subject_map.len() == m.subject_map@.len(),
            sms@.len() == i,
            forall|j: int|
                0 <= j < i ==> #[trigger] sms@[j]@ == spec_encode_subject_domain(
                    m@.subject_map[j],
                ),
        decreases m.subject_map.len() - i,
    {
        sms.push(encode_subject_domain(&m.subject_map[i]));
        i = i + 1;
    }
    let mut pvs: Vec<DocValue> = Vec::new();
    let mut i: usize = 0;
    while i < m.privileges.len()
        invariant
            0 <= i <= m.privileges.len(),
            m@.privileges == m.privileges.deep_view(),
            m@.privileges.len() == m.privileges@.len(),
            pvs@.len() == i,
            forall|j: int|
                0 <= j < i ==> #[trigger] pvs@[j]@ == spec_encode_privilege(m@.privileges[j]),
        decreases m.privileges.len() - i,
    {
        pvs.push(encode_privilege(&m.privileges[i]));
        i = i + 1;
    }
    let mut rec: Vec<(String, DocValue)> = Vec::new();
    rec.push((String::from_str("object_map"), DocValue::List(oms)));
    rec.push((String::from_str("subject_map"), DocValue::List(sms)));
    rec.push((String::from_str("privileges"), DocValue::List(pvs)));
    let r = DocValue::Record(rec);
    proof {
        let lhs = r@->Record_0;
        let rhs = spec_encode_priv_map(m@)->Record_0;
        let l0 = rec@[0].1@->List_0;
        let r0 = rhs[0].1->List_0;
        assert(l0.len() == oms@.len());
        assert(r0.len() == m@.object_map.len());
        assert forall|j: int| 0 <= j < l0.len() implies l0[j] == r0[j] by {
            assert(l0[j] == oms@[j]@);
            assert(oms@[j]@ == spec_encode_object_domain(m@.object_map[j]));
            assert(r0[j] == spec_encode_object_domain(m@.object_map[j]));
        }
        assert(l0 =~= r0);
        assert(rec@[0].1@ =~~= rhs[0].1);
        let l1 = rec@[1].1@->List_0;
        let r1 = rhs[1].1->List_0;
        assert(l1.len() == sms@.len());
        assert(r1.len() == m@.subject_map.len());
        assert forall|j: int| 0 <= j < l1.len() implies l1[j] == r1[j] by {
            assert(l1[j] == sms@[j]@);
            assert(sms@[j]@ == spec_encode_subject_domain(m@.subject_map[j]));
            assert(r1[j] == spec_encode_subject_domain(m@.subject_map[j]));
        }
        assert(l1 =~= r1);
        assert(rec@[1].1@ =~~= rhs[1].1);
        let l2 = rec@[2].1@->List_0;
        let r2 = rhs[2].1->List_0;
        assert(l2.len() == pvs@.len());
        assert(r2.len() == m@.privileges.len());
        assert forall|j: int| 0 <= j < l2.len() implies l2[j] == r2[j] by {
            assert(l2[j] == pvs@[j]@);
            assert(pvs@[j]@ == spec_encode_privilege(m@.privileges[j]));
            assert(r2[j] == spec_encode_privilege(m@.privileges[j]));
        }
        assert(l2 =~= r2);
        assert(rec@[2].1@ =~~= rhs[2].1);
        assert(lhs.len() == 3);
        assert(lhs[0] == (rec@[0].0@, rec@[0].1@));
        assert(lhs[0] == rhs[0]);
        assert(lhs[1] == (rec@[1].0@, rec@[1].1@));
        assert(lhs[1] == rhs[1]);
        assert(lhs[2] == (rec@[2].0@, rec@[2].1@));
        assert(lhs[2] == rhs[2]);
        assert(lhs =~= rhs);
        assert(r@ =~~= spec_encode_priv_map(m@));
    }
    r
}

} // verus!
