//! Round-trip laws of the codec.
//!
//! Decoding an encoded value restores it exactly. Three families of values
//! fall outside the guarantee, because the grammar itself cannot tell them
//! apart from their unrestricted or fallback readings: a context sub-field
//! holding the literal that spells the sentinel (`["all"]` as an explicit
//! caller list, `"all"` as a literal uid or gid); a context sub-field set
//! programmatically to the absent value, whose encoding is null and whose
//! null re-decodes as unrestricted (decoding itself never produces an
//! absent sub-field); and an object identifier one of whose fields contains
//! the `|` separator. The canonicality predicates below name exactly those
//! exclusions; every value produced by decoding a document satisfies them
//! except a fallback identifier whose bare name contains the separator.

use vstd::prelude::*;

use crate::codec::{
    all_objects_ok, all_object_domains_ok, all_privileges_ok, all_subject_domains_ok, objects_of,
    object_domains_of, object_ids_of, privileges_of, spec_decode_call_context,
    spec_decode_callret, spec_decode_cc_field, spec_decode_context, spec_decode_context_field,
    spec_decode_context_simple, spec_decode_object, spec_decode_object_domain,
    spec_decode_priv_map, spec_decode_privilege, spec_decode_rw, spec_decode_simple_field,
    spec_decode_string_list, spec_decode_subject_domain, subject_domains_of, texts_of,
};
use crate::document::{spec_lookup, DocValueView};
use crate::encode::{
    spec_encode_call_context, spec_encode_callret, spec_encode_context, spec_encode_context_field,
    spec_encode_context_simple, spec_encode_object, spec_encode_object_domain,
    spec_encode_principal, spec_encode_priv_map, spec_encode_privilege, spec_encode_rw,
    spec_encode_string_list, spec_encode_subject_domain,
};
use crate::model::{
    CPMPrivMapView, CallContextSubFieldView, CallRetPrivFieldView, ContextFieldView,
    ContextSimpleStringView, ContextView, ObjectDomainView, ObjectView, PrincipalView,
    PrivilegeView, RWPrivFieldView, SubjectDomainView,
};
use crate::object_id::{
    bar_free, lemma_object_id_round_trip, spec_decode_object_id, spec_encode_object_id,
    ObjectIDView,
};

verus! {

/// A caller set that does not spell the sentinel as an explicit list.
pub open spec fn call_context_canonical(c: CallContextSubFieldView) -> bool {
    c matches CallContextSubFieldView::List(xs) ==> xs != seq!["all"@]
}

/// A scalar context value that does not spell the sentinel as a literal.
pub open spec fn context_simple_canonical(c: ContextSimpleStringView) -> bool {
    c matches ContextSimpleStringView::Literal(s) ==> s != "all"@
}

/// A context all of whose sub-fields are present (as every decoded context's
/// are) and none of which spells the sentinel literally.
pub open spec fn context_canonical(c: ContextView) -> bool {
    &&& (c.call_context matches Some(cc) && call_context_canonical(cc))
    &&& (c.uid matches Some(u) && context_simple_canonical(u))
    &&& (c.gid matches Some(g) && context_simple_canonical(g))
}

/// A context field whose scoped context, if any, is canonical.
pub open spec fn context_field_canonical(f: ContextFieldView) -> bool {
    f matches ContextFieldView::Context(c) ==> context_canonical(c)
}

/// An access grant whose object context is canonical.
pub open spec fn object_canonical(o: ObjectView) -> bool {
    context_field_canonical(o.object_context)
}

/// A read/write axis all of whose grants are canonical.
pub open spec fn rw_canonical(f: RWPrivFieldView) -> bool {
    f matches RWPrivFieldView::List(xs) ==> forall|i: int|
        0 <= i < xs.len() ==> #[trigger] object_canonical(xs[i])
}

/// A privilege whose contexts are all canonical.
pub open spec fn privilege_canonical(p: PrivilegeView) -> bool {
    &&& context_field_canonical(p.principal.execution_context)
    &&& rw_canonical(p.can_read)
    &&& rw_canonical(p.can_write)
}

/// An object identifier none of whose fields contains the separator.
pub open spec fn object_id_canonical(v: ObjectIDView) -> bool {
    bar_free(v.path) && bar_free(v.lineno) && bar_free(v.name)
}

/// An object domain all of whose identifiers are separator-free.
pub open spec fn object_domain_canonical(d: ObjectDomainView) -> bool {
    forall|i: int| 0 <= i < d.objects.len() ==> #[trigger] object_id_canonical(d.objects[i])
}

/// A privilege map all of whose identifiers and contexts are canonical.
pub open spec fn priv_map_canonical(m: CPMPrivMapView) -> bool {
    &&& forall|i: int|
        0 <= i < m.object_map.len() ==> #[trigger] object_domain_canonical(m.object_map[i])
    &&& forall|i: int| 0 <= i < m.privileges.len() ==> #[trigger] privilege_canonical(m.privileges[i])
}

/// Decoding an absent or explicitly null field yields the unrestricted
/// value, on every union-typed axis and context sub-field, with no
/// exception: a decoded sub-field is never absent.
pub proof fn lemma_absent_decodes_to_unrestricted()
    ensures
        spec_decode_callret(None) == Some(CallRetPrivFieldView::All),
        spec_decode_rw(None) == Some(RWPrivFieldView::All),
        spec_decode_context_field(None) == Some(ContextFieldView::All),
        spec_decode_cc_field(None) == Some(Some(CallContextSubFieldView::All)),
        spec_decode_simple_field(None) == Some(Some(ContextSimpleStringView::All)),
        spec_decode_callret(Some(DocValueView::Null)) == Some(CallRetPrivFieldView::All),
        spec_decode_rw(Some(DocValueView::Null)) == Some(RWPrivFieldView::All),
        spec_decode_context_field(Some(DocValueView::Null)) == Some(ContextFieldView::All),
        spec_decode_cc_field(Some(DocValueView::Null)) == Some(
            Some(CallContextSubFieldView::All),
        ),
        spec_decode_simple_field(Some(DocValueView::Null)) == Some(
            Some(ContextSimpleStringView::All),
        ),
{
}

/// On a permission axis the sentinel token decodes to the unrestricted
/// value and the explicit empty sequence decodes to the empty enumeration,
/// and those two results are distinct: an empty grant is not an unrestricted
/// one.
pub proof fn lemma_sentinel_distinct_from_empty_enumeration()
    ensures
        spec_decode_callret(Some(DocValueView::Text("all"@))) == Some(CallRetPrivFieldView::All),
        spec_decode_callret(Some(DocValueView::List(Seq::empty()))) == Some(
            CallRetPrivFieldView::List(Seq::empty()),
        ),
        CallRetPrivFieldView::All != CallRetPrivFieldView::List(Seq::<Seq<char>>::empty()),
        spec_decode_rw(Some(DocValueView::Text("all"@))) == Some(RWPrivFieldView::All),
        spec_decode_rw(Some(DocValueView::List(Seq::empty()))) == Some(
            RWPrivFieldView::List(Seq::empty()),
        ),
        RWPrivFieldView::All != RWPrivFieldView::List(Seq::<ObjectView>::empty()),
{
    assert(texts_of(Seq::<DocValueView>::empty()) =~= Seq::<Seq<char>>::empty());
    assert(objects_of(Seq::<DocValueView>::empty()) =~= Seq::<ObjectView>::empty());
}

/// An encoded string list decodes back to the same strings.
pub proof fn lemma_string_list_round_trip(xs: Seq<Seq<char>>)
    ensures
        spec_decode_string_list(spec_encode_string_list(xs)) == Some(xs),
{
    let enc = spec_encode_string_list(xs)->List_0;
    assert(forall|i: int| 0 <= i < enc.len() ==> #[trigger] enc[i] is Text);
    assert(texts_of(enc) =~= xs);
}

/// Round-trip for a call/return permission axis, for every representable
/// value.
pub proof fn lemma_callret_round_trip(f: CallRetPrivFieldView)
    ensures
        spec_decode_callret(Some(spec_encode_callret(f))) == Some(f),
{
    match f {
        CallRetPrivFieldView::All => {},
        CallRetPrivFieldView::List(xs) => {
            lemma_string_list_round_trip(xs);
        },
    }
}

/// Round-trip for a scalar context value that does not spell the sentinel.
pub proof fn lemma_context_simple_round_trip(c: ContextSimpleStringView)
    requires
        context_simple_canonical(c),
    ensures
        spec_decode_context_simple(spec_encode_context_simple(c)) == Some(c),
{
}

/// Round-trip for a caller set that does not spell the sentinel as an
/// explicit list.
pub proof fn lemma_call_context_round_trip(c: CallContextSubFieldView)
    requires
        call_context_canonical(c),
    ensures
        spec_decode_call_context(spec_encode_call_context(c)) == Some(c),
{
    match c {
        CallContextSubFieldView::All => {
            let enc = spec_encode_call_context(c)->List_0;
            assert(forall|i: int| 0 <= i < enc.len() ==> #[trigger] enc[i] is Text);
            assert(texts_of(enc) =~= seq!["all"@]);
        },
        CallContextSubFieldView::List(xs) => {
            lemma_string_list_round_trip(xs);
        },
    }
}

/// Round-trip for a context whose sub-fields are canonical.
pub proof fn lemma_context_round_trip(c: ContextView)
    requires
        context_canonical(c),
    ensures
        spec_decode_context(spec_encode_context(c)) == Some(c),
{
    reveal_with_fuel(spec_lookup, 5);
    reveal_strlit("call_context");
    reveal_strlit("uid");
    reveal_strlit("gid");
    assert("uid"@.len() == 3 && "gid"@.len() == 3 && "call_context"@.len() == 12);
    assert("uid"@[0] != "gid"@[0]);
    let es = spec_encode_context(c)->Record_0;
    assert(es.len() == 3);
    assert(es.drop_first() =~= es.skip(1));
    assert(es.skip(1).drop_first() =~= es.skip(2));
    assert(spec_lookup(es, "call_context"@) == Some(es[0].1));
    assert(spec_lookup(es, "uid"@) == Some(es[1].1));
    assert(spec_lookup(es, "gid"@) == Some(es[2].1));
    match c.call_context {
        None => {},
        Some(cc) => {
            lemma_call_context_round_trip(cc);
            assert(!(spec_encode_call_context(cc) is Null));
        },
    }
    match c.uid {
        None => {},
        Some(u) => {
            lemma_context_simple_round_trip(u);
        },
    }
    match c.gid {
        None => {},
        Some(g) => {
            lemma_context_simple_round_trip(g);
        },
    }
    assert(spec_decode_context(spec_encode_context(c))->Some_0 =~~= c);
}

/// Round-trip for a context field whose scoped context is canonical.
pub proof fn lemma_context_field_round_trip(f: ContextFieldView)
    requires
        context_field_canonical(f),
    ensures
        spec_decode_context_field(Some(spec_encode_context_field(f))) == Some(f),
{
    match f {
        ContextFieldView::All => {},
        ContextFieldView::Context(c) => {
            lemma_context_round_trip(c);
        },
    }
}

/// Round-trip for an access grant whose object context is canonical.
pub proof fn lemma_object_round_trip(o: ObjectView)
    requires
        object_canonical(o),
    ensures
        spec_decode_object(spec_encode_object(o)) == Some(o),
{
    reveal_with_fuel(spec_lookup, 4);
    reveal_strlit("objects");
    reveal_strlit("object_context");
    assert("objects"@.len() == 7 && "object_context"@.len() == 14);
    let es = spec_encode_object(o)->Record_0;
    assert(es.len() == 2);
    assert(es.drop_first() =~= es.skip(1));
    assert(spec_lookup(es, "objects"@) == Some(es[0].1));
    assert(spec_lookup(es, "object_context"@) == Some(es[1].1));
    lemma_string_list_round_trip(o.objects);
    lemma_context_field_round_trip(o.object_context);
    assert(spec_decode_object(spec_encode_object(o))->Some_0 =~~= o);
}

/// Round-trip for a read/write permission axis whose grants are canonical,
/// the explicit empty enumeration included.
pub proof fn lemma_rw_round_trip(f: RWPrivFieldView)
    requires
        rw_canonical(f),
    ensures
        spec_decode_rw(Some(spec_encode_rw(f))) == Some(f),
{
    match f {
        RWPrivFieldView::All => {},
        RWPrivFieldView::List(xs) => {
            let enc = spec_encode_rw(f)->List_0;
            assert forall|i: int| 0 <= i < enc.len() implies #[trigger] spec_decode_object(
                enc[i],
            ) is Some && spec_decode_object(enc[i])->Some_0 == xs[i] by {
                assert(object_canonical(xs[i]));
                lemma_object_round_trip(xs[i]);
            }
            assert(all_objects_ok(enc));
            assert(objects_of(enc) =~= xs);
        },
    }
}

/// Round-trip for a principal whose execution context is canonical.
pub proof fn lemma_principal_round_trip(p: PrincipalView)
    requires
        context_field_canonical(p.execution_context),
    ensures
        crate::codec::spec_decode_principal(spec_encode_principal(p)) == Some(p),
{
    reveal_with_fuel(spec_lookup, 4);
    reveal_strlit("subject");
    reveal_strlit("execution_context");
    assert("subject"@.len() == 7 && "execution_context"@.len() == 17);
    let es = spec_encode_principal(p)->Record_0;
    assert(es.len() == 2);
    assert(es.drop_first() =~= es.skip(1));
    assert(spec_lookup(es, "subject"@) == Some(es[0].1));
    assert(spec_lookup(es, "execution_context"@) == Some(es[1].1));
    lemma_context_field_round_trip(p.execution_context);
    assert(crate::codec::spec_decode_principal(spec_encode_principal(p))->Some_0 =~~= p);
}

/// Round-trip for a privilege whose contexts are canonical.
pub proof fn lemma_privilege_round_trip(p: PrivilegeView)
    requires
        privilege_canonical(p),
    ensures
        spec_decode_privilege(spec_encode_privilege(p)) == Some(p),
{
    reveal_with_fuel(spec_lookup, 7);
    reveal_strlit("principal");
    reveal_strlit("can_call");
    reveal_strlit("can_return");
    reveal_strlit("can_read");
    reveal_strlit("can_write");
    assert("principal"@.len() == 9 && "can_call"@.len() == 8 && "can_return"@.len() == 10
        && "can_read"@.len() == 8 && "can_write"@.len() == 9);
    assert("can_call"@[4] != "can_read"@[4]);
    assert("principal"@[0] != "can_write"@[0]);
    let es = spec_encode_privilege(p)->Record_0;
    assert(es.len() == 5);
    assert(es.drop_first() =~= es.skip(1));
    assert(es.skip(1).drop_first() =~= es.skip(2));
    assert(es.skip(2).drop_first() =~= es.skip(3));
    assert(es.skip(3).drop_first() =~= es.skip(4));
    assert(spec_lookup(es, "principal"@) == Some(es[0].1));
    assert(spec_lookup(es, "can_call"@) == Some(es[1].1));
    assert(spec_lookup(es, "can_return"@) == Some(es[2].1));
    assert(spec_lookup(es, "can_read"@) == Some(es[3].1));
    assert(spec_lookup(es, "can_write"@) == Some(es[4].1));
    lemma_principal_round_trip(p.principal);
    lemma_callret_round_trip(p.can_call);
    lemma_callret_round_trip(p.can_return);
    lemma_rw_round_trip(p.can_read);
    lemma_rw_round_trip(p.can_write);
    assert(spec_decode_privilege(spec_encode_privilege(p))->Some_0 =~~= p);
}

/// Round-trip for an object domain whose identifiers are separator-free.
pub proof fn lemma_object_domain_round_trip(d: ObjectDomainView)
    requires
        object_domain_canonical(d),
    ensures
        spec_decode_object_domain(spec_encode_object_domain(d)) == Some(d),
{
    reveal_with_fuel(spec_lookup, 4);
    reveal_strlit("name");
    reveal_strlit("objects");
    assert("name"@.len() == 4 && "objects"@.len() == 7);
    let es = spec_encode_object_domain(d)->Record_0;
    assert(es.len() == 2);
    assert(es.drop_first() =~= es.skip(1));
    assert(spec_lookup(es, "name"@) == Some(es[0].1));
    assert(spec_lookup(es, "objects"@) == Some(es[1].1));
    let enc = es[1].1->List_0;
    assert(forall|i: int| 0 <= i < enc.len() ==> #[trigger] enc[i] is Text);
    let strs = texts_of(enc);
    assert(spec_decode_string_list(es[1].1) == Some(strs));
    assert forall|i: int| 0 <= i < strs.len() implies #[trigger] spec_decode_object_id(strs[i])
        == d.objects[i] by {
        assert(object_id_canonical(d.objects[i]));
        assert(strs[i] == spec_encode_object_id(d.objects[i]));
        lemma_object_id_round_trip(d.objects[i]);
    }
    assert(object_ids_of(strs) =~= d.objects);
    assert(spec_decode_object_domain(spec_encode_object_domain(d))->Some_0 =~~= d);
}

/// Round-trip for a subject domain, for every representable value.
pub proof fn lemma_subject_domain_round_trip(d: SubjectDomainView)
    ensures
        spec_decode_subject_domain(spec_encode_subject_domain(d)) == Some(d),
{
    reveal_with_fuel(spec_lookup, 4);
    reveal_strlit("name");
    reveal_strlit("subjects");
    assert("name"@.len() == 4 && "subjects"@.len() == 8);
    let es = spec_encode_subject_domain(d)->Record_0;
    assert(es.len() == 2);
    assert(es.drop_first() =~= es.skip(1));
    assert(spec_lookup(es, "name"@) == Some(es[0].1));
    assert(spec_lookup(es, "subjects"@) == Some(es[1].1));
    lemma_string_list_round_trip(d.subjects);
    assert(spec_decode_subject_domain(spec_encode_subject_domain(d))->Some_0 =~~= d);
}

/// Round-trip for a whole privilege map whose identifiers and contexts are
/// canonical: re-decoding the encoded document restores the map exactly.
/// This is what makes saving and reloading, or re-validating a re-emitted
/// document, faithful.
pub proof fn lemma_priv_map_round_trip(m: CPMPrivMapView)
    requires
        priv_map_canonical(m),
    ensures
        spec_decode_priv_map(spec_encode_priv_map(m)) == Some(m),
{
    reveal_with_fuel(spec_lookup, 5);
    reveal_strlit("object_map");
    reveal_strlit("subject_map");
    reveal_strlit("privileges");
    assert("object_map"@.len() == 10 && "subject_map"@.len() == 11 && "privileges"@.len() == 10);
    assert("object_map"@[0] != "privileges"@[0]);
    let es = spec_encode_priv_map(m)->Record_0;
    assert(es.len() == 3);
    assert(es.drop_first() =~= es.skip(1));
    assert(es.skip(1).drop_first() =~= es.skip(2));
    assert(spec_lookup(es, "object_map"@) == Some(es[0].1));
    assert(spec_lookup(es, "subject_map"@) == Some(es[1].1));
    assert(spec_lookup(es, "privileges"@) == Some(es[2].1));
    let oms = es[0].1->List_0;
    assert forall|i: int| 0 <= i < oms.len() implies #[trigger] spec_decode_object_domain(oms[i])
        is Some && spec_decode_object_domain(oms[i])->Some_0 == m.object_map[i] by {
        assert(object_domain_canonical(m.object_map[i]));
        lemma_object_domain_round_trip(m.object_map[i]);
    }
    assert(all_object_domains_ok(oms));
    assert(object_domains_of(oms) =~= m.object_map);
    let sms = es[1].1->List_0;
    assert forall|i: int| 0 <= i < sms.len() implies #[trigger] spec_decode_subject_domain(sms[i])
        is Some && spec_decode_subject_domain(sms[i])->Some_0 == m.subject_map[i] by {
        lemma_subject_domain_round_trip(m.subject_map[i]);
    }
    assert(all_subject_domains_ok(sms));
    assert(subject_domains_of(sms) =~= m.subject_map);
    let pvs = es[2].1->List_0;
    assert forall|i: int| 0 <= i < pvs.len() implies #[trigger] spec_decode_privilege(pvs[i])
        is Some && spec_decode_privilege(pvs[i])->Some_0 == m.privileges[i] by {
        assert(privilege_canonical(m.privileges[i]));
        lemma_privilege_round_trip(m.privileges[i]);
    }
    assert(all_privileges_ok(pvs));
    assert(privileges_of(pvs) =~= m.privileges);
    assert(spec_decode_priv_map(spec_encode_priv_map(m))->Some_0 =~~= m);
}

} // verus!
