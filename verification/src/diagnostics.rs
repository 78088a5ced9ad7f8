//! The non-fatal unknown-allocator diagnostic.
//!
//! An unrecognized storage-class token is not an error: classification
//! degrades it to `Other` and decoding carries on, because static-analysis
//! output is expected to be noisy. It does deserve a logged warning, so this
//! module collects, from a parsed document, every structured object
//! identifier whose storage-class token is neither a canonical token nor an
//! allow-listed allocator. The caller that performs I/O logs them.

use vstd::prelude::*;

use crate::document::{docs_view, record_entries_view, DocValue, DocValueView};
use crate::object_id::spec_unrecognized_token;

verus! {

broadcast use vstd::std_specs::vec::group_vec_axioms;

/// The unrecognized storage-class tokens among a sequence of document
/// values, in order: one for each string scalar that is a structured
/// four-part identifier with an unrecognized token.
pub open spec fn spec_unknown_tokens_in_objects(xs: Seq<DocValueView>) -> Seq<Seq<char>>
    decreases xs.len(),
{
    if xs.len() == 0 {
        Seq::empty()
    } else {
        let head = match xs[0] {
            DocValueView::Text(s) => match spec_unrecognized_token(s) {
                Some(t) => seq![t],
                None => Seq::<Seq<char>>::empty(),
            },
            _ => Seq::<Seq<char>>::empty(),
        };
        head + spec_unknown_tokens_in_objects(xs.drop_first())
    }
}

/// The unrecognized tokens of one object-domain entry of a document.
pub open spec fn spec_unknown_tokens_in_domain(d: DocValueView) -> Seq<Seq<char>> {
    match d {
        DocValueView::Record(es) => match crate::document::spec_lookup(es, "objects"@) {
            Some(DocValueView::List(xs)) => spec_unknown_tokens_in_objects(xs),
            _ => Seq::empty(),
        },
        _ => Seq::empty(),
    }
}

/// The unrecognized tokens of a sequence of object-domain entries.
pub open spec fn spec_unknown_tokens_in_domains(ds: Seq<DocValueView>) -> Seq<Seq<char>>
    decreases ds.len(),
{
    if ds.len() == 0 {
        Seq::empty()
    } else {
        spec_unknown_tokens_in_domain(ds[0]) + spec_unknown_tokens_in_domains(ds.drop_first())
    }
}

/// The unrecognized storage-class tokens of a whole document's object map.
pub open spec fn spec_unknown_alloc_tokens(v: DocValueView) -> Seq<Seq<char>> {
    match v {
        DocValueView::Record(es) => match crate::document::spec_lookup(es, "object_map"@) {
            Some(DocValueView::List(ds)) => spec_unknown_tokens_in_domains(ds),
            _ => Seq::empty(),
        },
        _ => Seq::empty(),
    }
}

proof fn lemma_unknown_objects_concat(a: Seq<DocValueView>, b: Seq<DocValueView>)
    ensures
        spec_unknown_tokens_in_objects(a + b) == spec_unknown_tokens_in_objects(a)
            + spec_unknown_tokens_in_objects(b),
    decreases a.len(),
{
    if a.len() == 0 {
        assert(a + b =~= b);
        assert(spec_unknown_tokens_in_objects(a) =~= Seq::<Seq<char>>::empty());
        assert(spec_unknown_tokens_in_objects(a) + spec_unknown_tokens_in_objects(b)
            =~= spec_unknown_tokens_in_objects(b));
    } else {
        assert((a + b)[0] == a[0]);
        assert((a + b).drop_first() =~= a.drop_first() + b);
        lemma_unknown_objects_concat(a.drop_first(), b);
        let head = match a[0] {
            DocValueView::Text(s) => match spec_unrecognized_token(s) {
                Some(t) => seq![t],
                None => Seq::<Seq<char>>::empty(),
            },
            _ => Seq::<Seq<char>>::empty(),
        };
        assert(head + (spec_unknown_tokens_in_objects(a.drop_first())
            + spec_unknown_tokens_in_objects(b)) =~= (head + spec_unknown_tokens_in_objects(
            a.drop_first(),
        )) + spec_unknown_tokens_in_objects(b));
    }
}

proof fn lemma_unknown_domains_concat(a: Seq<DocValueView>, b: Seq<DocValueView>)
    ensures
        spec_unknown_tokens_in_domains(a + b) == spec_unknown_tokens_in_domains(a)
            + spec_unknown_tokens_in_domains(b),
    decreases a.len(),
{
    if a.len() == 0 {
        assert(a + b =~= b);
        assert(spec_unknown_tokens_in_domains(a) =~= Seq::<Seq<char>>::empty());
        assert(spec_unknown_tokens_in_domains(a) + spec_unknown_tokens_in_domains(b)
            =~= spec_unknown_tokens_in_domains(b));
    } else {
        assert((a + b)[0] == a[0]);
        assert((a + b).drop_first() =~= a.drop_first() + b);
        lemma_unknown_domains_concat(a.drop_first(), b);
        assert(spec_unknown_tokens_in_domain(a[0]) + (spec_unknown_tokens_in_domains(
            a.drop_first(),
        ) + spec_unknown_tokens_in_domains(b)) =~= (spec_unknown_tokens_in_domain(a[0])
            + spec_unknown_tokens_in_domains(a.drop_first())) + spec_unknown_tokens_in_domains(b));
    }
}

/// Collects the unrecognized tokens among a sequence of object strings.
fn unknown_tokens_in_objects(xs: &Vec<DocValue>) -> (r: Vec<String>)
    ensures
        r.deep_view() == spec_unknown_tokens_in_objects(docs_view(xs@)),
{
    let ghost dvs = docs_view(xs@);
    let mut out: Vec<String> = Vec::new();
    proof {
        assert(dvs.take(0) =~= Seq::<DocValueView>::empty());
        assert(out.deep_view() =~= spec_unknown_tokens_in_objects(dvs.take(0)));
    }
    let mut i: usize = 0;
    while i < xs.len()
        invariant
            0 <= i <= xs.len(),
            dvs == docs_view(xs@),
            dvs.len() == xs@.len(),
            out.deep_view() == spec_unknown_tokens_in_objects(dvs.take(i as int)),
        decreases xs.len() - i,
    {
        let ghost out_before = out.deep_view();
        let ghost x = dvs[i as int];
        proof {
            assert(x == xs@[i as int]@);
        }
        match &xs[i] {
            DocValue::Text(s) => {
                match crate::object_id::unrecognized_token(s.as_str()) {
                    Some(t) => {
                        let ghost tv = t@;
                        out.push(t);
                        proof {
                            assert(out.deep_view() =~= out_before.push(tv));
                        }
                    },
                    None => {},
                }
            },
            _ => {},
        }
        proof {
            lemma_unknown_objects_concat(dvs.take(i as int), seq![x]);
            assert(dvs.take(i as int) + seq![x] =~= dvs.take(i + 1));
            assert(seq![x].drop_first() =~= Seq::<DocValueView>::empty());
            assert(spec_unknown_tokens_in_objects(Seq::<DocValueView>::empty())
                =~= Seq::<Seq<char>>::empty());
            let head = match x {
                DocValueView::Text(s) => match spec_unrecognized_token(s) {
                    Some(t) => seq![t],
                    None => Seq::<Seq<char>>::empty(),
                },
                _ => Seq::<Seq<char>>::empty(),
            };
            assert(spec_unknown_tokens_in_objects(seq![x]) =~= head);
            assert(out.deep_view() =~= spec_unknown_tokens_in_objects(dvs.take(i + 1)));
        }
        i = i + 1;
    }
    proof {
        assert(dvs.take(dvs.len() as int) =~= dvs);
    }
    out
}

/// Collects the unrecognized tokens of one object-domain entry.
fn unknown_tokens_in_domain(d: &DocValue) -> (r: Vec<String>)
    ensures
        r.deep_view() == spec_unknown_tokens_in_domain(d@),
{
    match d {
        DocValue::Record(es) => {
            let ghost evs = record_entries_view(es@);
            proof {
                assert(d@ == DocValueView::Record(evs));
            }
            match crate::document::lookup(es, "objects") {
                Some(o) => match o {
                    DocValue::List(xs) => unknown_tokens_in_objects(xs),
                    _ => {
                        let r: Vec<String> = Vec::new();
                        proof {
                            assert(r.deep_view() =~= Seq::<Seq<char>>::empty());
                        }
                        r
                    },
                },
                None => {
                    let r: Vec<String> = Vec::new();
                    proof {
                        assert(r.deep_view() =~= Seq::<Seq<char>>::empty());
                    }
                    r
                },
            }
        },
        _ => {
            let r: Vec<String> = Vec::new();
            proof {
                assert(r.deep_view() =~= Seq::<Seq<char>>::empty());
            }
            r
        },
    }
}

/// Collects, in document order, every unrecognized storage-class token in a
/// document's object map. Decoding never fails on these; a loader logs them
/// as warnings.
pub fn scan_unknown_alloc_tokens(v: &DocValue) -> (r: Vec<String>)
    ensures
        r.deep_view() == spec_unknown_alloc_tokens(v@),
{
    match v {
        DocValue::Record(es) => {
            let ghost evs = record_entries_view(es@);
            proof {
                assert(v@ == DocValueView::Record(evs));
            }
            match crate::document::lookup(es, "object_map") {
                Some(d) => match d {
                    DocValue::List(ds) => {
                        let ghost dvs = docs_view(ds@);
                        let mut out: Vec<String> = Vec::new();
                        proof {
                            assert(dvs.take(0) =~= Seq::<DocValueView>::empty());
                            assert(out.deep_view() =~= spec_unknown_tokens_in_domains(
                                dvs.take(0),
                            ));
                        }
                        let mut i: usize = 0;
                        while i < ds.len()
                            invariant
                                0 <= i <= ds.len(),
                                dvs == docs_view(ds@),
                                dvs.len() == ds@.len(),
                                out.deep_view() == spec_unknown_tokens_in_domains(
                                    dvs.take(i as int),
                                ),
                            decreases ds.len() - i,
                        {
                            let ghost out_before = out.deep_view();
                            let ghost x = dvs[i as int];
                            proof {
                                assert(x == ds@[i as int]@);
                            }
                            let mut found = unknown_tokens_in_domain(&ds[i]);
                            let ghost found_view = found.deep_view();
                            out.append(&mut found);
                            proof {
                                assert(out.deep_view() =~= out_before + found_view);
                                lemma_unknown_domains_concat(dvs.take(i as int), seq![x]);
                                assert(dvs.take(i as int) + seq![x] =~= dvs.take(i + 1));
                                assert(seq![x].drop_first() =~= Seq::<DocValueView>::empty());
                                assert(spec_unknown_tokens_in_domains(Seq::<DocValueView>::empty())
                                    =~= Seq::<Seq<char>>::empty());
                                assert(spec_unknown_tokens_in_domains(seq![x])
                                    =~= spec_unknown_tokens_in_domain(x));
                                assert(out.deep_view() =~= spec_unknown_tokens_in_domains(
                                    dvs.take(i + 1),
                                ));
                            }
                            i = i + 1;
                        }
                        proof {
                            assert(dvs.take(dvs.len() as int) =~= dvs);
                        }
                        out
                    },
                    _ => {
                        let r: Vec<String> = Vec::new();
                        proof {
                            assert(r.deep_view() =~= Seq::<Seq<char>>::empty());
                        }
                        r
                    },
                },
                None => {
                    let r: Vec<String> = Vec::new();
                    proof {
                        assert(r.deep_view() =~= Seq::<Seq<char>>::empty());
                    }
                    r
                },
            }
        },
        _ => {
            let r: Vec<String> = Vec::new();
            proof {
                assert(r.deep_view() =~= Seq::<Seq<char>>::empty());
            }
            r
        },
    }
}

} // verus!
