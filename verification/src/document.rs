//! A generic structured document tree.
//!
//! A privilege map arrives as a parsed-but-untyped tree (the output of a
//! format reader such as a YAML or JSON parser, outside this crate). The
//! grammar only ever uses four shapes — null, string, sequence, mapping — so
//! the tree is modelled by exactly those four variants. The codec decodes
//! this tree into the typed model and encodes the model back into it.

use vstd::prelude::*;

verus! {

broadcast use vstd::std_specs::vec::group_vec_axioms;

/// One node of a generic structured document: a null scalar, a string
/// scalar, a sequence, or a mapping with string keys in document order.
#[derive(Debug, PartialEq)]
pub enum DocValue {
    Null,
    Text(String),
    List(Vec<DocValue>),
    Record(Vec<(String, DocValue)>),
}

/// The mathematical shape of a document node.
#[verifier::ext_equal]
pub enum DocValueView {
    Null,
    Text(Seq<char>),
    List(Seq<DocValueView>),
    Record(Seq<(Seq<char>, DocValueView)>),
}

/// The views of a sequence of document nodes.
pub open spec fn docs_view(s: Seq<DocValue>) -> Seq<DocValueView>
    decreases s,
{
    Seq::new(
        s.len(),
        |i: int|
            if 0 <= i < s.len() {
                s[i]@
            } else {
                DocValueView::Null
            },
    )
}

/// The entries of a record, each key and value taken to its view.
pub open spec fn record_entries_view(es: Seq<(String, DocValue)>) -> Seq<
    (Seq<char>, DocValueView),
>
    decreases es,
{
    Seq::new(
        es.len(),
        |i: int|
            if 0 <= i < es.len() {
                (es[i].0@, es[i].1@)
            } else {
                (Seq::<char>::empty(), DocValueView::Null)
            },
    )
}

impl View for DocValue {
    type V = DocValueView;

    open spec fn view(&self) -> DocValueView
        decreases self,
    {
        match self {
            DocValue::Null => DocValueView::Null,
            DocValue::Text(s) => DocValueView::Text(s@),
            DocValue::List(xs) => DocValueView::List(docs_view(xs@)),
            DocValue::Record(es) => DocValueView::Record(record_entries_view(es@)),
        }
    }
}

impl DeepView for DocValue {
    type V = DocValueView;

    open spec fn deep_view(&self) -> DocValueView {
        self.view()
    }
}

/// The first value bound to `key` in a mapping's entries, if any.
pub open spec fn spec_lookup(entries: Seq<(Seq<char>, DocValueView)>, key: Seq<char>) -> Option<
    DocValueView,
>
    decreases entries.len(),
{
    if entries.len() == 0 {
        None
    } else if entries[0].0 == key {
        Some(entries[0].1)
    } else {
        spec_lookup(entries.drop_first(), key)
    }
}

/// Looks up the first value bound to `key` in a record's entries.
pub fn lookup<'a>(entries: &'a Vec<(String, DocValue)>, key: &str) -> (r: Option<&'a DocValue>)
    ensures
        match r {
            Some(v) => spec_lookup(record_entries_view(entries@), key@) == Some(v@),
            None => spec_lookup(record_entries_view(entries@), key@) is None,
        },
{
    let ghost evs = record_entries_view(entries@);
    proof {
        assert(evs.skip(0) =~= evs);
    }
    let mut i: usize = 0;
    while i < entries.len()
        invariant
            0 <= i <= entries.len(),
            evs == record_entries_view(entries@),
            evs.len() == entries@.len(),
            forall|j: int| 0 <= j < i ==> #[trigger] evs[j].0 != key@,
            spec_lookup(evs, key@) == spec_lookup(evs.skip(i as int), key@),
        decreases entries.len() - i,
    {
        assert(evs[i as int] == (entries@[i as int].0@, entries@[i as int].1@));
        if crate::alloc_type::str_eq(entries[i].0.as_str(), key) {
            proof {
                lemma_lookup_skip_hit(evs, key@, i as int);
            }
            return Some(&entries[i].1);
        }
        proof {
            lemma_lookup_skip_step(evs, key@, i as int);
        }
        i = i + 1;
    }
    proof {
        assert(evs.skip(i as int).len() == 0);
    }
    None
}

proof fn lemma_lookup_skip_hit(evs: Seq<(Seq<char>, DocValueView)>, key: Seq<char>, i: int)
    requires
        0 <= i < evs.len(),
        evs[i].0 == key,
        spec_lookup(evs, key) == spec_lookup(evs.skip(i), key),
    ensures
        spec_lookup(evs, key) == Some(evs[i].1),
{
    assert(evs.skip(i)[0] == evs[i]);
}

proof fn lemma_lookup_skip_step(evs: Seq<(Seq<char>, DocValueView)>, key: Seq<char>, i: int)
    requires
        0 <= i < evs.len(),
        evs[i].0 != key,
    ensures
        spec_lookup(evs.skip(i), key) == spec_lookup(evs.skip(i + 1), key),
{
    assert(evs.skip(i)[0] == evs[i]);
    assert(evs.skip(i).drop_first() =~= evs.skip(i + 1));
}

} // verus!
