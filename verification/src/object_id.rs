//! Structured object identifiers and their compact string codec.
//!
//! An object identifier names one concrete allocation site: a storage class,
//! a file path, a line number and a name. On the wire it is a single string,
//! the four fields joined by `|` in that fixed order. Decoding splits on
//! `|`: exactly four parts yield a structured identifier (the first part
//! classified as a storage class); any other part count falls back to
//! treating the whole string as a bare object name with storage class
//! `Other` and empty path and line — a fallback, not a failure, because many
//! documents carry bare object names.

use vstd::prelude::*;

use crate::alloc_type::{spec_classify, spec_token, AllocType};

verus! {

broadcast use vstd::std_specs::vec::group_vec_axioms;

/// One concrete allocation site / object.
#[derive(Debug, PartialEq)]
pub struct ObjectID {
    alloc_type: AllocType,
    path: String,
    lineno: String,
    name: String,
}

#[verifier::ext_equal]
pub struct ObjectIDView {
    pub alloc_type: AllocType,
    pub path: Seq<char>,
    pub lineno: Seq<char>,
    pub name: Seq<char>,
}

impl View for ObjectID {
    type V = ObjectIDView;

    closed spec fn view(&self) -> ObjectIDView {
        ObjectIDView {
            alloc_type: self.alloc_type,
            path: self.path@,
            lineno: self.lineno@,
            name: self.name@,
        }
    }
}

impl DeepView for ObjectID {
    type V = ObjectIDView;

    open spec fn deep_view(&self) -> ObjectIDView {
        self.view()
    }
}

/// Splitting a character sequence on `|`. Splitting the empty sequence
/// yields one empty part; each separator starts a new part.
pub open spec fn spec_split_bar(s: Seq<char>) -> Seq<Seq<char>>
    decreases s.len(),
{
    if s.len() == 0 {
        seq![Seq::<char>::empty()]
    } else if s[0] == '|' {
        seq![Seq::<char>::empty()] + spec_split_bar(s.drop_first())
    } else {
        let rest = spec_split_bar(s.drop_first());
        seq![seq![s[0]] + rest[0]] + rest.drop_first()
    }
}

/// No `|` occurs in the sequence.
pub open spec fn bar_free(s: Seq<char>) -> bool {
    forall|i: int| 0 <= i < s.len() ==> s[i] != '|'
}

/// The compact form: the four fields joined by `|` in fixed order.
pub open spec fn spec_encode_object_id(v: ObjectIDView) -> Seq<char> {
    spec_token(v.alloc_type) + seq!['|'] + v.path + seq!['|'] + v.lineno + seq!['|'] + v.name
}

/// The decode rule: four parts give a structured identifier, any other part
/// count falls back to a bare name.
pub open spec fn spec_decode_object_id(s: Seq<char>) -> ObjectIDView {
    let parts = spec_split_bar(s);
    if parts.len() == 4 {
        ObjectIDView {
            alloc_type: spec_classify(parts[0]),
            path: parts[1],
            lineno: parts[2],
            name: parts[3],
        }
    } else {
        ObjectIDView {
            alloc_type: AllocType::Other,
            path: Seq::empty(),
            lineno: Seq::empty(),
            name: s,
        }
    }
}

/// Splitting after a bar-free prefix: a separator at `k` closes the part
/// `t.take(k)`; no separator at all makes the whole sequence one part.
proof fn lemma_split_bar_prefix(t: Seq<char>, k: int)
    requires
        0 <= k <= t.len(),
        forall|j: int| 0 <= j < k ==> t[j] != '|',
    ensures
        k < t.len() && t[k] == '|' ==> spec_split_bar(t) == seq![t.take(k)] + spec_split_bar(
            t.skip(k + 1),
        ),
        k == t.len() ==> spec_split_bar(t) == seq![t],
    decreases k,
{
    if k == 0 {
        if 0 < t.len() && t[0] == '|' {
            assert(t.take(0) =~= Seq::<char>::empty());
            assert(t.drop_first() =~= t.skip(1));
        } else if t.len() == 0 {
            assert(seq![t] =~~= seq![Seq::<char>::empty()]);
        }
    } else {
        let t1 = t.drop_first();
        assert(forall|j: int| 0 <= j < k - 1 ==> t1[j] != '|');
        lemma_split_bar_prefix(t1, k - 1);
        let rest = spec_split_bar(t1);
        if k < t.len() && t[k] == '|' {
            assert(t1[k - 1] == '|');
            assert(rest == seq![t1.take(k - 1)] + spec_split_bar(t1.skip(k)));
            assert(rest[0] == t1.take(k - 1));
            assert(rest.drop_first() =~= spec_split_bar(t1.skip(k)));
            assert(t1.skip(k) =~= t.skip(k + 1));
            assert(seq![t[0]] + t1.take(k - 1) =~= t.take(k));
            assert(spec_split_bar(t) =~~= seq![t.take(k)] + spec_split_bar(t.skip(k + 1)));
        } else if k == t.len() {
            assert(rest == seq![t1]);
            assert(rest[0] == t1);
            assert(rest.drop_first() =~= Seq::<Seq<char>>::empty());
            assert(seq![t[0]] + t1 =~= t);
            assert(spec_split_bar(t) =~~= seq![t]);
        }
    }
}

/// Splitting a bar-free sequence yields that sequence as the only part.
pub proof fn lemma_split_bar_whole(a: Seq<char>)
    requires
        bar_free(a),
    ensures
        spec_split_bar(a) == seq![a],
{
    lemma_split_bar_prefix(a, a.len() as int);
}

/// Splitting `a|b` for bar-free `a` yields `a` and then the parts of `b`.
pub proof fn lemma_split_bar_join(a: Seq<char>, b: Seq<char>)
    requires
        bar_free(a),
    ensures
        spec_split_bar(a + seq!['|'] + b) == seq![a] + spec_split_bar(b),
{
    let t = a + seq!['|'] + b;
    assert(forall|j: int| 0 <= j < a.len() ==> t[j] == a[j]);
    assert(t[a.len() as int] == '|');
    lemma_split_bar_prefix(t, a.len() as int);
    assert(t.take(a.len() as int) =~= a);
    assert(t.skip(a.len() as int + 1) =~= b);
}

/// The canonical token of every storage class is bar-free.
pub proof fn lemma_token_bar_free(t: AllocType)
    ensures
        bar_free(spec_token(t)),
{
    reveal_strlit("GLOBAL");
    reveal_strlit("LOCAL");
    reveal_strlit("HEAP");
    reveal_strlit("STACK_FRAME");
    reveal_strlit("STACK_REGION");
    reveal_strlit("IO");
    reveal_strlit("OTHER");
}

/// Structured round-trip: re-decoding an encoded identifier is exact
/// whenever no field contains the separator.
pub proof fn lemma_object_id_round_trip(v: ObjectIDView)
    requires
        bar_free(v.path),
        bar_free(v.lineno),
        bar_free(v.name),
    ensures
        spec_decode_object_id(spec_encode_object_id(v)) == v,
{
    let tok = spec_token(v.alloc_type);
    lemma_token_bar_free(v.alloc_type);
    let tail2 = v.lineno + seq!['|'] + v.name;
    let tail1 = v.path + seq!['|'] + tail2;
    assert(spec_encode_object_id(v) =~= tok + seq!['|'] + tail1);
    lemma_split_bar_join(tok, tail1);
    lemma_split_bar_join(v.path, tail2);
    lemma_split_bar_join(v.lineno, v.name);
    lemma_split_bar_whole(v.name);
    let parts = spec_split_bar(spec_encode_object_id(v));
    assert(parts =~~= seq![tok, v.path, v.lineno, v.name]);
    crate::alloc_type::lemma_token_classifies_to_self(v.alloc_type);
    assert(spec_decode_object_id(spec_encode_object_id(v)) =~= v);
}

/// The storage-class token of a compact string that is structured (four
/// parts) but whose token is not recognized. Such a token still classifies,
/// to `Other`, without failing; it is the subject of the non-fatal
/// unknown-allocator diagnostic.
pub open spec fn spec_unrecognized_token(s: Seq<char>) -> Option<Seq<char>> {
    let parts = spec_split_bar(s);
    if parts.len() == 4 && !crate::alloc_type::spec_recognized(parts[0]) {
        Some(parts[0])
    } else {
        None
    }
}

/// Reports the unrecognized storage-class token of a compact string, if
/// any.
pub fn unrecognized_token(s: &str) -> (r: Option<String>)
    ensures
        match r {
            Some(t) => spec_unrecognized_token(s@) == Some(t@),
            None => spec_unrecognized_token(s@) is None,
        },
{
    let mut parts = split_bar(s);
    if parts.len() == 4 {
        let head = parts.remove(0);
        proof {
            assert(head@ == spec_split_bar(s@)[0]);
        }
        if !AllocType::is_recognized(head.as_str()) {
            return Some(head);
        }
    }
    None
}

/// Splits a string on `|`.
fn split_bar(s: &str) -> (parts: Vec<String>)
    ensures
        parts.deep_view() == spec_split_bar(s@),
{
    let n = s.unicode_len();
    let mut parts: Vec<String> = Vec::new();
    let mut start: usize = 0;
    let mut i: usize = 0;
    proof {
        assert(s@.skip(0) =~= s@);
        assert(parts.deep_view() =~= Seq::<Seq<char>>::empty());
    }
    while i < n
        invariant
            0 <= start <= i <= n,
            n == s@.len(),
            forall|j: int| start <= j < i ==> s@[j] != '|',
            spec_split_bar(s@) == parts.deep_view() + spec_split_bar(s@.skip(start as int)),
        decreases n - i,
    {
        let c = s.get_char(i);
        if c == '|' {
            let part = s.substring_char(start, i);
            let ghost parts_before = parts.deep_view();
            parts.push(String::from_str(part));
            proof {
                let t = s@.skip(start as int);
                let k = i - start;
                assert(forall|j: int| 0 <= j < k ==> t[j] != '|');
                assert(t[k as int] == '|');
                lemma_split_bar_prefix(t, k as int);
                assert(t.take(k as int) =~= s@.subrange(start as int, i as int));
                assert(t.skip(k + 1) =~= s@.skip(i + 1));
                assert(parts.deep_view() =~= parts_before.push(part@));
                assert(parts.deep_view() + spec_split_bar(s@.skip(i + 1)) =~~= parts_before + (
                seq![t.take(k as int)] + spec_split_bar(t.skip(k + 1))));
            }
            start = i + 1;
        }
        i = i + 1;
    }
    let last = s.substring_char(start, n);
    let ghost parts_before = parts.deep_view();
    parts.push(String::from_str(last));
    proof {
        let t = s@.skip(start as int);
        let k = n - start;
        assert(forall|j: int| 0 <= j < k ==> t[j] != '|');
        lemma_split_bar_prefix(t, k as int);
        assert(t =~= s@.subrange(start as int, n as int));
        assert(parts.deep_view() =~= parts_before.push(last@));
        assert(parts.deep_view() =~~= parts_before + seq![t]);
    }
    parts
}

impl ObjectID {
    pub fn new(alloc_type: AllocType, path: String, lineno: String, name: String) -> (r: ObjectID)
        ensures
            r@ == (ObjectIDView { alloc_type, path: path@, lineno: lineno@, name: name@ }),
    {
        ObjectID { alloc_type, path, lineno, name }
    }

    pub fn alloc_type(&self) -> (r: &AllocType)
        ensures
            *r == self@.alloc_type,
    {
        &self.alloc_type
    }

    pub fn path(&self) -> (r: &str)
        ensures
            r@ == self@.path,
    {
        self.path.as_str()
    }

    pub fn lineno(&self) -> (r: &str)
        ensures
            r@ == self@.lineno,
    {
        self.lineno.as_str()
    }

    pub fn name(&self) -> (r: &str)
        ensures
            r@ == self@.name,
    {
        self.name.as_str()
    }

    /// Equality by contents.
    pub fn same_as(&self, other: &ObjectID) -> (r: bool)
        ensures
            r == (self@ == other@),
    {
        let r = self.alloc_type == other.alloc_type && crate::alloc_type::str_eq(
            self.path.as_str(),
            other.path.as_str(),
        ) && crate::alloc_type::str_eq(self.lineno.as_str(), other.lineno.as_str())
            && crate::alloc_type::str_eq(self.name.as_str(), other.name.as_str());
        proof {
            if r {
                assert(self@ =~= other@);
            }
        }
        r
    }

    /// A copy with the same contents.
    pub fn duplicate(&self) -> (r: ObjectID)
        ensures
            r@ == self@,
    {
        ObjectID {
            alloc_type: self.alloc_type,
            path: self.path.clone(),
            lineno: self.lineno.clone(),
            name: self.name.clone(),
        }
    }

    /// Encodes this identifier to its compact form, the four fields joined
    /// by `|` in fixed order.
    pub fn encode_compact(&self) -> (r: String)
        ensures
            r@ == spec_encode_object_id(self@),
    {
        let mut out = String::from_str(self.alloc_type.token());
        out.append("|");
        out.append(self.path.as_str());
        out.append("|");
        out.append(self.lineno.as_str());
        out.append("|");
        out.append(self.name.as_str());
        proof {
            reveal_strlit("|");
            assert("|"@ =~= seq!['|']);
            assert(out@ =~= spec_encode_object_id(self@));
        }
        out
    }

    /// Decodes a compact string. Exactly four `|`-separated parts yield a
    /// structured identifier; any other part count falls back to a bare
    /// name with storage class `Other`. Total: no input is rejected.
    pub fn decode_compact(s: &str) -> (r: ObjectID)
        ensures
            r@ == spec_decode_object_id(s@),
    {
        let mut parts = split_bar(s);
        if parts.len() == 4 {
            let name = parts.pop().unwrap();
            let lineno = parts.pop().unwrap();
            let path = parts.pop().unwrap();
            let head = parts.pop().unwrap();
            let r = ObjectID {
                alloc_type: AllocType::classify(head.as_str()),
                path,
                lineno,
                name,
            };
            proof {
                assert(r@ =~= spec_decode_object_id(s@));
            }
            r
        } else {
            let r = ObjectID {
                alloc_type: AllocType::Other,
                path: String::new(),
                lineno: String::new(),
                name: String::from_str(s),
            };
            proof {
                assert(r@ =~= spec_decode_object_id(s@));
            }
            r
        }
    }
}

} // verus!
