//! Storage-class classification of privilege-map objects.
//!
//! Every textual token classifies to exactly one of the seven storage
//! classes: the seven canonical uppercase tokens map to their class, a fixed
//! allow-list of known heap-allocator helpers maps to `Heap`, and everything
//! else degrades to `Other`. Classification is total: no input is rejected.

use vstd::prelude::*;

verus! {

/// Storage class of an object named by a privilege map.
#[derive(Clone, Copy, Debug, PartialEq, Eq, Structural, Hash)]
pub enum AllocType {
    Global,
    Local,
    Heap,
    StackFrame,
    StackRegion,
    IO,
    Other,
}

/// The canonical uppercase token of each storage class.
pub open spec fn spec_token(t: AllocType) -> Seq<char> {
    match t {
        AllocType::Global => "GLOBAL"@,
        AllocType::Local => "LOCAL"@,
        AllocType::Heap => "HEAP"@,
        AllocType::StackFrame => "STACK_FRAME"@,
        AllocType::StackRegion => "STACK_REGION"@,
        AllocType::IO => "IO"@,
        AllocType::Other => "OTHER"@,
    }
}

/// The allow-list of heap-allocator helper names gathered from real call
/// sites; any of these classifies as `Heap`.
pub open spec fn spec_is_allocator(s: Seq<char>) -> bool {
    ||| s == "kmalloc_reserve"@
    ||| s == "xdr_alloc_bvec"@
    ||| s == "__netdev_alloc_skb"@
    ||| s == "kmemdup_nul"@
    ||| s == "dst_cow_metrics_generic"@
    ||| s == "nfs_writehdr_alloc"@
    ||| s == "rpc_malloc"@
    ||| s == "unx_lookup_cred"@
    ||| s == "xprt_alloc_slot"@
    ||| s == "nfs_page_create"@
    ||| s == "nfs_readhdr_alloc"@
    ||| s == "dst_alloc"@
    ||| s == "rpc_new_task"@
    ||| s == "___neigh_create"@
    ||| s == "__alloc_skb"@
}

/// Total classification: canonical token, then allocator allow-list, then
/// `Other`.
pub open spec fn spec_classify(s: Seq<char>) -> AllocType {
    if s == "GLOBAL"@ {
        AllocType::Global
    } else if s == "LOCAL"@ {
        AllocType::Local
    } else if s == "HEAP"@ {
        AllocType::Heap
    } else if s == "STACK_FRAME"@ {
        AllocType::StackFrame
    } else if s == "STACK_REGION"@ {
        AllocType::StackRegion
    } else if s == "IO"@ {
        AllocType::IO
    } else if s == "OTHER"@ {
        AllocType::Other
    } else if spec_is_allocator(s) {
        AllocType::Heap
    } else {
        AllocType::Other
    }
}

/// A token is recognized when it is a canonical token or an allow-listed
/// allocator; an unrecognized token still classifies (to `Other`), but a
/// caller may want to log it.
pub open spec fn spec_recognized(s: Seq<char>) -> bool {
    ||| s == "GLOBAL"@
    ||| s == "LOCAL"@
    ||| s == "HEAP"@
    ||| s == "STACK_FRAME"@
    ||| s == "STACK_REGION"@
    ||| s == "IO"@
    ||| s == "OTHER"@
    ||| spec_is_allocator(s)
}

/// String equality by contents.
pub(crate) fn str_eq(a: &str, b: &str) -> (r: bool)
    ensures
        r == (a@ == b@),
{
    let sa = String::from_str(a);
    let sb = String::from_str(b);
    sa == sb
}

impl AllocType {
    /// The canonical uppercase token of this storage class.
    pub fn token(&self) -> (r: &'static str)
        ensures
            r@ == spec_token(*self),
    {
        match self {
            AllocType::Global => "GLOBAL",
            AllocType::Local => "LOCAL",
            AllocType::Heap => "HEAP",
            AllocType::StackFrame => "STACK_FRAME",
            AllocType::StackRegion => "STACK_REGION",
            AllocType::IO => "IO",
            AllocType::Other => "OTHER",
        }
    }

    /// Classifies a token into a storage class. Total: every string maps to
    /// exactly one variant; unknown tokens degrade to `Other`.
    pub fn classify(s: &str) -> (t: AllocType)
        ensures
            t == spec_classify(s@),
    {
        if str_eq(s, "GLOBAL") {
            AllocType::Global
        } else if str_eq(s, "LOCAL") {
            AllocType::Local
        } else if str_eq(s, "HEAP") {
            AllocType::Heap
        } else if str_eq(s, "STACK_FRAME") {
            AllocType::StackFrame
        } else if str_eq(s, "STACK_REGION") {
            AllocType::StackRegion
        } else if str_eq(s, "IO") {
            AllocType::IO
        } else if str_eq(s, "OTHER") {
            AllocType::Other
        } else if AllocType::is_allocator(s) {
            AllocType::Heap
        } else {
            AllocType::Other
        }
    }

    /// Membership in the heap-allocator allow-list.
    pub fn is_allocator(s: &str) -> (r: bool)
        ensures
            r == spec_is_allocator(s@),
    {
        str_eq(s, "kmalloc_reserve")
        || str_eq(s, "xdr_alloc_bvec")
        || str_eq(s, "__netdev_alloc_skb")
        || str_eq(s, "kmemdup_nul")
        || str_eq(s, "dst_cow_metrics_generic")
        || str_eq(s, "nfs_writehdr_alloc")
        || str_eq(s, "rpc_malloc")
        || str_eq(s, "unx_lookup_cred")
        || str_eq(s, "xprt_alloc_slot")
        || str_eq(s, "nfs_page_create")
        || str_eq(s, "nfs_readhdr_alloc")
        || str_eq(s, "dst_alloc")
        || str_eq(s, "rpc_new_task")
        || str_eq(s, "___neigh_create")
        || str_eq(s, "__alloc_skb")
    }

    /// Whether a token is a canonical token or an allow-listed allocator.
    /// Unrecognized tokens still classify, so a caller that wants the
    /// diagnostic of the classification rule checks here.
    pub fn is_recognized(s: &str) -> (r: bool)
        ensures
            r == spec_recognized(s@),
    {
        str_eq(s, "GLOBAL")
        || str_eq(s, "LOCAL")
        || str_eq(s, "HEAP")
        || str_eq(s, "STACK_FRAME")
        || str_eq(s, "STACK_REGION")
        || str_eq(s, "IO")
        || str_eq(s, "OTHER")
        || AllocType::is_allocator(s)
    }
}

impl core::str::FromStr for AllocType {
    type Err = String;

    fn from_str(s: &str) -> Result<AllocType, String> {
        Ok(AllocType::classify(s))
    }
}

/// Classification is total: every token yields one of the seven storage
/// classes, never a failure.
pub proof fn lemma_classify_total(s: Seq<char>)
    ensures
        spec_classify(s) == AllocType::Global || spec_classify(s) == AllocType::Local
            || spec_classify(s) == AllocType::Heap || spec_classify(s) == AllocType::StackFrame
            || spec_classify(s) == AllocType::StackRegion || spec_classify(s) == AllocType::IO
            || spec_classify(s) == AllocType::Other,
{
}

/// Each canonical token classifies back to its own storage class.
pub proof fn lemma_token_classifies_to_self(t: AllocType)
    ensures
        spec_classify(spec_token(t)) == t,
{
    broadcast use vstd::string::group_string_axioms;

    reveal_strlit("GLOBAL");
    reveal_strlit("LOCAL");
    reveal_strlit("HEAP");
    reveal_strlit("STACK_FRAME");
    reveal_strlit("STACK_REGION");
    reveal_strlit("IO");
    reveal_strlit("OTHER");
    assert("GLOBAL"@.len() == 6);
    assert("LOCAL"@.len() == 5);
    assert("HEAP"@.len() == 4);
    assert("STACK_FRAME"@.len() == 11);
    assert("STACK_REGION"@.len() == 12);
    assert("IO"@.len() == 2);
    assert("OTHER"@.len() == 5);
    assert("LOCAL"@[0] == 'L' && "OTHER"@[0] == 'O');
}

} // verus!
