//! The typed model of a capability privilege map.
//!
//! A `CPMPrivMap` owns ordered lists of object domains, subject domains and
//! privileges. Each permission axis of a privilege is either unrestricted or
//! an explicit enumeration; an explicit empty enumeration is a distinct,
//! meaningful value ("grant nothing"), not a synonym for unrestricted. All
//! entities are plain value types; contracts speak about them through the
//! `View` of each type.

use vstd::prelude::*;

use crate::alloc_type::AllocType;
use crate::object_id::{ObjectID, ObjectIDView};

verus! {

broadcast use vstd::std_specs::vec::group_vec_axioms;

/// A named group of subjects (execution domains).
#[derive(Debug, PartialEq)]
pub struct SubjectDomain {
    name: String,
    subjects: Vec<String>,
}

#[verifier::ext_equal]
pub struct SubjectDomainView {
    pub name: Seq<char>,
    pub subjects: Seq<Seq<char>>,
}

impl View for SubjectDomain {
    type V = SubjectDomainView;

    closed spec fn view(&self) -> SubjectDomainView {
        SubjectDomainView { name: self.name@, subjects: self.subjects.deep_view() }
    }
}

impl DeepView for SubjectDomain {
    type V = SubjectDomainView;

    open spec fn deep_view(&self) -> SubjectDomainView {
        self.view()
    }
}

impl SubjectDomain {
    pub fn new(name: String, subjects: Vec<String>) -> (r: SubjectDomain)
        ensures
            r@.name == name@,
            r@.subjects == subjects.deep_view(),
    {
        SubjectDomain { name, subjects }
    }

    pub fn new_empty(name: String) -> (r: SubjectDomain)
        ensures
            r@.name == name@,
            r@.subjects == Seq::<Seq<char>>::empty(),
    {
        let r = SubjectDomain { name, subjects: Vec::new() };
        proof {
            assert(r@.subjects =~= Seq::<Seq<char>>::empty());
        }
        r
    }

    pub fn add_subject(&mut self, subject: String)
        ensures
            final(self)@.name == old(self)@.name,
            final(self)@.subjects == old(self)@.subjects.push(subject@),
    {
        let ghost old_subjects = self.subjects.deep_view();
        self.subjects.push(subject);
        proof {
            assert(self.subjects.deep_view() =~= old_subjects.push(subject@));
        }
    }

    pub fn add_subjects(&mut self, subjects: Vec<String>)
        ensures
            final(self)@.name == old(self)@.name,
            final(self)@.subjects == old(self)@.subjects + subjects.deep_view(),
    {
        let ghost old_subjects = self.subjects.deep_view();
        let ghost added = subjects.deep_view();
        let mut rest = subjects;
        self.subjects.append(&mut rest);
        proof {
            assert(self.subjects.deep_view() =~= old_subjects + added);
        }
    }

    pub fn name(&self) -> (r: &str)
        ensures
            r@ == self@.name,
    {
        self.name.as_str()
    }

    pub fn subjects(&self) -> (r: &Vec<String>)
        ensures
            r.deep_view() == self@.subjects,
    {
        &self.subjects
    }
}

/// A named group of objects, each given by a structured object identifier.
#[derive(Debug, PartialEq)]
pub struct ObjectDomain {
    name: String,
    objects: Vec<ObjectID>,
}

#[verifier::ext_equal]
pub struct ObjectDomainView {
    pub name: Seq<char>,
    pub objects: Seq<ObjectIDView>,
}

impl View for ObjectDomain {
    type V = ObjectDomainView;

    closed spec fn view(&self) -> ObjectDomainView {
        ObjectDomainView { name: self.name@, objects: self.objects.deep_view() }
    }
}

impl DeepView for ObjectDomain {
    type V = ObjectDomainView;

    open spec fn deep_view(&self) -> ObjectDomainView {
        self.view()
    }
}

/// The sequence with every occurrence of `target` removed, order kept.
pub open spec fn spec_remove_all(s: Seq<ObjectIDView>, target: ObjectIDView) -> Seq<ObjectIDView>
    decreases s.len(),
{
    if s.len() == 0 {
        Seq::empty()
    } else if s[0] == target {
        spec_remove_all(s.drop_first(), target)
    } else {
        seq![s[0]] + spec_remove_all(s.drop_first(), target)
    }
}

proof fn lemma_remove_all_concat(a: Seq<ObjectIDView>, b: Seq<ObjectIDView>, target: ObjectIDView)
    ensures
        spec_remove_all(a + b, target) == spec_remove_all(a, target) + spec_remove_all(b, target),
    decreases a.len(),
{
    if a.len() == 0 {
        assert(a + b =~= b);
        assert(spec_remove_all(a, target) =~= Seq::<ObjectIDView>::empty());
        assert(spec_remove_all(a, target) + spec_remove_all(b, target) =~= spec_remove_all(
            b,
            target,
        ));
    } else {
        assert((a + b)[0] == a[0]);
        assert((a + b).drop_first() =~= a.drop_first() + b);
        lemma_remove_all_concat(a.drop_first(), b, target);
        if a[0] == target {
        } else {
            assert(seq![a[0]] + (spec_remove_all(a.drop_first(), target) + spec_remove_all(
                b,
                target,
            )) =~= (seq![a[0]] + spec_remove_all(a.drop_first(), target)) + spec_remove_all(
                b,
                target,
            ));
        }
    }
}

/// `i` is the first index in `objs` whose entry's name is `name`.
pub open spec fn first_match_name(objs: Seq<ObjectIDView>, name: Seq<char>, i: int) -> bool {
    &&& 0 <= i < objs.len()
    &&& objs[i].name == name
    &&& forall|j: int| 0 <= j < i ==> #[trigger] objs[j].name != name
}

/// `i` is the first index in `objs` whose entry's path is `path`.
pub open spec fn first_match_path(objs: Seq<ObjectIDView>, path: Seq<char>, i: int) -> bool {
    &&& 0 <= i < objs.len()
    &&& objs[i].path == path
    &&& forall|j: int| 0 <= j < i ==> #[trigger] objs[j].path != path
}

/// `i` is the first index in `objs` whose entry's line number is `lineno`.
pub open spec fn first_match_lineno(objs: Seq<ObjectIDView>, lineno: Seq<char>, i: int) -> bool {
    &&& 0 <= i < objs.len()
    &&& objs[i].lineno == lineno
    &&& forall|j: int| 0 <= j < i ==> #[trigger] objs[j].lineno != lineno
}

/// `i` is the first index in `objs` whose entry has storage class `t`.
pub open spec fn first_match_alloc_type(objs: Seq<ObjectIDView>, t: AllocType, i: int) -> bool {
    &&& 0 <= i < objs.len()
    &&& objs[i].alloc_type == t
    &&& forall|j: int| 0 <= j < i ==> #[trigger] objs[j].alloc_type != t
}

impl ObjectDomain {
    pub fn new(name: String, objects: Vec<ObjectID>) -> (r: ObjectDomain)
        ensures
            r@.name == name@,
            r@.objects == objects.deep_view(),
    {
        ObjectDomain { name, objects }
    }

    pub fn new_empty(name: String) -> (r: ObjectDomain)
        ensures
            r@.name == name@,
            r@.objects == Seq::<ObjectIDView>::empty(),
    {
        let r = ObjectDomain { name, objects: Vec::new() };
        proof {
            assert(r@.objects =~= Seq::<ObjectIDView>::empty());
        }
        r
    }

    pub fn add_object(&mut self, object: ObjectID)
        ensures
            final(self)@.name == old(self)@.name,
            final(self)@.objects == old(self)@.objects.push(object@),
    {
        let ghost old_objects = self.objects.deep_view();
        self.objects.push(object);
        proof {
            assert(self.objects.deep_view() =~= old_objects.push(object@));
        }
    }

    /// Removes every object equal to the given one, keeping the order of the
    /// rest.
    pub fn remove_object(&mut self, object: &ObjectID)
        ensures
            final(self)@.name == old(self)@.name,
            final(self)@.objects == spec_remove_all(old(self)@.objects, object@),
    {
        let mut kept: Vec<ObjectID> = Vec::new();
        let ghost target = object@;
        let ghost olds = self.objects.deep_view();
        proof {
            assert(olds.take(0) =~= Seq::<ObjectIDView>::empty());
            assert(kept.deep_view() =~= spec_remove_all(olds.take(0), target));
        }
        let mut i: usize = 0;
        while i < self.objects.len()
            invariant
                0 <= i <= self.objects.len(),
                olds == self.objects.deep_view(),
                olds.len() == self.objects@.len(),
                target == object@,
                kept.deep_view() == spec_remove_all(olds.take(i as int), target),
            decreases self.objects.len() - i,
        {
            let ghost kept_before = kept.deep_view();
            if !self.objects[i].same_as(object) {
                kept.push(self.objects[i].duplicate());
                proof {
                    assert(kept.deep_view() =~= kept_before.push(olds[i as int]));
                }
            }
            proof {
                let x = olds[i as int];
                lemma_remove_all_concat(olds.take(i as int), seq![x], target);
                assert(olds.take(i as int) + seq![x] =~= olds.take(i + 1));
                assert(seq![x].drop_first() =~= Seq::<ObjectIDView>::empty());
                assert(spec_remove_all(Seq::<ObjectIDView>::empty(), target)
                    =~= Seq::<ObjectIDView>::empty());
                assert(spec_remove_all(seq![x], target) =~= if x == target {
                    Seq::<ObjectIDView>::empty()
                } else {
                    seq![x]
                });
                assert(kept_before.push(x) =~= kept_before + seq![x]);
                assert(kept_before + Seq::<ObjectIDView>::empty() =~= kept_before);
                assert(kept.deep_view() =~= spec_remove_all(olds.take(i + 1), target));
            }
            i = i + 1;
        }
        proof {
            assert(olds.take(olds.len() as int) =~= olds);
        }
        self.objects = kept;
    }

    pub fn clear_objects(&mut self)
        ensures
            final(self)@.name == old(self)@.name,
            final(self)@.objects == Seq::<ObjectIDView>::empty(),
    {
        self.objects.clear();
        proof {
            assert(self.objects.deep_view() =~= Seq::<ObjectIDView>::empty());
        }
    }

    pub fn set_objects(&mut self, objects: Vec<ObjectID>)
        ensures
            final(self)@.name == old(self)@.name,
            final(self)@.objects == objects.deep_view(),
    {
        self.objects = objects;
    }

    pub fn get_object(&self, index: usize) -> (r: Option<&ObjectID>)
        ensures
            index < self@.objects.len() ==> (r matches Some(o) && o@ == self@.objects[
                index as int
            ]),
            index >= self@.objects.len() ==> r is None,
    {
        if index < self.objects.len() {
            Some(&self.objects[index])
        } else {
            None
        }
    }

    /// The first object whose name equals `name`, if any.
    pub fn get_object_by_name(&self, name: &str) -> (r: Option<&ObjectID>)
        ensures
            match r {
                Some(o) => exists|i: int|
                    #[trigger] first_match_name(self@.objects, name@, i) && self@.objects[i] == o@,
                None => forall|i: int|
                    0 <= i < self@.objects.len() ==> #[trigger] self@.objects[i].name != name@,
            },
    {
        let mut i: usize = 0;
        while i < self.objects.len()
            invariant
                0 <= i <= self.objects.len(),
                self@.objects.len() == self.objects@.len(),
                forall|j: int| 0 <= j < i ==> #[trigger] self@.objects[j].name != name@,
            decreases self.objects.len() - i,
        {
            if crate::alloc_type::str_eq(self.objects[i].name(), name) {
                proof {
                    assert(first_match_name(self@.objects, name@, i as int));
                }
                return Some(&self.objects[i]);
            }
            i = i + 1;
        }
        None
    }

    /// The first object whose path equals `path`, if any.
    pub fn get_object_by_path(&self, path: &str) -> (r: Option<&ObjectID>)
        ensures
            match r {
                Some(o) => exists|i: int|
                    #[trigger] first_match_path(self@.objects, path@, i) && self@.objects[i] == o@,
                None => forall|i: int|
                    0 <= i < self@.objects.len() ==> #[trigger] self@.objects[i].path != path@,
            },
    {
        let mut i: usize = 0;
        while i < self.objects.len()
            invariant
                0 <= i <= self.objects.len(),
                self@.objects.len() == self.objects@.len(),
                forall|j: int| 0 <= j < i ==> #[trigger] self@.objects[j].path != path@,
            decreases self.objects.len() - i,
        {
            if crate::alloc_type::str_eq(self.objects[i].path(), path) {
                proof {
                    assert(first_match_path(self@.objects, path@, i as int));
                }
                return Some(&self.objects[i]);
            }
            i = i + 1;
        }
        None
    }

    /// The first object whose line number equals `lineno`, if any.
    pub fn get_object_by_lineno(&self, lineno: &str) -> (r: Option<&ObjectID>)
        ensures
            match r {
                Some(o) => exists|i: int|
                    #[trigger] first_match_lineno(self@.objects, lineno@, i) && self@.objects[i]
                        == o@,
                None => forall|i: int|
                    0 <= i < self@.objects.len() ==> #[trigger] self@.objects[i].lineno != lineno@,
            },
    {
        let mut i: usize = 0;
        while i < self.objects.len()
            invariant
                0 <= i <= self.objects.len(),
                self@.objects.len() == self.objects@.len(),
                forall|j: int| 0 <= j < i ==> #[trigger] self@.objects[j].lineno != lineno@,
            decreases self.objects.len() - i,
        {
            if crate::alloc_type::str_eq(self.objects[i].lineno(), lineno) {
                proof {
                    assert(first_match_lineno(self@.objects, lineno@, i as int));
                }
                return Some(&self.objects[i]);
            }
            i = i + 1;
        }
        None
    }

    /// The first object with the given storage class, if any.
    pub fn get_object_by_alloc_type(&self, alloc_type: &AllocType) -> (r: Option<&ObjectID>)
        ensures
            match r {
                Some(o) => exists|i: int|
                    #[trigger] first_match_alloc_type(self@.objects, *alloc_type, i)
                        && self@.objects[i] == o@,
                None => forall|i: int|
                    0 <= i < self@.objects.len() ==> #[trigger] self@.objects[i].alloc_type
                        != *alloc_type,
            },
    {
        let mut i: usize = 0;
        while i < self.objects.len()
            invariant
                0 <= i <= self.objects.len(),
                self@.objects.len() == self.objects@.len(),
                forall|j: int| 0 <= j < i ==> #[trigger] self@.objects[j].alloc_type != *alloc_type,
            decreases self.objects.len() - i,
        {
            if *self.objects[i].alloc_type() == *alloc_type {
                proof {
                    assert(first_match_alloc_type(self@.objects, *alloc_type, i as int));
                }
                return Some(&self.objects[i]);
            }
            i = i + 1;
        }
        None
    }

    pub fn name(&self) -> (r: &str)
        ensures
            r@ == self@.name,
    {
        self.name.as_str()
    }

    pub fn objects(&self) -> (r: &Vec<ObjectID>)
        ensures
            r.deep_view() == self@.objects,
    {
        &self.objects
    }
}

/// A scalar context value: unrestricted, or one literal identifier.
#[derive(Debug, PartialEq)]
pub enum ContextSimpleString {
    Literal(String),
    All,
}

#[verifier::ext_equal]
pub enum ContextSimpleStringView {
    Literal(Seq<char>),
    All,
}

impl View for ContextSimpleString {
    type V = ContextSimpleStringView;

    open spec fn view(&self) -> ContextSimpleStringView {
        match self {
            ContextSimpleString::Literal(s) => ContextSimpleStringView::Literal(s@),
            ContextSimpleString::All => ContextSimpleStringView::All,
        }
    }
}

impl DeepView for ContextSimpleString {
    type V = ContextSimpleStringView;

    open spec fn deep_view(&self) -> ContextSimpleStringView {
        self.view()
    }
}

/// The caller set of a context: unrestricted, or an explicit list of subject
/// domain names.
#[derive(Debug, PartialEq)]
pub enum CallContextSubField {
    List(Vec<String>),
    All,
}

#[verifier::ext_equal]
pub enum CallContextSubFieldView {
    List(Seq<Seq<char>>),
    All,
}

impl View for CallContextSubField {
    type V = CallContextSubFieldView;

    open spec fn view(&self) -> CallContextSubFieldView {
        match self {
            CallContextSubField::List(xs) => CallContextSubFieldView::List(xs.deep_view()),
            CallContextSubField::All => CallContextSubFieldView::All,
        }
    }
}

impl DeepView for CallContextSubField {
    type V = CallContextSubFieldView;

    open spec fn deep_view(&self) -> CallContextSubFieldView {
        self.view()
    }
}

/// A conditional scope: an optional caller set and optional uid/gid values.
/// Decoding never produces an absent sub-field: a missing or explicitly
/// null key decodes to unrestricted. `None` is a programmatic-only state;
/// it encodes as null, which re-decodes as unrestricted.
#[derive(Debug, PartialEq)]
pub struct Context {
    call_context: Option<CallContextSubField>,
    uid: Option<ContextSimpleString>,
    gid: Option<ContextSimpleString>,
}

#[verifier::ext_equal]
pub struct ContextView {
    pub call_context: Option<CallContextSubFieldView>,
    pub uid: Option<ContextSimpleStringView>,
    pub gid: Option<ContextSimpleStringView>,
}

impl View for Context {
    type V = ContextView;

    closed spec fn view(&self) -> ContextView {
        ContextView {
            call_context: self.call_context.deep_view(),
            uid: self.uid.deep_view(),
            gid: self.gid.deep_view(),
        }
    }
}

impl DeepView for Context {
    type V = ContextView;

    open spec fn deep_view(&self) -> ContextView {
        self.view()
    }
}

impl Context {
    pub fn new(
        call_context: Option<CallContextSubField>,
        uid: Option<ContextSimpleString>,
        gid: Option<ContextSimpleString>,
    ) -> (r: Context)
        ensures
            r@.call_context == call_context.deep_view(),
            r@.uid == uid.deep_view(),
            r@.gid == gid.deep_view(),
    {
        Context { call_context, uid, gid }
    }

    pub fn call_context(&self) -> (r: &Option<CallContextSubField>)
        ensures
            r.deep_view() == self@.call_context,
    {
        &self.call_context
    }

    pub fn uid(&self) -> (r: &Option<ContextSimpleString>)
        ensures
            r.deep_view() == self@.uid,
    {
        &self.uid
    }

    pub fn gid(&self) -> (r: &Option<ContextSimpleString>)
        ensures
            r.deep_view() == self@.gid,
    {
        &self.gid
    }
}

/// Distinguishes "no scoping at all" from "scoped by a context".
#[derive(Debug, PartialEq)]
pub enum ContextField {
    Context(Context),
    All,
}

#[verifier::ext_equal]
pub enum ContextFieldView {
    Context(ContextView),
    All,
}

impl View for ContextField {
    type V = ContextFieldView;

    open spec fn view(&self) -> ContextFieldView {
        match self {
            ContextField::Context(c) => ContextFieldView::Context(c@),
            ContextField::All => ContextFieldView::All,
        }
    }
}

impl DeepView for ContextField {
    type V = ContextFieldView;

    open spec fn deep_view(&self) -> ContextFieldView {
        self.view()
    }
}

/// Who is granted a privilege: a subject name, scoped by an execution
/// context.
#[derive(Debug, PartialEq)]
pub struct Principal {
    pub subject: String,
    pub execution_context: ContextField,
}

#[verifier::ext_equal]
pub struct PrincipalView {
    pub subject: Seq<char>,
    pub execution_context: ContextFieldView,
}

impl View for Principal {
    type V = PrincipalView;

    open spec fn view(&self) -> PrincipalView {
        PrincipalView { subject: self.subject@, execution_context: self.execution_context@ }
    }
}

impl DeepView for Principal {
    type V = PrincipalView;

    open spec fn deep_view(&self) -> PrincipalView {
        self.view()
    }
}

impl Principal {
    pub fn subject(&self) -> (r: &String)
        ensures
            r@ == self@.subject,
    {
        &self.subject
    }

    pub fn execution_context(&self) -> (r: &ContextField)
        ensures
            r@ == self@.execution_context,
    {
        &self.execution_context
    }
}

/// A call/return permission axis: unrestricted, or an explicit list of
/// subject domain names. The empty list is a valid value meaning "call
/// nothing", distinct from unrestricted.
#[derive(Debug, PartialEq)]
pub enum CallRetPrivField {
    List(Vec<String>),
    All,
}

#[verifier::ext_equal]
pub enum CallRetPrivFieldView {
    List(Seq<Seq<char>>),
    All,
}

impl View for CallRetPrivField {
    type V = CallRetPrivFieldView;

    open spec fn view(&self) -> CallRetPrivFieldView {
        match self {
            CallRetPrivField::List(xs) => CallRetPrivFieldView::List(xs.deep_view()),
            CallRetPrivField::All => CallRetPrivFieldView::All,
        }
    }
}

impl DeepView for CallRetPrivField {
    type V = CallRetPrivFieldView;

    open spec fn deep_view(&self) -> CallRetPrivFieldView {
        self.view()
    }
}

/// One read/write access grant: object domain names, scoped by an object
/// context.
#[derive(Debug, PartialEq)]
pub struct Object {
    objects: Vec<String>,
    object_context: ContextField,
}

#[verifier::ext_equal]
pub struct ObjectView {
    pub objects: Seq<Seq<char>>,
    pub object_context: ContextFieldView,
}

impl View for Object {
    type V = ObjectView;

    closed spec fn view(&self) -> ObjectView {
        ObjectView {
            objects: self.objects.deep_view(),
            object_context: self.object_context@,
        }
    }
}

impl DeepView for Object {
    type V = ObjectView;

    open spec fn deep_view(&self) -> ObjectView {
        self.view()
    }
}

impl Object {
    pub fn new(objects: Vec<String>, object_context: ContextField) -> (r: Object)
        ensures
            r@.objects == objects.deep_view(),
            r@.object_context == object_context@,
    {
        Object { objects, object_context }
    }

    pub fn objects(&self) -> (r: &Vec<String>)
        ensures
            r.deep_view() == self@.objects,
    {
        &self.objects
    }

    pub fn object_context(&self) -> (r: &ContextField)
        ensures
            r@ == self@.object_context,
    {
        &self.object_context
    }
}

/// A read/write permission axis: unrestricted, or an explicit list of access
/// grants. The empty list is a valid value meaning "access nothing".
#[derive(Debug, PartialEq)]
pub enum RWPrivField {
    List(Vec<Object>),
    All,
}

#[verifier::ext_equal]
pub enum RWPrivFieldView {
    List(Seq<ObjectView>),
    All,
}

impl View for RWPrivField {
    type V = RWPrivFieldView;

    open spec fn view(&self) -> RWPrivFieldView {
        match self {
            RWPrivField::List(xs) => RWPrivFieldView::List(xs.deep_view()),
            RWPrivField::All => RWPrivFieldView::All,
        }
    }
}

impl DeepView for RWPrivField {
    type V = RWPrivFieldView;

    open spec fn deep_view(&self) -> RWPrivFieldView {
        self.view()
    }
}

/// One grant: a principal plus its four permission axes. Each axis defaults
/// independently to unrestricted when its key is absent in the document.
#[derive(Debug, PartialEq)]
pub struct Privilege {
    pub principal: Principal,
    pub can_call: CallRetPrivField,
    pub can_return: CallRetPrivField,
    pub can_read: RWPrivField,
    pub can_write: RWPrivField,
}

#[verifier::ext_equal]
pub struct PrivilegeView {
    pub principal: PrincipalView,
    pub can_call: CallRetPrivFieldView,
    pub can_return: CallRetPrivFieldView,
    pub can_read: RWPrivFieldView,
    pub can_write: RWPrivFieldView,
}

impl View for Privilege {
    type V = PrivilegeView;

    open spec fn view(&self) -> PrivilegeView {
        PrivilegeView {
            principal: self.principal@,
            can_call: self.can_call@,
            can_return: self.can_return@,
            can_read: self.can_read@,
            can_write: self.can_write@,
        }
    }
}

impl DeepView for Privilege {
    type V = PrivilegeView;

    open spec fn deep_view(&self) -> PrivilegeView {
        self.view()
    }
}

impl Privilege {
    pub fn principal(&self) -> (r: &Principal)
        ensures
            r@ == self@.principal,
    {
        &self.principal
    }

    pub fn can_call(&self) -> (r: &CallRetPrivField)
        ensures
            r@ == self@.can_call,
    {
        &self.can_call
    }

    pub fn can_return(&self) -> (r: &CallRetPrivField)
        ensures
            r@ == self@.can_return,
    {
        &self.can_return
    }

    pub fn can_read(&self) -> (r: &RWPrivField)
        ensures
            r@ == self@.can_read,
    {
        &self.can_read
    }

    pub fn can_write(&self) -> (r: &RWPrivField)
        ensures
            r@ == self@.can_write,
    {
        &self.can_write
    }
}

/// A whole privilege map: object domains, subject domains and privileges, in
/// document order. Lists may be empty; domain names need not be unique (a
/// separate schema validator owns that rule).
#[derive(Debug, PartialEq)]
pub struct CPMPrivMap {
    pub object_map: Vec<ObjectDomain>,
    pub subject_map: Vec<SubjectDomain>,
    pub privileges: Vec<Privilege>,
}

#[verifier::ext_equal]
pub struct CPMPrivMapView {
    pub object_map: Seq<ObjectDomainView>,
    pub subject_map: Seq<SubjectDomainView>,
    pub privileges: Seq<PrivilegeView>,
}

impl View for CPMPrivMap {
    type V = CPMPrivMapView;

    open spec fn view(&self) -> CPMPrivMapView {
        CPMPrivMapView {
            object_map: self.object_map.deep_view(),
            subject_map: self.subject_map.deep_view(),
            privileges: self.privileges.deep_view(),
        }
    }
}

impl DeepView for CPMPrivMap {
    type V = CPMPrivMapView;

    open spec fn deep_view(&self) -> CPMPrivMapView {
        self.view()
    }
}

impl CPMPrivMap {
    /// An empty privilege map.
    pub fn new() -> (r: CPMPrivMap)
        ensures
            r@.object_map == Seq::<ObjectDomainView>::empty(),
            r@.subject_map == Seq::<SubjectDomainView>::empty(),
            r@.privileges == Seq::<PrivilegeView>::empty(),
    {
        let r = CPMPrivMap { object_map: Vec::new(), subject_map: Vec::new(), privileges: Vec::new() };
        proof {
            assert(r@.object_map =~= Seq::<ObjectDomainView>::empty());
            assert(r@.subject_map =~= Seq::<SubjectDomainView>::empty());
            assert(r@.privileges =~= Seq::<PrivilegeView>::empty());
        }
        r
    }

    pub fn object_map(&self) -> (r: &Vec<ObjectDomain>)
        ensures
            r.deep_view() == self@.object_map,
    {
        &self.object_map
    }

    pub fn add_object_domain(&mut self, object_domain: ObjectDomain)
        ensures
            final(self)@.object_map == old(self)@.object_map.push(object_domain@),
            final(self)@.subject_map == old(self)@.subject_map,
            final(self)@.privileges == old(self)@.privileges,
    {
        let ghost olds = self.object_map.deep_view();
        self.object_map.push(object_domain);
        proof {
            assert(self.object_map.deep_view() =~= olds.push(self.object_map@.last()@));
        }
    }

    pub fn subject_map(&self) -> (r: &Vec<SubjectDomain>)
        ensures
            r.deep_view() == self@.subject_map,
    {
        &self.subject_map
    }

    pub fn add_subject_domain(&mut self, subject_domain: SubjectDomain)
        ensures
            final(self)@.object_map == old(self)@.object_map,
            final(self)@.subject_map == old(self)@.subject_map.push(subject_domain@),
            final(self)@.privileges == old(self)@.privileges,
    {
        let ghost olds = self.subject_map.deep_view();
        self.subject_map.push(subject_domain);
        proof {
            assert(self.subject_map.deep_view() =~= olds.push(self.subject_map@.last()@));
        }
    }

    pub fn privileges(&self) -> (r: &Vec<Privilege>)
        ensures
            r.deep_view() == self@.privileges,
    {
        &self.privileges
    }

    pub fn add_privilege(&mut self, privilege: Privilege)
        ensures
            final(self)@.object_map == old(self)@.object_map,
            final(self)@.subject_map == old(self)@.subject_map,
            final(self)@.privileges == old(self)@.privileges.push(privilege@),
    {
        let ghost olds = self.privileges.deep_view();
        self.privileges.push(privilege);
        proof {
            assert(self.privileges.deep_view() =~= olds.push(self.privileges@.last()@));
        }
    }
}

} // verus!
