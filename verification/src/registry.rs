//! Registry of object and function handles handed out to a host runtime.
//!
//! The host keeps its own objects; the registry only maps the handle ids it
//! issues to the host's reference ids. Object and function handles are drawn
//! from one counter, so no id is ever used for both.

use std::collections::HashMap;
use vstd::prelude::*;

verus! {

broadcast use vstd::std_specs::hash::group_hash_axioms;

/// Metadata about a host object.
#[derive(Debug)]
pub struct GoObjectRef {
    /// Reference id in the host's registry.
    pub go_ref_id: u64,
    /// Optional cached class name.
    pub class_name: Option<String>,
}

impl GoObjectRef {
    /// A reference without a class name.
    pub fn new(go_ref_id: u64) -> (res: Self)
        ensures
            res.go_ref_id == go_ref_id,
            res.class_name is None,
    {
        GoObjectRef { go_ref_id, class_name: None }
    }

    /// A reference that carries a class name.
    pub fn with_class(go_ref_id: u64, class_name: String) -> (res: Self)
        ensures
            res.go_ref_id == go_ref_id,
            res.class_name == Some(class_name),
    {
        GoObjectRef { go_ref_id, class_name: Some(class_name) }
    }

    /// A copy of this reference.
    pub fn duplicate(&self) -> (res: Self)
        ensures
            res == *self,
    {
        let class_name = match &self.class_name {
            Some(name) => Some(name.clone()),
            None => None,
        };
        GoObjectRef { go_ref_id: self.go_ref_id, class_name }
    }
}

impl Clone for GoObjectRef {
    fn clone(&self) -> (res: Self)
        ensures
            res == *self,
    {
        self.duplicate()
    }
}

/// Metadata about a host function.
#[derive(Debug, Clone, Copy, PartialEq, Eq, Structural)]
pub struct GoFunctionRef {
    /// Reference id in the host's registry.
    pub go_ref_id: u64,
}

impl GoFunctionRef {
    /// A function reference.
    pub fn new(go_ref_id: u64) -> (res: Self)
        ensures
            res.go_ref_id == go_ref_id,
    {
        GoFunctionRef { go_ref_id }
    }
}

/// The abstract state of a [`HandleRegistry`].
pub ghost struct RegistryModel {
    /// Object handle id -> object reference.
    pub objects: Map<u64, GoObjectRef>,
    /// Function handle id -> function reference.
    pub functions: Map<u64, GoFunctionRef>,
    /// The id the next registration hands out.
    pub next: u64,
}

impl RegistryModel {
    /// Every id in use lies below `next`, ids start at 1, and no id names both
    /// an object and a function.
    pub open spec fn wf(self) -> bool {
        &&& self.next >= 1
        &&& self.objects.dom().finite()
        &&& self.functions.dom().finite()
        &&& forall|h: u64| #[trigger] self.objects.contains_key(h) ==> 1 <= h < self.next
        &&& forall|h: u64| #[trigger] self.functions.contains_key(h) ==> 1 <= h < self.next
        &&& forall|h: u64| #[trigger] self.objects.contains_key(h) ==> !self.functions.contains_key(h)
    }

    /// Registering an object: the new state and the handle it got.
    pub open spec fn register_object(self, obj: GoObjectRef) -> (RegistryModel, u64) {
        (
            RegistryModel {
                objects: self.objects.insert(self.next, obj),
                functions: self.functions,
                next: (self.next + 1) as u64,
            },
            self.next,
        )
    }

    /// Registering a function: the new state and the handle it got.
    pub open spec fn register_function(self, f: GoFunctionRef) -> (RegistryModel, u64) {
        (
            RegistryModel {
                objects: self.objects,
                functions: self.functions.insert(self.next, f),
                next: (self.next + 1) as u64,
            },
            self.next,
        )
    }

    /// Releasing an object handle.
    pub open spec fn release_object(self, h: u64) -> RegistryModel {
        RegistryModel { objects: self.objects.remove(h), ..self }
    }

    /// Releasing a function handle.
    pub open spec fn release_function(self, h: u64) -> RegistryModel {
        RegistryModel { functions: self.functions.remove(h), ..self }
    }

    /// Looking up an object handle.
    pub open spec fn get_object(self, h: u64) -> Option<GoObjectRef> {
        if self.objects.contains_key(h) {
            Some(self.objects[h])
        } else {
            None
        }
    }

    /// Looking up a function handle.
    pub open spec fn get_function(self, h: u64) -> Option<GoFunctionRef> {
        if self.functions.contains_key(h) {
            Some(self.functions[h])
        } else {
            None
        }
    }
}

/// Registry for object and function handles.
#[derive(Debug)]
pub struct HandleRegistry {
    objects: HashMap<u64, GoObjectRef>,
    functions: HashMap<u64, GoFunctionRef>,
    next_handle: u64,
}

impl View for HandleRegistry {
    type V = RegistryModel;

    closed spec fn view(&self) -> RegistryModel {
        RegistryModel { objects: self.objects@, functions: self.functions@, next: self.next_handle }
    }
}

impl HandleRegistry {
    /// The registry's invariant: that of its model.
    pub open spec fn wf(&self) -> bool {
        self@.wf()
    }

    /// An empty registry whose first handle is 1.
    pub fn new() -> (res: Self)
        ensures
            res.wf(),
            res@.objects == Map::<u64, GoObjectRef>::empty(),
            res@.functions == Map::<u64, GoFunctionRef>::empty(),
            res@.next == 1,
    {
        HandleRegistry { objects: HashMap::new(), functions: HashMap::new(), next_handle: 1 }
    }

    /// The next unique handle id.
    pub fn next_id(&mut self) -> (id: u64)
        requires
            old(self).wf(),
            old(self)@.next < u64::MAX,
        ensures
            final(self).wf(),
            id == old(self)@.next,
            id >= 1,
            final(self)@ == (RegistryModel { next: (id + 1) as u64, ..old(self)@ }),
    {
        let id = self.next_handle;
        self.next_handle = self.next_handle + 1;
        id
    }

    /// The id the next registration will hand out.
    pub fn peek_next_id(&self) -> (id: u64)
        ensures
            id == self@.next,
    {
        self.next_handle
    }

    /// Register a host object and return its handle id.
    pub fn register_object(&mut self, go_ref_id: u64) -> (handle_id: u64)
        requires
            old(self).wf(),
            old(self)@.next < u64::MAX,
        ensures
            final(self).wf(),
            (final(self)@, handle_id) == old(self)@.register_object(GoObjectRef::new_spec(go_ref_id, None)),
            handle_id >= 1,
            !old(self)@.objects.contains_key(handle_id),
            !old(self)@.functions.contains_key(handle_id),
            final(self)@.objects.len() == old(self)@.objects.len() + 1,
    {
        proof {
            law_register_object_then_get(self@, GoObjectRef::new_spec(go_ref_id, None));
        }
        let handle_id = self.next_id();
        self.objects.insert(handle_id, GoObjectRef::new(go_ref_id));
        handle_id
    }

    /// Register a host object with a class name and return its handle id.
    pub fn register_object_with_class(&mut self, go_ref_id: u64, class_name: String) -> (handle_id: u64)
        requires
            old(self).wf(),
            old(self)@.next < u64::MAX,
        ensures
            final(self).wf(),
            (final(self)@, handle_id) == old(self)@.register_object(
                GoObjectRef::new_spec(go_ref_id, Some(class_name)),
            ),
            handle_id >= 1,
            !old(self)@.objects.contains_key(handle_id),
            !old(self)@.functions.contains_key(handle_id),
            final(self)@.objects.len() == old(self)@.objects.len() + 1,
    {
        proof {
            law_register_object_then_get(self@, GoObjectRef::new_spec(go_ref_id, Some(class_name)));
        }
        let handle_id = self.next_id();
        self.objects.insert(handle_id, GoObjectRef::with_class(go_ref_id, class_name));
        handle_id
    }

    /// The object reference registered under a handle, if any.
    pub fn get_object(&self, handle_id: u64) -> (res: Option<GoObjectRef>)
        ensures
            res == self@.get_object(handle_id),
    {
        match self.objects.get(&handle_id) {
            Some(r) => Some(r.duplicate()),
            None => None,
        }
    }

    /// Remove an object handle, returning what it referred to.
    pub fn release_object(&mut self, handle_id: u64) -> (res: Option<GoObjectRef>)
        requires
            old(self).wf(),
        ensures
            final(self).wf(),
            res == old(self)@.get_object(handle_id),
            final(self)@ == old(self)@.release_object(handle_id),
            res is Some ==> final(self)@.objects.len() == old(self)@.objects.len() - 1,
            res is None ==> final(self)@ == old(self)@,
    {
        proof {
            law_release_object_count(self@, handle_id);
        }
        self.objects.remove(&handle_id)
    }

    /// Register a host function and return its handle id.
    pub fn register_function(&mut self, go_ref_id: u64) -> (handle_id: u64)
        requires
            old(self).wf(),
            old(self)@.next < u64::MAX,
        ensures
            final(self).wf(),
            (final(self)@, handle_id) == old(self)@.register_function(GoFunctionRef { go_ref_id }),
            handle_id >= 1,
            !old(self)@.objects.contains_key(handle_id),
            !old(self)@.functions.contains_key(handle_id),
            final(self)@.functions.len() == old(self)@.functions.len() + 1,
    {
        proof {
            law_register_function_then_get(self@, GoFunctionRef { go_ref_id });
        }
        let handle_id = self.next_id();
        self.functions.insert(handle_id, GoFunctionRef::new(go_ref_id));
        handle_id
    }

    /// The function reference registered under a handle, if any.
    pub fn get_function(&self, handle_id: u64) -> (res: Option<GoFunctionRef>)
        ensures
            res == self@.get_function(handle_id),
    {
        match self.functions.get(&handle_id) {
            Some(r) => Some(*r),
            None => None,
        }
    }

    /// Remove a function handle, returning what it referred to.
    pub fn release_function(&mut self, handle_id: u64) -> (res: Option<GoFunctionRef>)
        requires
            old(self).wf(),
        ensures
            final(self).wf(),
            res == old(self)@.get_function(handle_id),
            final(self)@ == old(self)@.release_function(handle_id),
            res is Some ==> final(self)@.functions.len() == old(self)@.functions.len() - 1,
            res is None ==> final(self)@ == old(self)@,
    {
        proof {
            law_release_function_count(self@, handle_id);
        }
        self.functions.remove(&handle_id)
    }

    /// Number of registered objects.
    pub fn object_count(&self) -> (n: usize)
        ensures
            n == self@.objects.len(),
    {
        self.objects.len()
    }

    /// Number of registered functions.
    pub fn function_count(&self) -> (n: usize)
        ensures
            n == self@.functions.len(),
    {
        self.functions.len()
    }

    /// Remove every registration; the handle counter keeps going.
    pub fn clear(&mut self)
        requires
            old(self).wf(),
        ensures
            final(self).wf(),
            final(self)@ == (RegistryModel {
                objects: Map::empty(),
                functions: Map::empty(),
                next: old(self)@.next,
            }),
    {
        self.objects.clear();
        self.functions.clear();
    }
}

impl GoObjectRef {
    /// The reference with the given fields.
    pub open spec fn new_spec(go_ref_id: u64, class_name: Option<String>) -> GoObjectRef {
        GoObjectRef { go_ref_id, class_name }
    }
}

/// A freshly registered object is found under the handle it was given, that
/// handle is non-zero and was in use neither for an object nor for a function,
/// and every other handle keeps its object.
pub proof fn law_register_object_then_get(m: RegistryModel, obj: GoObjectRef)
    requires
        m.wf(),
        m.next < u64::MAX,
    ensures
        ({
            let (m2, h) = m.register_object(obj);
            &&& m2.wf()
            &&& h != 0
            &&& !m.objects.contains_key(h)
            &&& !m.functions.contains_key(h)
            &&& m2.get_object(h) == Some(obj)
            &&& m2.objects.len() == m.objects.len() + 1
            &&& forall|k: u64| k != h ==> m2.get_object(k) == #[trigger] m.get_object(k)
            &&& m2.functions == m.functions
        }),
{
    let (m2, h) = m.register_object(obj);
    assert(m2.objects.dom() == m.objects.dom().insert(h));
}

/// A freshly registered function is found under the handle it was given, that
/// handle is non-zero and fresh, and every other handle keeps its function.
pub proof fn law_register_function_then_get(m: RegistryModel, f: GoFunctionRef)
    requires
        m.wf(),
        m.next < u64::MAX,
    ensures
        ({
            let (m2, h) = m.register_function(f);
            &&& m2.wf()
            &&& h != 0
            &&& !m.objects.contains_key(h)
            &&& !m.functions.contains_key(h)
            &&& m2.get_function(h) == Some(f)
            &&& m2.functions.len() == m.functions.len() + 1
            &&& forall|k: u64| k != h ==> m2.get_function(k) == #[trigger] m.get_function(k)
            &&& m2.objects == m.objects
        }),
{
}

/// Releasing the handle that a registration just returned gives back the
/// registered object and leaves the objects as they were before.
pub proof fn law_register_release_object_roundtrip(m: RegistryModel, obj: GoObjectRef)
    requires
        m.wf(),
        m.next < u64::MAX,
    ensures
        ({
            let (m2, h) = m.register_object(obj);
            &&& m2.get_object(h) == Some(obj)
            &&& m2.release_object(h).objects == m.objects
            &&& m2.release_object(h).get_object(h) is None
        }),
{
    let (m2, h) = m.register_object(obj);
    assert(m2.release_object(h).objects =~= m.objects);
}

/// Releasing the handle that a function registration just returned leaves the
/// functions as they were before.
pub proof fn law_register_release_function_roundtrip(m: RegistryModel, f: GoFunctionRef)
    requires
        m.wf(),
        m.next < u64::MAX,
    ensures
        ({
            let (m2, h) = m.register_function(f);
            &&& m2.release_function(h).functions == m.functions
            &&& m2.release_function(h).get_function(h) is None
        }),
{
    let (m2, h) = m.register_function(f);
    assert(m2.release_function(h).functions =~= m.functions);
}

/// Two registrations in a row hand out two different handles, the second one
/// larger than the first.
pub proof fn law_handles_increase(m: RegistryModel, a: GoObjectRef, f: GoFunctionRef)
    requires
        m.wf(),
        m.next < u64::MAX - 1,
    ensures
        ({
            let (m2, h1) = m.register_object(a);
            let (m3, h2) = m2.register_function(f);
            &&& h1 < h2
            &&& m3.get_object(h1) == Some(a)
            &&& m3.get_function(h2) == Some(f)
            &&& m3.get_function(h1) is None
            &&& m3.get_object(h2) is None
        }),
{
}

/// Releasing a present object handle lowers the object count by one and
/// keeps the invariant; releasing an absent one changes nothing.
pub proof fn law_release_object_count(m: RegistryModel, h: u64)
    requires
        m.wf(),
    ensures
        m.release_object(h).wf(),
        m.objects.contains_key(h) ==> m.release_object(h).objects.len() == m.objects.len() - 1,
        !m.objects.contains_key(h) ==> m.release_object(h) == m,
{
    if !m.objects.contains_key(h) {
        assert(m.objects.remove(h) =~= m.objects);
    }
}

/// Handles are never 0: the host can use 0 to mean "no handle".
pub proof fn law_handles_never_zero(m: RegistryModel, obj: GoObjectRef, f: GoFunctionRef)
    requires
        m.wf(),
    ensures
        m.register_object(obj).1 != 0,
        m.register_function(f).1 != 0,
{
}

/// Releasing a present function handle lowers the function count by one
/// and keeps the invariant; releasing an absent one changes nothing.
pub proof fn law_release_function_count(m: RegistryModel, h: u64)
    requires
        m.wf(),
    ensures
        m.release_function(h).wf(),
        m.functions.contains_key(h) ==> m.release_function(h).functions.len() == m.functions.len() - 1,
        !m.functions.contains_key(h) ==> m.release_function(h) == m,
{
    if !m.functions.contains_key(h) {
        assert(m.functions.remove(h) =~= m.functions);
    }
}

/// After `clear` no handle names an object or a function, and the next
/// handle is the one that would have come next before: no handle issued
/// before is issued again.
pub proof fn law_clear_keeps_counter(m: RegistryModel, obj: GoObjectRef, h: u64)
    requires
        m.wf(),
    ensures
        ({
            let c = RegistryModel { objects: Map::empty(), functions: Map::empty(), next: m.next };
            &&& c.wf()
            &&& c.get_object(h) is None
            &&& c.get_function(h) is None
            &&& c.register_object(obj).1 == m.next
            &&& !m.objects.contains_key(c.register_object(obj).1)
            &&& !m.functions.contains_key(c.register_object(obj).1)
        }),
{
}

// ---------------------------------------------------------------------------
// Histories
// ---------------------------------------------------------------------------

/// An operation on a handle registry.
pub ghost enum RegistryOp {
    RegisterObject(GoObjectRef),
    RegisterFunction(GoFunctionRef),
    ReleaseObject(u64),
    ReleaseFunction(u64),
    Clear,
}

impl RegistryModel {
    /// The state after one operation.
    pub open spec fn apply(self, op: RegistryOp) -> RegistryModel {
        match op {
            RegistryOp::RegisterObject(o) => self.register_object(o).0,
            RegistryOp::RegisterFunction(f) => self.register_function(f).0,
            RegistryOp::ReleaseObject(h) => self.release_object(h),
            RegistryOp::ReleaseFunction(h) => self.release_function(h),
            RegistryOp::Clear => RegistryModel { objects: Map::empty(), functions: Map::empty(), next: self.next },
        }
    }

    /// The state after a sequence of operations, in order.
    pub open spec fn run(self, ops: Seq<RegistryOp>) -> RegistryModel
        decreases ops.len(),
    {
        if ops.len() == 0 {
            self
        } else {
            self.run(ops.drop_last()).apply(ops.last())
        }
    }
}

/// Whether an operation hands out a handle.
pub open spec fn is_registration(op: RegistryOp) -> bool {
    op is RegisterObject || op is RegisterFunction
}

/// The number of operations that hand out a handle.
pub open spec fn registrations(ops: Seq<RegistryOp>) -> nat
    decreases ops.len(),
{
    if ops.len() == 0 {
        0
    } else {
        registrations(ops.drop_last()) + if is_registration(ops.last()) { 1nat } else { 0nat }
    }
}

/// Whether an operation removes the object under `h`.
pub open spec fn drops_object(op: RegistryOp, h: u64) -> bool {
    op == RegistryOp::ReleaseObject(h) || op is Clear
}

/// Whether an operation removes the function under `h`.
pub open spec fn drops_function(op: RegistryOp, h: u64) -> bool {
    op == RegistryOp::ReleaseFunction(h) || op is Clear
}

/// Whether operation `i` registered an object under `h`, and no later
/// operation released it or cleared the registry.
pub open spec fn object_issued_and_kept(m: RegistryModel, ops: Seq<RegistryOp>, i: int, h: u64) -> bool {
    &&& 0 <= i < ops.len()
    &&& ops[i] is RegisterObject
    &&& m.run(ops.take(i)).next == h
    &&& forall|j: int| i < j < ops.len() ==> !drops_object(#[trigger] ops[j], h)
}

/// Whether operation `i` registered a function under `h`, and no later
/// operation released it or cleared the registry.
pub open spec fn function_issued_and_kept(m: RegistryModel, ops: Seq<RegistryOp>, i: int, h: u64) -> bool {
    &&& 0 <= i < ops.len()
    &&& ops[i] is RegisterFunction
    &&& m.run(ops.take(i)).next == h
    &&& forall|j: int| i < j < ops.len() ==> !drops_function(#[trigger] ops[j], h)
}

/// Whether the object under `h` at the start was never released or cleared.
pub open spec fn object_kept_from_start(m: RegistryModel, ops: Seq<RegistryOp>, h: u64) -> bool {
    &&& m.objects.contains_key(h)
    &&& forall|j: int| 0 <= j < ops.len() ==> !drops_object(#[trigger] ops[j], h)
}

/// Whether the function under `h` at the start was never released or cleared.
pub open spec fn function_kept_from_start(m: RegistryModel, ops: Seq<RegistryOp>, h: u64) -> bool {
    &&& m.functions.contains_key(h)
    &&& forall|j: int| 0 <= j < ops.len() ==> !drops_function(#[trigger] ops[j], h)
}

proof fn lemma_apply_wf(m: RegistryModel, op: RegistryOp)
    requires
        m.wf(),
        is_registration(op) ==> m.next < u64::MAX,
    ensures
        m.apply(op).wf(),
        m.apply(op).next == m.next + if is_registration(op) { 1int } else { 0int },
{
    match op {
        RegistryOp::RegisterObject(o) => law_register_object_then_get(m, o),
        RegistryOp::RegisterFunction(f) => law_register_function_then_get(m, f),
        RegistryOp::ReleaseObject(h) => law_release_object_count(m, h),
        RegistryOp::ReleaseFunction(h) => law_release_function_count(m, h),
        RegistryOp::Clear => {},
    }
}

/// Running operations keeps the invariant, and the counter advances by one
/// per registration.
pub proof fn law_run_counts_registrations(m: RegistryModel, ops: Seq<RegistryOp>)
    requires
        m.wf(),
        m.next + registrations(ops) < u64::MAX,
    ensures
        m.run(ops).wf(),
        m.run(ops).next == m.next + registrations(ops),
    decreases ops.len(),
{
    if ops.len() > 0 {
        law_run_counts_registrations(m, ops.drop_last());
        lemma_apply_wf(m.run(ops.drop_last()), ops.last());
    }
}

proof fn lemma_prefix_registrations(ops: Seq<RegistryOp>, i: int)
    requires
        0 <= i < ops.len(),
    ensures
        registrations(ops.take(i)) + if is_registration(ops[i]) { 1int } else { 0int } <= registrations(ops),
    decreases ops.len(),
{
    let init = ops.drop_last();
    if i == ops.len() - 1 {
        assert(ops.take(i) =~= init);
    } else {
        lemma_prefix_registrations(init, i);
        assert(init.take(i) =~= ops.take(i));
    }
}

/// The handle a registration at position `i` got is below the counter at the
/// end.
proof fn lemma_issued_below(m: RegistryModel, ops: Seq<RegistryOp>, i: int)
    requires
        m.wf(),
        m.next + registrations(ops) < u64::MAX,
        0 <= i < ops.len(),
        is_registration(ops[i]),
    ensures
        m.run(ops.take(i)).next < m.run(ops).next,
{
    lemma_prefix_registrations(ops, i);
    law_run_counts_registrations(m, ops.take(i));
    law_run_counts_registrations(m, ops);
}

proof fn lemma_prefix_facts(ops: Seq<RegistryOp>)
    requires
        ops.len() > 0,
    ensures
        ops.take(ops.len() - 1) =~= ops.drop_last(),
        forall|i: int| 0 <= i < ops.len() - 1 ==> #[trigger] ops.take(i) =~= ops.drop_last().take(i),
        forall|i: int| 0 <= i < ops.len() - 1 ==> #[trigger] ops[i] == ops.drop_last()[i],
{
    assert forall|i: int| 0 <= i < ops.len() - 1 implies #[trigger] ops.take(i) =~= ops.drop_last().take(i) by {}
}

/// When the last operation drops `h`, no object survives under it.
proof fn lemma_object_step_dropped(m: RegistryModel, ops: Seq<RegistryOp>, h: u64)
    requires
        ops.len() > 0,
        drops_object(ops.last(), h),
    ensures
        !object_kept_from_start(m, ops, h),
        !(exists|i: int| object_issued_and_kept(m, ops, i, h)),
{
    let n = ops.len() - 1;
    assert(drops_object(ops[n], h));
    assert forall|i: int| !object_issued_and_kept(m, ops, i, h) by {
        if 0 <= i < n {
            assert(drops_object(ops[n], h));
        }
    }
}

/// When the last operation neither drops `h` nor hands it out, the history
/// of `h` is that of the operations before it.
proof fn lemma_object_step_kept(m: RegistryModel, ops: Seq<RegistryOp>, h: u64)
    requires
        ops.len() > 0,
        !drops_object(ops.last(), h),
        !(ops.last() is RegisterObject && m.run(ops.drop_last()).next == h),
    ensures
        object_kept_from_start(m, ops, h) == object_kept_from_start(m, ops.drop_last(), h),
        (exists|i: int| object_issued_and_kept(m, ops, i, h)) == (exists|i: int|
            object_issued_and_kept(m, ops.drop_last(), i, h)),
        forall|i: int|
            object_issued_and_kept(m, ops, i, h) ==> #[trigger] object_issued_and_kept(m, ops.drop_last(), i, h)
                && ops[i] == ops.drop_last()[i],
{
    let n = ops.len() - 1;
    let init = ops.drop_last();
    lemma_prefix_facts(ops);
    assert forall|i: int| #[trigger] object_issued_and_kept(m, ops, i, h) implies object_issued_and_kept(m, init, i, h)
        && ops[i] == init[i] by {
        if i == n {
            assert(ops.take(n) =~= init);
        }
    }
    assert forall|i: int| #[trigger] object_issued_and_kept(m, init, i, h) implies object_issued_and_kept(m, ops, i, h) by {
        assert forall|j: int| i < j < ops.len() implies !drops_object(#[trigger] ops[j], h) by {
            if j < n {
                assert(ops[j] == init[j]);
            }
        }
    }
    if object_kept_from_start(m, init, h) {
        assert forall|j: int| 0 <= j < ops.len() implies !drops_object(#[trigger] ops[j], h) by {
            if j < n {
                assert(ops[j] == init[j]);
            }
        }
    }
    if object_kept_from_start(m, ops, h) {
        assert forall|j: int| 0 <= j < init.len() implies !drops_object(#[trigger] init[j], h) by {
            assert(ops[j] == init[j]);
        }
    }
    if exists|i: int| object_issued_and_kept(m, init, i, h) {
        let i = choose|i: int| object_issued_and_kept(m, init, i, h);
        assert(object_issued_and_kept(m, ops, i, h));
    }
    if exists|i: int| object_issued_and_kept(m, ops, i, h) {
        let i = choose|i: int| object_issued_and_kept(m, ops, i, h);
        assert(object_issued_and_kept(m, init, i, h));
    }
}

/// When the last operation registers an object and gets `h`, it is the only
/// registration of `h` still in force.
proof fn lemma_object_step_registered(m: RegistryModel, ops: Seq<RegistryOp>, h: u64)
    requires
        m.wf(),
        m.next + registrations(ops) < u64::MAX,
        ops.len() > 0,
        ops.last() is RegisterObject,
        m.run(ops.drop_last()).next == h,
    ensures
        object_issued_and_kept(m, ops, ops.len() - 1, h),
        forall|i: int| #[trigger] object_issued_and_kept(m, ops, i, h) ==> i == ops.len() - 1,
{
    let n = ops.len() - 1;
    let init = ops.drop_last();
    lemma_prefix_facts(ops);
    assert(registrations(init) <= registrations(ops));
    assert forall|i: int| #[trigger] object_issued_and_kept(m, ops, i, h) implies i == n by {
        if i < n {
            assert(is_registration(init[i]));
            lemma_issued_below(m, init, i);
        }
    }
}

/// A handle names an object after a sequence of operations exactly when it
/// named one at the start, or a registration in the sequence handed it out,
/// and no later operation released it or cleared the registry; it then names
/// the object that registration stored.
pub proof fn law_object_handles_by_history(m: RegistryModel, ops: Seq<RegistryOp>, h: u64)
    requires
        m.wf(),
        m.next + registrations(ops) < u64::MAX,
    ensures
        m.run(ops).wf(),
        m.run(ops).next == m.next + registrations(ops),
        m.run(ops).get_object(h) is Some <==> (object_kept_from_start(m, ops, h) || exists|i: int|
            object_issued_and_kept(m, ops, i, h)),
        forall|i: int|
            object_issued_and_kept(m, ops, i, h) ==> m.run(ops).get_object(h) == Some(
                #[trigger] ops[i]->RegisterObject_0,
            ),
    decreases ops.len(),
{
    law_run_counts_registrations(m, ops);
    if ops.len() == 0 {
        return;
    }
    let init = ops.drop_last();
    let last = ops.last();
    let r0 = m.run(init);
    assert(registrations(init) <= registrations(ops));
    law_object_handles_by_history(m, init, h);
    law_run_counts_registrations(m, init);
    assert(m.run(ops) == r0.apply(last));
    if drops_object(last, h) {
        lemma_object_step_dropped(m, ops, h);
        match last {
            RegistryOp::ReleaseObject(k) => {},
            _ => {},
        }
    } else if last is RegisterObject && r0.next == h {
        lemma_object_step_registered(m, ops, h);
        let o = last->RegisterObject_0;
        assert(m.run(ops).get_object(h) == Some(o));
        assert forall|i: int| object_issued_and_kept(m, ops, i, h) implies m.run(ops).get_object(h) == Some(
            #[trigger] ops[i]->RegisterObject_0,
        ) by {
            assert(i == ops.len() - 1);
        }
    } else {
        lemma_object_step_kept(m, ops, h);
        match last {
            RegistryOp::RegisterObject(o) => {
                assert(r0.register_object(o).0.get_object(h) == r0.get_object(h));
            },
            RegistryOp::ReleaseObject(k) => {
                assert(r0.release_object(k).get_object(h) == r0.get_object(h));
            },
            _ => {},
        }
        assert(m.run(ops).get_object(h) == r0.get_object(h));
        assert forall|i: int| object_issued_and_kept(m, ops, i, h) implies m.run(ops).get_object(h) == Some(
            #[trigger] ops[i]->RegisterObject_0,
        ) by {
            assert(object_issued_and_kept(m, init, i, h));
            assert(ops[i] == init[i]);
            assert(r0.get_object(h) == Some(init[i]->RegisterObject_0));
        }
    }
}

/// When the last operation drops `h`, no function survives under it.
proof fn lemma_function_step_dropped(m: RegistryModel, ops: Seq<RegistryOp>, h: u64)
    requires
        ops.len() > 0,
        drops_function(ops.last(), h),
    ensures
        !function_kept_from_start(m, ops, h),
        !(exists|i: int| function_issued_and_kept(m, ops, i, h)),
{
    let n = ops.len() - 1;
    assert(drops_function(ops[n], h));
    assert forall|i: int| !function_issued_and_kept(m, ops, i, h) by {
        if 0 <= i < n {
            assert(drops_function(ops[n], h));
        }
    }
}

/// When the last operation neither drops `h` nor hands it out, the history
/// of `h` is that of the operations before it.
proof fn lemma_function_step_kept(m: RegistryModel, ops: Seq<RegistryOp>, h: u64)
    requires
        ops.len() > 0,
        !drops_function(ops.last(), h),
        !(ops.last() is RegisterFunction && m.run(ops.drop_last()).next == h),
    ensures
        function_kept_from_start(m, ops, h) == function_kept_from_start(m, ops.drop_last(), h),
        (exists|i: int| function_issued_and_kept(m, ops, i, h)) == (exists|i: int|
            function_issued_and_kept(m, ops.drop_last(), i, h)),
        forall|i: int|
            function_issued_and_kept(m, ops, i, h) ==> #[trigger] function_issued_and_kept(m, ops.drop_last(), i, h)
                && ops[i] == ops.drop_last()[i],
{
    let n = ops.len() - 1;
    let init = ops.drop_last();
    lemma_prefix_facts(ops);
    assert forall|i: int| #[trigger] function_issued_and_kept(m, ops, i, h) implies function_issued_and_kept(m, init, i, h)
        && ops[i] == init[i] by {
        if i == n {
            assert(ops.take(n) =~= init);
        }
    }
    assert forall|i: int| #[trigger] function_issued_and_kept(m, init, i, h) implies function_issued_and_kept(m, ops, i, h) by {
        assert forall|j: int| i < j < ops.len() implies !drops_function(#[trigger] ops[j], h) by {
            if j < n {
                assert(ops[j] == init[j]);
            }
        }
    }
    if function_kept_from_start(m, init, h) {
        assert forall|j: int| 0 <= j < ops.len() implies !drops_function(#[trigger] ops[j], h) by {
            if j < n {
                assert(ops[j] == init[j]);
            }
        }
    }
    if function_kept_from_start(m, ops, h) {
        assert forall|j: int| 0 <= j < init.len() implies !drops_function(#[trigger] init[j], h) by {
            assert(ops[j] == init[j]);
        }
    }
    if exists|i: int| function_issued_and_kept(m, init, i, h) {
        let i = choose|i: int| function_issued_and_kept(m, init, i, h);
        assert(function_issued_and_kept(m, ops, i, h));
    }
    if exists|i: int| function_issued_and_kept(m, ops, i, h) {
        let i = choose|i: int| function_issued_and_kept(m, ops, i, h);
        assert(function_issued_and_kept(m, init, i, h));
    }
}

/// When the last operation registers a function and gets `h`, it is the only
/// registration of `h` still in force.
proof fn lemma_function_step_registered(m: RegistryModel, ops: Seq<RegistryOp>, h: u64)
    requires
        m.wf(),
        m.next + registrations(ops) < u64::MAX,
        ops.len() > 0,
        ops.last() is RegisterFunction,
        m.run(ops.drop_last()).next == h,
    ensures
        function_issued_and_kept(m, ops, ops.len() - 1, h),
        forall|i: int| #[trigger] function_issued_and_kept(m, ops, i, h) ==> i == ops.len() - 1,
{
    let n = ops.len() - 1;
    let init = ops.drop_last();
    lemma_prefix_facts(ops);
    assert(registrations(init) <= registrations(ops));
    assert forall|i: int| #[trigger] function_issued_and_kept(m, ops, i, h) implies i == n by {
        if i < n {
            assert(is_registration(init[i]));
            lemma_issued_below(m, init, i);
        }
    }
}

/// A handle names a function after a sequence of operations exactly when it
/// named one at the start, or a registration in the sequence handed it out,
/// and no later operation released it or cleared the registry; it then names
/// the function that registration stored.
pub proof fn law_function_handles_by_history(m: RegistryModel, ops: Seq<RegistryOp>, h: u64)
    requires
        m.wf(),
        m.next + registrations(ops) < u64::MAX,
    ensures
        m.run(ops).wf(),
        m.run(ops).next == m.next + registrations(ops),
        m.run(ops).get_function(h) is Some <==> (function_kept_from_start(m, ops, h) || exists|i: int|
            function_issued_and_kept(m, ops, i, h)),
        forall|i: int|
            function_issued_and_kept(m, ops, i, h) ==> m.run(ops).get_function(h) == Some(
                #[trigger] ops[i]->RegisterFunction_0,
            ),
    decreases ops.len(),
{
    law_run_counts_registrations(m, ops);
    if ops.len() == 0 {
        return;
    }
    let init = ops.drop_last();
    let last = ops.last();
    let r0 = m.run(init);
    assert(registrations(init) <= registrations(ops));
    law_function_handles_by_history(m, init, h);
    law_run_counts_registrations(m, init);
    assert(m.run(ops) == r0.apply(last));
    if drops_function(last, h) {
        lemma_function_step_dropped(m, ops, h);
        match last {
            RegistryOp::ReleaseFunction(k) => {},
            _ => {},
        }
    } else if last is RegisterFunction && r0.next == h {
        lemma_function_step_registered(m, ops, h);
        let o = last->RegisterFunction_0;
        assert(m.run(ops).get_function(h) == Some(o));
        assert forall|i: int| function_issued_and_kept(m, ops, i, h) implies m.run(ops).get_function(h) == Some(
            #[trigger] ops[i]->RegisterFunction_0,
        ) by {
            assert(i == ops.len() - 1);
        }
    } else {
        lemma_function_step_kept(m, ops, h);
        match last {
            RegistryOp::RegisterFunction(o) => {
                assert(r0.register_function(o).0.get_function(h) == r0.get_function(h));
            },
            RegistryOp::ReleaseFunction(k) => {
                assert(r0.release_function(k).get_function(h) == r0.get_function(h));
            },
            _ => {},
        }
        assert(m.run(ops).get_function(h) == r0.get_function(h));
        assert forall|i: int| function_issued_and_kept(m, ops, i, h) implies m.run(ops).get_function(h) == Some(
            #[trigger] ops[i]->RegisterFunction_0,
        ) by {
            assert(function_issued_and_kept(m, init, i, h));
            assert(ops[i] == init[i]);
            assert(r0.get_function(h) == Some(init[i]->RegisterFunction_0));
        }
    }
}

} // verus!
