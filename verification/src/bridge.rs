//! The decisions of the bridge to a host runtime.
//!
//! The host hands the bridge a set of callbacks (foreign function pointers,
//! invoked by the caller of this module). Before each callback the bridge
//! resolves the handle it was given and checks that the callback is there;
//! after it, the bridge turns the host's answer into a handle or an error.

use crate::domain::{DomainClass, FieldDescriptor, FieldType, PlanningAnnotation};
use crate::registry::{GoFunctionRef, GoObjectRef, HandleRegistry, RegistryModel};
use crate::text::{nat_digits, push_u64_digits};
use vstd::prelude::*;
use vstd::string::*;

verus! {

broadcast use vstd::string::group_string_axioms;

/// The handle of a host object.
#[derive(Debug, Clone, Copy, PartialEq, Eq, Structural)]
pub struct ObjectHandle {
    pub id: u64,
}

impl ObjectHandle {
    pub fn new(id: u64) -> (res: Self)
        ensures
            res.id == id,
    {
        ObjectHandle { id }
    }

    pub fn id(&self) -> (res: u64)
        ensures
            res == self.id,
    {
        self.id
    }
}

/// The handle of a host function.
#[derive(Debug, Clone, Copy, PartialEq, Eq, Structural)]
pub struct FunctionHandle {
    pub id: u64,
}

impl FunctionHandle {
    pub fn new(id: u64) -> (res: Self)
        ensures
            res.id == id,
    {
        FunctionHandle { id }
    }

    pub fn id(&self) -> (res: u64)
        ensures
            res == self.id,
    {
        self.id
    }
}

/// The operations the bridge asks of the host.
#[derive(Debug, Clone, Copy, PartialEq, Eq, Structural)]
pub enum Callback {
    GetField,
    SetField,
    CallFunction,
    Serialize,
    Deserialize,
    GetClassInfo,
    CloneObject,
    GetListSize,
    GetListItem,
}

/// The name a callback goes by in error messages.
pub open spec fn callback_name(c: Callback) -> Seq<char> {
    match c {
        Callback::GetField => "get_field"@,
        Callback::SetField => "set_field"@,
        Callback::CallFunction => "call_func"@,
        Callback::Serialize => "serialize"@,
        Callback::Deserialize => "deserialize"@,
        Callback::GetClassInfo => "get_class_info"@,
        Callback::CloneObject => "clone"@,
        Callback::GetListSize => "get_list_size"@,
        Callback::GetListItem => "get_list_item"@,
    }
}

/// Which callbacks the host has supplied.
#[derive(Debug, Clone, Copy, PartialEq, Eq, Structural)]
pub struct CallbackSet {
    pub get_field: bool,
    pub set_field: bool,
    pub call_function: bool,
    pub serialize: bool,
    pub deserialize: bool,
    pub get_class_info: bool,
    pub clone_object: bool,
    pub get_list_size: bool,
    pub get_list_item: bool,
}

impl CallbackSet {
    /// The set with no callback, which a new bridge starts with.
    pub open spec fn empty_spec() -> CallbackSet {
        CallbackSet {
            get_field: false,
            set_field: false,
            call_function: false,
            serialize: false,
            deserialize: false,
            get_class_info: false,
            clone_object: false,
            get_list_size: false,
            get_list_item: false,
        }
    }

    /// Whether the callback is in the set.
    pub open spec fn contains(self, c: Callback) -> bool {
        match c {
            Callback::GetField => self.get_field,
            Callback::SetField => self.set_field,
            Callback::CallFunction => self.call_function,
            Callback::Serialize => self.serialize,
            Callback::Deserialize => self.deserialize,
            Callback::GetClassInfo => self.get_class_info,
            Callback::CloneObject => self.clone_object,
            Callback::GetListSize => self.get_list_size,
            Callback::GetListItem => self.get_list_item,
        }
    }

    /// The set with no callback.
    pub fn none() -> (res: Self)
        ensures
            res == Self::empty_spec(),
    {
        CallbackSet {
            get_field: false,
            set_field: false,
            call_function: false,
            serialize: false,
            deserialize: false,
            get_class_info: false,
            clone_object: false,
            get_list_size: false,
            get_list_item: false,
        }
    }

    /// Whether the callback is in the set.
    pub fn has(&self, c: Callback) -> (res: bool)
        ensures
            res == self.contains(c),
    {
        match c {
            Callback::GetField => self.get_field,
            Callback::SetField => self.set_field,
            Callback::CallFunction => self.call_function,
            Callback::Serialize => self.serialize,
            Callback::Deserialize => self.deserialize,
            Callback::GetClassInfo => self.get_class_info,
            Callback::CloneObject => self.clone_object,
            Callback::GetListSize => self.get_list_size,
            Callback::GetListItem => self.get_list_item,
        }
    }
}

/// Why a bridge operation failed.
#[derive(Debug)]
pub enum BridgeError {
    /// No object is registered under the handle.
    ObjectNotFound { handle: u64 },
    /// No function is registered under the handle.
    FunctionNotFound { handle: u64 },
    /// The host did not supply the callback.
    CallbackNotSet { callback: Callback },
    /// The callback answered with a null pointer.
    NullResult { callback: Callback },
    /// The callback answered with the reference id 0, which means failure.
    ZeroResult { callback: Callback },
    /// The host refused to set the field.
    SetFieldFailed { field: String },
}

/// The text of a bridge error.
pub open spec fn bridge_error_text(e: BridgeError) -> Seq<char> {
    match e {
        BridgeError::ObjectNotFound { handle } => "Object handle "@ + nat_digits(handle as nat) + " not found"@,
        BridgeError::FunctionNotFound { handle } => "Function handle "@ + nat_digits(handle as nat) + " not found"@,
        BridgeError::CallbackNotSet { callback } => callback_name(callback) + " callback not set"@,
        BridgeError::NullResult { callback } => match callback {
            Callback::Serialize => "Serialize callback returned null"@,
            Callback::GetClassInfo => "get_class_info callback returned null"@,
            _ => "Callback returned null JSON"@,
        },
        BridgeError::ZeroResult { callback } => match callback {
            Callback::Deserialize => "Deserialize callback returned 0 (failure)"@,
            _ => "Clone callback returned 0 (failure)"@,
        },
        BridgeError::SetFieldFailed { field } => "Failed to set field '"@ + field@ + "' on object"@,
    }
}

fn callback_name_str(c: Callback) -> (res: &'static str)
    ensures
        res@ == callback_name(c),
{
    proof {
        reveal_strlit("get_field");
        reveal_strlit("set_field");
        reveal_strlit("call_func");
        reveal_strlit("serialize");
        reveal_strlit("deserialize");
        reveal_strlit("get_class_info");
        reveal_strlit("clone");
        reveal_strlit("get_list_size");
        reveal_strlit("get_list_item");
    }
    match c {
        Callback::GetField => "get_field",
        Callback::SetField => "set_field",
        Callback::CallFunction => "call_func",
        Callback::Serialize => "serialize",
        Callback::Deserialize => "deserialize",
        Callback::GetClassInfo => "get_class_info",
        Callback::CloneObject => "clone",
        Callback::GetListSize => "get_list_size",
        Callback::GetListItem => "get_list_item",
    }
}

impl BridgeError {
    /// The error's message.
    pub fn message(&self) -> (res: String)
        ensures
            res@ == bridge_error_text(*self),
    {
        proof {
            reveal_strlit("Object handle ");
            reveal_strlit("Function handle ");
            reveal_strlit(" not found");
            reveal_strlit(" callback not set");
            reveal_strlit("Serialize callback returned null");
            reveal_strlit("get_class_info callback returned null");
            reveal_strlit("Callback returned null JSON");
            reveal_strlit("Deserialize callback returned 0 (failure)");
            reveal_strlit("Clone callback returned 0 (failure)");
            reveal_strlit("Failed to set field '");
            reveal_strlit("' on object");
        }
        match self {
            BridgeError::ObjectNotFound { handle } => {
                let mut s = String::from_str("Object handle ");
                push_u64_digits(&mut s, *handle);
                s.append(" not found");
                s
            },
            BridgeError::FunctionNotFound { handle } => {
                let mut s = String::from_str("Function handle ");
                push_u64_digits(&mut s, *handle);
                s.append(" not found");
                s
            },
            BridgeError::CallbackNotSet { callback } => {
                let mut s = String::from_str(callback_name_str(*callback));
                s.append(" callback not set");
                s
            },
            BridgeError::NullResult { callback } => match callback {
                Callback::Serialize => String::from_str("Serialize callback returned null"),
                Callback::GetClassInfo => String::from_str("get_class_info callback returned null"),
                _ => String::from_str("Callback returned null JSON"),
            },
            BridgeError::ZeroResult { callback } => match callback {
                Callback::Deserialize => String::from_str("Deserialize callback returned 0 (failure)"),
                _ => String::from_str("Clone callback returned 0 (failure)"),
            },
            BridgeError::SetFieldFailed { field } => {
                let mut s = String::from_str("Failed to set field '");
                s.append(field.as_str());
                s.append("' on object");
                s
            },
        }
    }
}

/// A field of a class description sent by the host.
#[derive(Debug)]
pub struct FieldInfoData {
    pub name: String,
    pub field_type: FieldType,
    pub annotations: Vec<PlanningAnnotation>,
}

/// A class description sent by the host.
#[derive(Debug)]
pub struct ClassInfoData {
    pub name: String,
    pub fields: Vec<FieldInfoData>,
    pub annotations: Vec<PlanningAnnotation>,
}

/// The class a host's class description describes: same name, same
/// annotations, and the same fields in the same order.
pub fn class_info_from_data(data: ClassInfoData) -> (res: DomainClass)
    ensures
        res.name == data.name,
        res.annotations@ == data.annotations@,
        res.fields@.len() == data.fields@.len(),
        forall|i: int|
            0 <= i < data.fields@.len() ==> {
                &&& (#[trigger] res.fields@[i]).name == data.fields@[i].name
                &&& res.fields@[i].field_type == data.fields@[i].field_type
                &&& res.fields@[i].annotations@ == data.fields@[i].annotations@
            },
{
    let ghost all = data.fields@;
    let mut rest = data.fields;
    let mut fields: Vec<FieldDescriptor> = Vec::new();
    while rest.len() > 0
        invariant
            fields@.len() + rest@.len() == all.len(),
            rest@ == all.subrange(fields@.len() as int, all.len() as int),
            forall|i: int|
                0 <= i < fields@.len() ==> {
                    &&& (#[trigger] fields@[i]).name == all[i].name
                    &&& fields@[i].field_type == all[i].field_type
                    &&& fields@[i].annotations@ == all[i].annotations@
                },
        decreases rest@.len(),
    {
        let ghost before = rest@;
        let ghost k = fields@.len();
        let f = rest.remove(0);
        assert(before[0] == all[k as int]);
        fields.push(FieldDescriptor { name: f.name, field_type: f.field_type, annotations: f.annotations });
        assert(rest@ =~= all.subrange(fields@.len() as int, all.len() as int));
    }
    DomainClass { name: data.name, annotations: data.annotations, fields }
}

/// The bridge to a host runtime: its handle registry and its callbacks.
#[derive(Debug)]
pub struct GoBridge {
    registry: HandleRegistry,
    callbacks: CallbackSet,
}

impl GoBridge {
    /// The bridge's invariant: that of its registry's model.
    pub open spec fn wf(&self) -> bool {
        self.registry_view().wf()
    }

    /// The state of the bridge's registry.
    pub closed spec fn registry_view(&self) -> RegistryModel {
        self.registry@
    }

    /// The callbacks the bridge has.
    pub closed spec fn callbacks_view(&self) -> CallbackSet {
        self.callbacks
    }

    /// A bridge with an empty registry and no callbacks.
    pub fn new() -> (res: Self)
        ensures
            res.wf(),
            res.registry_view().objects == Map::<u64, GoObjectRef>::empty(),
            res.registry_view().functions == Map::<u64, GoFunctionRef>::empty(),
            res.registry_view().next == 1,
            res.callbacks_view() == CallbackSet::empty_spec(),
    {
        GoBridge { registry: HandleRegistry::new(), callbacks: CallbackSet::none() }
    }

    /// A bridge with an empty registry and the given callbacks.
    pub fn with_callbacks(callbacks: CallbackSet) -> (res: Self)
        ensures
            res.wf(),
            res.registry_view().objects == Map::<u64, GoObjectRef>::empty(),
            res.registry_view().functions == Map::<u64, GoFunctionRef>::empty(),
            res.registry_view().next == 1,
            res.callbacks_view() == callbacks,
    {
        GoBridge { registry: HandleRegistry::new(), callbacks }
    }

    /// Replace the callbacks; the registry is kept.
    pub fn set_callbacks(&mut self, callbacks: CallbackSet)
        ensures
            final(self).wf() == old(self).wf(),
            final(self).registry_view() == old(self).registry_view(),
            final(self).callbacks_view() == callbacks,
    {
        self.callbacks = callbacks;
    }

    /// The bridge's registry.
    pub fn registry(&self) -> (res: &HandleRegistry)
        ensures
            res@ == self.registry_view(),
            res.wf() == self.wf(),
    {
        &self.registry
    }

    /// The bridge's callbacks.
    pub fn callbacks(&self) -> (res: CallbackSet)
        ensures
            res == self.callbacks_view(),
    {
        self.callbacks
    }

    /// Register a host object and return its handle.
    pub fn register_object(&mut self, go_ref_id: u64) -> (res: ObjectHandle)
        requires
            old(self).wf(),
            old(self).registry_view().next < u64::MAX,
        ensures
            final(self).wf(),
            final(self).callbacks_view() == old(self).callbacks_view(),
            (final(self).registry_view(), res.id) == old(self).registry_view().register_object(
                GoObjectRef::new_spec(go_ref_id, None),
            ),
    {
        let id = self.registry.register_object(go_ref_id);
        ObjectHandle::new(id)
    }

    /// Register a host object with its class name and return its handle.
    pub fn register_object_with_class(&mut self, go_ref_id: u64, class_name: String) -> (res: ObjectHandle)
        requires
            old(self).wf(),
            old(self).registry_view().next < u64::MAX,
        ensures
            final(self).wf(),
            final(self).callbacks_view() == old(self).callbacks_view(),
            (final(self).registry_view(), res.id) == old(self).registry_view().register_object(
                GoObjectRef::new_spec(go_ref_id, Some(class_name)),
            ),
    {
        let id = self.registry.register_object_with_class(go_ref_id, class_name);
        ObjectHandle::new(id)
    }

    /// The object registered under a handle.
    pub fn get_go_object(&self, handle: ObjectHandle) -> (res: Result<GoObjectRef, BridgeError>)
        ensures
            match self.registry_view().get_object(handle.id) {
                Some(r) => res == Ok::<GoObjectRef, BridgeError>(r),
                None => res == Err::<GoObjectRef, BridgeError>(BridgeError::ObjectNotFound { handle: handle.id }),
            },
    {
        match self.registry.get_object(handle.id) {
            Some(r) => Ok(r),
            None => Err(BridgeError::ObjectNotFound { handle: handle.id }),
        }
    }

    /// The function registered under a handle.
    pub fn get_go_function(&self, handle: FunctionHandle) -> (res: Result<GoFunctionRef, BridgeError>)
        ensures
            match self.registry_view().get_function(handle.id) {
                Some(r) => res == Ok::<GoFunctionRef, BridgeError>(r),
                None => res == Err::<GoFunctionRef, BridgeError>(
                    BridgeError::FunctionNotFound { handle: handle.id },
                ),
            },
    {
        match self.registry.get_function(handle.id) {
            Some(r) => Ok(r),
            None => Err(BridgeError::FunctionNotFound { handle: handle.id }),
        }
    }

    /// Register the host object under `func` as a function as well.
    pub fn register_function(&mut self, func: ObjectHandle) -> (res: Result<FunctionHandle, BridgeError>)
        requires
            old(self).wf(),
            old(self).registry_view().next < u64::MAX,
        ensures
            final(self).wf(),
            final(self).callbacks_view() == old(self).callbacks_view(),
            match old(self).registry_view().get_object(func.id) {
                Some(r) => {
                    &&& res is Ok
                    &&& (final(self).registry_view(), res->Ok_0.id) == old(self).registry_view().register_function(
                        GoFunctionRef { go_ref_id: r.go_ref_id },
                    )
                },
                None => {
                    &&& res == Err::<FunctionHandle, BridgeError>(BridgeError::ObjectNotFound { handle: func.id })
                    &&& final(self).registry_view() == old(self).registry_view()
                },
            },
    {
        match self.get_go_object(func) {
            Ok(r) => {
                let id = self.registry.register_function(r.go_ref_id);
                Ok(FunctionHandle::new(id))
            },
            Err(e) => Err(e),
        }
    }

    /// What precedes a callback on an object: the handle is resolved first,
    /// then the callback must be there. On success, the object's reference.
    pub fn prepare_object_call(&self, obj: ObjectHandle, callback: Callback) -> (res: Result<GoObjectRef, BridgeError>)
        ensures
            match self.registry_view().get_object(obj.id) {
                None => res == Err::<GoObjectRef, BridgeError>(BridgeError::ObjectNotFound { handle: obj.id }),
                Some(r) => if self.callbacks_view().contains(callback) {
                    res == Ok::<GoObjectRef, BridgeError>(r)
                } else {
                    res == Err::<GoObjectRef, BridgeError>(BridgeError::CallbackNotSet { callback })
                },
            },
    {
        match self.get_go_object(obj) {
            Err(e) => Err(e),
            Ok(r) => if self.callbacks.has(callback) {
                Ok(r)
            } else {
                Err(BridgeError::CallbackNotSet { callback })
            },
        }
    }

    /// What precedes calling a host function: the handle is resolved first,
    /// then the call callback must be there.
    pub fn prepare_function_call(&self, func: FunctionHandle) -> (res: Result<GoFunctionRef, BridgeError>)
        ensures
            match self.registry_view().get_function(func.id) {
                None => res == Err::<GoFunctionRef, BridgeError>(
                    BridgeError::FunctionNotFound { handle: func.id },
                ),
                Some(r) => if self.callbacks_view().call_function {
                    res == Ok::<GoFunctionRef, BridgeError>(r)
                } else {
                    res == Err::<GoFunctionRef, BridgeError>(
                        BridgeError::CallbackNotSet { callback: Callback::CallFunction },
                    )
                },
            },
    {
        match self.get_go_function(func) {
            Err(e) => Err(e),
            Ok(r) => if self.callbacks.call_function {
                Ok(r)
            } else {
                Err(BridgeError::CallbackNotSet { callback: Callback::CallFunction })
            },
        }
    }

    /// What precedes building an object from JSON: the deserialize callback
    /// must be there.
    pub fn prepare_deserialize(&self) -> (res: Result<(), BridgeError>)
        ensures
            self.callbacks_view().deserialize ==> res is Ok,
            !self.callbacks_view().deserialize ==> res == Err::<(), BridgeError>(
                BridgeError::CallbackNotSet { callback: Callback::Deserialize },
            ),
    {
        if self.callbacks.deserialize {
            Ok(())
        } else {
            Err(BridgeError::CallbackNotSet { callback: Callback::Deserialize })
        }
    }

    /// The host's answer to a callback that returns text: a null answer
    /// (`None`) fails, anything else is handed on.
    pub fn text_reply(callback: Callback, reply: Option<String>) -> (res: Result<String, BridgeError>)
        ensures
            match reply {
                Some(t) => res == Ok::<String, BridgeError>(t),
                None => res == Err::<String, BridgeError>(BridgeError::NullResult { callback }),
            },
    {
        match reply {
            Some(t) => Ok(t),
            None => Err(BridgeError::NullResult { callback }),
        }
    }

    /// The host's answer to setting a field.
    pub fn set_field_reply(success: bool, field: &str) -> (res: Result<(), BridgeError>)
        ensures
            success ==> res is Ok,
            !success ==> (res matches Err(BridgeError::SetFieldFailed { field: f }) && f@ == field@),
    {
        if success {
            Ok(())
        } else {
            Err(BridgeError::SetFieldFailed { field: String::from_str(field) })
        }
    }

    /// The host's answer to building an object from JSON: reference id 0
    /// fails; any other id is registered with the class name.
    pub fn deserialize_reply(&mut self, go_ref_id: u64, class_name: String) -> (res: Result<ObjectHandle, BridgeError>)
        requires
            old(self).wf(),
            old(self).registry_view().next < u64::MAX,
        ensures
            final(self).wf(),
            final(self).callbacks_view() == old(self).callbacks_view(),
            go_ref_id == 0 ==> {
                &&& res == Err::<ObjectHandle, BridgeError>(
                    BridgeError::ZeroResult { callback: Callback::Deserialize },
                )
                &&& final(self).registry_view() == old(self).registry_view()
            },
            go_ref_id != 0 ==> {
                &&& res is Ok
                &&& (final(self).registry_view(), res->Ok_0.id) == old(self).registry_view().register_object(
                    GoObjectRef::new_spec(go_ref_id, Some(class_name)),
                )
            },
    {
        if go_ref_id == 0 {
            Err(BridgeError::ZeroResult { callback: Callback::Deserialize })
        } else {
            Ok(self.register_object_with_class(go_ref_id, class_name))
        }
    }

    /// The host's answer to cloning `source`: reference id 0 fails; any
    /// other id is registered, with the class name of `source` if it had one.
    pub fn clone_reply(&mut self, source: &GoObjectRef, new_go_ref_id: u64) -> (res: Result<ObjectHandle, BridgeError>)
        requires
            old(self).wf(),
            old(self).registry_view().next < u64::MAX,
        ensures
            final(self).wf(),
            final(self).callbacks_view() == old(self).callbacks_view(),
            new_go_ref_id == 0 ==> {
                &&& res == Err::<ObjectHandle, BridgeError>(
                    BridgeError::ZeroResult { callback: Callback::CloneObject },
                )
                &&& final(self).registry_view() == old(self).registry_view()
            },
            new_go_ref_id != 0 ==> {
                &&& res is Ok
                &&& (final(self).registry_view(), res->Ok_0.id) == old(self).registry_view().register_object(
                    GoObjectRef::new_spec(new_go_ref_id, source.class_name),
                )
            },
    {
        if new_go_ref_id == 0 {
            return Err(BridgeError::ZeroResult { callback: Callback::CloneObject });
        }
        match &source.class_name {
            Some(class_name) => Ok(self.register_object_with_class(new_go_ref_id, class_name.clone())),
            None => Ok(self.register_object(new_go_ref_id)),
        }
    }
}

/// No callback is in the empty set, the set a new bridge starts with.
pub proof fn law_no_callbacks_refuses_calls(c: Callback)
    ensures
        !CallbackSet::empty_spec().contains(c),
{
}

} // verus!
