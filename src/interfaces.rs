//! The registry of an object's interfaces, its finalization with the standard
//! interfaces, and the dispatch of incoming calls.
use vstd::prelude::*;
use vstd::string::StringExecFns;
use crate::error::Error;
use crate::interface::{
    Argument, Callback, ErrorMessage, Interface, Method, MethodHandler, MethodResult,
    PropertyReadHandler, PropertyWriteHandler, error_is, get_property_answer, readable_values,
    string_keyed, all_string_keys, set_property_answer,
};
use crate::introspect::{document_xml, render_document};
use crate::machine::machine_id_text;
use crate::message::{Message, MessageType, decimal, invalid_args_name, invalid_arguments_error};
use crate::name_map::NameMap;
use crate::value::{Value, is_string_value};

verus! {

pub open spec fn peer_name() -> Seq<char> {
    "org.freedesktop.DBus.Peer"@
}

pub open spec fn properties_name() -> Seq<char> {
    "org.freedesktop.DBus.Properties"@
}

pub open spec fn introspectable_name() -> Seq<char> {
    "org.freedesktop.DBus.Introspectable"@
}

pub open spec fn unknown_interface_name() -> Seq<char> {
    "org.freedesktop.DBus.Error.UnknownInterface"@
}

/// `args` are, in order, the arguments named and typed as `expected`.
pub open spec fn args_are(args: Seq<Argument>, expected: Seq<(Seq<char>, Seq<char>)>) -> bool {
    &&& args.len() == expected.len()
    &&& forall|i: int|
        0 <= i < args.len() ==> (#[trigger] args[i]).name@ == expected[i].0 && args[i].signature@
            == expected[i].1
}

/// `m` is a method run by `cb` with the inputs `ins` and outputs `outs`,
/// and no annotations.
pub open spec fn method_is(
    m: Option<Method>,
    cb: Callback,
    ins: Seq<(Seq<char>, Seq<char>)>,
    outs: Seq<(Seq<char>, Seq<char>)>,
) -> bool {
    &&& m is Some
    &&& m->Some_0.cb == cb
    &&& args_are(m->Some_0.in_args@, ins)
    &&& args_are(m->Some_0.out_args@, outs)
    &&& m->Some_0.anns@.len() == 0
}

/// `i` has the methods named in `names`, and no properties or signals.
pub open spec fn only_methods(i: Interface, names: Seq<Seq<char>>) -> bool {
    &&& i.methods.keys().len() == names.len()
    &&& forall|k: int| 0 <= k < names.len() ==> i.methods.has(#[trigger] names[k])
    &&& i.properties.keys().len() == 0
    &&& i.signals.keys().len() == 0
}

/// `Ping()` and `GetMachineId() -> (machine_uuid: s)`.
pub open spec fn is_peer_interface(i: Interface) -> bool {
    &&& only_methods(i, seq!["Ping"@, "GetMachineId"@])
    &&& method_is(i.methods.lookup("Ping"@), Callback::Ping, seq![], seq![])
    &&& method_is(i.methods.lookup("GetMachineId"@), Callback::GetMachineId, seq![], seq![("machine_uuid"@, "s"@)])
}

/// `Get(interface_name: s, property_name: s) -> (value: v)`,
/// `Set(interface_name: s, property_name: s) -> (value: v)` and
/// `GetAll(interface_name: s) -> (props: {sv})`.
pub open spec fn is_properties_interface(i: Interface) -> bool {
    &&& only_methods(i, seq!["Get"@, "Set"@, "GetAll"@])
    &&& method_is(
        i.methods.lookup("Get"@),
        Callback::GetProperty,
        seq![("interface_name"@, "s"@), ("property_name"@, "s"@)],
        seq![("value"@, "v"@)],
    )
    &&& method_is(
        i.methods.lookup("Set"@),
        Callback::SetProperty,
        seq![("interface_name"@, "s"@), ("property_name"@, "s"@)],
        seq![("value"@, "v"@)],
    )
    &&& method_is(
        i.methods.lookup("GetAll"@),
        Callback::GetAllProperties,
        seq![("interface_name"@, "s"@)],
        seq![("props"@, "{sv}"@)],
    )
}

/// `Introspect() -> (xml_data: s)`.
pub open spec fn is_introspectable_interface(i: Interface) -> bool {
    &&& only_methods(i, seq!["Introspect"@])
    &&& method_is(i.methods.lookup("Introspect"@), Callback::Introspect, seq![], seq![("xml_data"@, "s"@)])
}

/// The standard interface that answers liveness checks.
pub struct PeerInterface;

impl PeerInterface {
    pub fn new() -> (r: Interface)
        ensures
            is_peer_interface(r),
            r.methods.valid(),
    {
        let i0 = Interface::new();
        let m1 = Method::with_callback(Callback::Ping);
        let ghost g1 = m1;
        let i1 = i0.add_method("Ping", m1);
        let m2 = Method::with_callback(Callback::GetMachineId).add_result(Argument::new("machine_uuid", "s"));
        let ghost g2 = m2;
        let i2 = i1.add_method("GetMachineId", m2);
        proof {
            reveal_strlit("Ping");
            reveal_strlit("GetMachineId");
            assert("Ping"@.len() != "GetMachineId"@.len());
            i0.methods.lemma_inserted_has(i1.methods, "Ping"@, g1, "Ping"@);
            i1.methods.lemma_inserted_has(i2.methods, "GetMachineId"@, g2, "Ping"@);
            i1.methods.lemma_inserted_lookup(i2.methods, "GetMachineId"@, g2, "Ping"@);
            assert(g1.in_args@ =~= Seq::<Argument>::empty());
            let names = seq!["Ping"@, "GetMachineId"@];
            assert(forall|k: int| 0 <= k < names.len() ==> i2.methods.has(#[trigger] names[k]));
        }
        i2
    }
}

/// The standard interface that reads and writes the properties of the
/// registry's other interfaces.
pub struct PropertyInterface;

impl PropertyInterface {
    pub fn new() -> (r: Interface)
        ensures
            is_properties_interface(r),
            r.methods.valid(),
    {
        let i0 = Interface::new();
        let m1 = Method::with_callback(Callback::GetProperty).add_argument(
            Argument::new("interface_name", "s"),
        ).add_argument(Argument::new("property_name", "s")).add_result(Argument::new("value", "v"));
        let ghost g1 = m1;
        let i1 = i0.add_method("Get", m1);
        let m2 = Method::with_callback(Callback::SetProperty).add_argument(
            Argument::new("interface_name", "s"),
        ).add_argument(Argument::new("property_name", "s")).add_result(Argument::new("value", "v"));
        let ghost g2 = m2;
        let i2 = i1.add_method("Set", m2);
        let m3 = Method::with_callback(Callback::GetAllProperties).add_argument(
            Argument::new("interface_name", "s"),
        ).add_result(Argument::new("props", "{sv}"));
        let ghost g3 = m3;
        let i3 = i2.add_method("GetAll", m3);
        proof {
            reveal_strlit("Get");
            reveal_strlit("Set");
            reveal_strlit("GetAll");
            assert("Get"@[0] != "Set"@[0]);
            assert("Get"@.len() != "GetAll"@.len());
            assert("Set"@.len() != "GetAll"@.len());
            i0.methods.lemma_inserted_has(i1.methods, "Get"@, g1, "Get"@);
            i1.methods.lemma_inserted_has(i2.methods, "Set"@, g2, "Get"@);
            i1.methods.lemma_inserted_lookup(i2.methods, "Set"@, g2, "Get"@);
            i2.methods.lemma_inserted_has(i3.methods, "GetAll"@, g3, "Set"@);
            i2.methods.lemma_inserted_lookup(i3.methods, "GetAll"@, g3, "Get"@);
            i2.methods.lemma_inserted_lookup(i3.methods, "GetAll"@, g3, "Set"@);
            let names = seq!["Get"@, "Set"@, "GetAll"@];
            assert(forall|k: int| 0 <= k < names.len() ==> i3.methods.has(#[trigger] names[k]));
        }
        i3
    }
}

/// The standard interface that describes the object.
pub struct IntrospectableInterface;

impl IntrospectableInterface {
    pub fn new() -> (r: Interface)
        ensures
            is_introspectable_interface(r),
            r.methods.valid(),
    {
        let i0 = Interface::new();
        let m = Method::with_callback(Callback::Introspect).add_result(Argument::new("xml_data", "s"));
        let ghost g = m;
        let i1 = i0.add_method("Introspect", m);
        proof {
            i0.methods.lemma_inserted_has(i1.methods, "Introspect"@, g, "Introspect"@);
            let names = seq!["Introspect"@];
            assert(forall|k: int| 0 <= k < names.len() ==> i1.methods.has(#[trigger] names[k]));
        }
        i1
    }
}

/// The interfaces of one object, by name, and the names of its child objects.
/// Once finalized, no interface can be added.
pub struct Interfaces {
    map: NameMap<Interface>,
    children: Vec<String>,
    finalized: bool,
}

/// The string argument at `i` of `msg`'s body, if there is one.
pub open spec fn string_arg(msg: Message, i: int) -> Option<Seq<char>> {
    if 0 <= i < msg.body@.len() && msg.body@[i] is BasicValue && msg.body@[i]->BasicValue_0 is String {
        Some(msg.body@[i]->BasicValue_0->String_0@)
    } else {
        None
    }
}

/// `res` is the error for a call that carries no arguments at all.
pub open spec fn invalid_arguments(res: MethodResult) -> bool {
    res is Err && error_is(res->Err_0, invalid_args_name(), "invalid arguments"@)
}

/// `res` is the error for a missing or mistyped argument at `i`.
pub open spec fn invalid_arg(res: MethodResult, i: nat) -> bool {
    res is Err && error_is(res->Err_0, invalid_args_name(), "invalid argument at "@ + decimal(i))
}

pub open spec fn unknown_interface(res: MethodResult, name: Seq<char>) -> bool {
    res is Err && error_is(res->Err_0, unknown_interface_name(), "unknown interface: "@ + name)
}

/// `reply` answers the call `msg` with the outcome `res`: a method return
/// carrying the values in order, or an error named as the failure with its
/// message as the one argument.
pub open spec fn reply_for(msg: Message, res: MethodResult, reply: Message) -> bool {
    &&& reply.reply_serial == Some(msg.serial)
    &&& match res {
        Ok(vals) => reply.message_type == MessageType::MethodReturn && reply.error_name is None
            && reply.body@ == vals@,
        Err(e) => reply.message_type == MessageType::Error && reply.error_name is Some
            && reply.error_name->Some_0@ == e.name@ && reply.body@.len() == 1 && is_string_value(
            reply.body@[0],
            e.message@,
        ),
    }
}

/// The reply to the call `msg` whose method came out with `res`.
pub fn reply_to(msg: &Message, res: MethodResult) -> (r: Message)
    ensures
        reply_for(*msg, res, r),
{
    match res {
        Ok(vals) => {
            let mut m = msg.return_message();
            m.body = vals;
            m
        },
        Err(e) => msg.error_message(e.name.as_str()).add_argument(Value::from_string(e.message)),
    }
}

impl Interfaces {
    /// The registered interfaces, by name.
    pub closed spec fn interface_map(&self) -> NameMap<Interface> {
        self.map
    }

    /// The names of the object's children.
    pub closed spec fn child_names(&self) -> Seq<String> {
        self.children@
    }

    /// Whether the registry has been finalized.
    pub closed spec fn is_sealed(&self) -> bool {
        self.finalized
    }

    pub fn is_finalized(&self) -> (r: bool)
        ensures
            r == self.is_sealed(),
    {
        self.finalized
    }

    /// The registered interfaces, by name, in name order.
    pub fn interfaces(&self) -> (r: &NameMap<Interface>)
        ensures
            *r == self.interface_map(),
    {
        &self.map
    }

    /// The names of the object's children, as given at finalization.
    pub fn children(&self) -> (r: &Vec<String>)
        ensures
            r@ == self.child_names(),
    {
        &self.children
    }

    pub open spec fn has_method(&self, iface: Seq<char>, method: Seq<char>) -> bool {
        self.interface_map().has(iface) && self.interface_map().lookup(iface)->Some_0.methods.has(method)
    }

    /// The method that a call names, when `msg` is a call to a registered
    /// interface and method.
    pub open spec fn target_method(&self, msg: Message) -> Option<Method> {
        if msg.message_type == MessageType::MethodCall && msg.interface is Some && msg.member is Some
            && self.has_method(msg.interface->Some_0@, msg.member->Some_0@) {
            self.interface_map().lookup(msg.interface->Some_0@)->Some_0.methods.lookup(msg.member->Some_0@)
        } else {
            None
        }
    }

    /// `reply` answers the call `msg` as the method that it targets answers,
    /// with the application's handlers in state `before` and then `after`.
    pub open spec fn replies<H: MethodHandler + PropertyReadHandler + PropertyWriteHandler>(
        &self,
        before: &H,
        after: &H,
        msg: Message,
        reply: Message,
    ) -> bool {
        exists|res: MethodResult|
            self.answers(before, after, self.target_method(msg)->Some_0.cb, msg, res) && #[trigger] reply_for(
                msg,
                res,
                reply,
            )
    }

    /// The introspection document of this registry.
    pub open spec fn document(&self) -> Seq<char> {
        document_xml(self.interface_map(), self.child_names())
    }

    /// What method `cb` answers to `msg`, with the application's handlers
    /// in state `before` and then `after`. A standard method leaves the
    /// handlers untouched, unless `Set` reaches a property's writer; an
    /// application's method answers as its handler does.
    pub open spec fn answers<H: MethodHandler + PropertyReadHandler + PropertyWriteHandler>(
        &self,
        before: &H,
        after: &H,
        cb: Callback,
        msg: Message,
        res: MethodResult,
    ) -> bool {
        match cb {
            Callback::Ping => res is Ok && res->Ok_0@.len() == 0 && *after == *before,
            Callback::GetMachineId => res is Ok && res->Ok_0@.len() == 1 && res->Ok_0@[0] is BasicValue
                && res->Ok_0@[0]->BasicValue_0 is String && res->Ok_0@[0]->BasicValue_0->String_0@.len() == 36
                && *after == *before,
            Callback::GetProperty => *after == *before && if msg.body@.len() == 0 {
                invalid_arguments(res)
            } else {
                match string_arg(msg, 0) {
                    None => invalid_arg(res, 0),
                    Some(i) => match string_arg(msg, 1) {
                        None => invalid_arg(res, 1),
                        Some(p) => match self.interface_map().lookup(i) {
                            None => unknown_interface(res, i),
                            Some(iface) => get_property_answer(iface.properties, before, p, res),
                        },
                    },
                }
            },
            Callback::SetProperty => if msg.body@.len() == 0 {
                invalid_arguments(res) && *after == *before
            } else {
                match string_arg(msg, 0) {
                    None => invalid_arg(res, 0) && *after == *before,
                    Some(i) => match string_arg(msg, 1) {
                        None => invalid_arg(res, 1) && *after == *before,
                        Some(p) => if msg.body@.len() < 3 {
                            invalid_arg(res, 2) && *after == *before
                        } else {
                            match self.interface_map().lookup(i) {
                                None => unknown_interface(res, i) && *after == *before,
                                Some(iface) => set_property_answer(
                                    iface.properties,
                                    *before,
                                    *after,
                                    p,
                                    msg.body@[2],
                                    res,
                                ),
                            }
                        },
                    },
                }
            },
            Callback::GetAllProperties => *after == *before && if msg.body@.len() == 0 {
                invalid_arguments(res)
            } else {
                match string_arg(msg, 0) {
                    None => invalid_arg(res, 0),
                    Some(i) => match self.interface_map().lookup(i) {
                        None => unknown_interface(res, i),
                        Some(iface) => res is Ok && res->Ok_0@.len() == 1 && res->Ok_0@[0] is Dictionary
                            && res->Ok_0@[0]->Dictionary_0.signature.0@ == "a{sv}"@ && all_string_keys(
                            res->Ok_0@[0]->Dictionary_0.entries@,
                        ) && string_keyed(res->Ok_0@[0]->Dictionary_0.entries@) == readable_values(
                            iface.properties.keys(),
                            iface.properties.vals(),
                            before,
                            iface.properties.keys().len() as int,
                        ),
                    },
                }
            },
            Callback::Introspect => res is Ok && res->Ok_0@.len() == 1 && is_string_value(
                res->Ok_0@[0],
                self.document(),
            ) && *after == *before,
            Callback::User(id) => before.called(after, id, msg, res),
        }
    }

    /// `r` is the outcome of adding `iface` under `name` to this registry:
    /// refused when the registry is finalized, or else when `name` is taken;
    /// otherwise the registry with the new entry in its place.
    pub open spec fn added(&self, name: Seq<char>, iface: Interface, r: Result<Self, Error>) -> bool {
        &&& self.is_sealed() ==> r is Err && r->Err_0 is RegistryFinalized && r->Err_0->RegistryFinalized_0@
            == name
        &&& !self.is_sealed() && self.interface_map().has(name) ==> r is Err && r->Err_0 is InterfaceAlreadyRegistered
            && r->Err_0->InterfaceAlreadyRegistered_0@ == name
        &&& !self.is_sealed() && !self.interface_map().has(name) ==> r is Ok && self.interface_map().inserted(r->Ok_0.interface_map(), name, iface)
            && r->Ok_0.interface_map().valid() && !r->Ok_0.is_sealed() && r->Ok_0.child_names()
            == self.child_names()
    }

    /// `r` is the outcome of finalizing this registry with the child objects
    /// `children`: refused when it is already finalized or when a standard
    /// interface's name is taken; otherwise the registry with the peer,
    /// properties and introspectable interfaces added, finalized.
    pub open spec fn finalized_into(&self, children: Seq<String>, r: Result<Self, Error>) -> bool {
        let m = self.interface_map();
        &&& self.is_sealed() ==> r is Err && r->Err_0 is RegistryFinalized
        &&& !self.is_sealed() && m.has(peer_name()) ==> r is Err && r->Err_0 is InterfaceAlreadyRegistered
            && r->Err_0->InterfaceAlreadyRegistered_0@ == peer_name()
        &&& !self.is_sealed() && !m.has(peer_name()) && m.has(properties_name()) ==> r is Err
            && r->Err_0 is InterfaceAlreadyRegistered && r->Err_0->InterfaceAlreadyRegistered_0@
            == properties_name()
        &&& !self.is_sealed() && !m.has(peer_name()) && !m.has(properties_name()) && m.has(
            introspectable_name(),
        ) ==> r is Err && r->Err_0 is InterfaceAlreadyRegistered && r->Err_0->InterfaceAlreadyRegistered_0@
            == introspectable_name()
        &&& !self.is_sealed() && !m.has(peer_name()) && !m.has(properties_name()) && !m.has(
            introspectable_name(),
        ) ==> r is Ok && self.finalized_as(children, r->Ok_0)
    }

    /// `after` is this registry with the three standard interfaces added
    /// under their names, the other interfaces unchanged, the children
    /// recorded, and finalized.
    pub open spec fn finalized_as(&self, children: Seq<String>, after: Self) -> bool {
        let m = self.interface_map();
        let m2 = after.interface_map();
        &&& after.is_sealed()
        &&& after.child_names() == children
        &&& m2.valid()
        &&& m2.keys().len() == m.keys().len() + 3
        &&& forall|k: Seq<char>|
            #[trigger] m2.has(k) <==> (m.has(k) || k == peer_name() || k == properties_name() || k
                == introspectable_name())
        &&& forall|k: Seq<char>| #[trigger] m.has(k) ==> m2.lookup(k) == m.lookup(k)
        &&& is_peer_interface(m2.lookup(peer_name())->Some_0)
        &&& is_properties_interface(m2.lookup(properties_name())->Some_0)
        &&& is_introspectable_interface(m2.lookup(introspectable_name())->Some_0)
    }

    pub fn new() -> (r: Self)
        ensures
            r.interface_map().keys().len() == 0,
            r.interface_map().vals().len() == 0,
            r.child_names().len() == 0,
            !r.is_sealed(),
    {
        Interfaces { map: NameMap::new(), children: Vec::new(), finalized: false }
    }

    /// Registers `iface` under `name`. Fails when the registry is finalized,
    /// or else when `name` is already registered.
    pub fn add_interface(self, name: &str, iface: Interface) -> (r: Result<Self, Error>)
        ensures
            self.added(name@, iface, r),
    {
        if self.finalized {
            return Err(Error::RegistryFinalized(name.to_owned()));
        }
        match self.map.find(name) {
            Some(_) => Err(Error::InterfaceAlreadyRegistered(name.to_owned())),
            None => {
                let mut s = self;
                s.map.insert(name, iface);
                Ok(s)
            },
        }
    }

    /// Adds the peer, properties and introspectable interfaces, records the
    /// child objects, and finalizes the registry.
    pub fn finalize(self, children: Vec<String>) -> (r: Result<Self, Error>)
        ensures
            self.finalized_into(children@, r),
    {
        proof {
            reveal_strlit("org.freedesktop.DBus.Peer");
            reveal_strlit("org.freedesktop.DBus.Properties");
            reveal_strlit("org.freedesktop.DBus.Introspectable");
        }
        assert(peer_name().len() != properties_name().len());
        assert(peer_name().len() != introspectable_name().len());
        assert(properties_name().len() != introspectable_name().len());
        let ghost m0 = self.map;
        proof {
            use_type_invariant(&self.map);
        }
        let i1 = PeerInterface::new();
        let ghost g1 = i1;
        let s1 = match self.add_interface("org.freedesktop.DBus.Peer", i1) {
            Ok(s) => s,
            Err(e) => return Err(e),
        };
        let ghost m1 = s1.map;
        proof {
            assert forall|k: Seq<char>| #[trigger] m0.has(k) implies m1.has(k) by {
                m0.lemma_inserted_has(m1, peer_name(), g1, k);
            }
            if m1.has(properties_name()) {
                m0.lemma_inserted_has_only(m1, peer_name(), g1, properties_name());
            }
            if m1.has(introspectable_name()) {
                m0.lemma_inserted_has_only(m1, peer_name(), g1, introspectable_name());
            }
        }
        let i2 = PropertyInterface::new();
        let ghost g2 = i2;
        let s2 = match s1.add_interface("org.freedesktop.DBus.Properties", i2) {
            Ok(s) => s,
            Err(e) => return Err(e),
        };
        let ghost m2 = s2.map;
        proof {
            assert forall|k: Seq<char>| #[trigger] m1.has(k) implies m2.has(k) by {
                m1.lemma_inserted_has(m2, properties_name(), g2, k);
            }
            if m2.has(introspectable_name()) {
                m1.lemma_inserted_has_only(m2, properties_name(), g2, introspectable_name());
            }
        }
        let i3 = IntrospectableInterface::new();
        let ghost g3 = i3;
        let mut s3 = match s2.add_interface("org.freedesktop.DBus.Introspectable", i3) {
            Ok(s) => s,
            Err(e) => return Err(e),
        };
        let ghost m3 = s3.map;
        proof {
            m0.lemma_inserted_has(m1, peer_name(), g1, peer_name());
            m1.lemma_inserted_has(m2, properties_name(), g2, properties_name());
            m2.lemma_inserted_has(m3, introspectable_name(), g3, introspectable_name());
            m1.lemma_inserted_lookup(m2, properties_name(), g2, peer_name());
            m2.lemma_inserted_lookup(m3, introspectable_name(), g3, peer_name());
            m2.lemma_inserted_lookup(m3, introspectable_name(), g3, properties_name());
            assert forall|k: Seq<char>| #[trigger] m0.has(k) implies m3.lookup(k) == m0.lookup(k) by {
                m0.lemma_inserted_lookup(m1, peer_name(), g1, k);
                m1.lemma_inserted_lookup(m2, properties_name(), g2, k);
                m2.lemma_inserted_lookup(m3, introspectable_name(), g3, k);
            }
            assert forall|k: Seq<char>|
                #[trigger] m3.has(k) <==> (m0.has(k) || k == peer_name() || k == properties_name() || k
                    == introspectable_name()) by {
                if m3.has(k) {
                    m2.lemma_inserted_has_only(m3, introspectable_name(), g3, k);
                    if m2.has(k) {
                        m1.lemma_inserted_has_only(m2, properties_name(), g2, k);
                        if m1.has(k) {
                            m0.lemma_inserted_has_only(m1, peer_name(), g1, k);
                        }
                    }
                }
                if m0.has(k) {
                    m0.lemma_inserted_lookup(m1, peer_name(), g1, k);
                    m1.lemma_inserted_lookup(m2, properties_name(), g2, k);
                    m2.lemma_inserted_lookup(m3, introspectable_name(), g3, k);
                }
                if k == peer_name() {
                    m2.lemma_inserted_has(m3, introspectable_name(), g3, k);
                }
                if k == properties_name() {
                    m2.lemma_inserted_has(m3, introspectable_name(), g3, k);
                }
            }
        }
        s3.children = children;
        s3.finalized = true;
        Ok(s3)
    }

    fn require_interface(&self, name: &str) -> (r: Result<&Interface, ErrorMessage>)
        ensures
            match r {
                Ok(i) => self.interface_map().lookup(name@) == Some(*i),
                Err(e) => self.map.lookup(name@) is None && error_is(e, unknown_interface_name(),
                    "unknown interface: "@ + name@),
            },
    {
        match self.map.get(name) {
            Some(i) => Ok(i),
            None => {
                let mut m = "unknown interface: ".to_owned();
                m.append(name);
                Err(ErrorMessage { name: "org.freedesktop.DBus.Error.UnknownInterface".to_owned(), message: m })
            },
        }
    }

    /// `Properties.Get(interface_name, property_name)`.
    fn get_property<H: MethodHandler + PropertyReadHandler + PropertyWriteHandler>(&self, h: &H, msg: &Message) -> (res:
        MethodResult)
        ensures
            self.answers(h, h, Callback::GetProperty, *msg, res),
    {
        if msg.values().len() == 0 {
            return Err(invalid_arguments_error());
        }
        let iface = match msg.extract_string(0) {
            Ok(s) => s,
            Err(e) => return Err(e),
        };
        let property = match msg.extract_string(1) {
            Ok(s) => s,
            Err(e) => return Err(e),
        };
        match self.require_interface(iface.as_str()) {
            Ok(i) => i.get_property_value(h, property.as_str()),
            Err(e) => Err(e),
        }
    }

    /// `Properties.Set(interface_name, property_name, value)`.
    fn set_property<H: MethodHandler + PropertyReadHandler + PropertyWriteHandler>(&self, h: &mut H, msg: &Message) -> (res:
        MethodResult)
        ensures
            self.answers(old(h), final(h), Callback::SetProperty, *msg, res),
    {
        if msg.values().len() == 0 {
            return Err(invalid_arguments_error());
        }
        let iface = match msg.extract_string(0) {
            Ok(s) => s,
            Err(e) => return Err(e),
        };
        let property = match msg.extract_string(1) {
            Ok(s) => s,
            Err(e) => return Err(e),
        };
        let value = match msg.extract(2) {
            Ok(v) => v,
            Err(e) => return Err(e),
        };
        match self.require_interface(iface.as_str()) {
            Ok(i) => i.set_property_value(h, property.as_str(), value),
            Err(e) => Err(e),
        }
    }

    /// `Properties.GetAll(interface_name)`.
    fn get_all_properties<H: MethodHandler + PropertyReadHandler + PropertyWriteHandler>(&self, h: &H, msg: &Message) -> (res:
        MethodResult)
        ensures
            self.answers(h, h, Callback::GetAllProperties, *msg, res),
    {
        if msg.values().len() == 0 {
            return Err(invalid_arguments_error());
        }
        let iface = match msg.extract_string(0) {
            Ok(s) => s,
            Err(e) => return Err(e),
        };
        match self.require_interface(iface.as_str()) {
            Ok(i) => {
                let r = vec![Value::Dictionary(i.get_property_map(h))];
                Ok(r)
            },
            Err(e) => Err(e),
        }
    }

    /// The introspection document, computed from the registry as it is now.
    pub fn introspect(&self) -> (r: String)
        ensures
            r@ == self.document(),
    {
        render_document(&self.map, &self.children)
    }

    /// Runs the callback `cb` on the call `msg`.
    fn run_callback<H: MethodHandler + PropertyReadHandler + PropertyWriteHandler>(
        &self,
        h: &mut H,
        cb: &Callback,
        msg: &Message,
    ) -> (res: MethodResult)
        ensures
            self.answers(old(h), final(h), *cb, *msg, res),
    {
        match cb {
            Callback::Ping => Ok(Vec::new()),
            Callback::GetMachineId => {
                let r = vec![Value::from_string(machine_id_text())];
                Ok(r)
            },
            Callback::GetProperty => self.get_property(h, msg),
            Callback::SetProperty => self.set_property(h, msg),
            Callback::GetAllProperties => self.get_all_properties(h, msg),
            Callback::Introspect => {
                let r = vec![Value::from_string(self.introspect())];
                Ok(r)
            },
            Callback::User(id) => h.call(*id, msg),
        }
    }

    /// Dispatches the call `msg`: when it names a registered interface and
    /// method, runs that method and returns the reply to send; any other
    /// message is not this registry's and gives `None`.
    pub fn handle<H: MethodHandler + PropertyReadHandler + PropertyWriteHandler>(
        &self,
        h: &mut H,
        msg: &Message,
    ) -> (r: Option<Message>)
        ensures
            r is Some <==> self.target_method(*msg) is Some,
            self.target_method(*msg) is None ==> *final(h) == *old(h),
            r is Some ==> self.replies(old(h), final(h), *msg, r->Some_0),
    {
        if msg.message_type() != MessageType::MethodCall {
            return None;
        }
        let iname = match msg.interface() {
            Some(s) => s,
            None => return None,
        };
        let mname = match msg.member() {
            Some(s) => s,
            None => return None,
        };
        let iface = match self.map.get(iname.as_str()) {
            Some(i) => i,
            None => return None,
        };
        let method = match iface.methods.get(mname.as_str()) {
            Some(m) => m,
            None => return None,
        };
        assert(self.interface_map().has(iname@)) by {
            if !self.interface_map().has(iname@) {
                assert(self.interface_map().lookup(iname@) is None);
            }
        }
        assert(iface.methods.has(mname@)) by {
            if !iface.methods.has(mname@) {
                assert(iface.methods.lookup(mname@) is None);
            }
        }
        assert(self.target_method(*msg) == Some(*method));
        let res = self.run_callback(h, &method.cb, msg);
        let ghost res0 = res;
        let reply = reply_to(msg, res);
        assert(self.answers(old(h), h, self.target_method(*msg)->Some_0.cb, *msg, res0));
        assert(reply_for(*msg, res0, reply));
        assert(self.replies(old(h), h, *msg, reply));
        Some(reply)
    }
}

} // verus!
