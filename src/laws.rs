//! Properties that hold across several calls of the library, proved over the
//! functions' own contracts.
use vstd::prelude::*;
use crate::error::Error;
use crate::interface::{
    ErrorMessage, Interface, MethodHandler, MethodResult, Property, PropertyAccess, PropertyReadHandler,
    PropertyWriteHandler, Callback,
    error_is, failed_name, get_property_answer, reader_of, readable_values, set_property_answer,
    string_keyed,
};
use crate::interfaces::{Interfaces, reply_for, string_arg, peer_name, properties_name};
use crate::introspect::{doc_header, interface_xml, interfaces_xml};
use crate::message::{Message, MessageType};
use crate::name_map::{NameMap, insert_pos};
use crate::order::{name_lt, lemma_name_lt_irreflexive, lemma_name_lt_transitive};
use crate::value::{Value, is_string_value};

verus! {

/// Two different names both register into an empty, unfinalized registry,
/// and end up in name order.
pub proof fn lemma_distinct_names_register(
    r0: Interfaces,
    n1: Seq<char>,
    i1: Interface,
    res1: Result<Interfaces, Error>,
    n2: Seq<char>,
    i2: Interface,
    res2: Result<Interfaces, Error>,
)
    requires
        r0.interface_map().keys().len() == 0,
        !r0.is_sealed(),
        r0.added(n1, i1, res1),
        res1->Ok_0.added(n2, i2, res2),
        n1 != n2,
    ensures
        res1 is Ok,
        res2 is Ok,
        res2->Ok_0.interface_map().keys() == (if name_lt(n1, n2) { seq![n1, n2] } else { seq![n2, n1] }),
{
    assert(!r0.interface_map().has(n1));
    let p1 = insert_pos(r0.interface_map().keys(), n1);
    assert(p1 == 0);
    assert(res1->Ok_0.interface_map().keys() =~= seq![n1]);
    assert(!res1->Ok_0.interface_map().has(n2)) by {
        if res1->Ok_0.interface_map().has(n2) {
            let j = choose|j: int| 0 <= j < res1->Ok_0.interface_map().keys().len() && res1->Ok_0.interface_map().keys()[j] == n2;
            assert(j == 0);
        }
    }
    let k1 = res1->Ok_0.interface_map().keys();
    let p2 = insert_pos(k1, n2);
    if p2 == 0 {
        assert(name_lt(n2, k1[0]));
        if name_lt(n1, n2) {
            lemma_name_lt_transitive(n1, n2, n1);
            lemma_name_lt_irreflexive(n1);
        }
        assert(res2->Ok_0.interface_map().keys() =~= seq![n2, n1]);
    } else {
        assert(name_lt(k1[0], n2));
        assert(res2->Ok_0.interface_map().keys() =~= seq![n1, n2]);
    }
}

/// Registering the same name twice fails the second time with
/// `InterfaceAlreadyRegistered`.
pub proof fn lemma_same_name_twice_refused(
    r0: Interfaces,
    n: Seq<char>,
    i1: Interface,
    res1: Result<Interfaces, Error>,
    i2: Interface,
    res2: Result<Interfaces, Error>,
)
    requires
        r0.interface_map().keys().len() == 0,
        !r0.is_sealed(),
        r0.added(n, i1, res1),
        res1->Ok_0.added(n, i2, res2),
    ensures
        res2 is Err,
        res2->Err_0 is InterfaceAlreadyRegistered,
        res2->Err_0->InterfaceAlreadyRegistered_0@ == n,
{
    assert(!r0.interface_map().has(n));
    assert(res1->Ok_0.interface_map().keys()[0] == n);
    assert(res1->Ok_0.interface_map().has(n));
}

/// Once finalized, a registry refuses every name with `RegistryFinalized`.
pub proof fn lemma_finalized_refuses(
    r0: Interfaces,
    children: Seq<String>,
    res: Result<Interfaces, Error>,
    name: Seq<char>,
    iface: Interface,
    res2: Result<Interfaces, Error>,
)
    requires
        r0.finalized_into(children, res),
        res is Ok,
        res->Ok_0.added(name, iface, res2),
    ensures
        res2 is Err,
        res2->Err_0 is RegistryFinalized,
        res2->Err_0->RegistryFinalized_0@ == name,
{
}

/// `Ping` always succeeds, with an empty reply.
pub proof fn lemma_ping_replies_empty<H: MethodHandler + PropertyReadHandler + PropertyWriteHandler>(
    reg: Interfaces,
    h: &H,
    h2: &H,
    msg: Message,
    reply: Message,
)
    requires
        reg.target_method(msg) is Some,
        reg.target_method(msg)->Some_0.cb == Callback::Ping,
        reg.replies(h, h2, msg, reply),
    ensures
        reply.message_type == MessageType::MethodReturn,
        reply.reply_serial == Some(msg.serial),
        reply.body@.len() == 0,
{
    let res = choose|res: MethodResult|
        reg.answers(h, h2, reg.target_method(msg)->Some_0.cb, msg, res) && #[trigger] reply_for(msg, res, reply);
}

/// In a finalized registry, a call to a standard method of the peer or
/// properties interface reaches that method.
pub proof fn lemma_finalized_target(
    r0: Interfaces,
    children: Seq<String>,
    res: Result<Interfaces, Error>,
    msg: Message,
    iface: Seq<char>,
    method: Seq<char>,
    cb: Callback,
)
    requires
        r0.finalized_into(children, res),
        res is Ok,
        msg.message_type == MessageType::MethodCall,
        msg.interface is Some && msg.interface->Some_0@ == iface,
        msg.member is Some && msg.member->Some_0@ == method,
        (iface == peer_name() && method == "Ping"@ && cb == Callback::Ping) || (iface == properties_name()
            && method == "Get"@ && cb == Callback::GetProperty) || (iface == properties_name() && method
            == "Set"@ && cb == Callback::SetProperty) || (iface == properties_name() && method == "GetAll"@
            && cb == Callback::GetAllProperties),
    ensures
        res->Ok_0.target_method(msg) is Some,
        res->Ok_0.target_method(msg)->Some_0.cb == cb,
{
    let m = res->Ok_0.interface_map();
    assert(m.has(peer_name()));
    assert(m.has(properties_name()));
    let i = m.lookup(iface)->Some_0;
    assert(i.methods.lookup(method) is Some);
    assert(i.methods.has(method));
}

/// On a finalized registry, `Ping` is answered by an empty return and
/// touches no handler.
pub proof fn lemma_finalized_ping<H: MethodHandler + PropertyReadHandler + PropertyWriteHandler>(
    r0: Interfaces,
    children: Seq<String>,
    res: Result<Interfaces, Error>,
    h: &H,
    h2: &H,
    msg: Message,
    reply: Message,
)
    requires
        r0.finalized_into(children, res),
        res is Ok,
        msg.message_type == MessageType::MethodCall,
        msg.interface is Some && msg.interface->Some_0@ == peer_name(),
        msg.member is Some && msg.member->Some_0@ == "Ping"@,
        res->Ok_0.replies(h, h2, msg, reply),
    ensures
        reply.message_type == MessageType::MethodReturn,
        reply.reply_serial == Some(msg.serial),
        reply.body@.len() == 0,
        *h2 == *h,
{
    lemma_finalized_target(r0, children, res, msg, peer_name(), "Ping"@, Callback::Ping);
    let reg = res->Ok_0;
    let out = choose|out: MethodResult|
        reg.answers(h, h2, reg.target_method(msg)->Some_0.cb, msg, out) && #[trigger] reply_for(msg, out, reply);
}

/// On a finalized registry, `Properties.Get` of a read-only property
/// answers the reader's value alone, and `Properties.Set` of it fails as
/// read-only and touches no handler.
pub proof fn lemma_finalized_read_only<H: MethodHandler + PropertyReadHandler + PropertyWriteHandler>(
    r0: Interfaces,
    children: Seq<String>,
    res: Result<Interfaces, Error>,
    h: &H,
    h2: &H,
    msg: Message,
    reply: Message,
    iface: Seq<char>,
    name: Seq<char>,
    reader: u64,
    v: Value,
)
    requires
        r0.finalized_into(children, res),
        res is Ok,
        msg.message_type == MessageType::MethodCall,
        msg.interface is Some && msg.interface->Some_0@ == properties_name(),
        msg.member is Some && (msg.member->Some_0@ == "Get"@ || msg.member->Some_0@ == "Set"@),
        msg.member->Some_0@ == "Set"@ ==> msg.body@.len() >= 3,
        string_arg(msg, 0) == Some(iface),
        string_arg(msg, 1) == Some(name),
        res->Ok_0.interface_map().lookup(iface) is Some,
        res->Ok_0.interface_map().lookup(iface)->Some_0.properties.lookup(name) is Some,
        res->Ok_0.interface_map().lookup(iface)->Some_0.properties.lookup(name)->Some_0.access
            == PropertyAccess::ReadOnly(reader),
        h.read_spec(reader) == Ok::<Value, ErrorMessage>(v),
        res->Ok_0.replies(h, h2, msg, reply),
    ensures
        reply.reply_serial == Some(msg.serial),
        msg.member->Some_0@ == "Get"@ ==> reply.message_type == MessageType::MethodReturn
            && reply.body@ == seq![v] && *h2 == *h,
        msg.member->Some_0@ == "Set"@ ==> reply.message_type == MessageType::Error && reply.error_name
            is Some && reply.error_name->Some_0@ == failed_name() && reply.body@.len() == 1
            && is_string_value(reply.body@[0], "property is read-only: "@ + name) && *h2 == *h,
{
    if msg.member->Some_0@ == "Get"@ {
        lemma_finalized_target(r0, children, res, msg, properties_name(), "Get"@, Callback::GetProperty);
    } else {
        lemma_finalized_target(r0, children, res, msg, properties_name(), "Set"@, Callback::SetProperty);
    }
    let reg = res->Ok_0;
    let out = choose|out: MethodResult|
        reg.answers(h, h2, reg.target_method(msg)->Some_0.cb, msg, out) && #[trigger] reply_for(msg, out, reply);
}

/// On a finalized registry, `Properties.GetAll` never fails on an
/// interface that is there, and never lists a write-only property.
pub proof fn lemma_finalized_get_all_hides_write_only<H: MethodHandler + PropertyReadHandler + PropertyWriteHandler>(
    r0: Interfaces,
    children: Seq<String>,
    res: Result<Interfaces, Error>,
    h: &H,
    h2: &H,
    msg: Message,
    reply: Message,
    iface: Seq<char>,
    name: Seq<char>,
    writer: u64,
)
    requires
        r0.finalized_into(children, res),
        res is Ok,
        msg.message_type == MessageType::MethodCall,
        msg.interface is Some && msg.interface->Some_0@ == properties_name(),
        msg.member is Some && msg.member->Some_0@ == "GetAll"@,
        string_arg(msg, 0) == Some(iface),
        res->Ok_0.interface_map().lookup(iface) is Some,
        res->Ok_0.interface_map().lookup(iface)->Some_0.properties.valid(),
        res->Ok_0.interface_map().lookup(iface)->Some_0.properties.lookup(name) is Some,
        res->Ok_0.interface_map().lookup(iface)->Some_0.properties.lookup(name)->Some_0.access
            == PropertyAccess::WriteOnly(writer),
        res->Ok_0.replies(h, h2, msg, reply),
    ensures
        reply.message_type == MessageType::MethodReturn,
        reply.body@.len() == 1,
        reply.body@[0] is Dictionary,
        forall|e: int|
            0 <= e < reply.body@[0]->Dictionary_0.entries@.len() ==> !((#[trigger] reply.body@[0]->Dictionary_0.entries@[e]).0
                is String && reply.body@[0]->Dictionary_0.entries@[e].0->String_0@ == name),
{
    lemma_finalized_target(r0, children, res, msg, properties_name(), "GetAll"@, Callback::GetAllProperties);
    let reg = res->Ok_0;
    let out = choose|out: MethodResult|
        reg.answers(h, h2, reg.target_method(msg)->Some_0.cb, msg, out) && #[trigger] reply_for(msg, out, reply);
    let props = reg.interface_map().lookup(iface)->Some_0.properties;
    let n = props.keys().len() as int;
    let ents = reply.body@[0]->Dictionary_0.entries@;
    let rv = readable_values(props.keys(), props.vals(), h, n);
    lemma_readable_names(props.keys(), props.vals(), h, n);
    let idx = props.index_of(name);
    assert forall|e: int| 0 <= e < ents.len() implies !((#[trigger] ents[e]).0 is String && ents[e].0->String_0@
        == name) by {
        assert(string_keyed(ents)[e] == rv[e]);
        let k = choose|k: int|
            0 <= k < n && #[trigger] rv[e].0 == props.keys()[k] && reader_of(props.vals()[k].access) is Some;
        if ents[e].0 is String && ents[e].0->String_0@ == name {
            assert(props.keys()[k] == props.keys()[idx]);
            assert(k == idx);
        }
    }
}

/// A read-only property reads as its reader's value alone.
pub proof fn lemma_read_only_get<H: PropertyReadHandler>(
    props: NameMap<Property>,
    h: &H,
    name: Seq<char>,
    reader: u64,
    v: Value,
    r: MethodResult,
)
    requires
        props.lookup(name) is Some,
        props.lookup(name)->Some_0.access == PropertyAccess::ReadOnly(reader),
        h.read_spec(reader) == Ok::<Value, ErrorMessage>(v),
        get_property_answer(props, h, name, r),
    ensures
        r is Ok,
        r->Ok_0@ == seq![v],
{
}

/// Writing a read-only property fails as read-only and leaves the handlers,
/// and so what the reader yields, as they were.
pub proof fn lemma_read_only_set<H: PropertyReadHandler + PropertyWriteHandler>(
    props: NameMap<Property>,
    before: H,
    after: H,
    name: Seq<char>,
    reader: u64,
    value: Value,
    r: MethodResult,
)
    requires
        props.lookup(name) is Some,
        props.lookup(name)->Some_0.access == PropertyAccess::ReadOnly(reader),
        set_property_answer(props, before, after, name, value, r),
    ensures
        r is Err,
        error_is(r->Err_0, failed_name(), "property is read-only: "@ + name),
        after.read_spec(reader) == before.read_spec(reader),
{
}

/// Each entry of `readable_values(.., n)` carries the name of a readable
/// property among the first `n`.
pub proof fn lemma_readable_names<H: PropertyReadHandler>(
    names: Seq<Seq<char>>,
    props: Seq<Property>,
    h: &H,
    n: int,
)
    requires
        0 <= n <= names.len(),
        n <= props.len(),
    ensures
        forall|e: int|
            0 <= e < readable_values(names, props, h, n).len() ==> exists|k: int|
                0 <= k < n && #[trigger] readable_values(names, props, h, n)[e].0 == names[k]
                    && reader_of(props[k].access) is Some,
    decreases n,
{
    if n > 0 {
        lemma_readable_names(names, props, h, n - 1);
        let prev = readable_values(names, props, h, n - 1);
        let cur = readable_values(names, props, h, n);
        assert forall|e: int| 0 <= e < cur.len() implies exists|k: int|
            0 <= k < n && #[trigger] cur[e].0 == names[k] && reader_of(props[k].access) is Some by {
            if e < prev.len() {
                assert(cur[e] == prev[e]);
                let k = choose|k: int| 0 <= k < n - 1 && #[trigger] prev[e].0 == names[k] && reader_of(
                    props[k].access,
                ) is Some;
                assert(cur[e].0 == names[k]);
            } else {
                assert(cur[e].0 == names[n - 1]);
            }
        }
    }
}

/// A write-only property cannot be read, and is never among the values that
/// reading all properties gives, whatever the handlers' state.
pub proof fn lemma_write_only_hidden<H: PropertyReadHandler>(
    props: NameMap<Property>,
    h: &H,
    name: Seq<char>,
    writer: u64,
    r: MethodResult,
)
    requires
        props.valid(),
        props.lookup(name) is Some,
        props.lookup(name)->Some_0.access == PropertyAccess::WriteOnly(writer),
        get_property_answer(props, h, name, r),
    ensures
        r is Err,
        error_is(r->Err_0, failed_name(), "property is write-only: "@ + name),
        forall|e: int|
            0 <= e < readable_values(props.keys(), props.vals(), h, props.keys().len() as int).len()
                ==> (#[trigger] readable_values(props.keys(), props.vals(), h, props.keys().len() as int)[e]).0
                != name,
{
    let n = props.keys().len() as int;
    let rv = readable_values(props.keys(), props.vals(), h, n);
    lemma_readable_names(props.keys(), props.vals(), h, n);
    let idx = props.index_of(name);
    assert forall|e: int| 0 <= e < rv.len() implies (#[trigger] rv[e]).0 != name by {
        let k = choose|k: int|
            0 <= k < n && #[trigger] rv[e].0 == props.keys()[k] && reader_of(props.vals()[k].access) is Some;
        if rv[e].0 == name {
            assert(props.keys()[k] == props.keys()[idx]);
            assert(k == idx);
        }
    }
}

/// The sections of the first `n` interfaces depend on those entries alone.
pub proof fn lemma_interfaces_xml_prefix(a: NameMap<Interface>, b: NameMap<Interface>, n: int)
    requires
        0 <= n <= a.keys().len(),
        n <= b.keys().len(),
        n <= a.vals().len(),
        n <= b.vals().len(),
        forall|j: int| 0 <= j < n ==> a.keys()[j] == b.keys()[j] && a.vals()[j] == b.vals()[j],
    ensures
        interfaces_xml(a, n) == interfaces_xml(b, n),
    decreases n,
{
    if n > 0 {
        lemma_interfaces_xml_prefix(a, b, n - 1);
    }
}

/// Past the place `p` where an interface went in, the sections are those of
/// before with the new one's added.
pub proof fn lemma_interfaces_xml_insert(
    before: NameMap<Interface>,
    after: NameMap<Interface>,
    p: int,
    name: Seq<char>,
    iface: Interface,
    m: int,
)
    requires
        before.keys().len() == before.vals().len(),
        0 <= p <= before.keys().len(),
        after.keys() == before.keys().insert(p, name),
        after.vals() == before.vals().insert(p, iface),
        p < m <= after.keys().len(),
    ensures
        interfaces_xml(after, m).len() == interfaces_xml(before, m - 1).len() + interface_xml(" "@, name, iface).len(),
    decreases m,
{
    if m == p + 1 {
        lemma_interfaces_xml_prefix(before, after, p);
        assert(after.keys()[p] == name && after.vals()[p] == iface);
    } else {
        lemma_interfaces_xml_insert(before, after, p, name, iface, m - 1);
        assert(after.keys()[m - 1] == before.keys()[m - 2]);
        assert(after.vals()[m - 1] == before.vals()[m - 2]);
    }
}

/// Registering an interface changes the introspection document: it gains
/// the new interface's section.
pub proof fn lemma_registering_changes_document(
    r0: Interfaces,
    name: Seq<char>,
    iface: Interface,
    res: Result<Interfaces, Error>,
)
    requires
        r0.interface_map().valid(),
        r0.added(name, iface, res),
        res is Ok,
    ensures
        res->Ok_0.document() != r0.document(),
        res->Ok_0.document().len() == r0.document().len() + interface_xml(" "@, name, iface).len(),
{
    let r1 = res->Ok_0;
    let n = r0.interface_map().keys().len() as int;
    let p = insert_pos(r0.interface_map().keys(), name);
    lemma_interfaces_xml_insert(r0.interface_map(), r1.interface_map(), p, name, iface, n + 1);
    assert(interface_xml(" "@, name, iface).len() > 0) by {
        reveal_strlit(" ");
    }
    assert(r1.document().len() == r0.document().len() + interface_xml(" "@, name, iface).len());
    assert(r1.document().len() != r0.document().len());
}

/// Among the sections of the first `n` interfaces, the one of interface `i`
/// starts where the sections before it end.
pub proof fn lemma_interfaces_xml_section(ifaces: NameMap<Interface>, i: int, n: int)
    requires
        0 <= i < n <= ifaces.keys().len(),
        n <= ifaces.vals().len(),
    ensures
        interfaces_xml(ifaces, i).len() + interface_xml(" "@, ifaces.keys()[i], ifaces.vals()[i]).len()
            <= interfaces_xml(ifaces, n).len(),
        interfaces_xml(ifaces, n).subrange(
            interfaces_xml(ifaces, i).len() as int,
            (interfaces_xml(ifaces, i).len() + interface_xml(" "@, ifaces.keys()[i], ifaces.vals()[i]).len()) as int,
        ) == interface_xml(" "@, ifaces.keys()[i], ifaces.vals()[i]),
    decreases n,
{
    let sec = interface_xml(" "@, ifaces.keys()[i], ifaces.vals()[i]);
    let start = interfaces_xml(ifaces, i).len() as int;
    if n == i + 1 {
        assert(interfaces_xml(ifaces, n).subrange(start, start + sec.len()) =~= sec);
    } else {
        lemma_interfaces_xml_section(ifaces, i, n - 1);
        let prev = interfaces_xml(ifaces, n - 1);
        assert(interfaces_xml(ifaces, n).subrange(start, start + sec.len()) =~= prev.subrange(
            start,
            start + sec.len(),
        ));
    }
}

/// The introspection document holds the section of every registered
/// interface, each with exactly its properties, methods and signals, one
/// after the other in name order.
pub proof fn lemma_document_lists_interface(reg: Interfaces, i: int)
    requires
        0 <= i < reg.interface_map().keys().len(),
        reg.interface_map().valid(),
    ensures
        ({
            let m = reg.interface_map();
            let start = (doc_header().len() + interfaces_xml(m, i).len()) as int;
            let sec = interface_xml(" "@, m.keys()[i], m.vals()[i]);
            start + sec.len() <= reg.document().len() && reg.document().subrange(start, start + sec.len())
                == sec
        }),
{
    let m = reg.interface_map();
    let n = m.keys().len() as int;
    lemma_interfaces_xml_section(m, i, n);
    let start = (doc_header().len() + interfaces_xml(m, i).len()) as int;
    let sec = interface_xml(" "@, m.keys()[i], m.vals()[i]);
    let all = interfaces_xml(m, n);
    assert(reg.document().subrange(start, start + sec.len()) =~= all.subrange(
        interfaces_xml(m, i).len() as int,
        (interfaces_xml(m, i).len() + sec.len()) as int,
    ));
}

/// Introspecting twice without a change in between gives the same document.
pub proof fn lemma_document_stable(reg: Interfaces, first: Seq<char>, second: Seq<char>)
    requires
        first == reg.document(),
        second == reg.document(),
    ensures
        first == second,
{
}

/// A method that fails is answered by an error reply with the failure's
/// name and its message as the one argument.
pub proof fn lemma_failure_reply(msg: Message, e: ErrorMessage, reply: Message)
    requires
        reply_for(msg, Err(e), reply),
    ensures
        reply.message_type == MessageType::Error,
        reply.reply_serial == Some(msg.serial),
        reply.error_name is Some && reply.error_name->Some_0@ == e.name@,
        reply.body@.len() == 1,
        is_string_value(reply.body@[0], e.message@),
{
}

} // verus!
