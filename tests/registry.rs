use dbus_rs_core::error::Error;
use dbus_rs_core::interface::{
    Annotation, Argument, ErrorMessage, Interface, Method, MethodHandler, MethodResult, Property,
    PropertyGetResult, PropertyReadHandler, PropertySetResult, PropertyWriteHandler, Signal,
};
use dbus_rs_core::interfaces::Interfaces;
use dbus_rs_core::message::{Message, MessageType};
use dbus_rs_core::runner::DBusRunner;
use dbus_rs_core::target::extract_target;
use dbus_rs_core::value::{BasicValue, Signature, Value};

/// Property 1 reads "V" (read-only), property 2 is write-only and stores what
/// it is given, method 7 fails, method 8 echoes its body.
struct Handlers {
    written: Option<String>,
    calls: u32,
}

impl MethodHandler for Handlers {
    fn called(&self, after: &Self, _method: u64, _msg: Message, _r: MethodResult) -> bool {
        after.calls == self.calls + 1
    }

    fn call(&mut self, method: u64, msg: &Message) -> MethodResult {
        self.calls += 1;
        if method == 7 {
            Err(ErrorMessage::new("org.example.Failed", "boom"))
        } else {
            let mut out = Vec::new();
            for v in msg.values() {
                if let Value::BasicValue(BasicValue::String(s)) = v {
                    out.push(Value::from_string(s.clone()));
                }
            }
            Ok(out)
        }
    }
}

impl PropertyReadHandler for Handlers {
    fn read_spec(&self, property: u64) -> PropertyGetResult {
        self.get(property)
    }

    fn get(&self, property: u64) -> PropertyGetResult {
        if property == 1 {
            Ok(Value::from_string("V".to_owned()))
        } else {
            Err(ErrorMessage::new("org.example.Unreadable", "no"))
        }
    }
}

impl PropertyWriteHandler for Handlers {
    fn wrote(&self, after: &Self, _property: u64, value: Value, r: PropertySetResult) -> bool {
        match r {
            Ok(()) => after.written == value.as_string().cloned(),
            Err(_) => after.written == self.written,
        }
    }

    fn set(&mut self, _property: u64, value: &Value) -> PropertySetResult {
        match value.as_string() {
            Some(s) => {
                self.written = Some(s.clone());
                Ok(())
            },
            None => Err(ErrorMessage::new("org.example.BadValue", "not a string")),
        }
    }
}

fn handlers() -> Handlers {
    Handlers { written: None, calls: 0 }
}

fn sig(s: &str) -> Signature {
    Signature(s.to_owned())
}

fn sample() -> Interface {
    Interface::new()
        .add_property("p", Property::new_ro(sig("s"), 1))
        .add_property("w", Property::new_wo(sig("s"), 2))
        .add_method("Fail", Method::new(7))
        .add_method("Echo", Method::new(8).add_argument(Argument::new("text", "s")))
}

fn finalized() -> Interfaces {
    Interfaces::new()
        .add_interface("org.example.Sample", sample())
        .ok()
        .unwrap()
        .finalize(vec!["child".to_owned()])
        .ok()
        .unwrap()
}

fn call(iface: &str, method: &str, args: Vec<Value>) -> Message {
    let mut m = Message::new_method_call("org.example", "/", iface, method);
    m.serial = 41;
    for a in args {
        m = m.add_argument(a);
    }
    m
}

fn s(v: &str) -> Value {
    Value::from_string(v.to_owned())
}

fn string_of(v: &Value) -> String {
    v.as_string().unwrap().clone()
}

#[test]
fn distinct_names_register() {
    let r = Interfaces::new()
        .add_interface("org.example.A", Interface::new())
        .ok()
        .unwrap()
        .add_interface("org.example.B", Interface::new())
        .ok()
        .unwrap();
    assert_eq!(r.interfaces().len(), 2);
    assert_eq!(r.interfaces().name_at(0), "org.example.A");
    assert_eq!(r.interfaces().name_at(1), "org.example.B");
}

#[test]
fn registry_keeps_name_order() {
    let r = Interfaces::new()
        .add_interface("org.example.B", Interface::new())
        .ok()
        .unwrap()
        .add_interface("org.example.A", Interface::new())
        .ok()
        .unwrap();
    assert_eq!(r.interfaces().name_at(0), "org.example.A");
    assert_eq!(r.interfaces().name_at(1), "org.example.B");
    let doc = r.introspect();
    assert!(doc.find("org.example.A").unwrap() < doc.find("org.example.B").unwrap());
}

#[test]
fn same_name_twice_refused() {
    let r = Interfaces::new().add_interface("org.example.A", Interface::new()).ok().unwrap();
    match r.add_interface("org.example.A", Interface::new()) {
        Err(Error::InterfaceAlreadyRegistered(n)) => assert_eq!(n, "org.example.A"),
        _ => panic!("expected InterfaceAlreadyRegistered"),
    }
}

#[test]
fn finalized_registry_refuses_new_and_old_names() {
    match finalized().add_interface("org.example.New", Interface::new()) {
        Err(Error::RegistryFinalized(n)) => assert_eq!(n, "org.example.New"),
        _ => panic!("expected RegistryFinalized"),
    }
    match finalized().add_interface("org.example.Sample", Interface::new()) {
        Err(Error::RegistryFinalized(n)) => assert_eq!(n, "org.example.Sample"),
        _ => panic!("expected RegistryFinalized"),
    }
}

#[test]
fn finalize_adds_standard_interfaces_in_order() {
    let r = finalized();
    assert!(r.is_finalized());
    assert_eq!(r.interfaces().len(), 4);
    assert_eq!(r.interfaces().name_at(0), "org.example.Sample");
    assert_eq!(r.interfaces().name_at(1), "org.freedesktop.DBus.Introspectable");
    assert_eq!(r.interfaces().name_at(2), "org.freedesktop.DBus.Peer");
    assert_eq!(r.interfaces().name_at(3), "org.freedesktop.DBus.Properties");
}

#[test]
fn finalize_twice_refused() {
    let r = finalized();
    assert!(matches!(r.finalize(vec![]), Err(Error::RegistryFinalized(_))));
}

#[test]
fn finalize_with_taken_standard_name_refused() {
    let r = Interfaces::new().add_interface("org.freedesktop.DBus.Peer", Interface::new()).ok().unwrap();
    match r.finalize(vec![]) {
        Err(Error::InterfaceAlreadyRegistered(n)) => assert_eq!(n, "org.freedesktop.DBus.Peer"),
        _ => panic!("expected InterfaceAlreadyRegistered"),
    }
}

#[test]
fn ping_replies_empty() {
    let r = finalized();
    let mut h = handlers();
    let reply = r.handle(&mut h, &call("org.freedesktop.DBus.Peer", "Ping", vec![])).unwrap();
    assert_eq!(reply.message_type, MessageType::MethodReturn);
    assert_eq!(reply.reply_serial, Some(41));
    assert!(reply.body.is_empty());
}

#[test]
fn machine_id_is_text() {
    let r = finalized();
    let mut h = handlers();
    let reply = r.handle(&mut h, &call("org.freedesktop.DBus.Peer", "GetMachineId", vec![])).unwrap();
    assert_eq!(reply.message_type, MessageType::MethodReturn);
    assert_eq!(reply.body.len(), 1);
    assert_eq!(string_of(&reply.body[0]).chars().count(), 36);
}

#[test]
fn read_only_property_get_and_set() {
    let r = finalized();
    let mut h = handlers();
    let get = call("org.freedesktop.DBus.Properties", "Get", vec![s("org.example.Sample"), s("p")]);
    let reply = r.handle(&mut h, &get).unwrap();
    assert_eq!(reply.message_type, MessageType::MethodReturn);
    assert_eq!(reply.body.len(), 1);
    assert_eq!(string_of(&reply.body[0]), "V");

    let set = call("org.freedesktop.DBus.Properties", "Set", vec![s("org.example.Sample"), s("p"), s("X")]);
    let reply = r.handle(&mut h, &set).unwrap();
    assert_eq!(reply.message_type, MessageType::Error);
    assert_eq!(reply.error_name.as_deref(), Some("org.freedesktop.DBus.Error.Failed"));
    assert_eq!(string_of(&reply.body[0]), "property is read-only: p");
    assert!(h.written.is_none());

    let reply = r.handle(&mut h, &get).unwrap();
    assert_eq!(string_of(&reply.body[0]), "V");
}

#[test]
fn write_only_property_hidden() {
    let r = finalized();
    let mut h = handlers();
    let get = call("org.freedesktop.DBus.Properties", "Get", vec![s("org.example.Sample"), s("w")]);
    let reply = r.handle(&mut h, &get).unwrap();
    assert_eq!(reply.message_type, MessageType::Error);
    assert_eq!(reply.error_name.as_deref(), Some("org.freedesktop.DBus.Error.Failed"));
    assert_eq!(string_of(&reply.body[0]), "property is write-only: w");

    let set = call("org.freedesktop.DBus.Properties", "Set", vec![s("org.example.Sample"), s("w"), s("X")]);
    let reply = r.handle(&mut h, &set).unwrap();
    assert_eq!(reply.message_type, MessageType::MethodReturn);
    assert!(reply.body.is_empty());
    assert_eq!(h.written.as_deref(), Some("X"));

    let all = call("org.freedesktop.DBus.Properties", "GetAll", vec![s("org.example.Sample")]);
    let reply = r.handle(&mut h, &all).unwrap();
    assert_eq!(reply.message_type, MessageType::MethodReturn);
    match &reply.body[0] {
        Value::Dictionary(d) => {
            assert_eq!(d.signature.0, "a{sv}");
            assert_eq!(d.entries.len(), 1);
            match &d.entries[0].0 {
                BasicValue::String(k) => assert_eq!(k, "p"),
                _ => panic!("expected a string key"),
            }
            assert_eq!(string_of(&d.entries[0].1), "V");
        },
        _ => panic!("expected a dictionary"),
    }
}

#[test]
fn property_errors() {
    let r = finalized();
    let mut h = handlers();
    let reply = r.handle(&mut h, &call("org.freedesktop.DBus.Properties", "Get", vec![s("org.example.Nope"), s("p")])).unwrap();
    assert_eq!(reply.error_name.as_deref(), Some("org.freedesktop.DBus.Error.UnknownInterface"));
    assert_eq!(string_of(&reply.body[0]), "unknown interface: org.example.Nope");
    let reply = r.handle(&mut h, &call("org.freedesktop.DBus.Properties", "Get", vec![s("org.example.Sample"), s("q")])).unwrap();
    assert_eq!(reply.error_name.as_deref(), Some("org.freedesktop.DBus.Error.UnknownProperty"));
    assert_eq!(string_of(&reply.body[0]), "unknown property: q");
    let reply = r.handle(&mut h, &call("org.freedesktop.DBus.Properties", "Get", vec![])).unwrap();
    assert_eq!(reply.error_name.as_deref(), Some("org.freedesktop.DBus.Error.InvalidArgs"));
    assert_eq!(string_of(&reply.body[0]), "invalid arguments");
    let reply = r.handle(&mut h, &call("org.freedesktop.DBus.Properties", "Set", vec![])).unwrap();
    assert_eq!(string_of(&reply.body[0]), "invalid arguments");
    let reply = r.handle(&mut h, &call("org.freedesktop.DBus.Properties", "GetAll", vec![])).unwrap();
    assert_eq!(string_of(&reply.body[0]), "invalid arguments");
    let reply = r.handle(&mut h, &call("org.freedesktop.DBus.Properties", "Get", vec![s("org.example.Sample")])).unwrap();
    assert_eq!(reply.error_name.as_deref(), Some("org.freedesktop.DBus.Error.InvalidArgs"));
    assert_eq!(string_of(&reply.body[0]), "invalid argument at 1");
    let reply = r.handle(&mut h, &call("org.freedesktop.DBus.Properties", "Set", vec![s("org.example.Sample"), s("w")])).unwrap();
    assert_eq!(string_of(&reply.body[0]), "invalid argument at 2");
    assert!(h.written.is_none());
    let reply = r.handle(&mut h, &call("org.freedesktop.DBus.Properties", "GetAll", vec![Value::BasicValue(BasicValue::Uint32(3))])).unwrap();
    assert_eq!(string_of(&reply.body[0]), "invalid argument at 0");
}

#[test]
fn dispatch_unknown_is_none() {
    let r = finalized();
    let mut h = handlers();
    assert!(r.handle(&mut h, &call("org.example.Nope", "Ping", vec![])).is_none());
    assert!(r.handle(&mut h, &call("org.example.Sample", "Nope", vec![])).is_none());
    let sig_msg = Message::new_signal("/", "org.example.Sample", "Echo");
    assert!(r.handle(&mut h, &sig_msg).is_none());
    assert_eq!(h.calls, 0);
}

#[test]
fn handler_failure_becomes_error_reply() {
    let r = finalized();
    let mut h = handlers();
    let reply = r.handle(&mut h, &call("org.example.Sample", "Fail", vec![])).unwrap();
    assert_eq!(reply.message_type, MessageType::Error);
    assert_eq!(reply.reply_serial, Some(41));
    assert_eq!(reply.error_name.as_deref(), Some("org.example.Failed"));
    assert_eq!(reply.body.len(), 1);
    assert_eq!(string_of(&reply.body[0]), "boom");
}

#[test]
fn handler_values_returned_in_order() {
    let r = finalized();
    let mut h = handlers();
    let reply = r.handle(&mut h, &call("org.example.Sample", "Echo", vec![s("a"), s("b")])).unwrap();
    assert_eq!(reply.message_type, MessageType::MethodReturn);
    assert_eq!(reply.body.len(), 2);
    assert_eq!(string_of(&reply.body[0]), "a");
    assert_eq!(string_of(&reply.body[1]), "b");
}

const SMALL_DOC: &str = "<!DOCTYPE node PUBLIC \"-//freedesktop//DTD D-BUS Object Introspection 1.0//EN\"\n \"http://www.freedesktop.org/standards/dbus/1.0/introspect.dtd\">\n<node>\n <interface name=\"org.example.S\">\n  <property name=\"p\" type=\"s\" access=\"read\">\n   <annotation name=\"k\" value=\"v\" />\n  </property>\n  <method name=\"M\">\n   <arg name=\"x\" type=\"i\" direction=\"in\" />\n   <arg name=\"y\" type=\"s\" direction=\"out\" />\n  </method>\n  <signal name=\"Sig\">\n   <arg name=\"z\" type=\"u\" direction=\"out\" />\n  </signal>\n </interface>\n</node>\n";

#[test]
fn introspection_exact_document() {
    let iface = Interface::new()
        .add_property("p", Property::new_ro(sig("s"), 1).annotate(Annotation::new("k", "v")))
        .add_method("M", Method::new(3).add_argument(Argument::new("x", "i")).add_result(Argument::new("y", "s")))
        .add_signal("Sig", Signal::new().add_argument(Argument::new("z", "u")));
    let r = Interfaces::new().add_interface("org.example.S", iface).ok().unwrap();
    assert!(r.children().is_empty());
    assert_eq!(r.introspect(), SMALL_DOC);
}

#[test]
fn introspection_tracks_registration_and_is_stable() {
    let r = Interfaces::new().add_interface("org.example.A", Interface::new()).ok().unwrap();
    let before = r.introspect();
    let r = r.add_interface("org.example.B", Interface::new()).ok().unwrap();
    let after = r.introspect();
    assert_ne!(before, after);
    assert_eq!(after.matches("<interface name=\"org.example.A\">").count(), 1);
    assert_eq!(after.matches("<interface name=\"org.example.B\">").count(), 1);

    let f = finalized();
    let mut h = handlers();
    let q = call("org.freedesktop.DBus.Introspectable", "Introspect", vec![]);
    let one = string_of(&f.handle(&mut h, &q).unwrap().body[0]);
    let two = string_of(&f.handle(&mut h, &q).unwrap().body[0]);
    assert_eq!(one, two);
    assert_eq!(one, f.introspect());
    for name in ["org.example.Sample", "org.freedesktop.DBus.Peer", "org.freedesktop.DBus.Properties", "org.freedesktop.DBus.Introspectable"] {
        assert_eq!(one.matches(&format!("<interface name=\"{}\">", name)).count(), 1);
    }
    assert_eq!(f.children().len(), 1);
    assert!(one.ends_with(" </interface>\n <node name=\"child\" />\n</node>\n"));
    assert!(one.contains("<property name=\"w\" type=\"s\" access=\"write\">"));
}

fn server_with(iface: &str) -> Interfaces {
    Interfaces::new()
        .add_interface(iface, Interface::new().add_method("Echo", Method::new(8)))
        .ok()
        .unwrap()
}

#[test]
fn multiplexer_routes_to_owner_only() {
    let mut runner = DBusRunner::new();
    assert!(runner.add_server("a", server_with("org.example.A")).is_ok());
    assert!(runner.add_server("b", server_with("org.example.B")).is_ok());
    let mut h = handlers();
    let m = call("org.example.B", "Echo", vec![s("hi")]);
    assert!(runner.servers().value_at(0).handle(&mut h, &m).is_none());
    assert!(runner.servers().value_at(1).handle(&mut h, &m).is_some());
    let reply = runner.dispatch(&mut h, &m).unwrap();
    assert_eq!(string_of(&reply.body[0]), "hi");
    assert!(runner.remove_server("b").is_ok());
    assert!(runner.dispatch(&mut h, &m).is_none());
    assert!(runner.servers().value_at(0).handle(&mut h, &m).is_none());
}

#[test]
fn multiplexer_server_errors() {
    let mut runner = DBusRunner::new();
    assert!(runner.add_server("a", Interfaces::new()).is_ok());
    match runner.add_server("a", Interfaces::new()) {
        Err(Error::ServerAlreadyRegistered(n)) => assert_eq!(n, "a"),
        _ => panic!("expected ServerAlreadyRegistered"),
    }
    match runner.remove_server("z") {
        Err(Error::NoSuchServer(n)) => assert_eq!(n, "z"),
        _ => panic!("expected NoSuchServer"),
    }
    assert_eq!(runner.servers().len(), 1);
}

#[test]
fn multiplexer_ignores_replies() {
    let mut runner = DBusRunner::new();
    assert!(runner.add_server("a", server_with("org.example.A")).is_ok());
    let mut h = handlers();
    let mut m = call("org.example.A", "Echo", vec![]);
    m.message_type = MessageType::MethodReturn;
    assert!(runner.dispatch(&mut h, &m).is_none());
    assert_eq!(h.calls, 0);
}

#[test]
fn error_texts() {
    assert_eq!(Error::ServerAlreadyRegistered("x".to_owned()).describe(), "server already registered: x");
    assert_eq!(Error::NoSuchServer("x".to_owned()).describe(), "no such server: x");
    assert_eq!(Error::InterfaceAlreadyRegistered("i".to_owned()).describe(), "interface already registered: i");
    assert_eq!(Error::RegistryFinalized("i".to_owned()).describe(), "registry finalized: i");
    assert_eq!(Error::NoServerName.describe(), "listening server cannot handle methods");
    assert_eq!(Error::ExtractArguments("bad".to_owned()).describe(), "failed to extract arguments: bad");
}

#[test]
fn invalid_argument_index_text() {
    let m = call("org.example.A", "Echo", vec![]);
    match m.extract(123) {
        Err(e) => {
            assert_eq!(e.name, "org.freedesktop.DBus.Error.InvalidArgs");
            assert_eq!(e.message, "invalid argument at 123");
        },
        Ok(_) => panic!("expected an error"),
    }
}

#[test]
fn target_of_call_and_reply() {
    let m = call("org.example.A", "Echo", vec![]);
    let t = extract_target(&m).unwrap();
    assert_eq!(t.interface, "org.example.A");
    assert_eq!(t.object, "/");
    assert_eq!(t.method, "Echo");
    assert!(extract_target(&m.return_message()).is_none());
}

#[test]
fn replace_keeps_position() {
    let i = Interface::new()
        .add_method("A", Method::new(1))
        .add_method("B", Method::new(2))
        .add_method("A", Method::new(3));
    assert_eq!(i.methods.len(), 2);
    assert_eq!(i.methods.name_at(0), "A");
    assert!(matches!(i.methods.value_at(0).cb, dbus_rs_core::interface::Callback::User(3)));
}

#[test]
fn message_kinds_from_codes() {
    assert_eq!(MessageType::from_code(1), MessageType::MethodCall);
    assert_eq!(MessageType::from_code(2), MessageType::MethodReturn);
    assert_eq!(MessageType::from_code(3), MessageType::Error);
    assert_eq!(MessageType::from_code(4), MessageType::Signal);
    assert_eq!(MessageType::from_code(0), MessageType::Invalid);
    assert_eq!(MessageType::from_code(9), MessageType::Invalid);
}

#[test]
fn writer_error_passed_on() {
    let r = finalized();
    let mut h = handlers();
    let set = call(
        "org.freedesktop.DBus.Properties",
        "Set",
        vec![s("org.example.Sample"), s("w"), Value::BasicValue(BasicValue::Uint32(1))],
    );
    let reply = r.handle(&mut h, &set).unwrap();
    assert_eq!(reply.message_type, MessageType::Error);
    assert_eq!(reply.error_name.as_deref(), Some("org.example.BadValue"));
    assert_eq!(string_of(&reply.body[0]), "not a string");
    assert!(h.written.is_none());
}

#[test]
fn standard_interfaces_declare_their_arguments() {
    let r = finalized();
    let props = r.interfaces().get("org.freedesktop.DBus.Properties").unwrap();
    let get = props.methods.get("Get").unwrap();
    assert!(matches!(get.cb, dbus_rs_core::interface::Callback::GetProperty));
    assert_eq!(get.in_args.len(), 2);
    assert_eq!(get.in_args[0].name, "interface_name");
    assert_eq!(get.in_args[1].name, "property_name");
    assert_eq!(get.out_args[0].signature, "v");
    let all = props.methods.get("GetAll").unwrap();
    assert_eq!(all.out_args[0].name, "props");
    assert_eq!(all.out_args[0].signature, "{sv}");
    let peer = r.interfaces().get("org.freedesktop.DBus.Peer").unwrap();
    assert_eq!(peer.methods.get("GetMachineId").unwrap().out_args[0].name, "machine_uuid");
    let intro = r.interfaces().get("org.freedesktop.DBus.Introspectable").unwrap();
    assert_eq!(intro.methods.get("Introspect").unwrap().out_args[0].name, "xml_data");
}
