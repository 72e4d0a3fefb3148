//! Interfaces: named bundles of methods, properties and signals, and the
//! property read and write paths.
use vstd::prelude::*;
use vstd::string::StringExecFns;
use crate::message::Message;
use crate::name_map::NameMap;
use crate::value::{BasicValue, Dictionary, Signature, Value};

verus! {

/// An argument of a method or signal, as it is described.
pub struct Argument {
    pub name: String,
    pub signature: String,
}

impl Argument {
    pub fn new(name: &str, sig: &str) -> (r: Argument)
        ensures
            r.name@ == name@,
            r.signature@ == sig@,
    {
        Argument { name: name.to_owned(), signature: sig.to_owned() }
    }
}

/// A name/value annotation on a method, property or signal.
pub struct Annotation {
    pub name: String,
    pub value: String,
}

impl Annotation {
    pub fn new(name: &str, value: &str) -> (r: Annotation)
        ensures
            r.name@ == name@,
            r.value@ == value@,
    {
        Annotation { name: name.to_owned(), value: value.to_owned() }
    }
}

/// An error reply: its symbolic name and its human-readable message.
pub struct ErrorMessage {
    pub name: String,
    pub message: String,
}

/// `e` has the symbolic name `name` and the message `message`.
pub open spec fn error_is(e: ErrorMessage, name: Seq<char>, message: Seq<char>) -> bool {
    e.name@ == name && e.message@ == message
}

impl ErrorMessage {
    pub fn new(name: &str, message: &str) -> (r: ErrorMessage)
        ensures
            error_is(r, name@, message@),
    {
        ErrorMessage { name: name.to_owned(), message: message.to_owned() }
    }
}

pub type MethodResult = Result<Vec<Value>, ErrorMessage>;

pub type PropertyGetResult = Result<Value, ErrorMessage>;

pub type PropertySetResult = Result<(), ErrorMessage>;

/// The application's method handlers, each known by a number.
pub trait MethodHandler {
    /// Running handler `method` on the call `msg` in this state may answer
    /// `r` and leave the handlers in state `after`.
    spec fn called(&self, after: &Self, method: u64, msg: Message, r: MethodResult) -> bool;

    /// Runs the handler numbered `method` on the call `msg`.
    fn call(&mut self, method: u64, msg: &Message) -> (r: MethodResult)
        ensures
            old(self).called(&*final(self), method, *msg, r),
    ;
}

/// The application's property readers, each known by a number.
pub trait PropertyReadHandler {
    /// What reading the property `property` yields in the current state.
    spec fn read_spec(&self, property: u64) -> PropertyGetResult;

    fn get(&self, property: u64) -> (r: PropertyGetResult)
        ensures
            r == self.read_spec(property),
    ;
}

/// The application's property writers, each known by a number.
pub trait PropertyWriteHandler {
    /// Writing `value` to property `property` in this state may answer `r`
    /// and leave the handlers in state `after`.
    spec fn wrote(&self, after: &Self, property: u64, value: Value, r: PropertySetResult) -> bool;

    fn set(&mut self, property: u64, value: &Value) -> (r: PropertySetResult)
        ensures
            old(self).wrote(&*final(self), property, *value, r),
    ;
}

/// What runs when a method is called: one of the standard methods that a
/// registry provides, or a handler of the application.
pub enum Callback {
    Ping,
    GetMachineId,
    GetProperty,
    SetProperty,
    GetAllProperties,
    Introspect,
    User(u64),
}

pub struct Method {
    pub in_args: Vec<Argument>,
    pub out_args: Vec<Argument>,
    pub cb: Callback,
    pub anns: Vec<Annotation>,
}

impl Method {
    /// A method run by the application's handler numbered `handler`.
    pub fn new(handler: u64) -> (r: Method)
        ensures
            r.cb == Callback::User(handler),
            r.in_args@.len() == 0 && r.out_args@.len() == 0 && r.anns@.len() == 0,
    {
        Method::with_callback(Callback::User(handler))
    }

    pub fn with_callback(cb: Callback) -> (r: Method)
        ensures
            r.cb == cb,
            r.in_args@.len() == 0 && r.out_args@.len() == 0 && r.anns@.len() == 0,
    {
        Method { in_args: Vec::new(), out_args: Vec::new(), cb, anns: Vec::new() }
    }

    /// Appends an input argument.
    pub fn add_argument(self, arg: Argument) -> (r: Method)
        ensures
            r.in_args@ == self.in_args@.push(arg),
            r.out_args@ == self.out_args@ && r.anns@ == self.anns@ && r.cb == self.cb,
    {
        let mut m = self;
        m.in_args.push(arg);
        m
    }

    /// Appends an output argument.
    pub fn add_result(self, arg: Argument) -> (r: Method)
        ensures
            r.out_args@ == self.out_args@.push(arg),
            r.in_args@ == self.in_args@ && r.anns@ == self.anns@ && r.cb == self.cb,
    {
        let mut m = self;
        m.out_args.push(arg);
        m
    }

    pub fn annotate(self, ann: Annotation) -> (r: Method)
        ensures
            r.anns@ == self.anns@.push(ann),
            r.in_args@ == self.in_args@ && r.out_args@ == self.out_args@ && r.cb == self.cb,
    {
        let mut m = self;
        m.anns.push(ann);
        m
    }
}

/// How a property may be accessed, with the number of the application's
/// handler that reads or writes it.
pub enum PropertyAccess {
    ReadOnly(u64),
    ReadWrite(u64),
    WriteOnly(u64),
}

pub struct Property {
    pub signature: Signature,
    pub access: PropertyAccess,
    pub anns: Vec<Annotation>,
}

impl Property {
    pub fn new(sig: Signature, access: PropertyAccess) -> (r: Property)
        ensures
            r.signature == sig && r.access == access && r.anns@.len() == 0,
    {
        Property { signature: sig, access, anns: Vec::new() }
    }

    /// A read-only property read by the handler numbered `reader`.
    pub fn new_ro(sig: Signature, reader: u64) -> (r: Property)
        ensures
            r.signature == sig && r.access == PropertyAccess::ReadOnly(reader) && r.anns@.len() == 0,
    {
        Property::new(sig, PropertyAccess::ReadOnly(reader))
    }

    /// A property read and written by the handler numbered `handler`.
    pub fn new_rw(sig: Signature, handler: u64) -> (r: Property)
        ensures
            r.signature == sig && r.access == PropertyAccess::ReadWrite(handler) && r.anns@.len() == 0,
    {
        Property::new(sig, PropertyAccess::ReadWrite(handler))
    }

    /// A write-only property written by the handler numbered `writer`.
    pub fn new_wo(sig: Signature, writer: u64) -> (r: Property)
        ensures
            r.signature == sig && r.access == PropertyAccess::WriteOnly(writer) && r.anns@.len() == 0,
    {
        Property::new(sig, PropertyAccess::WriteOnly(writer))
    }

    pub fn annotate(self, ann: Annotation) -> (r: Property)
        ensures
            r.anns@ == self.anns@.push(ann),
            r.signature == self.signature && r.access == self.access,
    {
        let mut p = self;
        p.anns.push(ann);
        p
    }
}

pub struct Signal {
    pub args: Vec<Argument>,
    pub anns: Vec<Annotation>,
}

impl Signal {
    pub fn new() -> (r: Signal)
        ensures
            r.args@.len() == 0 && r.anns@.len() == 0,
    {
        Signal { args: Vec::new(), anns: Vec::new() }
    }

    pub fn add_argument(self, arg: Argument) -> (r: Signal)
        ensures
            r.args@ == self.args@.push(arg),
            r.anns@ == self.anns@,
    {
        let mut s = self;
        s.args.push(arg);
        s
    }

    pub fn annotate(self, ann: Annotation) -> (r: Signal)
        ensures
            r.anns@ == self.anns@.push(ann),
            r.args@ == self.args@,
    {
        let mut s = self;
        s.anns.push(ann);
        s
    }
}

} // verus!

verus! {

pub open spec fn unknown_property_name() -> Seq<char> {
    "org.freedesktop.DBus.Error.UnknownProperty"@
}

pub open spec fn failed_name() -> Seq<char> {
    "org.freedesktop.DBus.Error.Failed"@
}

/// The handler that reads a property of this access mode, if it is readable.
pub open spec fn reader_of(a: PropertyAccess) -> Option<u64> {
    match a {
        PropertyAccess::ReadOnly(id) => Some(id),
        PropertyAccess::ReadWrite(id) => Some(id),
        PropertyAccess::WriteOnly(_) => None,
    }
}

/// `r` is what a property read that yielded `g` answers: the value alone, or
/// the reader's error.
pub open spec fn read_answer(r: MethodResult, g: PropertyGetResult) -> bool {
    match g {
        Ok(v) => r is Ok && r->Ok_0@ == seq![v],
        Err(e) => r is Err && r->Err_0 == e,
    }
}

/// The answer to reading property `name` of an interface whose properties
/// are `props`, with the readers `h`.
pub open spec fn get_property_answer<H: PropertyReadHandler>(
    props: NameMap<Property>,
    h: &H,
    name: Seq<char>,
    r: MethodResult,
) -> bool {
    match props.lookup(name) {
        None => r is Err && error_is(r->Err_0, unknown_property_name(), "unknown property: "@ + name),
        Some(p) => match reader_of(p.access) {
            Some(id) => read_answer(r, h.read_spec(id)),
            None => r is Err && error_is(r->Err_0, failed_name(), "property is write-only: "@ + name),
        },
    }
}

/// The handler that writes a property of this access mode, if it is
/// writable.
pub open spec fn writer_of(a: PropertyAccess) -> Option<u64> {
    match a {
        PropertyAccess::ReadOnly(_) => None,
        PropertyAccess::ReadWrite(id) => Some(id),
        PropertyAccess::WriteOnly(id) => Some(id),
    }
}

/// The writer's answer that a property write answering `r` passes on: no
/// values on success, the writer's own error otherwise.
pub open spec fn write_outcome(r: MethodResult) -> PropertySetResult {
    match r {
        Ok(_) => Ok(()),
        Err(e) => Err(e),
    }
}

/// The answer to writing `value` to property `name` of an interface whose
/// properties are `props`, with the writers in state `before` and then
/// `after`: a writable property's writer gets its handler number and the
/// value, and its answer is passed on; otherwise the writers are left
/// untouched and the library's own error comes back.
pub open spec fn set_property_answer<H: PropertyWriteHandler>(
    props: NameMap<Property>,
    before: H,
    after: H,
    name: Seq<char>,
    value: Value,
    r: MethodResult,
) -> bool {
    match props.lookup(name) {
        None => r is Err && error_is(r->Err_0, unknown_property_name(), "unknown property: "@ + name)
            && after == before,
        Some(p) => match writer_of(p.access) {
            None => r is Err && error_is(r->Err_0, failed_name(), "property is read-only: "@ + name)
                && after == before,
            Some(id) => before.wrote(&after, id, value, write_outcome(r)) && (r is Ok ==> r->Ok_0@.len()
                == 0),
        },
    }
}

/// The names and values of the first `n` properties that read successfully,
/// in order; write-only properties and failed reads are left out.
pub open spec fn readable_values<H: PropertyReadHandler>(
    names: Seq<Seq<char>>,
    props: Seq<Property>,
    h: &H,
    n: int,
) -> Seq<(Seq<char>, Value)>
    decreases n,
{
    if n <= 0 {
        Seq::empty()
    } else {
        let prev = readable_values(names, props, h, n - 1);
        match reader_of(props[n - 1].access) {
            Some(id) => match h.read_spec(id) {
                Ok(v) => prev.push((names[n - 1], v)),
                Err(_) => prev,
            },
            None => prev,
        }
    }
}

/// The entries of a dictionary keyed by strings, with the keys as text.
pub open spec fn string_keyed(entries: Seq<(BasicValue, Value)>) -> Seq<(Seq<char>, Value)> {
    entries.map_values(|e: (BasicValue, Value)| (
        match e.0 {
            BasicValue::String(s) => s@,
            _ => Seq::empty(),
        },
        e.1,
    ))
}

pub open spec fn all_string_keys(entries: Seq<(BasicValue, Value)>) -> bool {
    forall|i: int| 0 <= i < entries.len() ==> #[trigger] entries[i].0 is String
}

/// A named bundle of methods, properties and signals.
pub struct Interface {
    pub methods: NameMap<Method>,
    pub properties: NameMap<Property>,
    pub signals: NameMap<Signal>,
}

impl Interface {
    pub fn new() -> (r: Interface)
        ensures
            r.methods.keys().len() == 0 && r.properties.keys().len() == 0 && r.signals.keys().len()
                == 0,
            r.methods.vals().len() == 0 && r.properties.vals().len() == 0 && r.signals.vals().len()
                == 0,
            r.methods.valid() && r.properties.valid() && r.signals.valid(),
    {
        Interface { methods: NameMap::new(), properties: NameMap::new(), signals: NameMap::new() }
    }

    /// Adds (or replaces) the method `name`.
    pub fn add_method(self, name: &str, method: Method) -> (r: Interface)
        ensures
            self.methods.inserted(r.methods, name@, method),
            r.methods.valid(),
            r.properties == self.properties && r.signals == self.signals,
    {
        let mut i = self;
        i.methods.insert(name, method);
        i
    }

    /// Adds (or replaces) the property `name`.
    pub fn add_property(self, name: &str, property: Property) -> (r: Interface)
        ensures
            self.properties.inserted(r.properties, name@, property),
            r.properties.valid(),
            r.methods == self.methods && r.signals == self.signals,
    {
        let mut i = self;
        i.properties.insert(name, property);
        i
    }

    /// Adds (or replaces) the signal `name`.
    pub fn add_signal(self, name: &str, signal: Signal) -> (r: Interface)
        ensures
            self.signals.inserted(r.signals, name@, signal),
            r.signals.valid(),
            r.methods == self.methods && r.properties == self.properties,
    {
        let mut i = self;
        i.signals.insert(name, signal);
        i
    }

    pub fn get_property(&self, name: &str) -> (r: Option<&Property>)
        ensures
            match r {
                Some(p) => self.properties.lookup(name@) == Some(*p),
                None => self.properties.lookup(name@) is None,
            },
    {
        self.properties.get(name)
    }

    fn require_property(&self, name: &str) -> (r: Result<&Property, ErrorMessage>)
        ensures
            match r {
                Ok(p) => self.properties.lookup(name@) == Some(*p),
                Err(e) => self.properties.lookup(name@) is None && error_is(e, unknown_property_name(),
                    "unknown property: "@ + name@),
            },
    {
        match self.properties.get(name) {
            Some(p) => Ok(p),
            None => {
                let mut m = "unknown property: ".to_owned();
                m.append(name);
                Err(ErrorMessage { name: "org.freedesktop.DBus.Error.UnknownProperty".to_owned(), message: m })
            },
        }
    }

    /// Reads property `name`: its value alone, or why it cannot be read.
    pub fn get_property_value<H: PropertyReadHandler>(&self, h: &H, name: &str) -> (r: MethodResult)
        ensures
            get_property_answer(self.properties, h, name@, r),
    {
        let prop = match self.require_property(name) {
            Ok(p) => p,
            Err(e) => return Err(e),
        };
        let id = match prop.access {
            PropertyAccess::ReadOnly(id) => id,
            PropertyAccess::ReadWrite(id) => id,
            PropertyAccess::WriteOnly(_) => {
                let mut m = "property is write-only: ".to_owned();
                m.append(name);
                return Err(ErrorMessage { name: "org.freedesktop.DBus.Error.Failed".to_owned(), message: m });
            },
        };
        match h.get(id) {
            Ok(v) => {
                let r = vec![v];
                assert(r@ =~= seq![v]);
                Ok(r)
            },
            Err(e) => Err(e),
        }
    }

    /// Writes `value` to property `name`. Only a writable property reaches
    /// its writer; the handlers are left untouched otherwise.
    pub fn set_property_value<H: PropertyWriteHandler>(&self, h: &mut H, name: &str, value: &Value) -> (r:
        MethodResult)
        ensures
            set_property_answer(self.properties, *old(h), *final(h), name@, *value, r),
    {
        let prop = match self.require_property(name) {
            Ok(p) => p,
            Err(e) => return Err(e),
        };
        let id = match prop.access {
            PropertyAccess::WriteOnly(id) => id,
            PropertyAccess::ReadWrite(id) => id,
            PropertyAccess::ReadOnly(_) => {
                let mut m = "property is read-only: ".to_owned();
                m.append(name);
                return Err(ErrorMessage { name: "org.freedesktop.DBus.Error.Failed".to_owned(), message: m });
            },
        };
        let w = h.set(id, value);
        let ghost w0 = w;
        let r = match w {
            Ok(u) => {
                assert(w0 == Ok::<(), ErrorMessage>(u));
                Ok(Vec::new())
            },
            Err(e) => Err(e),
        };
        assert(write_outcome(r) == w0);
        r
    }

    /// The values of all readable properties that read successfully, keyed
    /// by name, in property order.
    pub fn get_property_map<H: PropertyReadHandler>(&self, h: &H) -> (r: Dictionary)
        ensures
            all_string_keys(r.entries@),
            string_keyed(r.entries@) == readable_values(self.properties.keys(), self.properties.vals(), h,
                self.properties.keys().len() as int),
            r.signature.0@ == "a{sv}"@,
    {
        let mut entries: Vec<(BasicValue, Value)> = Vec::new();
        let n = self.properties.len();
        let mut i: usize = 0;
        while i < n
            invariant
                n == self.properties.keys().len(),
                i <= n,
                all_string_keys(entries@),
                string_keyed(entries@) == readable_values(self.properties.keys(), self.properties.vals(), h,
                    i as int),
            decreases n - i,
        {
            let prop = self.properties.value_at(i);
            let ghost prev = entries@;
            match prop.access {
                PropertyAccess::WriteOnly(_) => {},
                PropertyAccess::ReadOnly(id) | PropertyAccess::ReadWrite(id) => {
                    match h.get(id) {
                        Ok(v) => {
                            let key = self.properties.name_at(i).clone();
                            entries.push((BasicValue::String(key), v));
                            assert(string_keyed(entries@) =~= string_keyed(prev).push(
                                (self.properties.keys()[i as int], v),
                            ));
                        },
                        Err(_) => {},
                    }
                },
            }
            i = i + 1;
        }
        Dictionary { entries, signature: Signature("a{sv}".to_owned()) }
    }
}

} // verus!
