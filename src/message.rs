//! Bus messages as the dispatch engine sees them: a kind, serial numbers,
//! the header fields that address a call, and the decoded body.
use vstd::prelude::*;
use vstd::string::StringExecFns;
use crate::interface::{ErrorMessage, error_is};
use crate::value::{Value, is_string_value};

verus! {

/// The kinds of message on the bus.
#[derive(PartialEq, Eq, Structural, Clone, Copy, Debug)]
pub enum MessageType {
    Error,
    Invalid,
    MethodCall,
    MethodReturn,
    Signal,
}

impl MessageType {
    /// The kind that the wire code `code` stands for; unknown codes are
    /// invalid.
    pub fn from_code(code: u8) -> (r: MessageType)
        ensures
            r == (if code == 1 {
                MessageType::MethodCall
            } else if code == 2 {
                MessageType::MethodReturn
            } else if code == 3 {
                MessageType::Error
            } else if code == 4 {
                MessageType::Signal
            } else {
                MessageType::Invalid
            }),
    {
        match code {
            1 => MessageType::MethodCall,
            2 => MessageType::MethodReturn,
            3 => MessageType::Error,
            4 => MessageType::Signal,
            _ => MessageType::Invalid,
        }
    }
}

/// A message: its kind, serial, header fields and body.
pub struct Message {
    pub message_type: MessageType,
    pub serial: u32,
    pub reply_serial: Option<u32>,
    pub destination: Option<String>,
    pub path: Option<String>,
    pub interface: Option<String>,
    pub member: Option<String>,
    pub error_name: Option<String>,
    pub body: Vec<Value>,
}

/// The view of an optional string header.
pub open spec fn header_view(h: Option<String>) -> Option<Seq<char>> {
    match h {
        Some(s) => Some(s@),
        None => None,
    }
}

pub open spec fn invalid_args_name() -> Seq<char> {
    "org.freedesktop.DBus.Error.InvalidArgs"@
}

/// The decimal digits of `n`.
pub open spec fn decimal(n: nat) -> Seq<char>
    decreases n,
{
    if n < 10 {
        seq![digit_char(n)]
    } else {
        decimal(n / 10).push(digit_char(n % 10))
    }
}

pub open spec fn digit_char(d: nat) -> char {
    if d == 0 { '0' } else if d == 1 { '1' } else if d == 2 { '2' } else if d == 3 { '3' }
    else if d == 4 { '4' } else if d == 5 { '5' } else if d == 6 { '6' } else if d == 7 { '7' }
    else if d == 8 { '8' } else { '9' }
}

fn digit(d: usize) -> (r: &'static str)
    requires
        d < 10,
    ensures
        r@ == seq![digit_char(d as nat)],
{
    proof {
        reveal_strlit("0");
        reveal_strlit("1");
        reveal_strlit("2");
        reveal_strlit("3");
        reveal_strlit("4");
        reveal_strlit("5");
        reveal_strlit("6");
        reveal_strlit("7");
        reveal_strlit("8");
        reveal_strlit("9");
    }
    let r = if d == 0 { "0" } else if d == 1 { "1" } else if d == 2 { "2" } else if d == 3 { "3" }
    else if d == 4 { "4" } else if d == 5 { "5" } else if d == 6 { "6" } else if d == 7 { "7" }
    else if d == 8 { "8" } else { "9" };
    assert(r@ =~= seq![digit_char(d as nat)]);
    r
}

/// The decimal text of `n`.
pub fn decimal_string(n: usize) -> (r: String)
    ensures
        r@ == decimal(n as nat),
    decreases n,
{
    if n < 10 {
        digit(n).to_owned()
    } else {
        let mut r = decimal_string(n / 10);
        r.append(digit(n % 10));
        r
    }
}

/// The error for a call that carries no arguments at all.
pub fn invalid_arguments_error() -> (r: ErrorMessage)
    ensures
        error_is(r, invalid_args_name(), "invalid arguments"@),
{
    ErrorMessage { name: "org.freedesktop.DBus.Error.InvalidArgs".to_owned(), message: "invalid arguments".to_owned() }
}

/// The error for an argument that is missing or of the wrong kind.
pub fn invalid_argument(index: usize) -> (r: ErrorMessage)
    ensures
        error_is(r, invalid_args_name(), "invalid argument at "@ + decimal(index as nat)),
{
    let mut m = "invalid argument at ".to_owned();
    let d = decimal_string(index);
    m.append(d.as_str());
    ErrorMessage { name: "org.freedesktop.DBus.Error.InvalidArgs".to_owned(), message: m }
}

impl Message {
    /// A method call to `method` of `iface` on the object at `path` of `dest`.
    pub fn new_method_call(dest: &str, path: &str, iface: &str, method: &str) -> (r: Message)
        ensures
            r.message_type == MessageType::MethodCall,
            header_view(r.destination) == Some(dest@),
            header_view(r.path) == Some(path@),
            header_view(r.interface) == Some(iface@),
            header_view(r.member) == Some(method@),
            r.error_name is None,
            r.reply_serial is None,
            r.body@.len() == 0,
    {
        Message {
            message_type: MessageType::MethodCall,
            serial: 0,
            reply_serial: None,
            destination: Some(dest.to_owned()),
            path: Some(path.to_owned()),
            interface: Some(iface.to_owned()),
            member: Some(method.to_owned()),
            error_name: None,
            body: Vec::new(),
        }
    }

    /// A signal `member` of `iface` sent from the object at `path`.
    pub fn new_signal(path: &str, iface: &str, member: &str) -> (r: Message)
        ensures
            r.message_type == MessageType::Signal,
            r.destination is None,
            header_view(r.path) == Some(path@),
            header_view(r.interface) == Some(iface@),
            header_view(r.member) == Some(member@),
            r.error_name is None,
            r.reply_serial is None,
            r.body@.len() == 0,
    {
        Message {
            message_type: MessageType::Signal,
            serial: 0,
            reply_serial: None,
            destination: None,
            path: Some(path.to_owned()),
            interface: Some(iface.to_owned()),
            member: Some(member.to_owned()),
            error_name: None,
            body: Vec::new(),
        }
    }

    /// An error reply named `name` to this message.
    pub fn error_message(&self, name: &str) -> (r: Message)
        ensures
            r.message_type == MessageType::Error,
            r.reply_serial == Some(self.serial),
            header_view(r.error_name) == Some(name@),
            r.destination is None && r.path is None && r.interface is None && r.member is None,
            r.body@.len() == 0,
    {
        Message {
            message_type: MessageType::Error,
            serial: 0,
            reply_serial: Some(self.serial),
            destination: None,
            path: None,
            interface: None,
            member: None,
            error_name: Some(name.to_owned()),
            body: Vec::new(),
        }
    }

    /// A method return for this message.
    pub fn return_message(&self) -> (r: Message)
        ensures
            r.message_type == MessageType::MethodReturn,
            r.reply_serial == Some(self.serial),
            r.error_name is None,
            r.destination is None && r.path is None && r.interface is None && r.member is None,
            r.body@.len() == 0,
    {
        Message {
            message_type: MessageType::MethodReturn,
            serial: 0,
            reply_serial: Some(self.serial),
            destination: None,
            path: None,
            interface: None,
            member: None,
            error_name: None,
            body: Vec::new(),
        }
    }

    /// This message with `arg` appended to its body.
    pub fn add_argument(self, arg: Value) -> (r: Message)
        ensures
            r.body@ == self.body@.push(arg),
            r.message_type == self.message_type,
            r.serial == self.serial,
            r.reply_serial == self.reply_serial,
            r.destination == self.destination,
            r.path == self.path,
            r.interface == self.interface,
            r.member == self.member,
            r.error_name == self.error_name,
    {
        let mut m = self;
        m.body.push(arg);
        m
    }

    pub fn message_type(&self) -> (r: MessageType)
        ensures
            r == self.message_type,
    {
        self.message_type
    }

    /// The interface header.
    pub fn interface(&self) -> (r: Option<&String>)
        ensures
            r == match self.interface {
                Some(s) => Some(&s),
                None => None::<&String>,
            },
    {
        self.interface.as_ref()
    }

    /// The object-path header.
    pub fn path(&self) -> (r: Option<&String>)
        ensures
            r == match self.path {
                Some(s) => Some(&s),
                None => None::<&String>,
            },
    {
        self.path.as_ref()
    }

    /// The member header.
    pub fn member(&self) -> (r: Option<&String>)
        ensures
            r == match self.member {
                Some(s) => Some(&s),
                None => None::<&String>,
            },
    {
        self.member.as_ref()
    }

    /// The body's values.
    pub fn values(&self) -> (r: &Vec<Value>)
        ensures
            r@ == self.body@,
    {
        &self.body
    }

    /// The body value at `index`.
    pub fn extract(&self, index: usize) -> (r: Result<&Value, ErrorMessage>)
        ensures
            index < self.body@.len() ==> r == Ok::<&Value, ErrorMessage>(&self.body@[index as int]),
            index >= self.body@.len() ==> r is Err && error_is(r->Err_0, invalid_args_name(),
                "invalid argument at "@ + decimal(index as nat)),
    {
        if index < self.body.len() {
            Ok(&self.body[index])
        } else {
            Err(invalid_argument(index))
        }
    }

    /// The string that the body holds at `index`.
    pub fn extract_string(&self, index: usize) -> (r: Result<&String, ErrorMessage>)
        ensures
            match r {
                Ok(s) => index < self.body@.len() && is_string_value(self.body@[index as int], s@),
                Err(e) => error_is(e, invalid_args_name(), "invalid argument at "@ + decimal(index as nat))
                    && (index < self.body@.len() ==> !(self.body@[index as int] is BasicValue
                        && self.body@[index as int]->BasicValue_0 is String)),
            },
    {
        match self.extract(index) {
            Ok(value) => match value.as_string() {
                Some(s) => Ok(s),
                None => Err(invalid_argument(index)),
            },
            Err(e) => Err(e),
        }
    }
}

} // verus!
