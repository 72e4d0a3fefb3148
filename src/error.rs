//! Errors of registration and of talking to the bus.
use vstd::prelude::*;
use vstd::string::StringExecFns;

verus! {

/// Error states.
pub enum Error {
    /// An invalid reply was received from a method call.
    InvalidReply(String),
    /// The bus connection failed; the text describes the cause.
    DBusMessage(String),
    /// An object was added to a signal-receiver server.
    NoServerName,
    /// A server with the given name was already registered.
    ServerAlreadyRegistered(String),
    /// A request for a non-existent server was given.
    NoSuchServer(String),
    /// An object was registered to a path, but it already existed.
    PathAlreadyRegistered(String),
    /// An object was requested to be removed, but it does not exist.
    NoSuchPath(String),
    /// Extracting values from a message body failed; the text describes why.
    ExtractArguments(String),
    /// An attempt to redefine an interface for an object was made.
    InterfaceAlreadyRegistered(String),
    /// An interface was added to a registry that was already finalized.
    RegistryFinalized(String),
}

/// The human-readable text of an error.
pub open spec fn error_text(e: Error) -> Seq<char> {
    match e {
        Error::InvalidReply(d) => "invalid reply: "@ + d@,
        Error::DBusMessage(d) => "dbus error: "@ + d@,
        Error::NoServerName => "listening server cannot handle methods"@,
        Error::ServerAlreadyRegistered(n) => "server already registered: "@ + n@,
        Error::NoSuchServer(n) => "no such server: "@ + n@,
        Error::PathAlreadyRegistered(p) => "path already registered: "@ + p@,
        Error::NoSuchPath(p) => "no such path: "@ + p@,
        Error::ExtractArguments(d) => "failed to extract arguments: "@ + d@,
        Error::InterfaceAlreadyRegistered(n) => "interface already registered: "@ + n@,
        Error::RegistryFinalized(n) => "registry finalized: "@ + n@,
    }
}

/// `prefix` followed by `s`.
pub fn prefixed(prefix: &str, s: &str) -> (r: String)
    ensures
        r@ == prefix@ + s@,
{
    let mut r = prefix.to_owned();
    r.append(s);
    r
}

impl Error {
    /// The human-readable text of this error.
    pub fn describe(&self) -> (r: String)
        ensures
            r@ == error_text(*self),
    {
        match self {
            Error::InvalidReply(d) => prefixed("invalid reply: ", d.as_str()),
            Error::DBusMessage(d) => prefixed("dbus error: ", d.as_str()),
            Error::NoServerName => "listening server cannot handle methods".to_owned(),
            Error::ServerAlreadyRegistered(n) => prefixed("server already registered: ", n.as_str()),
            Error::NoSuchServer(n) => prefixed("no such server: ", n.as_str()),
            Error::PathAlreadyRegistered(p) => prefixed("path already registered: ", p.as_str()),
            Error::NoSuchPath(p) => prefixed("no such path: ", p.as_str()),
            Error::ExtractArguments(d) => prefixed("failed to extract arguments: ", d.as_str()),
            Error::InterfaceAlreadyRegistered(n) => prefixed("interface already registered: ", n.as_str()),
            Error::RegistryFinalized(n) => prefixed("registry finalized: ", n.as_str()),
        }
    }
}

} // verus!
