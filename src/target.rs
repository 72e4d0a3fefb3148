//! The address of a call: interface, object path and method.
use vstd::prelude::*;
use crate::message::Message;

verus! {

#[derive(PartialEq, Eq, PartialOrd, Ord, Debug)]
pub struct DBusTarget {
    pub interface: String,
    pub object: String,
    pub method: String,
}

pub fn make_target(interface: String, object: String, method: String) -> (r: DBusTarget)
    ensures
        r.interface == interface && r.object == object && r.method == method,
{
    DBusTarget { interface, object, method }
}

/// The target of `m`, when it carries an interface, a path and a member.
pub fn extract_target(m: &Message) -> (r: Option<DBusTarget>)
    ensures
        match r {
            Some(t) => m.interface is Some && m.path is Some && m.member is Some
                && t.interface@ == m.interface->Some_0@ && t.object@ == m.path->Some_0@
                && t.method@ == m.member->Some_0@,
            None => m.interface is None || m.path is None || m.member is None,
        },
{
    match (m.interface(), m.path(), m.member()) {
        (Some(i), Some(p), Some(f)) => Some(make_target(i.clone(), p.clone(), f.clone())),
        _ => None,
    }
}

} // verus!
