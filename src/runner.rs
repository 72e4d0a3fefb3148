//! Several independently registered servers sharing one connection: each
//! incoming item is offered to the servers in turn until one claims it.
use vstd::prelude::*;
use crate::error::Error;
use crate::interface::{MethodHandler, PropertyReadHandler, PropertyWriteHandler};
use crate::interfaces::Interfaces;
use crate::message::{Message, MessageType};
use crate::name_map::NameMap;

verus! {

/// No server among the first `n` claims `msg`.
pub open spec fn none_claims(servers: Seq<Interfaces>, msg: Message, n: int) -> bool {
    forall|j: int| 0 <= j < n ==> (#[trigger] servers[j]).target_method(msg) is None
}

/// The servers, by name, in name order.
pub struct DBusRunner {
    servers: NameMap<Interfaces>,
}

impl DBusRunner {
    /// The servers, by name.
    pub closed spec fn server_map(&self) -> NameMap<Interfaces> {
        self.servers
    }

    /// The servers, by name, in name order.
    pub fn servers(&self) -> (r: &NameMap<Interfaces>)
        ensures
            *r == self.server_map(),
    {
        &self.servers
    }

    pub fn new() -> (r: DBusRunner)
        ensures
            r.server_map().keys().len() == 0,
            r.server_map().vals().len() == 0,
    {
        DBusRunner { servers: NameMap::new() }
    }

    /// Adds `server` under `name`, unless a server of that name is present.
    pub fn add_server(&mut self, name: &str, server: Interfaces) -> (r: Result<(), Error>)
        ensures
            old(self).server_map().has(name@) ==> r is Err && r->Err_0 is ServerAlreadyRegistered
                && r->Err_0->ServerAlreadyRegistered_0@ == name@ && *final(self) == *old(self),
            !old(self).server_map().has(name@) ==> r is Ok && old(self).server_map().inserted(
                final(self).server_map(),
                name@,
                server,
            ),
    {
        match self.servers.find(name) {
            Some(_) => Err(Error::ServerAlreadyRegistered(name.to_owned())),
            None => {
                self.servers.insert(name, server);
                Ok(())
            },
        }
    }

    /// `after` is `self` without the server named `name`.
    pub open spec fn removed(&self, after: DBusRunner, name: Seq<char>) -> bool {
        &&& self.server_map().has(name)
        &&& after.server_map().keys() == self.server_map().keys().remove(self.server_map().index_of(name))
        &&& after.server_map().vals() == self.server_map().vals().remove(self.server_map().index_of(name))
    }

    /// Removes the server named `name`, which must be present.
    pub fn remove_server(&mut self, name: &str) -> (r: Result<(), Error>)
        ensures
            old(self).server_map().has(name@) ==> r is Ok && old(self).removed(*final(self), name@),
            !old(self).server_map().has(name@) ==> r is Err && r->Err_0 is NoSuchServer
                && r->Err_0->NoSuchServer_0@ == name@ && *final(self) == *old(self),
    {
        match self.servers.remove(name) {
            Some(_) => Ok(()),
            None => Err(Error::NoSuchServer(name.to_owned())),
        }
    }

    /// Offers `item` to each server in turn; the first that claims it runs
    /// the call, and its reply is returned. Only calls and signals are
    /// offered; an item that no server claims gives `None`.
    pub fn dispatch<H: MethodHandler + PropertyReadHandler + PropertyWriteHandler>(
        &self,
        h: &mut H,
        item: &Message,
    ) -> (r: Option<Message>)
        ensures
            r is None <==> none_claims(self.server_map().vals(), *item, self.server_map().vals().len() as int),
            r is None ==> *final(h) == *old(h),
            r is Some ==> exists|i: int|
                0 <= i < self.server_map().vals().len() && none_claims(self.server_map().vals(), *item, i)
                    && (#[trigger] self.server_map().vals()[i]).target_method(*item) is Some
                    && self.server_map().vals()[i].replies(old(h), final(h), *item, r->Some_0),
    {
        let offered = match item.message_type() {
            MessageType::MethodCall => true,
            MessageType::Signal => true,
            _ => false,
        };
        if !offered {
            assert(none_claims(self.server_map().vals(), *item, self.server_map().vals().len() as int));
            return None;
        }
        let n = self.servers.len();
        let mut i: usize = 0;
        while i < n
            invariant
                n == self.server_map().vals().len(),
                n == self.server_map().keys().len(),
                i <= n,
                none_claims(self.server_map().vals(), *item, i as int),
                *h == *old(h),
            decreases n - i,
        {
            let server = self.servers.value_at(i);
            match server.handle(h, item) {
                Some(reply) => {
                    assert(self.server_map().vals()[i as int].target_method(*item) is Some);
                    return Some(reply);
                },
                None => {},
            }
            i = i + 1;
        }
        None
    }
}

/// A call that only the server named `owner` claims is claimed by no server
/// once `owner` has been removed.
pub proof fn lemma_unclaimed_after_owner_removed(
    before: DBusRunner,
    after: DBusRunner,
    owner: Seq<char>,
    msg: Message,
)
    requires
        before.server_map().valid(),
        before.removed(after, owner),
        forall|i: int|
            0 <= i < before.server_map().vals().len() && (#[trigger] before.server_map().vals()[i]).target_method(
                msg,
            ) is Some ==> i == before.server_map().index_of(owner),
    ensures
        none_claims(after.server_map().vals(), msg, after.server_map().vals().len() as int),
{
    let k = before.server_map().index_of(owner);
    let vs = before.server_map().vals();
    assert forall|j: int| 0 <= j < after.server_map().vals().len() implies (
    #[trigger] after.server_map().vals()[j]).target_method(msg) is None by {
        if j < k {
            assert(after.server_map().vals()[j] == vs[j]);
        } else {
            assert(after.server_map().vals()[j] == vs[j + 1]);
        }
    }
}

} // verus!
