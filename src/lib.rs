//! The object model and dispatch engine of a message-bus service: interfaces
//! with methods, properties and signals, a registry that is sealed once the
//! standard interfaces are added, call dispatch, introspection documents and a
//! multiplexer of several registries over one connection.
use vstd::prelude::*;

pub mod order;
pub mod name_map;
pub mod value;
pub mod error;
pub mod interface;
pub mod message;
pub mod introspect;
mod machine;
pub mod interfaces;
pub mod runner;
pub mod target;
pub mod laws;
