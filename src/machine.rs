//! The host's identity, as the identity provider reports it.
use vstd::prelude::*;

verus! {

/// Relies on machine_id::MachineId::get and its Display: the host's machine
/// identifier as text (read once per process, or generated when the host has
/// none). The text is the identifier as a hyphenated lowercase UUID, 36
/// characters; which identifier depends on the machine.
#[verifier::external_body]
pub(crate) fn machine_id_text() -> (r: String)
    ensures
        r@.len() == 36,
{
    format!("{}", machine_id::MachineId::get())
}

} // verus!
