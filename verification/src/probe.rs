//! The liveness-probe payload.
//!
//! The probe is a stateless one-shot diagnostic, independent of the tracer
//! lifecycle: the caller binds a throwaway socket and sends a single
//! datagram announcing the module and the process's working directory. The
//! payload is built and pinned down here; the socket work stays with the
//! caller.

use vstd::prelude::*;

verus! {

/// The probe payload for a process whose working directory is `cwd`: the
/// module identifier, the words `loaded at`, and the directory itself.
pub open spec fn probe_message_of(cwd: Seq<char>) -> Seq<char> {
    "machine_tracer loaded at "@ + cwd
}

/// Builds the probe payload for the given working directory.
pub fn probe_message(cwd: &str) -> (r: String)
    ensures
        r@ == probe_message_of(cwd@),
{
    let mut s = String::new();
    s.append("machine_tracer loaded at ");
    s.append(cwd);
    proof {
        assert(s@ =~= probe_message_of(cwd@));
    }
    s
}

/// Law: the probe payload carries the working directory literally — it is
/// exactly the fixed prefix followed by the directory, so the directory is
/// the suffix that starts where the prefix ends.
pub proof fn lemma_probe_message_carries_cwd(cwd: Seq<char>)
    ensures
        probe_message_of(cwd).len() == "machine_tracer loaded at "@.len() + cwd.len(),
        probe_message_of(cwd).subrange(
            "machine_tracer loaded at "@.len() as int,
            probe_message_of(cwd).len() as int,
        ) == cwd,
{
    assert(probe_message_of(cwd).subrange(
        "machine_tracer loaded at "@.len() as int,
        probe_message_of(cwd).len() as int,
    ) =~= cwd);
}

} // verus!
