//! The caller-supplied description of one tunnel session.

use vstd::prelude::*;

verus! {

/// What one session forwards: a remote target, a credential profile and the
/// two ends of the port forwarding.  Immutable for a running process; an
/// update only takes effect on the next start.
#[derive(Clone, Debug, PartialEq)]
pub struct SessionConfig {
    /// Identifier of the remote target instance.
    pub identifier: String,
    /// Name of the credential profile; may be empty.
    pub profile: String,
    /// Local port the tunnel listens on.
    pub host_port: usize,
    /// Remote port the tunnel forwards to.
    pub dest_port: usize,
}

impl SessionConfig {
    /// The configuration invariant: both ports are positive and the target
    /// identifier is non-empty.
    pub open spec fn valid(self) -> bool {
        &&& self.identifier@.len() > 0
        &&& self.host_port > 0
        &&& self.dest_port > 0
    }
}

} // verus!
