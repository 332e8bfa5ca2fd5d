use vstd::prelude::*;

verus! {

/// What handlers see of one conversation: the label of the responding
/// server instance and whether the version handshake has completed.
/// Storage is not held here; the connection engine asks its driver to
/// persist records (see `connection`).
#[derive(Debug, Clone, Copy, PartialEq, Eq)]
pub struct State {
    pub hostname: &'static str,
    pub handshake: bool,
}

impl State {
    /// A fresh conversation: no handshake yet.
    pub fn new(hostname: &'static str) -> (r: State)
        ensures
            r.hostname == hostname,
            !r.handshake,
    {
        State { hostname, handshake: false }
    }
}

} // verus!
