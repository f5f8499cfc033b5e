use vstd::prelude::*;

verus! {

/// Server settings.
#[derive(Clone, Debug)]
pub struct Args {
    /// Shared secret that callers of the mutating operations present.
    pub admin_pw: String,
    /// Address to listen on, `host:port`.
    pub listen_addr: String,
}

} // verus!
