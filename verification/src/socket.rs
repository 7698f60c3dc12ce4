//! The socket at which client and daemon meet.

use vstd::prelude::*;

verus! {

/// Where the daemon listens.
pub const SOCKET_PATH: &'static str = "/tmp/jobsched.sock";

/// What came of removing a socket that an earlier daemon may have left behind.
#[derive(Debug, PartialEq, Eq)]
pub enum Removal {
    /// There was one, and it is gone.
    Removed,
    /// There was none.
    NotFound,
    /// There is one, and it could not be removed.
    Failed,
}

/// Whether the daemon goes on to listen: it does unless something is in the way that
/// could not be removed.
pub fn may_listen(removal: &Removal) -> (may: bool)
    ensures
        may == (removal !is Failed),
{
    match removal {
        Removal::Failed => false,
        _ => true,
    }
}

} // verus!
