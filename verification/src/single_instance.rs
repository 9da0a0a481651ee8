//! One running instance per session. On Windows the application probes a
//! named mutex and hands the outcome to this module, which decides whether
//! this process may go on; elsewhere every process may.

use vstd::prelude::*;

verus! {

/// The Windows error code for an object that already exists.
pub const ERROR_ALREADY_EXISTS: u32 = 183;

/// Proof that this process may run as the instance of the session.
pub struct SingleInstance {
    is_first: bool,
}

impl SingleInstance {
    /// Whether this is the first instance.
    pub closed spec fn first(&self) -> bool {
        self.is_first
    }

    /// On platforms without the named mutex every process may run.
    pub fn new() -> (r: Option<Self>)
        ensures
            r matches Some(s) && s.first(),
    {
        Some(SingleInstance { is_first: true })
    }

    /// The decision after probing the named mutex: `opened_existing` when an
    /// existing one could be opened (another instance runs: `None`);
    /// otherwise `created` when creating it succeeded, else the error code
    /// of the failed creation. Only "already exists" stops this process;
    /// any other failure lets it run.
    pub fn from_mutex_probe(opened_existing: bool, created: bool, last_error: u32) -> (r: Option<Self>)
        ensures
            r is None <==> opened_existing || (!created && last_error == ERROR_ALREADY_EXISTS),
            r matches Some(s) ==> s.first(),
    {
        if opened_existing {
            return None;
        }
        if created {
            Some(SingleInstance { is_first: true })
        } else if last_error == ERROR_ALREADY_EXISTS {
            None
        } else {
            Some(SingleInstance { is_first: true })
        }
    }

    /// Whether this is the first instance.
    pub fn is_first(&self) -> (r: bool)
        ensures
            r == self.first(),
    {
        self.is_first
    }
}

} // verus!
