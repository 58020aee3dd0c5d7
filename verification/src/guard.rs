//! The handle guard: an exclusively held optional slot for the transport.
//!
//! The foreign caller's opaque handle is, inside the bridge, a slot that
//! either holds the shared transport token or is empty because a call is in
//! flight — or because the handle was never initialized or was destroyed.
//! Every query follows a take/execute/restore discipline: acquisition empties
//! the slot, and the holder must restore it before any other acquisition on
//! the same handle can succeed. An acquisition that finds the slot empty
//! fails with `MutexError`, reported through the ordinary outcome path.

use vstd::prelude::*;
use crate::outcome::{CallError, Status};

verus! {

/// The guarded slot behind one transport handle. Holds the transport token
/// when the handle is available, and nothing while a call is in flight or
/// after the handle was destroyed.
pub struct HandleSlot {
    slot: Option<u64>,
}

impl HandleSlot {
    /// What the slot holds: the transport token, or nothing.
    pub closed spec fn contents(&self) -> Option<u64> {
        self.slot
    }

    /// A slot freshly initialized with a transport token.
    pub fn new(token: u64) -> (s: HandleSlot)
        ensures
            s.contents() == Some(token),
    {
        HandleSlot { slot: Some(token) }
    }

    /// A slot that was never initialized, or whose handle was destroyed.
    pub fn vacant() -> (s: HandleSlot)
        ensures
            s.contents() is None,
    {
        HandleSlot { slot: None }
    }

    /// Observe the slot without taking it.
    pub fn peek(&self) -> (r: Option<u64>)
        ensures
            r == self.contents(),
    {
        self.slot
    }

    /// Take the transport for one call. On success the slot is left empty
    /// until `restore`; on an empty slot the call fails with `MutexError`.
    pub fn acquire(&mut self) -> (r: Result<u64, CallError>)
        ensures
            match old(self).contents() {
                Some(t) => r == Ok::<u64, CallError>(t),
                None => r matches Err(e) && e.status == Status::MutexError,
            },
            final(self).contents() is None,
    {
        let taken = self.slot;
        self.slot = None;
        match taken {
            Some(t) => Ok(t),
            None => Err(CallError {
                status: Status::MutexError,
                message: "transport not found".to_string(),
            }),
        }
    }

    /// Return the transport after a call, success or failure alike.
    pub fn restore(&mut self, token: u64)
        ensures
            final(self).contents() == Some(token),
    {
        self.slot = Some(token);
    }

    /// Permanently empty the slot, as the handle's destructor does.
    pub fn destroy(&mut self)
        ensures
            final(self).contents() is None,
    {
        self.slot = None;
    }
}

} // verus!
