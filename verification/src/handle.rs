//! The slot that holds the one live desk.
//!
//! The slot itself is plain data. Whoever shares it between tasks keeps it
//! behind a lock, takes the lock for one `assign` or one `with_desk` at a
//! time, and makes the connection before taking it, not while holding it.

use crate::error::BtError;
use vstd::prelude::*;

verus! {

/// The place of the one desk session: the session, or the reason why there
/// is none.
pub struct DeskSlot<S> {
    held: Result<S, BtError>,
}

impl<S> View for DeskSlot<S> {
    type V = Result<S, BtError>;

    closed spec fn view(&self) -> Result<S, BtError> {
        self.held
    }
}

impl<S> DeskSlot<S> {
    /// A slot in which no desk has been put yet.
    pub fn new() -> (slot: Self)
        ensures
            slot@ == Err::<S, BtError>(BtError::HandleNotReady),
    {
        DeskSlot { held: Err(BtError::HandleNotReady) }
    }

    /// Puts the outcome of a connection attempt in the slot, in place of
    /// whatever was there.
    pub fn assign(&mut self, session: Result<S, BtError>)
        ensures
            final(self)@ == session,
    {
        self.held = session;
    }

    /// Whether a desk is there to be used.
    pub fn is_ready(&self) -> (ready: bool)
        ensures
            ready == (self@ is Ok),
    {
        self.held.is_ok()
    }

    /// Lends the session to `f` for the length of one call.
    ///
    /// Where the slot holds no session, `f` is not called and the outcome is
    /// `HandleNotReady`, whatever the reason for which there is none.
    pub fn with_desk<R, F: FnOnce(&S) -> R>(&self, f: F) -> (outcome: Result<R, BtError>)
        requires
            self@ matches Ok(session) ==> f.requires((&session,)),
        ensures
            match self@ {
                Ok(session) => outcome matches Ok(result) && f.ensures((&session,), result),
                Err(_) => outcome matches Err(e) && e == BtError::HandleNotReady,
            },
    {
        match &self.held {
            Ok(session) => Ok(f(session)),
            Err(_) => Err(BtError::HandleNotReady),
        }
    }
}

} // verus!
