//! The snapshot session: at most one point-in-time read view of the store,
//! taken and let go by separate calls.
//!
//! The view itself lives with the host, next to the handle it was taken
//! from, and never longer than that handle.

use vstd::prelude::*;
use crate::catalog::{registry_of, texts, Families};
use crate::engine::OpenOptions;
use crate::error::SessionError;

verus! {

/// The session of a snapshot: the registry of the open handle, and whether
/// a view is held.
pub struct RocksDBSnapshot {
    families: Families,
    held: bool,
}

impl RocksDBSnapshot {
    /// The names in the registry.
    pub closed spec fn families(&self) -> Seq<Seq<char>> {
        self.families@
    }

    /// Whether a view is held.
    pub closed spec fn holds_view(&self) -> bool {
        self.held
    }

    /// Settles the opening of the handle. Where the engine opened the store,
    /// the session starts without a view; where it failed, there is no
    /// session, and the failure carries the engine's message.
    pub fn open(options: &OpenOptions, opened: Result<(), String>) -> (result: Result<
        RocksDBSnapshot,
        SessionError,
    >)
        ensures
            match opened {
                Ok(_) => {
                    &&& result is Ok
                    &&& result.unwrap().families() == registry_of(texts(options.families@))
                    &&& !result.unwrap().holds_view()
                },
                Err(message) => result == Err::<RocksDBSnapshot, SessionError>(
                    SessionError::Engine(message),
                ),
            },
    {
        match opened {
            Ok(_) => Ok(
                RocksDBSnapshot { families: Families::of_handle(&options.families), held: false },
            ),
            Err(message) => Err(SessionError::Engine(message)),
        }
    }

    /// Whether a view is held.
    pub fn is_held(&self) -> (held: bool)
        ensures
            held == self.holds_view(),
    {
        self.held
    }

    /// Takes a view of the store as it is now. The result says whether a
    /// view taken before is let go by this: the host takes the new view
    /// first and then drops the old one.
    pub fn create(&mut self) -> (replaced: bool)
        ensures
            replaced == old(self).holds_view(),
            final(self).holds_view(),
            final(self).families() == old(self).families(),
    {
        let replaced = self.held;
        self.held = true;
        replaced
    }

    /// Lets the view go: the host drops it. Without a view the call fails
    /// and changes nothing.
    pub fn release(&mut self) -> (result: Result<(), SessionError>)
        ensures
            result == if old(self).holds_view() {
                Ok::<(), SessionError>(())
            } else {
                Err(SessionError::SnapshotNotCreated)
            },
            !final(self).holds_view(),
            final(self).families() == old(self).families(),
    {
        if self.held {
            self.held = false;
            Ok(())
        } else {
            Err(SessionError::SnapshotNotCreated)
        }
    }
}

} // verus!
