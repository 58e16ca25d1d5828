//! The transaction session: a state machine over one pessimistic
//! transaction of the transactional engine, with savepoints.
//!
//! The engine's transaction object lives with the host. The session knows
//! whether there is one and how many savepoints it carries, rejects what the
//! state does not allow before the engine is asked, and says after a commit
//! or rollback whether a fresh transaction has to be begun.

use vstd::prelude::*;
use crate::catalog::{registry_of, texts, Families};
use crate::engine::{OpenOptions, Read, Write, WriteKind};
use crate::error::SessionError;

verus! {

/// Where a transaction session stands.
#[derive(Clone, Copy, Debug, PartialEq, Eq, Structural)]
pub enum TransactionState {
    /// No transaction was begun, or the last one was lost to a failed
    /// commit or rollback.
    NotStarted,
    /// A transaction is open; it carries this many savepoints.
    Active { savepoints: usize },
    /// The last transaction was committed and none was begun since.
    Committed,
    /// The last transaction was rolled back and none was begun since.
    RolledBack,
}

/// How a transaction ends.
#[derive(Clone, Copy, Debug, PartialEq, Eq, Structural)]
pub enum Ending {
    Commit,
    Rollback,
}

/// The session of a transaction: the registry of the open handle, the state
/// of the transaction, and whether a commit or rollback begins a fresh one.
pub struct RocksDBTransaction {
    families: Families,
    state: TransactionState,
    restart: bool,
}

impl RocksDBTransaction {
    /// The names in the registry.
    pub closed spec fn families(&self) -> Seq<Seq<char>> {
        self.families@
    }

    /// Where the session stands.
    pub closed spec fn state(&self) -> TransactionState {
        self.state
    }

    /// Whether a commit or rollback that succeeds begins a fresh
    /// transaction at once.
    pub closed spec fn restarts(&self) -> bool {
        self.restart
    }

    /// Whether a transaction is open.
    pub open spec fn active(&self) -> bool {
        self.state() is Active
    }

    /// Whether an optional family selector names a family of this handle.
    pub open spec fn resolves(&self, cf_name: Option<String>) -> bool {
        match cf_name {
            Some(name) => self.families().contains(name@),
            None => true,
        }
    }

    /// Whether the session differs from another in nothing.
    pub open spec fn same_as(&self, other: &Self) -> bool {
        &&& self.families() == other.families()
        &&& self.state() == other.state()
        &&& self.restarts() == other.restarts()
    }

    /// Settles the opening of the transactional handle. Where the engine
    /// opened the store, the session starts with no transaction, and set to
    /// begin a fresh one after each commit and rollback; where it failed,
    /// there is no session, and the failure carries the engine's message.
    pub fn open(options: &OpenOptions, opened: Result<(), String>) -> (result: Result<
        RocksDBTransaction,
        SessionError,
    >)
        ensures
            match opened {
                Ok(_) => {
                    &&& result is Ok
                    &&& result.unwrap().families() == registry_of(texts(options.families@))
                    &&& result.unwrap().state() == TransactionState::NotStarted
                    &&& result.unwrap().restarts()
                },
                Err(message) => result == Err::<RocksDBTransaction, SessionError>(
                    SessionError::Engine(message),
                ),
            },
    {
        match opened {
            Ok(_) => Ok(
                RocksDBTransaction {
                    families: Families::of_handle(&options.families),
                    state: TransactionState::NotStarted,
                    restart: true,
                },
            ),
            Err(message) => Err(SessionError::Engine(message)),
        }
    }

    /// Chooses whether a commit or rollback that succeeds begins a fresh
    /// transaction at once, so that the session stays usable without
    /// another `start`, or leaves the session in its final state.
    pub fn set_restart(&mut self, restart: bool)
        ensures
            final(self).restarts() == restart,
            final(self).families() == old(self).families(),
            final(self).state() == old(self).state(),
    {
        self.restart = restart;
    }

    /// Where the session stands.
    pub fn current(&self) -> (state: TransactionState)
        ensures
            state == self.state(),
    {
        self.state
    }

    /// Begins a transaction: the host opens a fresh engine transaction and
    /// lets go of the one it held, if any, without rolling it back. The
    /// fresh transaction carries no savepoint.
    pub fn start(&mut self) -> (result: Result<(), SessionError>)
        ensures
            result is Ok,
            final(self).state() == (TransactionState::Active { savepoints: 0 }),
            final(self).families() == old(self).families(),
            final(self).restarts() == old(self).restarts(),
    {
        self.state = TransactionState::Active { savepoints: 0 };
        Ok(())
    }

    /// Whether a transaction is open.
    fn is_active(&self) -> (active: bool)
        ensures
            active == self.active(),
    {
        match self.state {
            TransactionState::Active { .. } => true,
            _ => false,
        }
    }

    /// Plans a put inside the transaction. The state is checked before the
    /// family.
    pub fn put(&self, key: String, value: String, cf_name: Option<String>) -> (result: Result<
        Write,
        SessionError,
    >)
        ensures
            !self.active() ==> result == Err::<Write, SessionError>(
                SessionError::TransactionNotStarted,
            ),
            self.active() && !self.resolves(cf_name) ==> result == Err::<Write, SessionError>(
                SessionError::FamilyNotFound,
            ),
            self.active() && self.resolves(cf_name) ==> result is Ok && result.unwrap().carries(
                WriteKind::Put,
                cf_name,
                key@,
                Some(value@),
            ),
    {
        if !self.is_active() {
            return Err(SessionError::TransactionNotStarted);
        }
        Write::put(&self.families, &key, &value, cf_name)
    }

    /// Plans a lookup inside the transaction, which sees the transaction's
    /// own writes over the store. [`reply::value`](crate::reply::value)
    /// settles it.
    pub fn get(&self, key: String, cf_name: Option<String>) -> (result: Result<Read, SessionError>)
        ensures
            !self.active() ==> result == Err::<Read, SessionError>(
                SessionError::TransactionNotStarted,
            ),
            self.active() && !self.resolves(cf_name) ==> result == Err::<Read, SessionError>(
                SessionError::FamilyNotFound,
            ),
            self.active() && self.resolves(cf_name) ==> result is Ok && result.unwrap().asks(
                cf_name,
                key@,
            ),
    {
        if !self.is_active() {
            return Err(SessionError::TransactionNotStarted);
        }
        Read::plan(&self.families, &key, cf_name)
    }

    /// Plans a delete inside the transaction.
    pub fn delete(&self, key: String, cf_name: Option<String>) -> (result: Result<
        Write,
        SessionError,
    >)
        ensures
            !self.active() ==> result == Err::<Write, SessionError>(
                SessionError::TransactionNotStarted,
            ),
            self.active() && !self.resolves(cf_name) ==> result == Err::<Write, SessionError>(
                SessionError::FamilyNotFound,
            ),
            self.active() && self.resolves(cf_name) ==> result is Ok && result.unwrap().carries(
                WriteKind::Delete,
                cf_name,
                key@,
                None,
            ),
    {
        if !self.is_active() {
            return Err(SessionError::TransactionNotStarted);
        }
        Write::delete(&self.families, &key, cf_name)
    }

    /// Plans a merge inside the transaction.
    pub fn merge(&self, key: String, value: String, cf_name: Option<String>) -> (result: Result<
        Write,
        SessionError,
    >)
        ensures
            !self.active() ==> result == Err::<Write, SessionError>(
                SessionError::TransactionNotStarted,
            ),
            self.active() && !self.resolves(cf_name) ==> result == Err::<Write, SessionError>(
                SessionError::FamilyNotFound,
            ),
            self.active() && self.resolves(cf_name) ==> result is Ok && result.unwrap().carries(
                WriteKind::Merge,
                cf_name,
                key@,
                Some(value@),
            ),
    {
        if !self.is_active() {
            return Err(SessionError::TransactionNotStarted);
        }
        Write::merge(&self.families, &key, &value, cf_name)
    }

    /// Pushes a savepoint. On success the host sets one on the engine's
    /// transaction, which cannot fail.
    pub fn set_savepoint(&mut self) -> (result: Result<(), SessionError>)
        ensures
            final(self).families() == old(self).families(),
            final(self).restarts() == old(self).restarts(),
            match old(self).state() {
                TransactionState::Active { savepoints } => if savepoints < usize::MAX {
                    &&& result is Ok
                    &&& final(self).state() == (TransactionState::Active {
                        savepoints: (savepoints + 1) as usize,
                    })
                } else {
                    &&& result == Err::<(), SessionError>(SessionError::SavepointLimit)
                    &&& final(self).state() == old(self).state()
                },
                _ => {
                    &&& result == Err::<(), SessionError>(SessionError::TransactionNotStarted)
                    &&& final(self).state() == old(self).state()
                },
            },
    {
        match self.state {
            TransactionState::Active { savepoints } => {
                if savepoints < usize::MAX {
                    self.state = TransactionState::Active { savepoints: savepoints + 1 };
                    Ok(())
                } else {
                    Err(SessionError::SavepointLimit)
                }
            },
            _ => Err(SessionError::TransactionNotStarted),
        }
    }

    /// Plans the rollback to the most recent savepoint: allowed in an open
    /// transaction that carries one.
    /// [`RocksDBTransaction::settle_rollback_to_savepoint`] settles it.
    pub fn rollback_to_savepoint(&self) -> (result: Result<(), SessionError>)
        ensures
            result == match self.state() {
                TransactionState::Active { savepoints } => if savepoints > 0 {
                    Ok::<(), SessionError>(())
                } else {
                    Err(SessionError::NoSavepoint)
                },
                _ => Err(SessionError::TransactionNotStarted),
            },
    {
        match self.state {
            TransactionState::Active { savepoints } => {
                if savepoints > 0 {
                    Ok(())
                } else {
                    Err(SessionError::NoSavepoint)
                }
            },
            _ => Err(SessionError::TransactionNotStarted),
        }
    }

    /// Settles the rollback to the most recent savepoint. Where the engine
    /// rolled back, the savepoint is used up and the transaction stays
    /// open; where it failed, nothing changes and the failure carries the
    /// engine's message.
    pub fn settle_rollback_to_savepoint(&mut self, reply: Result<(), String>) -> (result: Result<
        (),
        SessionError,
    >)
        ensures
            result == match reply {
                Ok(_) => Ok::<(), SessionError>(()),
                Err(message) => Err(SessionError::Engine(message)),
            },
            final(self).families() == old(self).families(),
            final(self).restarts() == old(self).restarts(),
            final(self).state() == match (reply, old(self).state()) {
                (Ok(_), TransactionState::Active { savepoints }) => if savepoints > 0 {
                    TransactionState::Active { savepoints: (savepoints - 1) as usize }
                } else {
                    old(self).state()
                },
                _ => old(self).state(),
            },
    {
        match reply {
            Ok(_) => {
                match self.state {
                    TransactionState::Active { savepoints } => {
                        if savepoints > 0 {
                            self.state = TransactionState::Active { savepoints: savepoints - 1 };
                        }
                    },
                    _ => {},
                }
                Ok(())
            },
            Err(message) => Err(SessionError::Engine(message)),
        }
    }

    /// Plans the commit: allowed in an open transaction.
    /// [`RocksDBTransaction::settle_end`] settles it.
    pub fn commit(&self) -> (result: Result<Ending, SessionError>)
        ensures
            result == if self.active() {
                Ok::<Ending, SessionError>(Ending::Commit)
            } else {
                Err(SessionError::TransactionNotStarted)
            },
    {
        if self.is_active() {
            Ok(Ending::Commit)
        } else {
            Err(SessionError::TransactionNotStarted)
        }
    }

    /// Plans the rollback of the whole transaction: allowed in an open
    /// transaction. [`RocksDBTransaction::settle_end`] settles it.
    pub fn rollback(&self) -> (result: Result<Ending, SessionError>)
        ensures
            result == if self.active() {
                Ok::<Ending, SessionError>(Ending::Rollback)
            } else {
                Err(SessionError::TransactionNotStarted)
            },
    {
        if self.is_active() {
            Ok(Ending::Rollback)
        } else {
            Err(SessionError::TransactionNotStarted)
        }
    }

    /// The state a session is left in when the engine has ended its
    /// transaction: a fresh open one where the session restarts, the final
    /// state of the ending otherwise.
    pub open spec fn ended(restarts: bool, ending: Ending) -> TransactionState {
        if restarts {
            TransactionState::Active { savepoints: 0 }
        } else {
            match ending {
                Ending::Commit => TransactionState::Committed,
                Ending::Rollback => TransactionState::RolledBack,
            }
        }
    }

    /// Settles a commit or rollback. The transaction is used up either way.
    /// Where the engine succeeded, the result says whether the host has to
    /// begin a fresh engine transaction: it has where the session restarts,
    /// and the session is then open again, with no savepoint. Where the
    /// engine failed, the session is left without a transaction, and the
    /// failure carries the engine's message.
    pub fn settle_end(&mut self, ending: Ending, reply: Result<(), String>) -> (result: Result<
        bool,
        SessionError,
    >)
        ensures
            final(self).families() == old(self).families(),
            final(self).restarts() == old(self).restarts(),
            match reply {
                Ok(_) => {
                    &&& result == Ok::<bool, SessionError>(old(self).restarts())
                    &&& final(self).state() == Self::ended(old(self).restarts(), ending)
                },
                Err(message) => {
                    &&& result == Err::<bool, SessionError>(SessionError::Engine(message))
                    &&& final(self).state() == TransactionState::NotStarted
                },
            },
    {
        match reply {
            Ok(_) => {
                if self.restart {
                    self.state = TransactionState::Active { savepoints: 0 };
                } else {
                    match ending {
                        Ending::Commit => {
                            self.state = TransactionState::Committed;
                        },
                        Ending::Rollback => {
                            self.state = TransactionState::RolledBack;
                        },
                    }
                }
                Ok(self.restart)
            },
            Err(message) => {
                self.state = TransactionState::NotStarted;
                Err(SessionError::Engine(message))
            },
        }
    }

    /// Ends the session. The result says whether the host has to commit the
    /// transaction it holds: it has where one is open. What the engine
    /// answers to that commit is dropped, since no caller is left to hear
    /// of it.
    pub fn finish(&mut self) -> (commit: bool)
        ensures
            commit == old(self).active(),
            final(self).state() == TransactionState::NotStarted,
            final(self).families() == old(self).families(),
            final(self).restarts() == old(self).restarts(),
    {
        let commit = self.is_active();
        self.state = TransactionState::NotStarted;
        commit
    }
}

} // verus!
