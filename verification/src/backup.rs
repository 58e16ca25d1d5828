//! The backup session: a catalog of backups in a directory of its own, next
//! to the store it backs up.

use vstd::prelude::*;
use crate::catalog::{registry_of, texts, Families};
use crate::engine::OpenOptions;
use crate::error::SessionError;

verus! {

/// One backup as the backup engine reports it.
#[derive(Clone, Copy, Debug)]
pub struct BackupInfo {
    pub timestamp: i64,
    pub backup_id: u32,
    pub size: u64,
    pub num_files: u32,
}

/// One backup as the caller sees it, in the host's integers.
#[derive(Clone, Copy, Debug, PartialEq, Eq)]
pub struct BackupCatalogEntry {
    pub backup_id: i64,
    pub timestamp: i64,
    pub size_bytes: i64,
    pub file_count: i64,
}

/// A piece of work for the backup engine.
#[derive(Debug, PartialEq, Eq)]
pub enum BackupCommand {
    /// Take a backup of the live store into the catalog.
    Create,
    /// Delete the oldest backups beyond the `keep` most recent.
    Purge { keep: usize },
    /// Materialize the backup with this id, data into `db_dir` and the
    /// write-ahead log into `wal_dir`.
    Restore { backup_id: u32, db_dir: String, wal_dir: String },
}

/// Whether a catalog lists a backup with the given id.
pub open spec fn lists(listed: Seq<BackupInfo>, backup_id: u32) -> bool {
    exists|i: int| 0 <= i < listed.len() && #[trigger] listed[i].backup_id == backup_id
}

/// A 64-bit size as the host's signed integer of the same width: the same
/// number up to the largest signed one, and the same bits beyond.
pub open spec fn as_signed(size: u64) -> int {
    if size <= i64::MAX {
        size as int
    } else {
        size - 0x1_0000_0000_0000_0000
    }
}

/// One backup as the caller sees it.
pub open spec fn entry_of(info: BackupInfo) -> BackupCatalogEntry {
    BackupCatalogEntry {
        backup_id: info.backup_id as i64,
        timestamp: info.timestamp,
        size_bytes: as_signed(info.size) as i64,
        file_count: info.num_files as i64,
    }
}

/// A 64-bit size as the host's signed integer of the same width.
pub fn signed(size: u64) -> (signed: i64)
    ensures
        signed == as_signed(size),
{
    if size <= 0x7fff_ffff_ffff_ffff {
        size as i64
    } else {
        let low: u64 = size - 0x8000_0000_0000_0000;
        (low as i64) + i64::MIN
    }
}

/// The session of a backup catalog: the registry of the open handle, and
/// whether the backup engine is initialized.
pub struct RocksDBBackup {
    families: Families,
    ready: bool,
}

impl RocksDBBackup {
    /// The names in the registry.
    pub closed spec fn families(&self) -> Seq<Seq<char>> {
        self.families@
    }

    /// Whether the backup engine is initialized.
    pub closed spec fn initialized(&self) -> bool {
        self.ready
    }

    /// Settles the opening of the handle on the store to back up. Where the
    /// engine opened the store, the session starts without a backup engine;
    /// where it failed, there is no session, and the failure carries the
    /// engine's message.
    pub fn open(options: &OpenOptions, opened: Result<(), String>) -> (result: Result<
        RocksDBBackup,
        SessionError,
    >)
        ensures
            match opened {
                Ok(_) => {
                    &&& result is Ok
                    &&& result.unwrap().families() == registry_of(texts(options.families@))
                    &&& !result.unwrap().initialized()
                },
                Err(message) => result == Err::<RocksDBBackup, SessionError>(
                    SessionError::Engine(message),
                ),
            },
    {
        match opened {
            Ok(_) => Ok(
                RocksDBBackup { families: Families::of_handle(&options.families), ready: false },
            ),
            Err(message) => Err(SessionError::Engine(message)),
        }
    }

    /// Settles the opening of the backup catalog in its directory. Where
    /// the engine opened it, the backup engine is initialized from now on;
    /// where it failed, the session is as it was, and the failure carries
    /// the engine's message.
    pub fn init(&mut self, opened: Result<(), String>) -> (result: Result<(), SessionError>)
        ensures
            result == match opened {
                Ok(_) => Ok::<(), SessionError>(()),
                Err(message) => Err(SessionError::Engine(message)),
            },
            final(self).initialized() == (opened is Ok || old(self).initialized()),
            final(self).families() == old(self).families(),
    {
        match opened {
            Ok(_) => {
                self.ready = true;
                Ok(())
            },
            Err(message) => Err(SessionError::Engine(message)),
        }
    }

    /// Plans a backup of the live store: allowed once the backup engine is
    /// initialized. [`reply::done`](crate::reply::done) settles the engine's
    /// answer.
    pub fn create(&self) -> (result: Result<BackupCommand, SessionError>)
        ensures
            result == if self.initialized() {
                Ok::<BackupCommand, SessionError>(BackupCommand::Create)
            } else {
                Err(SessionError::BackupNotInitialized)
            },
    {
        if self.ready {
            Ok(BackupCommand::Create)
        } else {
            Err(SessionError::BackupNotInitialized)
        }
    }

    /// Plans the reading of the catalog: allowed once the backup engine is
    /// initialized. [`RocksDBBackup::entries`] settles what the engine
    /// lists.
    pub fn info(&self) -> (result: Result<(), SessionError>)
        ensures
            result == if self.initialized() {
                Ok::<(), SessionError>(())
            } else {
                Err(SessionError::BackupNotInitialized)
            },
    {
        if self.ready {
            Ok(())
        } else {
            Err(SessionError::BackupNotInitialized)
        }
    }

    /// Settles the reading of the catalog: one entry for each backup the
    /// engine lists, in the engine's order.
    pub fn entries(listed: &Vec<BackupInfo>) -> (catalog: Vec<BackupCatalogEntry>)
        ensures
            catalog@ == listed@.map_values(|info: BackupInfo| entry_of(info)),
    {
        let mut catalog: Vec<BackupCatalogEntry> = Vec::new();
        let mut i: usize = 0;
        while i < listed.len()
            invariant
                i <= listed.len(),
                catalog@ == listed@.take(i as int).map_values(|info: BackupInfo| entry_of(info)),
            decreases listed.len() - i,
        {
            let info = listed[i];
            let entry = BackupCatalogEntry {
                backup_id: info.backup_id as i64,
                timestamp: info.timestamp,
                size_bytes: signed(info.size),
                file_count: info.num_files as i64,
            };
            assert(entry == entry_of(info));
            catalog.push(entry);
            assert(catalog@ =~= listed@.take(i + 1).map_values(|info: BackupInfo| entry_of(info)));
            i += 1;
        }
        assert(listed@.take(listed.len() as int) =~= listed@);
        catalog
    }

    /// Plans the pruning of the catalog down to the most recent
    /// `num_backups_to_keep` backups: allowed once the backup engine is
    /// initialized. [`reply::done`](crate::reply::done) settles the engine's
    /// answer.
    pub fn purge_old(&self, num_backups_to_keep: usize) -> (result: Result<
        BackupCommand,
        SessionError,
    >)
        ensures
            result == if self.initialized() {
                Ok::<BackupCommand, SessionError>(
                    BackupCommand::Purge { keep: num_backups_to_keep },
                )
            } else {
                Err(SessionError::BackupNotInitialized)
            },
    {
        if self.ready {
            Ok(BackupCommand::Purge { keep: num_backups_to_keep })
        } else {
            Err(SessionError::BackupNotInitialized)
        }
    }

    /// Plans the restoring of one backup into a directory, which takes both
    /// the data and the write-ahead log. `listed` is what the catalog holds
    /// now. Without a backup engine the call fails, whatever the id; with
    /// one, an id that the catalog does not list is a failure, and the
    /// engine is not asked. [`reply::done`](crate::reply::done) settles the
    /// engine's answer.
    pub fn restore(&self, backup_id: u32, restore_path: String, listed: &Vec<BackupInfo>) -> (result:
        Result<BackupCommand, SessionError>)
        ensures
            !self.initialized() ==> result == Err::<BackupCommand, SessionError>(
                SessionError::BackupNotInitialized,
            ),
            self.initialized() && !lists(listed@, backup_id) ==> result == Err::<
                BackupCommand,
                SessionError,
            >(SessionError::BackupNotFound),
            self.initialized() && lists(listed@, backup_id) ==> result == Ok::<
                BackupCommand,
                SessionError,
            >(BackupCommand::Restore { backup_id, db_dir: restore_path, wal_dir: restore_path }),
    {
        if !self.ready {
            return Err(SessionError::BackupNotInitialized);
        }
        let mut i: usize = 0;
        while i < listed.len()
            invariant
                i <= listed.len(),
                self.initialized(),
                forall|j: int| 0 <= j < i ==> listed@[j].backup_id != backup_id,
            decreases listed.len() - i,
        {
            if listed[i].backup_id == backup_id {
                let wal_dir = restore_path.clone();
                return Ok(BackupCommand::Restore { backup_id, db_dir: restore_path, wal_dir });
            }
            i += 1;
        }
        Err(SessionError::BackupNotFound)
    }
}

} // verus!
