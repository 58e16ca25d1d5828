//! Session layer for driving an embedded, ordered key-value engine through
//! independent, stateless calls.
//!
//! The engine itself is not part of this crate. Every operation is split in
//! two around the engine's work: a *plan* that checks the session's state and
//! the arguments and says exactly what the engine has to do, and a *settle*
//! step that turns what the engine answered into the caller's result and the
//! session's next state. The host performs the engine work in between, on a
//! handle it opens as [`engine::OpenOptions`] says.
//!
//! No session holds an engine object between calls. A cursor is a key: each
//! step puts a transient iterator on the stored key, reads, and stores the
//! key it landed on.

use vstd::prelude::*;
use vstd::utf8::{decode_utf8, encode_utf8, valid_utf8};

pub mod backup;
pub mod catalog;
pub mod engine;
pub mod error;
pub mod iterator;
pub mod merge;
pub mod reply;
pub mod snapshot;
pub mod text;
pub mod transaction;
pub mod write_batch;

use crate::catalog::{registry_of, texts, with_name, Families};
use crate::engine::{
    Compaction, Compression, Direction, Entry, FamilyChange, Flush, OpenOptions, PropertyQuery, Read, Scan,
    Seek, Step, Stepped, Tuning, Write, WriteKind,
};
use crate::error::SessionError;
use crate::iterator::{lemma_no_key_sorts_before_itself, sorts_before};
use crate::reply::settled_value;
use crate::text::{
    copy_bytes, decimal, encode, encode_opt, lossy_text, opt_bytes, opt_encoded, opt_text,
    size_text, text_from_utf8_lossy,
};

verus! {

/// A key and its value as a positional cursor hands them out; both are
/// absent when the cursor stands on no entry.
#[derive(Debug, PartialEq, Eq)]
pub struct KeyValueResult {
    pub key: Option<String>,
    pub value: Option<String>,
}

/// The session on the main store handle: the column-family registry of the
/// open handle, and the position of its cursor. The cursor walks the default
/// family.
pub struct RocksDB {
    families: Families,
    position: Option<Vec<u8>>,
}

impl RocksDB {
    /// The names in the registry.
    pub closed spec fn families(&self) -> Seq<Seq<char>> {
        self.families@
    }

    /// The key the cursor stands on, absent where it stands on none.
    pub closed spec fn position(&self) -> Option<Seq<u8>> {
        opt_bytes(self.position)
    }

    /// Whether an optional family selector names a family of this handle.
    pub open spec fn resolves(&self, cf_name: Option<String>) -> bool {
        match cf_name {
            Some(name) => self.families().contains(name@),
            None => true,
        }
    }

    /// Settles the opening of the handle. Where the engine opened the store,
    /// the session starts with the registry of the families it was opened
    /// on and a cursor that stands on no entry; where it failed, there is no
    /// session, and the failure carries the engine's message.
    pub fn open(options: &OpenOptions, opened: Result<(), String>) -> (result: Result<
        RocksDB,
        SessionError,
    >)
        ensures
            match opened {
                Ok(_) => {
                    &&& result is Ok
                    &&& result.unwrap().families() == registry_of(texts(options.families@))
                    &&& result.unwrap().position() is None
                },
                Err(message) => result == Err::<RocksDB, SessionError>(
                    SessionError::Engine(message),
                ),
            },
    {
        match opened {
            Ok(_) => Ok(
                RocksDB { families: Families::of_handle(&options.families), position: None },
            ),
            Err(message) => Err(SessionError::Engine(message)),
        }
    }

    /// Plans a put. [`reply::done`] settles the engine's answer.
    pub fn put(&self, key: String, value: String, cf_name: Option<String>) -> (result: Result<
        Write,
        SessionError,
    >)
        ensures
            !self.resolves(cf_name) ==> result == Err::<Write, SessionError>(
                SessionError::FamilyNotFound,
            ),
            self.resolves(cf_name) ==> result is Ok && result.unwrap().carries(
                WriteKind::Put,
                cf_name,
                key@,
                Some(value@),
            ),
    {
        Write::put(&self.families, &key, &value, cf_name)
    }

    /// Plans a lookup. [`reply::value`] settles it.
    pub fn get(&self, key: String, cf_name: Option<String>) -> (result: Result<Read, SessionError>)
        ensures
            !self.resolves(cf_name) ==> result == Err::<Read, SessionError>(
                SessionError::FamilyNotFound,
            ),
            self.resolves(cf_name) ==> result is Ok && result.unwrap().asks(cf_name, key@),
    {
        Read::plan(&self.families, &key, cf_name)
    }

    /// Plans a merge: the value is one operand for the merge operator.
    /// [`reply::done`] settles the engine's answer.
    pub fn merge(&self, key: String, value: String, cf_name: Option<String>) -> (result: Result<
        Write,
        SessionError,
    >)
        ensures
            !self.resolves(cf_name) ==> result == Err::<Write, SessionError>(
                SessionError::FamilyNotFound,
            ),
            self.resolves(cf_name) ==> result is Ok && result.unwrap().carries(
                WriteKind::Merge,
                cf_name,
                key@,
                Some(value@),
            ),
    {
        Write::merge(&self.families, &key, &value, cf_name)
    }

    /// Plans a delete. [`reply::done`] settles the engine's answer.
    pub fn delete(&self, key: String, cf_name: Option<String>) -> (result: Result<
        Write,
        SessionError,
    >)
        ensures
            !self.resolves(cf_name) ==> result == Err::<Write, SessionError>(
                SessionError::FamilyNotFound,
            ),
            self.resolves(cf_name) ==> result is Ok && result.unwrap().carries(
                WriteKind::Delete,
                cf_name,
                key@,
                None,
            ),
    {
        Write::delete(&self.families, &key, cf_name)
    }

    /// Settles a listing of the column families of a store on disk.
    pub fn list_column_families(listed: Result<Vec<String>, String>) -> (result: Result<
        Vec<String>,
        SessionError,
    >)
        ensures
            result == match listed {
                Ok(list) => Ok::<Vec<String>, SessionError>(list),
                Err(message) => Err(SessionError::Engine(message)),
            },
    {
        crate::reply::names(listed)
    }

    /// The names in the registry of this handle, in registry order, each
    /// once.
    pub fn column_families(&self) -> (list: Vec<String>)
        ensures
            texts(list@) == self.families(),
            self.families().no_duplicates(),
    {
        self.families.names()
    }

    /// Plans the creation of a column family. A family that exists already
    /// needs no work: that is `None`, and not a failure.
    pub fn create_column_family(&self, cf_name: String) -> (change: Option<FamilyChange>)
        ensures
            self.families().contains(cf_name@) ==> change is None,
            !self.families().contains(cf_name@) ==> change == Some(
                FamilyChange::Create { name: cf_name },
            ),
    {
        if self.families.contains(&cf_name) {
            None
        } else {
            Some(FamilyChange::Create { name: cf_name })
        }
    }

    /// Plans the dropping of a column family. A family that does not exist
    /// needs no work: that is `None`, and not a failure.
    pub fn drop_column_family(&self, cf_name: String) -> (change: Option<FamilyChange>)
        ensures
            !self.families().contains(cf_name@) ==> change is None,
            self.families().contains(cf_name@) ==> change == Some(
                FamilyChange::Drop { name: cf_name },
            ),
    {
        if self.families.contains(&cf_name) {
            Some(FamilyChange::Drop { name: cf_name })
        } else {
            None
        }
    }

    /// Settles a change to the column families. Where the engine made the
    /// change, the registry follows it: a created family is known from now
    /// on, a dropped one is not. Where the engine failed, the registry stays
    /// as it was. The cursor is not touched.
    pub fn settle_family(&mut self, change: FamilyChange, reply: Result<(), String>) -> (result:
        Result<(), SessionError>)
        ensures
            result == match reply {
                Ok(_) => Ok::<(), SessionError>(()),
                Err(message) => Err(SessionError::Engine(message)),
            },
            final(self).position() == old(self).position(),
            final(self).families() == match reply {
                Ok(_) => match change {
                    FamilyChange::Create { name } => with_name(old(self).families(), name@),
                    FamilyChange::Drop { name } => old(self).families().remove_value(name@),
                },
                Err(_) => old(self).families(),
            },
            reply is Ok && change is Create ==> final(self).families().contains(
                change->Create_name@,
            ),
            reply is Ok && change is Drop ==> !final(self).families().contains(change->Drop_name@),
    {
        match reply {
            Ok(_) => {
                match change {
                    FamilyChange::Create { name } => {
                        self.families.add(name);
                        proof {
                            let grown = with_name(old(self).families(), name@);
                            if !old(self).families().contains(name@) {
                                assert(grown[grown.len() - 1] == name@);
                            }
                        }
                    },
                    FamilyChange::Drop { name } => {
                        self.families.remove(&name);
                    },
                }
                Ok(())
            },
            Err(message) => Err(SessionError::Engine(message)),
        }
    }

    /// Plans a question about a property of the engine. [`reply::text`]
    /// settles it.
    pub fn get_property(&self, property: String, cf_name: Option<String>) -> (result: Result<
        PropertyQuery,
        SessionError,
    >)
        ensures
            !self.resolves(cf_name) ==> result == Err::<PropertyQuery, SessionError>(
                SessionError::FamilyNotFound,
            ),
            self.resolves(cf_name) ==> result == Ok::<PropertyQuery, SessionError>(
                PropertyQuery { family: cf_name, name: property },
            ),
    {
        match self.families.resolve(&cf_name) {
            Ok(_) => Ok(PropertyQuery { family: cf_name, name: property }),
            Err(e) => Err(e),
        }
    }

    /// Plans a flush. [`reply::done`] settles the engine's answer.
    pub fn flush(&self, cf_name: Option<String>) -> (result: Result<Flush, SessionError>)
        ensures
            !self.resolves(cf_name) ==> result == Err::<Flush, SessionError>(
                SessionError::FamilyNotFound,
            ),
            self.resolves(cf_name) ==> result == Ok::<Flush, SessionError>(
                Flush { family: cf_name },
            ),
    {
        match self.families.resolve(&cf_name) {
            Ok(_) => Ok(Flush { family: cf_name }),
            Err(e) => Err(e),
        }
    }

    /// Settles a repair of a store on disk.
    pub fn repair(repaired: Result<(), String>) -> (result: Result<(), SessionError>)
        ensures
            result == match repaired {
                Ok(_) => Ok::<(), SessionError>(()),
                Err(message) => Err(SessionError::Engine(message)),
            },
    {
        crate::reply::done(repaired)
    }

    /// Closing asks nothing of the engine: the handle closes when the host
    /// lets go of it.
    pub fn close(&self) -> (result: Result<(), SessionError>)
        ensures
            result is Ok,
    {
        Ok(())
    }

    /// Plans the reading of every entry of a family: a walk from the first
    /// entry, without limit. [`reply::entries`] settles it.
    pub fn all(&self, cf_name: Option<String>) -> (result: Result<Scan, SessionError>)
        ensures
            !self.resolves(cf_name) ==> result == Err::<Scan, SessionError>(
                SessionError::FamilyNotFound,
            ),
            self.resolves(cf_name) ==> result == Ok::<Scan, SessionError>(
                Scan { family: cf_name, start: None, limit: None },
            ),
    {
        match self.families.resolve(&cf_name) {
            Ok(_) => Ok(Scan { family: cf_name, start: None, limit: None }),
            Err(e) => Err(e),
        }
    }

    /// Plans the reading of every key of a family: the same walk as
    /// [`RocksDB::all`]. [`reply::keys`] settles it.
    pub fn keys(&self, cf_name: Option<String>) -> (result: Result<Scan, SessionError>)
        ensures
            !self.resolves(cf_name) ==> result == Err::<Scan, SessionError>(
                SessionError::FamilyNotFound,
            ),
            self.resolves(cf_name) ==> result == Ok::<Scan, SessionError>(
                Scan { family: cf_name, start: None, limit: None },
            ),
    {
        self.all(cf_name)
    }

    /// Plans putting the cursor on the first entry.
    pub fn seek_to_first(&self) -> (seek: Seek)
        ensures
            seek == Seek::First,
    {
        Seek::First
    }

    /// Plans putting the cursor on the last entry.
    pub fn seek_to_last(&self) -> (seek: Seek)
        ensures
            seek == Seek::Last,
    {
        Seek::Last
    }

    /// Plans putting the cursor on the first entry whose key is not below
    /// `key`.
    pub fn seek(&self, key: String) -> (seek: Seek)
        ensures
            seek is From,
            seek->From_0@ == encode_utf8(key@),
    {
        Seek::From(encode(&key))
    }

    /// Plans putting the cursor on the last entry whose key is not above
    /// `key`.
    pub fn seek_for_prev(&self, key: String) -> (seek: Seek)
        ensures
            seek is Back,
            seek->Back_0@ == encode_utf8(key@),
    {
        Seek::Back(encode(&key))
    }

    /// Settles a seek: the cursor stands on the key the iterator found, or
    /// on no entry where it found none.
    pub fn place(&mut self, found: Option<Vec<u8>>)
        ensures
            final(self).position() == opt_bytes(found),
            final(self).families() == old(self).families(),
    {
        self.position = found;
    }

    /// Plans the test whether the cursor denotes an existing entry. A cursor
    /// that stands on no entry needs no look at the engine: that is `None`.
    /// Otherwise the engine is asked for the first entry whose key is not
    /// below the cursor's.
    pub fn valid(&self) -> (seek: Option<Seek>)
        ensures
            self.position() is None ==> seek is None,
            self.position() is Some ==> seek is Some && seek.unwrap() is From
                && seek.unwrap()->From_0@ == self.position().unwrap(),
    {
        match &self.position {
            Some(key) => Some(Seek::From(copy_bytes(key))),
            None => None,
        }
    }

    /// Settles the test whether the cursor denotes an existing entry: it
    /// does where it stands on a key and the iterator put there found an
    /// entry.
    pub fn settle_valid(&self, found: bool) -> (valid: bool)
        ensures
            valid == (self.position() is Some && found),
    {
        self.position.is_some() && found
    }

    /// Plans reading the entry under the cursor and moving the cursor
    /// forward. A cursor that stands on no entry has nothing to read: that
    /// is `None`, and [`RocksDB::advance`] settles it with `None`.
    pub fn next(&self) -> (step: Option<Step>)
        ensures
            self.position() is None ==> step is None,
            self.position() is Some ==> step is Some && step.unwrap().from@
                == self.position().unwrap() && step.unwrap().direction == Direction::Forward,
    {
        match &self.position {
            Some(key) => Some(Step { from: copy_bytes(key), direction: Direction::Forward }),
            None => None,
        }
    }

    /// Plans reading the entry under the cursor and moving the cursor
    /// backward. A cursor that stands on no entry has nothing to read: that
    /// is `None`, and [`RocksDB::advance`] settles it with `None`.
    pub fn prev(&self) -> (step: Option<Step>)
        ensures
            self.position() is None ==> step is None,
            self.position() is Some ==> step is Some && step.unwrap().from@
                == self.position().unwrap() && step.unwrap().direction == Direction::Backward,
    {
        match &self.position {
            Some(key) => Some(Step { from: copy_bytes(key), direction: Direction::Backward }),
            None => None,
        }
    }

    /// Settles a step of the cursor. Where the iterator found an entry, the
    /// caller gets its key and value as text, with replacement characters
    /// for what is not valid UTF-8, and the cursor stands on the key the
    /// iterator moved to. Where it found none, the caller gets an empty
    /// pair, and the cursor stands on no entry.
    pub fn advance(&mut self, reply: Option<Stepped>) -> (entry: KeyValueResult)
        ensures
            final(self).families() == old(self).families(),
            match reply {
                Some(stepped) => {
                    &&& final(self).position() == opt_bytes(stepped.landed)
                    &&& opt_text(entry.key) == Some(lossy_text(stepped.key@))
                    &&& opt_text(entry.value) == Some(lossy_text(stepped.value@))
                    &&& valid_utf8(stepped.key@) ==> opt_text(entry.key) == Some(
                        decode_utf8(stepped.key@),
                    )
                    &&& valid_utf8(stepped.value@) ==> opt_text(entry.value) == Some(
                        decode_utf8(stepped.value@),
                    )
                },
                None => {
                    &&& final(self).position() is None
                    &&& entry.key is None
                    &&& entry.value is None
                },
            },
    {
        match reply {
            Some(stepped) => {
                let key = text_from_utf8_lossy(stepped.key.as_slice());
                let value = text_from_utf8_lossy(stepped.value.as_slice());
                self.position = stepped.landed;
                KeyValueResult { key: Some(key), value: Some(value) }
            },
            None => {
                self.position = None;
                KeyValueResult { key: None, value: None }
            },
        }
    }

    /// Plans a compaction of the keys between two bounds, each open where
    /// absent. The engine reports nothing back.
    pub fn compact_range(&self, start: Option<String>, end: Option<String>, cf_name: Option<String>) -> (result:
        Result<Compaction, SessionError>)
        ensures
            !self.resolves(cf_name) ==> result == Err::<Compaction, SessionError>(
                SessionError::FamilyNotFound,
            ),
            self.resolves(cf_name) ==> {
                &&& result is Ok
                &&& result.unwrap().family == cf_name
                &&& opt_bytes(result.unwrap().start) == opt_encoded(start)
                &&& opt_bytes(result.unwrap().end) == opt_encoded(end)
            },
    {
        match self.families.resolve(&cf_name) {
            Ok(_) => Ok(
                Compaction { family: cf_name, start: encode_opt(&start), end: encode_opt(&end) },
            ),
            Err(e) => Err(e),
        }
    }

    /// Settles the listing of the files that make up the store.
    pub fn get_live_files(listed: Result<Vec<String>, String>) -> (result: Result<
        Vec<String>,
        SessionError,
    >)
        ensures
            result == match listed {
                Ok(list) => Ok::<Vec<String>, SessionError>(list),
                Err(message) => Err(SessionError::Engine(message)),
            },
    {
        crate::reply::names(listed)
    }

    /// Plans option overrides, given as names and values in the engine's
    /// own vocabulary. [`reply::done`] settles the engine's answer, so a
    /// failure of the engine is reported.
    pub fn set_options(&self, options: Vec<(String, String)>, cf_name: Option<String>) -> (result:
        Result<Tuning, SessionError>)
        ensures
            !self.resolves(cf_name) ==> result == Err::<Tuning, SessionError>(
                SessionError::FamilyNotFound,
            ),
            self.resolves(cf_name) ==> result == Ok::<Tuning, SessionError>(
                Tuning { family: cf_name, options },
            ),
    {
        match self.families.resolve(&cf_name) {
            Ok(_) => Ok(Tuning { family: cf_name, options }),
            Err(e) => Err(e),
        }
    }

    /// Plans a change of the compression algorithm. The name is checked
    /// first: one that stands for no algorithm is an invalid argument,
    /// whatever the family. The engine is handed the option `compression`
    /// with the name as its value.
    pub fn set_compression(&self, compression_type: String, cf_name: Option<String>) -> (result:
        Result<Tuning, SessionError>)
        ensures
            Compression::spec_named(compression_type@) is None ==> result == Err::<
                Tuning,
                SessionError,
            >(SessionError::InvalidCompression),
            Compression::spec_named(compression_type@) is Some && !self.resolves(cf_name)
                ==> result == Err::<Tuning, SessionError>(SessionError::FamilyNotFound),
            Compression::spec_named(compression_type@) is Some && self.resolves(cf_name)
                ==> result is Ok && result.unwrap().sets(
                cf_name,
                "compression"@,
                compression_type@,
            ),
    {
        match Compression::named(&compression_type) {
            Some(_) => Tuning::one(
                &self.families,
                "compression".to_owned(),
                compression_type,
                cf_name,
            ),
            None => Err(SessionError::InvalidCompression),
        }
    }

    /// Plans a change of the write-buffer size, in bytes. The engine is
    /// handed the option `write_buffer_size` with the size in decimal.
    pub fn set_write_buffer_size(&self, size: usize, cf_name: Option<String>) -> (result: Result<
        Tuning,
        SessionError,
    >)
        ensures
            !self.resolves(cf_name) ==> result == Err::<Tuning, SessionError>(
                SessionError::FamilyNotFound,
            ),
            self.resolves(cf_name) ==> result is Ok && result.unwrap().sets(
                cf_name,
                "write_buffer_size"@,
                decimal(size as nat),
            ),
    {
        Tuning::one(&self.families, "write_buffer_size".to_owned(), size_text(size), cf_name)
    }

    /// Plans a change of the block-cache size, in bytes. The engine is
    /// handed the option `block_cache` with the size in decimal.
    pub fn set_cache_size(&self, size: usize, cf_name: Option<String>) -> (result: Result<
        Tuning,
        SessionError,
    >)
        ensures
            !self.resolves(cf_name) ==> result == Err::<Tuning, SessionError>(
                SessionError::FamilyNotFound,
            ),
            self.resolves(cf_name) ==> result is Ok && result.unwrap().sets(
                cf_name,
                "block_cache"@,
                decimal(size as nat),
            ),
    {
        Tuning::one(&self.families, "block_cache".to_owned(), size_text(size), cf_name)
    }
}

/// A value that was put reads back: where a lookup finds the bytes that a
/// put handed to the engine, it settles to the text that was put.
pub proof fn lemma_put_reads_back(
    write: Write,
    family: Option<String>,
    key: Seq<char>,
    value: Seq<char>,
)
    requires
        write.carries(WriteKind::Put, family, key, Some(value)),
    ensures
        write is Put,
        settled_value(Ok(Some(write->Put_value))) == Ok::<Option<Seq<char>>, SessionError>(
            Some(value),
        ),
{
    crate::text::lemma_text_round_trip(value);
}

/// Whether the entries are the content of a family as the engine orders
/// it: by key, strictly ascending.
pub open spec fn in_key_order(stored: Seq<Entry>) -> bool {
    forall|i: int, j: int|
        0 <= i < j < stored.len() ==> sorts_before(
            #[trigger] stored[i].key@,
            #[trigger] stored[j].key@,
        )
}

/// The key the cursor stands on when the first `count` entries of a family
/// were handed out from the first on: the key of the entry that follows, or
/// none behind the last.
pub open spec fn cursor_after(stored: Seq<Entry>, count: int) -> Option<Seq<u8>> {
    if 0 <= count < stored.len() {
        Some(stored[count].key@)
    } else {
        None
    }
}

/// Whether a reply is what a forward step from the key `from` reads in a
/// family that holds `stored`: the first entry whose key is not below
/// `from`, with the key of the entry after it; or nothing where every key
/// is below `from`.
pub open spec fn steps_forward(stored: Seq<Entry>, from: Seq<u8>, reply: Option<Stepped>) -> bool {
    match reply {
        Some(stepped) => exists|i: int|
            {
                &&& 0 <= i < stored.len()
                &&& !sorts_before(#[trigger] stored[i].key@, from)
                &&& forall|j: int| 0 <= j < i ==> sorts_before(#[trigger] stored[j].key@, from)
                &&& stepped.key@ == stored[i].key@
                &&& stepped.value@ == stored[i].value@
                &&& opt_bytes(stepped.landed) == cursor_after(stored, i + 1)
            },
        None => forall|j: int| 0 <= j < stored.len() ==> sorts_before(#[trigger] stored[j].key@, from),
    }
}

/// A walk hands out each entry once, in key order. Where the cursor stands
/// on the key of entry `k` of a family in key order, a forward step reads
/// that entry and leaves the cursor on the key of entry `k + 1`, or on none
/// behind the last. So from the first entry on, `n` steps hand out the `n`
/// entries in key order, and the cursor then stands on no entry.
pub proof fn lemma_walk_in_key_order(stored: Seq<Entry>, k: int, reply: Option<Stepped>)
    requires
        in_key_order(stored),
        0 <= k < stored.len(),
        steps_forward(stored, stored[k].key@, reply),
    ensures
        reply is Some,
        reply.unwrap().key@ == stored[k].key@,
        reply.unwrap().value@ == stored[k].value@,
        opt_bytes(reply.unwrap().landed) == cursor_after(stored, k + 1),
        cursor_after(stored, stored.len() as int) is None,
{
    let from = stored[k].key@;
    lemma_no_key_sorts_before_itself(from);
    match reply {
        Some(stepped) => {
            let i = choose|i: int|
                {
                    &&& 0 <= i < stored.len()
                    &&& !sorts_before(#[trigger] stored[i].key@, from)
                    &&& forall|j: int|
                        0 <= j < i ==> sorts_before(#[trigger] stored[j].key@, from)
                    &&& stepped.key@ == stored[i].key@
                    &&& stepped.value@ == stored[i].value@
                    &&& opt_bytes(stepped.landed) == cursor_after(stored, i + 1)
                };
            if i < k {
                assert(sorts_before(stored[i].key@, stored[k].key@));
            }
            if k < i {
                assert(sorts_before(stored[k].key@, from));
            }
            assert(i == k);
        },
        None => {
            assert(sorts_before(stored[k].key@, from));
        },
    }
}

} // verus!
