//! What a session asks of the engine, and what the engine hands back.
//!
//! A request names everything the engine needs for one piece of work: the
//! column family (`None` is the default family), the key and value as the
//! bytes to store, the bounds of a scan. The host performs it on the open
//! handle and hands the answer to the session's settle step.

use vstd::prelude::*;
use vstd::utf8::encode_utf8;
use crate::catalog::{opened_with, opt_texts, texts, Families};
use crate::error::SessionError;
use crate::text::encode;

verus! {

/// One keyed change.
#[derive(Debug, PartialEq, Eq)]
pub enum Write {
    /// Store `value` under `key`.
    Put { family: Option<String>, key: Vec<u8>, value: Vec<u8> },
    /// Add `operand` to what the merge operator folds into the value of `key`.
    Merge { family: Option<String>, key: Vec<u8>, operand: Vec<u8> },
    /// Remove `key`.
    Delete { family: Option<String>, key: Vec<u8> },
}

/// Which change a [`Write`] makes.
#[derive(Clone, Copy, Debug, PartialEq, Eq, Structural)]
pub enum WriteKind {
    Put,
    Merge,
    Delete,
}

impl Write {
    /// Whether this is the change of the given kind to the given key in the
    /// given family, with the given text as value or operand. A delete
    /// carries no value.
    pub open spec fn carries(
        self,
        kind: WriteKind,
        family: Option<String>,
        key: Seq<char>,
        value: Option<Seq<char>>,
    ) -> bool {
        match self {
            Write::Put { family: f, key: k, value: v } => {
                &&& kind == WriteKind::Put
                &&& f == family
                &&& k@ == encode_utf8(key)
                &&& value is Some
                &&& v@ == encode_utf8(value.unwrap())
            },
            Write::Merge { family: f, key: k, operand: v } => {
                &&& kind == WriteKind::Merge
                &&& f == family
                &&& k@ == encode_utf8(key)
                &&& value is Some
                &&& v@ == encode_utf8(value.unwrap())
            },
            Write::Delete { family: f, key: k } => {
                &&& kind == WriteKind::Delete
                &&& f == family
                &&& k@ == encode_utf8(key)
                &&& value is None
            },
        }
    }

    /// Plans a put: resolves the family and encodes key and value.
    pub fn put(families: &Families, key: &String, value: &String, cf_name: Option<String>) -> (result:
        Result<Write, SessionError>)
        ensures
            !families.resolves(cf_name) ==> result == Err::<Write, SessionError>(
                SessionError::FamilyNotFound,
            ),
            families.resolves(cf_name) ==> result is Ok && result.unwrap().carries(
                WriteKind::Put,
                cf_name,
                key@,
                Some(value@),
            ),
    {
        match families.resolve(&cf_name) {
            Ok(_) => Ok(Write::Put { family: cf_name, key: encode(key), value: encode(value) }),
            Err(e) => Err(e),
        }
    }

    /// Plans a merge: resolves the family and encodes key and operand.
    pub fn merge(families: &Families, key: &String, value: &String, cf_name: Option<String>) -> (result:
        Result<Write, SessionError>)
        ensures
            !families.resolves(cf_name) ==> result == Err::<Write, SessionError>(
                SessionError::FamilyNotFound,
            ),
            families.resolves(cf_name) ==> result is Ok && result.unwrap().carries(
                WriteKind::Merge,
                cf_name,
                key@,
                Some(value@),
            ),
    {
        match families.resolve(&cf_name) {
            Ok(_) => Ok(Write::Merge { family: cf_name, key: encode(key), operand: encode(value) }),
            Err(e) => Err(e),
        }
    }

    /// Plans a delete: resolves the family and encodes the key.
    pub fn delete(families: &Families, key: &String, cf_name: Option<String>) -> (result: Result<
        Write,
        SessionError,
    >)
        ensures
            !families.resolves(cf_name) ==> result == Err::<Write, SessionError>(
                SessionError::FamilyNotFound,
            ),
            families.resolves(cf_name) ==> result is Ok && result.unwrap().carries(
                WriteKind::Delete,
                cf_name,
                key@,
                None,
            ),
    {
        match families.resolve(&cf_name) {
            Ok(_) => Ok(Write::Delete { family: cf_name, key: encode(key) }),
            Err(e) => Err(e),
        }
    }
}

/// One keyed lookup.
#[derive(Debug, PartialEq, Eq)]
pub struct Read {
    pub family: Option<String>,
    pub key: Vec<u8>,
}

impl Read {
    /// Whether this is the lookup of the given key in the given family.
    pub open spec fn asks(self, family: Option<String>, key: Seq<char>) -> bool {
        self.family == family && self.key@ == encode_utf8(key)
    }

    /// Plans a lookup: resolves the family and encodes the key.
    pub fn plan(families: &Families, key: &String, cf_name: Option<String>) -> (result: Result<
        Read,
        SessionError,
    >)
        ensures
            !families.resolves(cf_name) ==> result == Err::<Read, SessionError>(
                SessionError::FamilyNotFound,
            ),
            families.resolves(cf_name) ==> result is Ok && result.unwrap().asks(cf_name, key@),
    {
        match families.resolve(&cf_name) {
            Ok(_) => Ok(Read { family: cf_name, key: encode(key) }),
            Err(e) => Err(e),
        }
    }
}

/// A key and its value as the engine stores them.
#[derive(Debug, PartialEq, Eq)]
pub struct Entry {
    pub key: Vec<u8>,
    pub value: Vec<u8>,
}

/// A walk over one family in key order: it starts at the first entry whose
/// key is not below `start` (at the first entry of all where `start` is
/// absent) and yields at most `limit` entries (all that follow where `limit`
/// is absent).
#[derive(Debug, PartialEq, Eq)]
pub struct Scan {
    pub family: Option<String>,
    pub start: Option<Vec<u8>>,
    pub limit: Option<usize>,
}

/// What a [`Scan`] found: the entries it read, in key order, and the
/// engine's message where the walk ended on a failure.
#[derive(Debug, PartialEq, Eq)]
pub struct Scanned {
    pub entries: Vec<Entry>,
    pub failure: Option<String>,
}

/// Where to put a transient engine iterator.
#[derive(Debug, PartialEq, Eq)]
pub enum Seek {
    /// On the first entry.
    First,
    /// On the last entry.
    Last,
    /// On the first entry whose key is not below the given one.
    From(Vec<u8>),
    /// On the last entry whose key is not above the given one.
    Back(Vec<u8>),
}

/// Which way a cursor moves.
#[derive(Clone, Copy, Debug, PartialEq, Eq, Structural)]
pub enum Direction {
    Forward,
    Backward,
}

/// One step of a positional cursor: put an iterator on the first entry whose
/// key is not below `from`; where there is one, read it, move one entry in
/// `direction`, and report the key the iterator has landed on.
#[derive(Debug, PartialEq, Eq)]
pub struct Step {
    pub from: Vec<u8>,
    pub direction: Direction,
}

/// What a [`Step`] read: the entry under the iterator, and the key of the
/// entry it moved to, absent where it moved off the end.
#[derive(Debug, PartialEq, Eq)]
pub struct Stepped {
    pub key: Vec<u8>,
    pub value: Vec<u8>,
    pub landed: Option<Vec<u8>>,
}

/// A question about one of the engine's properties.
#[derive(Debug, PartialEq, Eq)]
pub struct PropertyQuery {
    pub family: Option<String>,
    pub name: String,
}

/// A flush of one family's memory to disk.
#[derive(Debug, PartialEq, Eq)]
pub struct Flush {
    pub family: Option<String>,
}

/// A compaction of the keys between two bounds, each open where absent.
#[derive(Debug, PartialEq, Eq)]
pub struct Compaction {
    pub family: Option<String>,
    pub start: Option<Vec<u8>>,
    pub end: Option<Vec<u8>>,
}

/// Option overrides for one family, or for the whole store where no family
/// is named, as names and values in the engine's own vocabulary.
#[derive(Debug, PartialEq, Eq)]
pub struct Tuning {
    pub family: Option<String>,
    pub options: Vec<(String, String)>,
}

/// A change to the set of column families.
#[derive(Debug, PartialEq, Eq)]
pub enum FamilyChange {
    /// Create the family, with the merge operator registered on it.
    Create { name: String },
    /// Drop the family.
    Drop { name: String },
}

/// How loud the engine's own log is.
#[derive(Clone, Copy, Debug, PartialEq, Eq, Structural)]
pub enum LogLevel {
    Debug,
    Info,
    Warn,
    Error,
    Fatal,
    Header,
}

/// The compression algorithms.
#[derive(Clone, Copy, Debug, PartialEq, Eq, Structural)]
pub enum Compression {
    Uncompressed,
    Snappy,
    Zlib,
    Bz2,
    Lz4,
    Lz4hc,
    Zstd,
}

impl Compression {
    /// The algorithm a name stands for; `None` for a name that stands for
    /// none.
    pub open spec fn spec_named(name: Seq<char>) -> Option<Compression> {
        if name == "none"@ {
            Some(Compression::Uncompressed)
        } else if name == "snappy"@ {
            Some(Compression::Snappy)
        } else if name == "zlib"@ {
            Some(Compression::Zlib)
        } else if name == "bz2"@ {
            Some(Compression::Bz2)
        } else if name == "lz4"@ {
            Some(Compression::Lz4)
        } else if name == "lz4hc"@ {
            Some(Compression::Lz4hc)
        } else if name == "zstd"@ {
            Some(Compression::Zstd)
        } else {
            None
        }
    }

    /// The algorithm a name stands for. The names are `none`, `snappy`,
    /// `zlib`, `bz2`, `lz4`, `lz4hc` and `zstd`, in lower case.
    pub fn named(name: &String) -> (algorithm: Option<Compression>)
        ensures
            algorithm == Compression::spec_named(name@),
    {
        if *name == "none".to_owned() {
            Some(Compression::Uncompressed)
        } else if *name == "snappy".to_owned() {
            Some(Compression::Snappy)
        } else if *name == "zlib".to_owned() {
            Some(Compression::Zlib)
        } else if *name == "bz2".to_owned() {
            Some(Compression::Bz2)
        } else if *name == "lz4".to_owned() {
            Some(Compression::Lz4)
        } else if *name == "lz4hc".to_owned() {
            Some(Compression::Lz4hc)
        } else if *name == "zstd".to_owned() {
            Some(Compression::Zstd)
        } else {
            None
        }
    }
}

impl Tuning {
    /// Whether this overrides exactly one option of the given family, with
    /// the given name and value.
    pub open spec fn sets(self, family: Option<String>, name: Seq<char>, value: Seq<char>) -> bool {
        &&& self.family == family
        &&& self.options@.len() == 1
        &&& self.options@[0].0@ == name
        &&& self.options@[0].1@ == value
    }

    /// Plans the override of one option: resolves the family.
    pub fn one(families: &Families, name: String, value: String, cf_name: Option<String>) -> (result:
        Result<Tuning, SessionError>)
        ensures
            !families.resolves(cf_name) ==> result == Err::<Tuning, SessionError>(
                SessionError::FamilyNotFound,
            ),
            families.resolves(cf_name) ==> result is Ok && result.unwrap().sets(
                cf_name,
                name@,
                value@,
            ),
    {
        match families.resolve(&cf_name) {
            Ok(_) => {
                let mut options: Vec<(String, String)> = Vec::new();
                options.push((name, value));
                Ok(Tuning { family: cf_name, options })
            },
            Err(e) => Err(e),
        }
    }
}

/// The ceiling on file descriptors every handle is opened with.
pub const MAX_OPEN_FILES: i32 = 1000;

/// Everything that is fixed when a handle is opened.
#[derive(Debug, PartialEq, Eq)]
pub struct OpenOptions {
    /// Where the store lives.
    pub path: String,
    /// Seconds after which the engine expires a key; `None` disables expiry.
    pub ttl_secs: Option<u64>,
    /// Create the store where there is none.
    pub create_if_missing: bool,
    /// The ceiling on open file descriptors.
    pub max_open_files: i32,
    /// The level of the engine's own log.
    pub log_level: LogLevel,
    /// The compression to set; `None` leaves the engine's default.
    pub compression: Option<Compression>,
    /// Register the merge operator, on the store and on every family opened.
    pub merge_operator: bool,
    /// The families to open; none named opens the store plainly.
    pub families: Vec<String>,
    /// Open the transactional variant of the engine.
    pub transactional: bool,
}

impl OpenOptions {
    /// Whether these are the options every handle shares: create the store
    /// if absent, the file-descriptor ceiling, warning-level logging.
    pub open spec fn is_common(self, path: String, ttl_secs: Option<u64>) -> bool {
        &&& self.path == path
        &&& self.ttl_secs == ttl_secs
        &&& self.create_if_missing
        &&& self.max_open_files == MAX_OPEN_FILES
        &&& self.log_level == LogLevel::Warn
    }

    /// The options of a plain session handle: the common ones, the engine's
    /// default compression, no merge operator, no family named.
    pub fn session(path: String, ttl_secs: Option<u64>) -> (options: OpenOptions)
        ensures
            options.is_common(path, ttl_secs),
            options.compression is None,
            !options.merge_operator,
            options.families@.len() == 0,
            !options.transactional,
    {
        OpenOptions {
            path,
            ttl_secs,
            create_if_missing: true,
            max_open_files: MAX_OPEN_FILES,
            log_level: LogLevel::Warn,
            compression: None,
            merge_operator: false,
            families: Vec::new(),
            transactional: false,
        }
    }

    /// The options of the main store handle: the common ones, Snappy
    /// compression, the merge operator, and the families that the listing
    /// of the store at `path` gave (`None` where the listing failed, as it
    /// does for a store that does not exist yet).
    pub fn store(path: String, ttl_secs: Option<u64>, listed: Option<Vec<String>>) -> (options:
        OpenOptions)
        ensures
            options.is_common(path, ttl_secs),
            options.compression == Some(Compression::Snappy),
            options.merge_operator,
            texts(options.families@) == opened_with(opt_texts(listed)),
            !options.transactional,
    {
        let families = Families::opened(&listed).names();
        OpenOptions {
            path,
            ttl_secs,
            create_if_missing: true,
            max_open_files: MAX_OPEN_FILES,
            log_level: LogLevel::Warn,
            compression: Some(Compression::Snappy),
            merge_operator: true,
            families,
            transactional: false,
        }
    }

    /// The options of a transactional handle: the common ones without
    /// expiry, and the transactional variant of the engine.
    pub fn transactional(path: String) -> (options: OpenOptions)
        ensures
            options.is_common(path, None),
            options.compression is None,
            !options.merge_operator,
            options.families@.len() == 0,
            options.transactional,
    {
        OpenOptions {
            path,
            ttl_secs: None,
            create_if_missing: true,
            max_open_files: MAX_OPEN_FILES,
            log_level: LogLevel::Warn,
            compression: None,
            merge_operator: false,
            families: Vec::new(),
            transactional: true,
        }
    }
}

} // verus!
