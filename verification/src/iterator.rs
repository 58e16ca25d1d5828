//! The batch cursor: a resumable walk over one column family, a batch of
//! entries per call.
//!
//! Between calls the cursor is the key of the last entry it handed out, not
//! an open iterator. Each call asks the engine for a fresh walk that starts
//! at that key, and leaves out the entry that was handed out already.

use vstd::prelude::*;
use crate::catalog::{registry_of, texts, Families};
use crate::engine::{Entry, OpenOptions, Scan, Scanned};
use crate::error::SessionError;
use crate::reply::{all_text, decode_range, decoded, pairs};
use crate::text::{copy_bytes, copy_opt, opt_bytes, same_bytes};

verus! {

/// The session of a batch cursor: the registry of the open handle, the key
/// of the last entry handed out, and the family the walk is bound to.
pub struct RocksDBIterator {
    families: Families,
    iter_position: Option<Vec<u8>>,
    iter_cf: Option<String>,
}

/// How many entries a walk has to ask for: one more than the batch where
/// the walk resumes at a key, since the entry under that key was handed out
/// already and is left out again.
pub open spec fn scan_limit(position: Option<Seq<u8>>, batch_size: usize) -> usize {
    if position is Some && batch_size < usize::MAX {
        (batch_size + 1) as usize
    } else {
        batch_size
    }
}

/// The index of the first entry of a walk that was not handed out before:
/// past the first entry where that is the entry the walk resumed at.
pub open spec fn fresh_from(position: Option<Seq<u8>>, entries: Seq<Entry>) -> int {
    if position is Some && entries.len() > 0 && entries[0].key@ == position.unwrap() {
        1
    } else {
        0
    }
}

/// The index behind the last entry of the batch: `batch_size` entries on
/// from the first fresh one, or the end of the walk where that comes first.
pub open spec fn fresh_to(position: Option<Seq<u8>>, entries: Seq<Entry>, batch_size: usize) -> int {
    let from = fresh_from(position, entries);
    if entries.len() - from <= batch_size {
        entries.len() as int
    } else {
        from + batch_size
    }
}

/// The batch a walk yields: the fresh entries, up to `batch_size` of them.
pub open spec fn batch_of(
    position: Option<Seq<u8>>,
    entries: Seq<Entry>,
    batch_size: usize,
) -> Seq<Entry> {
    entries.subrange(fresh_from(position, entries), fresh_to(position, entries, batch_size))
}

impl RocksDBIterator {
    /// The names in the registry.
    pub closed spec fn families(&self) -> Seq<Seq<char>> {
        self.families@
    }

    /// The key of the last entry handed out; `None` before the first.
    pub closed spec fn position(&self) -> Option<Seq<u8>> {
        opt_bytes(self.iter_position)
    }

    /// The family the walk is bound to; `None` is the default family.
    pub closed spec fn bound_family(&self) -> Option<String> {
        self.iter_cf
    }

    /// Whether an optional family selector names a family of this handle.
    pub open spec fn resolves(&self, cf_name: Option<String>) -> bool {
        match cf_name {
            Some(name) => self.families().contains(name@),
            None => true,
        }
    }

    /// Settles the opening of the handle. Where the engine opened the store,
    /// the session starts at the beginning of the default family; where it
    /// failed, there is no session, and the failure carries the engine's
    /// message.
    pub fn open(options: &OpenOptions, opened: Result<(), String>) -> (result: Result<
        RocksDBIterator,
        SessionError,
    >)
        ensures
            match opened {
                Ok(_) => {
                    &&& result is Ok
                    &&& result.unwrap().families() == registry_of(texts(options.families@))
                    &&& result.unwrap().position() is None
                    &&& result.unwrap().bound_family() is None
                },
                Err(message) => result == Err::<RocksDBIterator, SessionError>(
                    SessionError::Engine(message),
                ),
            },
    {
        match opened {
            Ok(_) => Ok(
                RocksDBIterator {
                    families: Families::of_handle(&options.families),
                    iter_position: None,
                    iter_cf: None,
                },
            ),
            Err(message) => Err(SessionError::Engine(message)),
        }
    }

    /// Binds the walk to a family and puts it at the beginning. The family
    /// is looked up when the walk is next advanced.
    pub fn iterator(&mut self, cf_name: Option<String>) -> (result: Result<(), SessionError>)
        ensures
            result is Ok,
            final(self).position() is None,
            final(self).bound_family() == cf_name,
            final(self).families() == old(self).families(),
    {
        self.iter_position = None;
        self.iter_cf = cf_name;
        Ok(())
    }

    /// Plans the next batch: a walk over the bound family that starts at the
    /// key of the last entry handed out, or at the first entry where none
    /// was. [`RocksDBIterator::advance`] settles it.
    pub fn next(&self, batch_size: usize) -> (result: Result<Scan, SessionError>)
        ensures
            !self.resolves(self.bound_family()) ==> result == Err::<Scan, SessionError>(
                SessionError::FamilyNotFound,
            ),
            self.resolves(self.bound_family()) ==> {
                &&& result is Ok
                &&& result.unwrap().family == self.bound_family()
                &&& opt_bytes(result.unwrap().start) == self.position()
                &&& result.unwrap().limit == Some(scan_limit(self.position(), batch_size))
            },
    {
        match self.families.resolve(&self.iter_cf) {
            Ok(_) => {
                let (start, limit) = match &self.iter_position {
                    Some(key) => (
                        Some(copy_bytes(key)),
                        if batch_size < usize::MAX {
                            batch_size + 1
                        } else {
                            batch_size
                        },
                    ),
                    None => (None, batch_size),
                };
                Ok(Scan { family: copy_opt(&self.iter_cf), start, limit: Some(limit) })
            },
            Err(e) => Err(e),
        }
    }

    /// Settles a batch. The entry the walk resumed at is left out; of the
    /// entries that follow, up to `batch_size` make the batch, as pairs of
    /// texts in key order, and the key of the last of them is where the
    /// next walk resumes. An empty batch leaves the cursor where it was.
    ///
    /// A key or value in the batch that is not valid UTF-8 is an encoding
    /// failure. A walk that the engine ended on a failure before the batch
    /// was full is an engine failure, with the engine's message. Either
    /// failure leaves the cursor where it was.
    pub fn advance(&mut self, batch_size: usize, scanned: Scanned) -> (result: Result<
        Vec<(String, String)>,
        SessionError,
    >)
        ensures
            final(self).families() == old(self).families(),
            final(self).bound_family() == old(self).bound_family(),
            ({
                let batch = batch_of(old(self).position(), scanned.entries@, batch_size);
                if !all_text(batch) {
                    &&& result == Err::<Vec<(String, String)>, SessionError>(
                        SessionError::Encoding,
                    )
                    &&& final(self).position() == old(self).position()
                } else if batch.len() < batch_size && scanned.failure is Some {
                    &&& result == Err::<Vec<(String, String)>, SessionError>(
                        SessionError::Engine(scanned.failure.unwrap()),
                    )
                    &&& final(self).position() == old(self).position()
                } else {
                    &&& result is Ok
                    &&& pairs(result.unwrap()@) == decoded(batch)
                    &&& final(self).position() == if batch.len() > 0 {
                        Some(batch.last().key@)
                    } else {
                        old(self).position()
                    }
                }
            }),
    {
        let entries = scanned.entries;
        let from: usize = match &self.iter_position {
            Some(key) => if entries.len() > 0 && same_bytes(&entries[0].key, key) {
                1
            } else {
                0
            },
            None => 0,
        };
        let to: usize = if entries.len() - from <= batch_size {
            entries.len()
        } else {
            from + batch_size
        };
        assert(from == fresh_from(self.position(), entries@));
        assert(to == fresh_to(self.position(), entries@, batch_size));
        let batch = decode_range(&entries, from, to)?;
        if to - from < batch_size {
            if let Some(message) = scanned.failure {
                return Err(SessionError::Engine(message));
            }
        }
        if to > from {
            self.iter_position = Some(copy_bytes(&entries[to - 1].key));
        }
        Ok(batch)
    }

    /// Puts the walk back at the beginning of the bound family.
    pub fn reset(&mut self) -> (result: Result<(), SessionError>)
        ensures
            result is Ok,
            final(self).position() is None,
            final(self).bound_family() == old(self).bound_family(),
            final(self).families() == old(self).families(),
    {
        self.iter_position = None;
        Ok(())
    }
}

/// Whether one key sorts before another in the engine's order, which
/// compares byte by byte and puts a key before every key it is a proper
/// beginning of.
pub open spec fn sorts_before(a: Seq<u8>, b: Seq<u8>) -> bool
    decreases a.len(),
{
    if b.len() == 0 {
        false
    } else if a.len() == 0 {
        true
    } else if a[0] != b[0] {
        a[0] < b[0]
    } else {
        sorts_before(a.drop_first(), b.drop_first())
    }
}

/// Whether the entries are what a walk that starts at `start` yields: keys
/// in strictly ascending order, none of them before `start`.
pub open spec fn is_walk_from(start: Seq<u8>, entries: Seq<Entry>) -> bool {
    &&& forall|i: int, j: int|
        0 <= i < j < entries.len() ==> sorts_before(
            #[trigger] entries[i].key@,
            #[trigger] entries[j].key@,
        )
    &&& forall|i: int| 0 <= i < entries.len() ==> !sorts_before(#[trigger] entries[i].key@, start)
}

/// No key sorts before itself.
pub proof fn lemma_no_key_sorts_before_itself(a: Seq<u8>)
    ensures
        !sorts_before(a, a),
    decreases a.len(),
{
    if a.len() > 0 {
        lemma_no_key_sorts_before_itself(a.drop_first());
    }
}

/// Of two different keys, one sorts before the other.
pub proof fn lemma_one_sorts_first(a: Seq<u8>, b: Seq<u8>)
    ensures
        a == b || sorts_before(a, b) || sorts_before(b, a),
    decreases a.len(),
{
    if a.len() == 0 || b.len() == 0 {
        if a.len() == 0 && b.len() == 0 {
            assert(a =~= b);
        }
    } else if a[0] == b[0] {
        lemma_one_sorts_first(a.drop_first(), b.drop_first());
        if a.drop_first() == b.drop_first() {
            assert(a =~= seq![a[0]] + a.drop_first());
            assert(b =~= seq![b[0]] + b.drop_first());
        }
    }
}

/// A key that sorts before a second, which sorts before a third, sorts
/// before the third.
pub proof fn lemma_sorts_before_chains(a: Seq<u8>, b: Seq<u8>, c: Seq<u8>)
    requires
        sorts_before(a, b),
        sorts_before(b, c),
    ensures
        sorts_before(a, c),
    decreases a.len(),
{
    if a.len() > 0 && a[0] == b[0] && b[0] == c[0] {
        lemma_sorts_before_chains(a.drop_first(), b.drop_first(), c.drop_first());
    }
}

/// A batch lies past the cursor: where the engine's walk started at the key
/// the cursor stood on, every key in the batch sorts after that key, so no
/// entry is handed out by two successive batches.
pub proof fn lemma_batch_lies_past_the_cursor(
    position: Seq<u8>,
    entries: Seq<Entry>,
    batch_size: usize,
)
    requires
        is_walk_from(position, entries),
    ensures
        forall|i: int|
            0 <= i < batch_of(Some(position), entries, batch_size).len() ==> sorts_before(
                position,
                #[trigger] batch_of(Some(position), entries, batch_size)[i].key@,
            ),
{
    let batch = batch_of(Some(position), entries, batch_size);
    let from = fresh_from(Some(position), entries);
    assert forall|i: int| 0 <= i < batch.len() implies sorts_before(
        position,
        #[trigger] batch[i].key@,
    ) by {
        let at = from + i;
        assert(batch[i] == entries[at]);
        let first = entries[0].key@;
        if from == 1 {
            assert(sorts_before(entries[0].key@, entries[at].key@));
        } else {
            lemma_one_sorts_first(first, position);
            assert(!sorts_before(entries[0].key@, position));
            if at > 0 {
                assert(sorts_before(entries[0].key@, entries[at].key@));
                lemma_sorts_before_chains(position, first, entries[at].key@);
            }
        }
    }
}

} // verus!
