//! The write-batch session: changes staged in memory, then handed to the
//! engine as one atomic write.

use vstd::prelude::*;
use crate::catalog::{registry_of, texts, Families};
use crate::engine::{OpenOptions, Write, WriteKind};
use crate::error::{ErrorKind, SessionError};

verus! {

/// The session of a write batch: the registry of the open handle, and the
/// staged changes, in the order they were staged. There is no batch before
/// `start` and none after `write` or `destroy`.
pub struct RocksDBWriteBatch {
    families: Families,
    batch: Option<Vec<Write>>,
}

impl RocksDBWriteBatch {
    /// The names in the registry.
    pub closed spec fn families(&self) -> Seq<Seq<char>> {
        self.families@
    }

    /// The staged changes, oldest first; `None` where no batch is started.
    pub closed spec fn pending(&self) -> Option<Seq<Write>> {
        match self.batch {
            Some(staged) => Some(staged@),
            None => None,
        }
    }

    /// Whether an optional family selector names a family of this handle.
    pub open spec fn resolves(&self, cf_name: Option<String>) -> bool {
        match cf_name {
            Some(name) => self.families().contains(name@),
            None => true,
        }
    }

    /// What staging one change of the given kind does to the session: with
    /// no batch started it fails and changes nothing; with a family that
    /// does not resolve it fails and changes nothing; otherwise the change
    /// is staged behind those staged before.
    pub open spec fn stages(
        before: Self,
        after: Self,
        result: Result<(), SessionError>,
        kind: WriteKind,
        cf_name: Option<String>,
        key: Seq<char>,
        value: Option<Seq<char>>,
    ) -> bool {
        &&& after.families() == before.families()
        &&& if before.pending() is None {
            &&& result == Err::<(), SessionError>(SessionError::BatchNotStarted)
            &&& after.pending() is None
        } else if !before.resolves(cf_name) {
            &&& result == Err::<(), SessionError>(SessionError::FamilyNotFound)
            &&& after.pending() == before.pending()
        } else {
            &&& result is Ok
            &&& after.pending() is Some
            &&& after.pending().unwrap().len() == before.pending().unwrap().len() + 1
            &&& after.pending().unwrap().drop_last() == before.pending().unwrap()
            &&& after.pending().unwrap().last().carries(kind, cf_name, key, value)
        }
    }

    /// Settles the opening of the handle. Where the engine opened the store,
    /// the session starts with no batch; where it failed, there is no
    /// session, and the failure carries the engine's message.
    pub fn open(options: &OpenOptions, opened: Result<(), String>) -> (result: Result<
        RocksDBWriteBatch,
        SessionError,
    >)
        ensures
            match opened {
                Ok(_) => {
                    &&& result is Ok
                    &&& result.unwrap().families() == registry_of(texts(options.families@))
                    &&& result.unwrap().pending() is None
                },
                Err(message) => result == Err::<RocksDBWriteBatch, SessionError>(
                    SessionError::Engine(message),
                ),
            },
    {
        match opened {
            Ok(_) => Ok(
                RocksDBWriteBatch { families: Families::of_handle(&options.families), batch: None },
            ),
            Err(message) => Err(SessionError::Engine(message)),
        }
    }

    /// Begins a new, empty batch. A batch staged before is discarded.
    pub fn start(&mut self) -> (result: Result<(), SessionError>)
        ensures
            result is Ok,
            final(self).families() == old(self).families(),
            final(self).pending() == Some(Seq::<Write>::empty()),
    {
        self.batch = Some(Vec::new());
        Ok(())
    }

    /// Stages a change that was planned against this session's registry.
    fn stage(&mut self, planned: Result<Write, SessionError>) -> (result: Result<(), SessionError>)
        requires
            old(self).pending() is Some,
        ensures
            final(self).families() == old(self).families(),
            match planned {
                Ok(write) => {
                    &&& result is Ok
                    &&& final(self).pending() == Some(old(self).pending().unwrap().push(write))
                },
                Err(e) => {
                    &&& result == Err::<(), SessionError>(e)
                    &&& final(self).pending() == old(self).pending()
                },
            },
    {
        match planned {
            Ok(write) => {
                match &mut self.batch {
                    Some(staged) => {
                        staged.push(write);
                    },
                    None => {},
                }
                Ok(())
            },
            Err(e) => Err(e),
        }
    }

    /// Stages a put.
    pub fn put(&mut self, key: String, value: String, cf_name: Option<String>) -> (result: Result<
        (),
        SessionError,
    >)
        ensures
            Self::stages(
                *old(self),
                *final(self),
                result,
                WriteKind::Put,
                cf_name,
                key@,
                Some(value@),
            ),
    {
        if self.batch.is_none() {
            return Err(SessionError::BatchNotStarted);
        }
        let planned = Write::put(&self.families, &key, &value, cf_name);
        let ghost before = self.pending().unwrap();
        let result = self.stage(planned);
        proof {
            if planned is Ok {
                assert(before.push(planned.unwrap()).drop_last() =~= before);
            }
        }
        result
    }

    /// Stages a merge.
    pub fn merge(&mut self, key: String, value: String, cf_name: Option<String>) -> (result: Result<
        (),
        SessionError,
    >)
        ensures
            Self::stages(
                *old(self),
                *final(self),
                result,
                WriteKind::Merge,
                cf_name,
                key@,
                Some(value@),
            ),
    {
        if self.batch.is_none() {
            return Err(SessionError::BatchNotStarted);
        }
        let planned = Write::merge(&self.families, &key, &value, cf_name);
        let ghost before = self.pending().unwrap();
        let result = self.stage(planned);
        proof {
            if planned is Ok {
                assert(before.push(planned.unwrap()).drop_last() =~= before);
            }
        }
        result
    }

    /// Stages a delete.
    pub fn delete(&mut self, key: String, cf_name: Option<String>) -> (result: Result<
        (),
        SessionError,
    >)
        ensures
            Self::stages(*old(self), *final(self), result, WriteKind::Delete, cf_name, key@, None),
    {
        if self.batch.is_none() {
            return Err(SessionError::BatchNotStarted);
        }
        let planned = Write::delete(&self.families, &key, cf_name);
        let ghost before = self.pending().unwrap();
        let result = self.stage(planned);
        proof {
            if planned is Ok {
                assert(before.push(planned.unwrap()).drop_last() =~= before);
            }
        }
        result
    }

    /// Plans the write of the batch: hands out every staged change, in the
    /// order staged, for the engine to apply as one atomic unit, and leaves
    /// the session without a batch, whatever the engine then answers.
    /// [`reply::done`](crate::reply::done) settles the answer.
    pub fn write(&mut self) -> (result: Result<Vec<Write>, SessionError>)
        ensures
            final(self).families() == old(self).families(),
            final(self).pending() is None,
            match old(self).pending() {
                Some(staged) => result is Ok && result.unwrap()@ == staged,
                None => result == Err::<Vec<Write>, SessionError>(SessionError::BatchNotStarted),
            },
    {
        let mut taken: Option<Vec<Write>> = None;
        core::mem::swap(&mut self.batch, &mut taken);
        match taken {
            Some(staged) => Ok(staged),
            None => Err(SessionError::BatchNotStarted),
        }
    }

    /// Empties the batch without applying it. The batch stays started.
    pub fn clear(&mut self) -> (result: Result<(), SessionError>)
        ensures
            final(self).families() == old(self).families(),
            match old(self).pending() {
                Some(_) => result is Ok && final(self).pending() == Some(Seq::<Write>::empty()),
                None => result == Err::<(), SessionError>(SessionError::BatchNotStarted)
                    && final(self).pending() is None,
            },
    {
        if self.batch.is_none() {
            return Err(SessionError::BatchNotStarted);
        }
        self.batch = Some(Vec::new());
        Ok(())
    }

    /// Discards the batch, started or not.
    pub fn destroy(&mut self) -> (result: Result<(), SessionError>)
        ensures
            result is Ok,
            final(self).families() == old(self).families(),
            final(self).pending() is None,
    {
        self.batch = None;
        Ok(())
    }
}

/// Staging needs a started batch: with none, staging any change is a
/// session-state failure, and there is still no batch afterwards.
pub proof fn lemma_staging_needs_start(
    before: RocksDBWriteBatch,
    after: RocksDBWriteBatch,
    result: Result<(), SessionError>,
    kind: WriteKind,
    cf_name: Option<String>,
    key: Seq<char>,
    value: Option<Seq<char>>,
)
    requires
        before.pending() is None,
        RocksDBWriteBatch::stages(before, after, result, kind, cf_name, key, value),
    ensures
        result is Err,
        result->Err_0.spec_kind() == ErrorKind::SessionState,
        after.pending() is None,
{
}

/// Two puts into the default family of a freshly started batch are both
/// staged, in the order made, and nothing else is: they are what the next
/// write hands to the engine as one unit.
pub proof fn lemma_two_puts_are_staged_together(
    started: RocksDBWriteBatch,
    once: RocksDBWriteBatch,
    twice: RocksDBWriteBatch,
    first: Result<(), SessionError>,
    second: Result<(), SessionError>,
    k1: Seq<char>,
    v1: Seq<char>,
    k2: Seq<char>,
    v2: Seq<char>,
)
    requires
        started.pending() == Some(Seq::<Write>::empty()),
        RocksDBWriteBatch::stages(started, once, first, WriteKind::Put, None, k1, Some(v1)),
        RocksDBWriteBatch::stages(once, twice, second, WriteKind::Put, None, k2, Some(v2)),
    ensures
        first is Ok,
        second is Ok,
        twice.pending() is Some,
        twice.pending().unwrap().len() == 2,
        twice.pending().unwrap()[0].carries(WriteKind::Put, None, k1, Some(v1)),
        twice.pending().unwrap()[1].carries(WriteKind::Put, None, k2, Some(v2)),
{
    let one = once.pending().unwrap();
    let two = twice.pending().unwrap();
    assert(one.drop_last() == Seq::<Write>::empty());
    assert(one.len() == 1);
    assert(two.drop_last() == one);
    assert(two[0] == two.drop_last()[0]);
    assert(one[0] == one.last());
    assert(two[1] == two.last());
}

} // verus!
