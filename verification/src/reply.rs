//! Settling: what the engine answered, turned into what the caller gets.
//!
//! The engine reports a failure as its own message, a `String`. Values come
//! back as bytes and leave as text.

use vstd::prelude::*;
use vstd::utf8::{decode_utf8, valid_utf8};
use crate::catalog::texts;
use crate::engine::{Entry, Scanned};
use crate::error::SessionError;
use crate::text::{copy_bytes, decode, opt_text};

verus! {

/// Whether key and value of an entry are both valid UTF-8.
pub open spec fn is_text(entry: Entry) -> bool {
    valid_utf8(entry.key@) && valid_utf8(entry.value@)
}

/// Whether every entry is text.
pub open spec fn all_text(entries: Seq<Entry>) -> bool {
    forall|i: int| 0 <= i < entries.len() ==> is_text(#[trigger] entries[i])
}

/// The entries as pairs of texts.
pub open spec fn decoded(entries: Seq<Entry>) -> Seq<(Seq<char>, Seq<char>)> {
    entries.map_values(|entry: Entry| (decode_utf8(entry.key@), decode_utf8(entry.value@)))
}

/// The texts of a list of pairs of strings.
pub open spec fn pairs(list: Seq<(String, String)>) -> Seq<(Seq<char>, Seq<char>)> {
    list.map_values(|pair: (String, String)| (pair.0@, pair.1@))
}

/// The first texts of a list of pairs.
pub open spec fn firsts(list: Seq<(Seq<char>, Seq<char>)>) -> Seq<Seq<char>> {
    list.map_values(|pair: (Seq<char>, Seq<char>)| pair.0)
}

/// Settles a call that yields nothing: success stays success, and a failure
/// carries the engine's message on.
pub fn done(reply: Result<(), String>) -> (result: Result<(), SessionError>)
    ensures
        result == match reply {
            Ok(_) => Ok::<(), SessionError>(()),
            Err(message) => Err(SessionError::Engine(message)),
        },
{
    match reply {
        Ok(_) => Ok(()),
        Err(message) => Err(SessionError::Engine(message)),
    }
}

/// What a lookup settles to. A key that the engine does not hold is a
/// result, not a failure; a value that is not valid UTF-8 is an encoding
/// failure; an engine failure carries the engine's message on.
pub open spec fn settled_value(reply: Result<Option<Vec<u8>>, String>) -> Result<
    Option<Seq<char>>,
    SessionError,
> {
    match reply {
        Ok(Some(bytes)) => if valid_utf8(bytes@) {
            Ok(Some(decode_utf8(bytes@)))
        } else {
            Err(SessionError::Encoding)
        },
        Ok(None) => Ok(None),
        Err(message) => Err(SessionError::Engine(message)),
    }
}

/// Settles a lookup: the value as text, absence as absence, and a failure
/// as [`settled_value`] says.
pub fn value(reply: Result<Option<Vec<u8>>, String>) -> (result: Result<Option<String>, SessionError>)
    ensures
        match settled_value(reply) {
            Ok(text) => result is Ok && opt_text(result.unwrap()) == text,
            Err(e) => result == Err::<Option<String>, SessionError>(e),
        },
{
    match reply {
        Ok(Some(bytes)) => match decode(bytes) {
            Ok(text) => Ok(Some(text)),
            Err(e) => Err(e),
        },
        Ok(None) => Ok(None),
        Err(message) => Err(SessionError::Engine(message)),
    }
}

/// Settles a question that the engine answers in text, such as a property:
/// the answer passes through, and a failure carries the engine's message on.
pub fn text(reply: Result<Option<String>, String>) -> (result: Result<Option<String>, SessionError>)
    ensures
        result == match reply {
            Ok(answer) => Ok::<Option<String>, SessionError>(answer),
            Err(message) => Err(SessionError::Engine(message)),
        },
{
    match reply {
        Ok(answer) => Ok(answer),
        Err(message) => Err(SessionError::Engine(message)),
    }
}

/// Settles a listing of names: the names pass through in the engine's order,
/// and a failure carries the engine's message on.
pub fn names(reply: Result<Vec<String>, String>) -> (result: Result<Vec<String>, SessionError>)
    ensures
        result == match reply {
            Ok(list) => Ok::<Vec<String>, SessionError>(list),
            Err(message) => Err(SessionError::Engine(message)),
        },
{
    match reply {
        Ok(list) => Ok(list),
        Err(message) => Err(SessionError::Engine(message)),
    }
}

/// Reads the entries from index `from` up to, not including, `to` as pairs
/// of texts, in order. One key or value among them that is not valid UTF-8
/// is an encoding failure.
pub fn decode_range(entries: &Vec<Entry>, from: usize, to: usize) -> (result: Result<
    Vec<(String, String)>,
    SessionError,
>)
    requires
        from <= to <= entries.len(),
    ensures
        all_text(entries@.subrange(from as int, to as int)) ==> result is Ok && pairs(
            result.unwrap()@,
        ) == decoded(entries@.subrange(from as int, to as int)),
        !all_text(entries@.subrange(from as int, to as int)) ==> result == Err::<
            Vec<(String, String)>,
            SessionError,
        >(SessionError::Encoding),
{
    let ghost range = entries@.subrange(from as int, to as int);
    let mut list: Vec<(String, String)> = Vec::new();
    let mut i: usize = from;
    while i < to
        invariant
            from <= i <= to <= entries.len(),
            range == entries@.subrange(from as int, to as int),
            all_text(range.take(i - from)),
            pairs(list@) == decoded(range.take(i - from)),
        decreases to - i,
    {
        let ghost before = pairs(list@);
        assert(range[i - from] == entries@[i as int]);
        let key = match decode(copy_bytes(&entries[i].key)) {
            Ok(text) => text,
            Err(e) => {
                assert(!is_text(range[i - from]));
                return Err(e);
            },
        };
        let value = match decode(copy_bytes(&entries[i].value)) {
            Ok(text) => text,
            Err(e) => {
                assert(!is_text(range[i - from]));
                return Err(e);
            },
        };
        list.push((key, value));
        proof {
            let next = range.take(i + 1 - from);
            assert(next.drop_last() =~= range.take(i - from));
            assert(next.last() == range[i - from]);
            assert(pairs(list@) =~= before.push((key@, value@)));
            assert(decoded(next) =~= decoded(range.take(i - from)).push(
                (decode_utf8(range[i - from].key@), decode_utf8(range[i - from].value@)),
            ));
            assert forall|j: int| 0 <= j < next.len() implies is_text(#[trigger] next[j]) by {
                if j < i - from {
                    assert(next[j] == range.take(i - from)[j]);
                }
            }
        }
        i += 1;
    }
    proof {
        assert(range.take(to - from) =~= range);
    }
    Ok(list)
}

/// What a walk over a whole family settles to: an encoding failure where a
/// key or value read is not valid UTF-8; else the engine's failure where the
/// walk ended on one; else every entry read, as a pair of texts.
pub open spec fn walked(scanned: Scanned) -> Result<Seq<(Seq<char>, Seq<char>)>, SessionError> {
    if !all_text(scanned.entries@) {
        Err(SessionError::Encoding)
    } else if scanned.failure is Some {
        Err(SessionError::Engine(scanned.failure.unwrap()))
    } else {
        Ok(decoded(scanned.entries@))
    }
}

/// Settles a walk over a whole family: every entry read, as a pair of
/// texts, in key order. A key or value that is not valid UTF-8 is an
/// encoding failure; a walk that the engine ended on a failure is an engine
/// failure, with the engine's message.
pub fn entries(scanned: Scanned) -> (result: Result<Vec<(String, String)>, SessionError>)
    ensures
        match walked(scanned) {
            Ok(list) => result is Ok && pairs(result.unwrap()@) == list,
            Err(e) => result == Err::<Vec<(String, String)>, SessionError>(e),
        },
{
    let found = scanned.entries;
    assert(found@.subrange(0, found@.len() as int) =~= found@);
    let list = decode_range(&found, 0, found.len())?;
    match scanned.failure {
        Some(message) => Err(SessionError::Engine(message)),
        None => Ok(list),
    }
}

/// Settles a walk over a whole family for its keys alone: the key of every
/// entry read, in key order. The values are read as text all the same, so
/// one that is not valid UTF-8 is an encoding failure too.
pub fn keys(scanned: Scanned) -> (result: Result<Vec<String>, SessionError>)
    ensures
        match walked(scanned) {
            Ok(list) => result is Ok && texts(result.unwrap()@) == firsts(list),
            Err(e) => result == Err::<Vec<String>, SessionError>(e),
        },
{
    let list = entries(scanned)?;
    let mut keys: Vec<String> = Vec::new();
    let mut i: usize = 0;
    while i < list.len()
        invariant
            i <= list.len(),
            texts(keys@) == firsts(pairs(list@)).take(i as int),
        decreases list.len() - i,
    {
        let ghost before = texts(keys@);
        let key = list[i].0.clone();
        keys.push(key);
        proof {
            assert(texts(keys@) =~= before.push(key@));
            assert(firsts(pairs(list@)).take(i + 1) =~= firsts(pairs(list@)).take(i as int).push(
                list[i as int].0@,
            ));
        }
        i += 1;
    }
    proof {
        assert(firsts(pairs(list@)).take(list.len() as int) =~= firsts(pairs(list@)));
    }
    Ok(keys)
}

} // verus!
