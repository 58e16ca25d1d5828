//! The column-family registry of a session: the names the open engine handle
//! knows, in the order they became known, each once.

use vstd::prelude::*;
use crate::error::SessionError;

verus! {

/// The names of the column families of one open handle.
pub struct Families {
    names: Vec<String>,
}

impl View for Families {
    type V = Seq<Seq<char>>;

    closed spec fn view(&self) -> Seq<Seq<char>> {
        self.names@.map_values(|name: String| name@)
    }
}

/// A list of names with every repetition after the first left out.
pub open spec fn distinct(names: Seq<Seq<char>>) -> Seq<Seq<char>>
    decreases names.len(),
{
    if names.len() == 0 {
        Seq::empty()
    } else {
        with_name(distinct(names.drop_last()), names.last())
    }
}

/// A registry after a name is made known: unchanged where it holds the name
/// already, with the name at the end otherwise.
pub open spec fn with_name(names: Seq<Seq<char>>, name: Seq<char>) -> Seq<Seq<char>> {
    if names.contains(name) {
        names
    } else {
        names.push(name)
    }
}

/// The registry of a handle opened on the listed families. The default
/// family is always opened, listed or not; where the listing is missing, it
/// is the only one.
pub open spec fn opened_with(listed: Option<Seq<Seq<char>>>) -> Seq<Seq<char>> {
    match listed {
        Some(names) => with_name(distinct(names), "default"@),
        None => seq!["default"@],
    }
}

/// The registry of a handle that was opened naming the given families. A
/// handle opened without naming any serves the default family only, and by
/// no name: its registry is empty.
pub open spec fn registry_of(named: Seq<Seq<char>>) -> Seq<Seq<char>> {
    if named.len() == 0 {
        Seq::empty()
    } else {
        opened_with(Some(named))
    }
}

/// The texts of a list of strings.
pub open spec fn texts(names: Seq<String>) -> Seq<Seq<char>> {
    names.map_values(|name: String| name@)
}

/// The texts of a list of strings that may be missing.
pub open spec fn opt_texts(names: Option<Vec<String>>) -> Option<Seq<Seq<char>>> {
    match names {
        Some(list) => Some(texts(list@)),
        None => None,
    }
}

impl Families {
    #[verifier::type_invariant]
    spec fn each_name_once(self) -> bool {
        self@.no_duplicates()
    }

    /// Whether the registry holds the name.
    pub open spec fn has(&self, name: Seq<char>) -> bool {
        self@.contains(name)
    }

    /// Whether an optional family selector names a family the operation can
    /// target: no selector means the default family, which needs no lookup.
    pub open spec fn resolves(&self, cf_name: Option<String>) -> bool {
        match cf_name {
            Some(name) => self.has(name@),
            None => true,
        }
    }

    /// A registry with no names, as a handle has that was opened without
    /// naming any family.
    pub fn new() -> (families: Families)
        ensures
            families@ == Seq::<Seq<char>>::empty(),
    {
        let families = Families { names: Vec::new() };
        assert(families@ =~= Seq::<Seq<char>>::empty());
        families
    }

    /// The registry of a handle opened on the listed families.
    pub fn opened(listed: &Option<Vec<String>>) -> (families: Families)
        ensures
            families@ == opened_with(opt_texts(*listed)),
    {
        let mut families = Families::new();
        match listed {
            Some(names) => {
                let mut i: usize = 0;
                while i < names.len()
                    invariant
                        i <= names.len(),
                        families@ == distinct(texts(names@).take(i as int)),
                    decreases names.len() - i,
                {
                    proof {
                        let all = texts(names@);
                        assert(all.take(i + 1).drop_last() =~= all.take(i as int));
                        assert(all.take(i + 1).last() == names[i as int]@);
                    }
                    families.add(names[i].clone());
                    i += 1;
                }
                proof {
                    assert(texts(names@).take(names.len() as int) =~= texts(names@));
                }
                families.add("default".to_owned());
            },
            None => {
                families.add("default".to_owned());
                assert(families@ =~= seq!["default"@]);
            },
        }
        families
    }

    /// The registry of a handle that was opened naming the given families.
    pub fn of_handle(named: &Vec<String>) -> (families: Families)
        ensures
            families@ == registry_of(texts(named@)),
    {
        if named.len() == 0 {
            Families::new()
        } else {
            let listed = Some(copy_names(named));
            Families::opened(&listed)
        }
    }

    /// Whether the registry holds the name.
    pub fn contains(&self, name: &String) -> (found: bool)
        ensures
            found == self.has(name@),
    {
        self.position_of(name).is_some()
    }

    /// Where in the registry the name stands, if it does.
    fn position_of(&self, name: &String) -> (at: Option<usize>)
        ensures
            at is Some <==> self.has(name@),
            at is Some ==> at.unwrap() < self@.len() && self@[at.unwrap() as int] == name@,
            at is Some ==> forall|j: int| 0 <= j < at.unwrap() ==> self@[j] != name@,
            self@.len() == self.names@.len(),
    {
        let mut i: usize = 0;
        while i < self.names.len()
            invariant
                i <= self.names.len(),
                self@.len() == self.names@.len(),
                forall|j: int| 0 <= j < i ==> self@[j] != name@,
            decreases self.names.len() - i,
        {
            if self.names[i] == *name {
                assert(self@[i as int] == name@);
                return Some(i);
            }
            i += 1;
        }
        None
    }

    /// Moves the names out, leaving the registry empty.
    fn take_names(&mut self) -> (names: Vec<String>)
        ensures
            texts(names@) == old(self)@,
            final(self)@ == Seq::<Seq<char>>::empty(),
    {
        let mut taken = Families::new();
        core::mem::swap(self, &mut taken);
        taken.names
    }

    /// Checks an optional family selector against the registry. A name that
    /// the registry does not hold is a failure; it never falls back to the
    /// default family.
    pub fn resolve(&self, cf_name: &Option<String>) -> (result: Result<(), SessionError>)
        ensures
            self.resolves(*cf_name) ==> result is Ok,
            !self.resolves(*cf_name) ==> result == Err::<(), SessionError>(
                SessionError::FamilyNotFound,
            ),
    {
        match cf_name {
            Some(name) => {
                if self.contains(name) {
                    Ok(())
                } else {
                    Err(SessionError::FamilyNotFound)
                }
            },
            None => Ok(()),
        }
    }

    /// Makes a name known. A name that is known already changes nothing.
    pub fn add(&mut self, name: String)
        ensures
            final(self)@ == with_name(old(self)@, name@),
    {
        proof {
            use_type_invariant(&*self);
        }
        if !self.contains(&name) {
            let ghost before = self@;
            let mut names = self.take_names();
            names.push(name);
            assert(texts(names@) =~= before.push(name@));
            *self = Families { names };
        }
    }

    /// Forgets a name. A name that is not known changes nothing.
    pub fn remove(&mut self, name: &String)
        ensures
            final(self)@ == old(self)@.remove_value(name@),
            !final(self).has(name@),
            forall|other: Seq<char>|
                other != name@ ==> (final(self).has(other) <==> old(self).has(other)),
    {
        proof {
            use_type_invariant(&*self);
            self@.index_of_first_ensures(name@);
        }
        let ghost before = self@;
        match self.position_of(name) {
            Some(i) => {
                let mut names = self.take_names();
                let _gone = names.remove(i);
                assert(texts(names@) =~= before.remove(i as int));
                assert(before.index_of_first(name@) == Some(i as int));
                proof {
                    lemma_remove_each_once(before, i as int);
                }
                *self = Families { names };
            },
            None => {},
        }
    }

    /// The names, in registry order, each once.
    pub fn names(&self) -> (list: Vec<String>)
        ensures
            texts(list@) == self@,
            self@.no_duplicates(),
    {
        proof {
            use_type_invariant(self);
        }
        let mut list: Vec<String> = Vec::new();
        let mut i: usize = 0;
        while i < self.names.len()
            invariant
                i <= self.names.len(),
                texts(list@) == self@.take(i as int),
            decreases self.names.len() - i,
        {
            let ghost before = texts(list@);
            let name = self.names[i].clone();
            assert(name@ == self@[i as int]);
            list.push(name);
            assert(texts(list@) =~= before.push(name@));
            assert(self@.take(i + 1) =~= self@.take(i as int).push(self@[i as int]));
            i += 1;
        }
        assert(self@.take(self.names.len() as int) =~= self@);
        list
    }
}

/// A copy of a list of names.
pub fn copy_names(names: &Vec<String>) -> (copy: Vec<String>)
    ensures
        texts(copy@) == texts(names@),
{
    let mut copy: Vec<String> = Vec::new();
    let mut i: usize = 0;
    while i < names.len()
        invariant
            i <= names.len(),
            texts(copy@) == texts(names@).take(i as int),
        decreases names.len() - i,
    {
        let ghost before = texts(copy@);
        let name = names[i].clone();
        copy.push(name);
        assert(texts(copy@) =~= before.push(name@));
        assert(texts(names@).take(i + 1) =~= texts(names@).take(i as int).push(names[i as int]@));
        i += 1;
    }
    assert(texts(names@).take(names.len() as int) =~= texts(names@));
    copy
}

/// Leaving out repetitions keeps the names and nothing else: the result
/// holds each name of the list, once.
pub proof fn lemma_distinct_names(names: Seq<Seq<char>>)
    ensures
        distinct(names).no_duplicates(),
        forall|name: Seq<char>| distinct(names).contains(name) <==> names.contains(name),
    decreases names.len(),
{
    if names.len() > 0 {
        let front = names.drop_last();
        let last = names.last();
        lemma_distinct_names(front);
        lemma_registry_laws(distinct(front), last);
        let kept = distinct(front);
        let all = distinct(names);
        assert forall|name: Seq<char>| all.contains(name) <==> names.contains(name) by {
            if all.contains(name) {
                if kept.contains(name) {
                    assert(front.contains(name));
                    let k = choose|k: int| 0 <= k < front.len() && front[k] == name;
                    assert(names[k] == name);
                } else {
                    let k = choose|k: int| 0 <= k < all.len() && all[k] == name;
                    if k < kept.len() {
                        assert(kept[k] == name);
                    }
                    assert(name == last);
                    assert(names[names.len() - 1] == name);
                }
            }
            if names.contains(name) {
                let k = choose|k: int| 0 <= k < names.len() && names[k] == name;
                if k < front.len() {
                    assert(front[k] == name);
                    assert(front.contains(name));
                    assert(kept.contains(name));
                    let j = choose|j: int| 0 <= j < kept.len() && kept[j] == name;
                    assert(all[j] == name);
                } else {
                    assert(name == last);
                }
            }
        }
    }
}

/// The laws of the registry, for a list that holds each name once: a name
/// made known is listed, and the list still holds each name once; making a
/// known name known again changes nothing; a name forgotten is not listed,
/// and every other name is listed as before.
pub proof fn lemma_registry_laws(names: Seq<Seq<char>>, name: Seq<char>)
    requires
        names.no_duplicates(),
    ensures
        with_name(names, name).contains(name),
        with_name(names, name).no_duplicates(),
        names.contains(name) ==> with_name(names, name) == names,
        !names.remove_value(name).contains(name),
        names.remove_value(name).no_duplicates(),
        forall|other: Seq<char>|
            other != name ==> (names.remove_value(name).contains(other) <==> names.contains(other)),
        !with_name(names, name).remove_value(name).contains(name),
{
    let grown = with_name(names, name);
    if !names.contains(name) {
        assert(grown[names.len() as int] == name);
        assert forall|a: int, b: int| 0 <= a < grown.len() && 0 <= b < grown.len() && a != b implies grown[a]
            != grown[b] by {
            if a < names.len() {
                assert(names.contains(grown[a]));
            }
            if b < names.len() {
                assert(names.contains(grown[b]));
            }
        }
    }
    names.index_of_first_ensures(name);
    if let Some(i) = names.index_of_first(name) {
        lemma_remove_each_once(names, i);
    }
    grown.index_of_first_ensures(name);
    if let Some(i) = grown.index_of_first(name) {
        lemma_remove_each_once(grown, i);
    }
}

/// Taking one entry out of a list that holds each name once leaves a list
/// that holds each name once, lacks the name taken out, and holds every
/// other name as before.
pub proof fn lemma_remove_each_once(names: Seq<Seq<char>>, i: int)
    requires
        names.no_duplicates(),
        0 <= i < names.len(),
    ensures
        names.remove(i).no_duplicates(),
        !names.remove(i).contains(names[i]),
        forall|other: Seq<char>|
            other != names[i] ==> (names.remove(i).contains(other) <==> names.contains(other)),
{
    let rest = names.remove(i);
    assert forall|a: int, b: int| 0 <= a < rest.len() && 0 <= b < rest.len() && a != b implies rest[a]
        != rest[b] by {
        let a0 = if a < i { a } else { a + 1 };
        let b0 = if b < i { b } else { b + 1 };
        assert(rest[a] == names[a0]);
        assert(rest[b] == names[b0]);
    }
    if rest.contains(names[i]) {
        let k = choose|k: int| 0 <= k < rest.len() && rest[k] == names[i];
        let k0 = if k < i { k } else { k + 1 };
        assert(rest[k] == names[k0]);
        assert(false);
    }
    assert forall|other: Seq<char>| other != names[i] implies (rest.contains(other)
        <==> names.contains(other)) by {
        if rest.contains(other) {
            let k = choose|k: int| 0 <= k < rest.len() && rest[k] == other;
            let k0 = if k < i { k } else { k + 1 };
            assert(names[k0] == other);
        }
        if names.contains(other) {
            let k = choose|k: int| 0 <= k < names.len() && names[k] == other;
            let k1 = if k < i { k } else { k - 1 };
            assert(rest[k1] == other);
        }
    }
}

} // verus!
