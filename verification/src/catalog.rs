//! The reference catalog: bibliographic records by identifier.
//!
//! The engine reads identifiers only, so a record may be of any type. The
//! catalog keeps its entries in the order in which their identifiers first
//! arrived, and no identifier occurs twice.

use vstd::prelude::*;

verus! {

/// One catalog entry: a record under its identifier.
pub struct Entry<R> {
    pub id: String,
    pub record: R,
}

/// A catalog of records, each under an identifier of its own.
pub struct Catalog<R> {
    entries: Vec<Entry<R>>,
}

/// The identifiers of a sequence of entries, in order.
pub open spec fn entry_ids<R>(entries: Seq<Entry<R>>) -> Seq<Seq<char>> {
    Seq::new(entries.len(), |i: int| entries[i].id@)
}

/// The records of a sequence of entries, in order.
pub open spec fn entry_records<R>(entries: Seq<Entry<R>>) -> Seq<R> {
    Seq::new(entries.len(), |i: int| entries[i].record)
}

/// Whether `positions` lists, in rising order and without a gap, exactly the
/// positions of `ids` whose identifier occurs in `wanted`.
pub open spec fn selects(positions: Seq<usize>, ids: Seq<Seq<char>>, wanted: Seq<Seq<char>>) -> bool {
    &&& forall|k: int| 0 <= k < positions.len() ==> {
        &&& (#[trigger] positions[k] as int) < ids.len()
        &&& wanted.contains(ids[positions[k] as int])
    }
    &&& forall|k: int, l: int| 0 <= k < l < positions.len() ==> positions[k] < positions[l]
    &&& forall|p: int| 0 <= p < ids.len() && wanted.contains(#[trigger] ids[p]) ==> exists|k: int|
        0 <= k < positions.len() && #[trigger] positions[k] as int == p
}

impl<R> Catalog<R> {
    /// The identifiers, in catalog order.
    pub closed spec fn ids(&self) -> Seq<Seq<char>> {
        entry_ids(self.entries@)
    }

    /// The records, in catalog order: `records()[i]` stands under `ids()[i]`.
    pub closed spec fn records(&self) -> Seq<R> {
        entry_records(self.entries@)
    }

    #[verifier::type_invariant]
    spec fn distinct_ids(&self) -> bool {
        entry_ids(self.entries@).no_duplicates()
    }

    /// An empty catalog.
    pub fn new() -> (catalog: Self)
        ensures
            catalog.ids() == Seq::<Seq<char>>::empty(),
            catalog.records() == Seq::<R>::empty(),
    {
        let catalog = Catalog { entries: Vec::new() };
        assert(catalog.ids() =~= Seq::<Seq<char>>::empty());
        assert(catalog.records() =~= Seq::<R>::empty());
        catalog
    }

    /// The number of entries. No identifier is counted twice, because none
    /// occurs twice.
    pub fn len(&self) -> (n: usize)
        ensures
            n == self.ids().len(),
            self.records().len() == self.ids().len(),
            self.ids().no_duplicates(),
    {
        proof {
            use_type_invariant(self);
        }
        self.entries.len()
    }

    /// Whether the catalog holds no entry.
    pub fn is_empty(&self) -> (empty: bool)
        ensures
            empty == (self.ids().len() == 0),
    {
        self.entries.len() == 0
    }

    /// Where an identifier stands in the catalog, if it is there.
    pub fn position(&self, id: &str) -> (found: Option<usize>)
        ensures
            match found {
                Some(p) => p < self.ids().len() && self.ids()[p as int] == id@,
                None => !self.ids().contains(id@),
            },
    {
        let key = id.to_owned();
        let mut i: usize = 0;
        while i < self.entries.len()
            invariant
                i <= self.entries@.len(),
                key@ == id@,
                forall|j: int| 0 <= j < i ==> self.entries@[j].id@ != id@,
            decreases self.entries@.len() - i,
        {
            if self.entries[i].id == key {
                return Some(i);
            }
            i += 1;
        }
        None
    }

    /// Whether the catalog holds an entry under this identifier.
    pub fn contains(&self, id: &str) -> (present: bool)
        ensures
            present == self.ids().contains(id@),
    {
        self.position(id).is_some()
    }

    /// The record under an identifier, if the catalog holds one.
    pub fn get(&self, id: &str) -> (record: Option<&R>)
        ensures
            match record {
                Some(r) => self.ids().contains(id@) && *r == self.records()[self.ids().index_of(id@)],
                None => !self.ids().contains(id@),
            },
    {
        proof {
            use_type_invariant(self);
        }
        match self.position(id) {
            Some(p) => {
                assert(self.ids()[p as int] == id@);
                assert(self.ids().index_of(id@) == p as int);
                Some(&self.entries[p].record)
            },
            None => None,
        }
    }

    /// The entry at a position of the catalog, if the position is in it.
    pub fn entry_at(&self, position: usize) -> (entry: Option<&Entry<R>>)
        ensures
            match entry {
                Some(e) => position < self.ids().len() && e.id@ == self.ids()[position as int]
                    && e.record == self.records()[position as int],
                None => position >= self.ids().len(),
            },
    {
        if position < self.entries.len() {
            Some(&self.entries[position])
        } else {
            None
        }
    }

    /// Puts a record under an identifier. An identifier that the catalog
    /// already holds keeps its place and gets the new record, and the record
    /// that it had is handed back; a new identifier goes to the end.
    pub fn insert(&mut self, id: String, record: R) -> (previous: Option<R>)
        ensures
            old(self).ids().contains(id@) ==> {
                let p = old(self).ids().index_of(id@);
                &&& final(self).ids() == old(self).ids()
                &&& final(self).records() == old(self).records().update(p, record)
                &&& previous == Some(old(self).records()[p])
            },
            !old(self).ids().contains(id@) ==> {
                &&& final(self).ids() == old(self).ids().push(id@)
                &&& final(self).records() == old(self).records().push(record)
                &&& previous is None
            },
    {
        proof {
            use_type_invariant(&*self);
        }
        let found = self.position(id.as_str());
        let mut entries: Vec<Entry<R>> = Vec::new();
        std::mem::swap(&mut entries, &mut self.entries);
        let ghost before = entries@;
        match found {
            Some(p) => {
                assert(entry_ids(before).index_of(id@) == p as int);
                entries.push(Entry { id, record });
                let old_entry = entries.swap_remove(p);
                assert(entry_ids(entries@) =~= entry_ids(before));
                assert(entry_records(entries@) =~= entry_records(before).update(p as int, record));
                self.entries = entries;
                Some(old_entry.record)
            },
            None => {
                entries.push(Entry { id, record });
                assert(entry_ids(entries@) =~= entry_ids(before).push(id@));
                assert(entry_records(entries@) =~= entry_records(before).push(record));
                assert(entry_ids(entries@).no_duplicates());
                self.entries = entries;
                None
            },
        }
    }

    /// The positions of the entries whose identifier is wanted, in catalog
    /// order: a view of a part of the catalog that copies no record.
    pub fn select(&self, wanted: &Vec<String>) -> (positions: Vec<usize>)
        ensures
            selects(positions@, self.ids(), wanted.deep_view()),
    {
        let mut positions: Vec<usize> = Vec::new();
        let mut i: usize = 0;
        while i < self.entries.len()
            invariant
                i <= self.entries@.len(),
                selects(positions@, self.ids().take(i as int), wanted.deep_view()),
            decreases self.entries@.len() - i,
        {
            let ghost ids = self.ids();
            let ghost prior = positions@;
            assert(ids.take(i as int + 1) =~= ids.take(i as int).push(ids[i as int]));
            if holds_text(wanted, &self.entries[i].id) {
                positions.push(i);
                assert forall|p: int|
                    0 <= p < ids.take(i as int + 1).len() && wanted.deep_view().contains(
                        #[trigger] ids.take(i as int + 1)[p],
                    ) implies exists|k: int|
                    0 <= k < positions@.len() && #[trigger] positions@[k] as int == p by {
                    if p < i {
                        assert(wanted.deep_view().contains(ids.take(i as int)[p]));
                        let k = choose|k: int| 0 <= k < prior.len() && #[trigger] prior[k] as int == p;
                        assert(positions@[k] as int == p);
                    } else {
                        assert(positions@[prior.len() as int] as int == p);
                    }
                }
            } else {
                assert forall|p: int|
                    0 <= p < ids.take(i as int + 1).len() && wanted.deep_view().contains(
                        #[trigger] ids.take(i as int + 1)[p],
                    ) implies exists|k: int|
                    0 <= k < positions@.len() && #[trigger] positions@[k] as int == p by {
                    assert(p < i);
                    assert(wanted.deep_view().contains(ids.take(i as int)[p]));
                }
            }
            i += 1;
        }
        assert(self.ids().take(i as int) =~= self.ids());
        positions
    }
}

/// Whether a list of texts holds a given text.
pub fn holds_text(texts: &Vec<String>, text: &String) -> (present: bool)
    ensures
        present == texts.deep_view().contains(text@),
{
    let mut i: usize = 0;
    while i < texts.len()
        invariant
            i <= texts@.len(),
            forall|j: int| 0 <= j < i ==> texts@[j]@ != text@,
        decreases texts@.len() - i,
    {
        if texts[i] == *text {
            assert(texts.deep_view()[i as int] == text@);
            return true;
        }
        i += 1;
    }
    assert forall|j: int| 0 <= j < texts.deep_view().len() implies texts.deep_view()[j] != text@ by {
        assert(texts.deep_view()[j] == texts@[j]@);
    }
    false
}

} // verus!
