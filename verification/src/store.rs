//! The position store: a keyed record of where each identity stands. It
//! outlives any connection, so a client that comes back resumes where it
//! left.

use vstd::prelude::*;
use crate::grid::START_COORDINATE;
use crate::text::{owned, same_text};

verus! {

/// The position that `positions` holds for `username`, or the start of the
/// grid where it holds none: that an identity was never stored is no error.
pub open spec fn position_of(positions: Map<Seq<char>, (int, int)>, username: Seq<char>) -> (int, int) {
    if positions.dom().contains(username) {
        positions[username]
    } else {
        (START_COORDINATE as int, START_COORDINATE as int)
    }
}

/// One record of the store.
struct StoredPosition {
    username: String,
    x: i32,
    y: i32,
}

/// A position store that lives in memory. Its view is the map from each
/// stored identity to its position.
pub struct PositionStore {
    entries: Vec<StoredPosition>,
    model: Ghost<Map<Seq<char>, (int, int)>>,
}

impl View for PositionStore {
    type V = Map<Seq<char>, (int, int)>;

    closed spec fn view(&self) -> Map<Seq<char>, (int, int)> {
        self.model@
    }
}

/// Every record stands in the model with its position, every key of the
/// model has a record, and no identity has two records.
spec fn records_match(entries: Seq<StoredPosition>, model: Map<Seq<char>, (int, int)>) -> bool {
    &&& forall|i: int|
        0 <= i < entries.len() ==> {
            &&& model.dom().contains(#[trigger] entries[i].username@)
            &&& model[entries[i].username@] == (entries[i].x as int, entries[i].y as int)
        }
    &&& forall|k: Seq<char>|
        model.dom().contains(k) ==> exists|i: int|
            0 <= i < entries.len() && #[trigger] entries[i].username@ == k
    &&& forall|i: int, j: int|
        0 <= i < j < entries.len() ==> #[trigger] entries[i].username@
            != #[trigger] entries[j].username@
}

impl PositionStore {
    #[verifier::type_invariant]
    spec fn well_formed(&self) -> bool {
        records_match(self.entries@, self.model@)
    }

    /// A store that holds no position.
    pub fn new() -> (r: PositionStore)
        ensures
            r@ == Map::<Seq<char>, (int, int)>::empty(),
    {
        PositionStore { entries: Vec::new(), model: Ghost(Map::empty()) }
    }

    /// The index of the record of `username`, if there is one.
    fn find(&self, username: &str) -> (r: Option<usize>)
        ensures
            match r {
                Some(i) => i < self.entries@.len() && self.entries@[i as int].username@ == username@,
                None => forall|j: int|
                    0 <= j < self.entries@.len() ==> #[trigger] self.entries@[j].username@
                        != username@,
            },
    {
        let mut i: usize = 0;
        while i < self.entries.len()
            invariant
                i <= self.entries@.len(),
                forall|j: int| 0 <= j < i ==> #[trigger] self.entries@[j].username@ != username@,
            decreases self.entries@.len() - i,
        {
            if same_text(self.entries[i].username.as_str(), username) {
                return Some(i);
            }
            i += 1;
        }
        None
    }

    /// The stored position of `username`, or `(1, 1)` for an identity that
    /// was never stored.
    pub fn get_position(&self, username: &str) -> (r: (i32, i32))
        ensures
            (r.0 as int, r.1 as int) == position_of(self@, username@),
    {
        proof {
            use_type_invariant(self);
        }
        match self.find(username) {
            Some(i) => (self.entries[i].x, self.entries[i].y),
            None => (START_COORDINATE, START_COORDINATE),
        }
    }

    /// Whether a position was ever stored for `username`.
    pub fn contains(&self, username: &str) -> (r: bool)
        ensures
            r == self@.dom().contains(username@),
    {
        proof {
            use_type_invariant(self);
        }
        self.find(username).is_some()
    }

    /// Stores `(x, y)` for `username`, whatever was stored before: the last
    /// writer wins.
    pub fn set_position(&mut self, username: &str, x: i32, y: i32)
        ensures
            final(self)@ == old(self)@.insert(username@, (x as int, y as int)),
    {
        let mut taken = PositionStore::new();
        std::mem::swap(self, &mut taken);
        proof {
            use_type_invariant(&taken);
        }
        let found = taken.find(username);
        let PositionStore { entries, model } = taken;
        let mut entries = entries;
        let ghost before = entries@;
        let ghost after_model = model@.insert(username@, (x as int, y as int));
        let record = StoredPosition { username: owned(username), x, y };
        match found {
            Some(i) => {
                entries.set(i, record);
                assert forall|k: Seq<char>| after_model.dom().contains(k) implies exists|j: int|
                    0 <= j < entries@.len() && #[trigger] entries@[j].username@ == k by {
                    if k == username@ {
                        assert(entries@[i as int].username@ == k);
                    } else {
                        let j = choose|j: int|
                            0 <= j < before.len() && #[trigger] before[j].username@ == k;
                        assert(entries@[j].username@ == k);
                    }
                }
                assert forall|a: int, b: int| 0 <= a < b < entries@.len() implies #[trigger] entries@[a].username@
                    != #[trigger] entries@[b].username@ by {
                    assert(before[a].username@ != before[b].username@);
                }
            },
            None => {
                entries.push(record);
                assert forall|k: Seq<char>| after_model.dom().contains(k) implies exists|j: int|
                    0 <= j < entries@.len() && #[trigger] entries@[j].username@ == k by {
                    if k == username@ {
                        assert(entries@[before.len() as int].username@ == k);
                    } else {
                        let j = choose|j: int|
                            0 <= j < before.len() && #[trigger] before[j].username@ == k;
                        assert(entries@[j].username@ == k);
                    }
                }
                assert forall|a: int, b: int| 0 <= a < b < entries@.len() implies #[trigger] entries@[a].username@
                    != #[trigger] entries@[b].username@ by {
                    if b < before.len() {
                        assert(before[a].username@ != before[b].username@);
                    } else {
                        assert(before[a].username@ != username@);
                    }
                }
            },
        }
        assert forall|j: int| 0 <= j < entries@.len() implies {
            &&& after_model.dom().contains(#[trigger] entries@[j].username@)
            &&& after_model[entries@[j].username@] == (entries@[j].x as int, entries@[j].y as int)
        } by {
            if entries@[j].username@ != username@ {
                assert(before[j].username@ == entries@[j].username@);
                assert(model@.dom().contains(before[j].username@));
            } else if j < before.len() {
                assert(before[j].username@ != username@ || found == Some(j as usize));
            }
        }
        assert(records_match(entries@, after_model));
        *self = PositionStore {
            entries,
            model: Ghost(after_model),
        };
    }

    /// Every stored position with its identity, each identity once.
    pub fn snapshot(&self) -> (r: Vec<(String, i32, i32)>)
        ensures
            self@.dom().finite(),
            r@.len() == self@.dom().len(),
            forall|i: int|
                0 <= i < r@.len() ==> {
                    &&& self@.dom().contains(#[trigger] r@[i].0@)
                    &&& self@[r@[i].0@] == (r@[i].1 as int, r@[i].2 as int)
                },
            forall|k: Seq<char>|
                self@.dom().contains(k) ==> exists|i: int| 0 <= i < r@.len() && #[trigger] r@[i].0@ == k,
            forall|i: int, j: int|
                0 <= i < j < r@.len() ==> #[trigger] r@[i].0@ != #[trigger] r@[j].0@,
    {
        proof {
            use_type_invariant(self);
            self.lemma_domain_size();
        }
        let mut out: Vec<(String, i32, i32)> = Vec::new();
        let mut i: usize = 0;
        while i < self.entries.len()
            invariant
                i <= self.entries@.len(),
                out@.len() == i,
                forall|j: int|
                    0 <= j < i ==> {
                        &&& (#[trigger] out@[j]).0@ == self.entries@[j].username@
                        &&& out@[j].1 == self.entries@[j].x
                        &&& out@[j].2 == self.entries@[j].y
                    },
            decreases self.entries@.len() - i,
        {
            let record = &self.entries[i];
            out.push((owned(record.username.as_str()), record.x, record.y));
            i += 1;
        }
        assert forall|j: int| 0 <= j < out@.len() implies {
            &&& self@.dom().contains(#[trigger] out@[j].0@)
            &&& self@[out@[j].0@] == (out@[j].1 as int, out@[j].2 as int)
        } by {
            assert(self.model@.dom().contains(self.entries@[j].username@));
        }
        assert forall|k: Seq<char>| self@.dom().contains(k) implies exists|j: int|
            0 <= j < out@.len() && #[trigger] out@[j].0@ == k by {
            let j = choose|j: int|
                0 <= j < self.entries@.len() && #[trigger] self.entries@[j].username@ == k;
            assert(out@[j].0@ == k);
        }
        assert forall|a: int, b: int| 0 <= a < b < out@.len() implies #[trigger] out@[a].0@
            != #[trigger] out@[b].0@ by {
            assert(self.entries@[a].username@ != self.entries@[b].username@);
        }
        out
    }

    /// The number of identities that have a stored position.
    pub fn len(&self) -> (r: usize)
        ensures
            r as nat == self@.dom().len(),
            self@.dom().finite(),
    {
        proof {
            use_type_invariant(self);
            self.lemma_domain_size();
        }
        self.entries.len()
    }

    /// The keys of the model are as many as the records.
    proof fn lemma_domain_size(&self)
        requires
            self.well_formed(),
        ensures
            self.model@.dom().finite(),
            self.model@.dom().len() == self.entries@.len(),
    {
        let names = self.entries@.map_values(|e: StoredPosition| e.username@);
        assert(names.no_duplicates());
        assert(names.to_set() =~= self.model@.dom()) by {
            assert forall|k: Seq<char>| self.model@.dom().contains(k) implies names.to_set().contains(k) by {
                let i = choose|i: int|
                    0 <= i < self.entries@.len() && #[trigger] self.entries@[i].username@ == k;
                assert(names[i] == k);
            }
            assert forall|k: Seq<char>| names.to_set().contains(k) implies self.model@.dom().contains(k) by {
                let i = choose|i: int| 0 <= i < names.len() && names[i] == k;
                assert(self.entries@[i].username@ == k);
            }
        }
        names.unique_seq_to_set();
    }
}

/// An identity that was never stored stands at `(1, 1)`.
pub proof fn lemma_fresh_identity_starts_at_one_one(
    positions: Map<Seq<char>, (int, int)>,
    username: Seq<char>,
)
    requires
        !positions.dom().contains(username),
    ensures
        position_of(positions, username) == (1int, 1int),
{
}

/// What was stored last for an identity is what is read for it, and storing
/// for one identity changes nothing for another.
pub proof fn lemma_last_writer_wins(
    positions: Map<Seq<char>, (int, int)>,
    username: Seq<char>,
    first: (int, int),
    second: (int, int),
    other: Seq<char>,
)
    requires
        other != username,
    ensures
        position_of(positions.insert(username, first).insert(username, second), username) == second,
        position_of(positions.insert(username, first), other) == position_of(positions, other),
{
}

} // verus!
