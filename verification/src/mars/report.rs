//! One sol's record of the feed, as the fields that the parser reads of it.

use vstd::prelude::*;

use crate::mars::text::same_text;

verus! {

/// A field of a sol's record: its text when the feed gave a JSON string, or
/// the mark that it gave some other JSON value (a number, `null`, ...).
#[derive(Clone, Debug, PartialEq)]
pub enum Field {
    Text(String),
    Other,
}

impl Field {
    /// The text of a field, when it is a string.
    pub open spec fn text(self) -> Option<Seq<char>> {
        match self {
            Field::Text(s) => Some(s@),
            Field::Other => None,
        }
    }

    /// The text of a field, when it is a string.
    pub fn as_text(&self) -> (r: Option<&str>)
        ensures
            r matches Some(t) ==> self.text() == Some(t@),
            r is None ==> self.text() is None,
    {
        match self {
            Field::Text(s) => Some(s.as_str()),
            Field::Other => None,
        }
    }
}

/// The fields of one sol's record, each named once.
pub struct Report {
    entries: Vec<(String, Field)>,
}

impl Report {
    /// No two entries carry the same name.
    #[verifier::type_invariant]
    closed spec fn distinct_names(self) -> bool {
        forall|i: int, j: int|
            0 <= i < j < self.entries@.len() ==> #[trigger] self.entries@[i].0@
                != #[trigger] self.entries@[j].0@
    }

    /// Whether some entry carries the name `k`.
    closed spec fn names(self, k: Seq<char>) -> bool {
        exists|i: int| 0 <= i < self.entries@.len() && #[trigger] self.entries@[i].0@ == k
    }

    /// The record as a map from each field's name to its text, `None` for a
    /// field that is not a string.
    pub closed spec fn view(self) -> Map<Seq<char>, Option<Seq<char>>> {
        Map::new(
            |k: Seq<char>| self.names(k),
            |k: Seq<char>|
                self.entries@[choose|i: int|
                    0 <= i < self.entries@.len() && #[trigger] self.entries@[i].0@ == k].1.text(),
        )
    }

    proof fn lemma_entry_in_view(self, i: int)
        requires
            self.distinct_names(),
            0 <= i < self.entries@.len(),
        ensures
            self.view().contains_key(self.entries@[i].0@),
            self.view()[self.entries@[i].0@] == self.entries@[i].1.text(),
    {
        let k = self.entries@[i].0@;
        assert(self.names(k));
        let j = choose|j: int| 0 <= j < self.entries@.len() && #[trigger] self.entries@[j].0@ == k;
        if j < i {
            assert(self.entries@[j].0@ != self.entries@[i].0@);
        } else if i < j {
            assert(self.entries@[i].0@ != self.entries@[j].0@);
        }
    }

    /// Finds the entry named `key`.
    fn position(&self, key: &str) -> (r: Option<usize>)
        ensures
            r matches Some(i) ==> i < self.entries@.len() && self.entries@[i as int].0@ == key@,
            r is None ==> !self.names(key@),
    {
        let mut i: usize = 0;
        while i < self.entries.len()
            invariant
                i <= self.entries@.len(),
                forall|j: int| 0 <= j < i ==> #[trigger] self.entries@[j].0@ != key@,
            decreases self.entries@.len() - i,
        {
            if same_text(self.entries[i].0.as_str(), key) {
                return Some(i);
            }
            i = i + 1;
        }
        None
    }

    /// An empty record.
    pub fn new() -> (r: Report)
        ensures
            r.view() == Map::<Seq<char>, Option<Seq<char>>>::empty(),
    {
        let r = Report { entries: Vec::new() };
        assert(r.view() =~= Map::<Seq<char>, Option<Seq<char>>>::empty());
        r
    }

    /// Sets the field named `key`, replacing a field of that name.
    pub fn insert(&mut self, key: &str, field: Field)
        ensures
            final(self).view() == old(self).view().insert(key@, field.text()),
    {
        proof {
            use_type_invariant(&*self);
        }
        let ghost before = *self;
        let ghost t = field.text();
        let found: Option<usize> = self.position(key);
        let mut entries: Vec<(String, Field)> = Vec::new();
        std::mem::swap(&mut entries, &mut self.entries);
        let name: String = key.to_owned();
        let ghost w: int = match found {
            Some(i) => i as int,
            None => before.entries@.len() as int,
        };
        match found {
            Some(i) => {
                entries.set(i, (name, field));
                proof {
                    assert forall|a: int, b: int|
                        0 <= a < b < entries@.len() implies #[trigger] entries@[a].0@
                        != #[trigger] entries@[b].0@ by {
                        assert(before.entries@[a].0@ != before.entries@[b].0@);
                    }
                }
            },
            None => {
                entries.push((name, field));
                proof {
                    assert forall|a: int, b: int|
                        0 <= a < b < entries@.len() implies #[trigger] entries@[a].0@
                        != #[trigger] entries@[b].0@ by {
                        if b < before.entries@.len() {
                            assert(before.entries@[a].0@ != before.entries@[b].0@);
                        } else {
                            assert(!before.names(key@));
                            assert(before.entries@[a].0@ != key@);
                        }
                    }
                }
            },
        }
        self.entries = entries;
        proof {
            use_type_invariant(&*self);
            let goal = before.view().insert(key@, t);
            assert forall|k: Seq<char>| #[trigger] goal.contains_key(k) implies self.view().contains_key(k)
                && self.view()[k] == goal[k] by {
                if k == key@ {
                    assert(self.entries@[w].0@ == key@);
                    self.lemma_entry_in_view(w);
                } else {
                    let i = choose|i: int| 0 <= i < before.entries@.len() && #[trigger] before.entries@[i].0@ == k;
                    before.lemma_entry_in_view(i);
                    assert(i != w);
                    assert(self.entries@[i] == before.entries@[i]);
                    self.lemma_entry_in_view(i);
                }
            }
            assert forall|k: Seq<char>| #[trigger] self.view().contains_key(k) implies goal.contains_key(k) by {
                let i = choose|i: int| 0 <= i < self.entries@.len() && #[trigger] self.entries@[i].0@ == k;
                if k != key@ {
                    assert(i != w);
                    assert(self.entries@[i] == before.entries@[i]);
                    assert(before.names(k));
                }
            }
            assert(self.view() =~= goal);
        }
    }

    /// The field named `key`, if the record has one.
    pub fn get(&self, key: &str) -> (r: Option<&Field>)
        ensures
            r is Some <==> self.view().contains_key(key@),
            r matches Some(f) ==> self.view()[key@] == f.text(),
    {
        proof {
            use_type_invariant(self);
        }
        match self.position(key) {
            Some(i) => {
                proof {
                    self.lemma_entry_in_view(i as int);
                }
                Some(&self.entries[i].1)
            },
            None => None,
        }
    }

    /// The text of the field named `key`, if the record has one and it is a string.
    pub fn text(&self, key: &str) -> (r: Option<&str>)
        ensures
            r matches Some(t) ==> self.view().contains_key(key@) && self.view()[key@] == Some(t@),
            r is None ==> !self.view().contains_key(key@) || self.view()[key@] is None,
    {
        match self.get(key) {
            Some(f) => f.as_text(),
            None => None,
        }
    }
}

} // verus!
