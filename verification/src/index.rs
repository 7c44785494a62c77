//! The entries of perfdata by name, in the order in which they were published.

use vstd::hash_map::StringHashMap;
use vstd::prelude::*;
use vstd::string::*;

use crate::perfdata::EntryMeta;

verus! {

/// The names and entries of an index, the names in the order in which they were published.
#[verifier::ext_equal]
pub struct IndexView {
    pub names: Seq<Seq<char>>,
    pub entries: Map<Seq<char>, EntryMeta>,
}

impl IndexView {
    /// An index without entries.
    pub open spec fn empty() -> IndexView {
        IndexView { names: seq![], entries: Map::empty() }
    }

    /// The entry of a name.
    pub open spec fn get(self, name: Seq<char>) -> Option<EntryMeta> {
        if self.entries.contains_key(name) {
            Some(self.entries[name])
        } else {
            None
        }
    }

    /// The index with one more name at its end.
    pub open spec fn push(self, name: Seq<char>, meta: EntryMeta) -> IndexView {
        IndexView { names: self.names.push(name), entries: self.entries.insert(name, meta) }
    }

    /// No name occurs twice, and the names are those that have an entry.
    pub open spec fn wf(self) -> bool {
        &&& self.names.no_duplicates()
        &&& forall|name: Seq<char>| #[trigger]
            self.entries.contains_key(name) <==> self.names.contains(name)
    }

    /// No two 64-bit counters share their place.
    pub open spec fn longs_apart(self) -> bool {
        forall|first: Seq<char>, second: Seq<char>| #[trigger]
            self.entries.contains_key(first) && #[trigger] self.entries.contains_key(second)
                && self.entries[first].is_long() && self.entries[second].is_long()
                && self.entries[first].data_offset == self.entries[second].data_offset ==> first
                == second
    }

    /// Every counter and every string ends no later than the byte at `end`.
    pub open spec fn values_within(self, end: int) -> bool {
        forall|name: Seq<char>| #[trigger]
            self.entries.contains_key(name) ==> self.entries[name].ends_by(end)
    }

    /// No name is empty or holds a NUL.
    pub open spec fn names_plain(self) -> bool {
        forall|name: Seq<char>| #[trigger]
            self.entries.contains_key(name) ==> name.len() > 0 && !name.contains('\0')
    }

    /// Every value, of whatever type, starts behind the byte at `start` and no later than that at
    /// `end`.
    pub open spec fn values_start_between(self, start: int, end: int) -> bool {
        forall|name: Seq<char>| #[trigger]
            self.entries.contains_key(name) ==> start < self.entries[name].data_offset <= end
    }

    /// A new name keeps an index well-formed.
    pub proof fn lemma_push(self, name: Seq<char>, meta: EntryMeta)
        requires
            self.wf(),
            self.get(name) is None,
        ensures
            self.push(name, meta).wf(),
    {
        let pushed = self.push(name, meta);
        assert forall|other: Seq<char>| #[trigger]
            pushed.entries.contains_key(other) <==> pushed.names.contains(other) by {
            if pushed.names.contains(other) {
                let i = pushed.names.index_of(other);
                if i < self.names.len() {
                    assert(self.names[i] == other);
                    assert(self.names.contains(other));
                }
            }
            if self.names.contains(other) {
                let i = self.names.index_of(other);
                assert(pushed.names[i] == other);
            }
            assert(pushed.names[self.names.len() as int] == name);
        }
        assert(!self.names.contains(name));
        assert forall|i: int, j: int|
            0 <= i < pushed.names.len() && 0 <= j < pushed.names.len() && i
                != j implies pushed.names[i] != pushed.names[j] by {
            if i == self.names.len() {
                assert(self.names.contains(self.names[j]));
            } else if j == self.names.len() {
                assert(self.names.contains(self.names[i]));
            }
        }
    }
}

/// The entries of perfdata by name.
pub struct PerfIndex {
    names: Vec<String>,
    entries: StringHashMap<EntryMeta>,
}

impl View for PerfIndex {
    type V = IndexView;

    closed spec fn view(&self) -> IndexView {
        IndexView {
            names: Seq::new(self.names@.len(), |i: int| self.names@[i]@),
            entries: self.entries@,
        }
    }
}

impl PerfIndex {
    /// Makes an index without entries.
    pub fn new() -> (index: PerfIndex)
        ensures
            index@ == IndexView::empty(),
    {
        let index = PerfIndex { names: Vec::new(), entries: StringHashMap::new() };
        assert(index@ =~= IndexView::empty());
        index
    }

    /// The number of entries.
    pub fn len(&self) -> (len: usize)
        ensures
            len == self@.names.len(),
    {
        self.names.len()
    }

    /// The name that was published after `position` others.
    pub fn name(&self, position: usize) -> (name: &str)
        requires
            position < self@.names.len(),
        ensures
            name@ == self@.names[position as int],
    {
        self.names[position].as_str()
    }

    /// Looks a name up.
    pub fn get(&self, name: &str) -> (meta: Option<EntryMeta>)
        ensures
            meta == self@.get(name@),
    {
        match self.entries.get(name) {
            Some(meta) => Some(*meta),
            None => None,
        }
    }

    /// Adds a name at the end.
    pub fn push(&mut self, name: String, meta: EntryMeta)
        requires
            old(self)@.get(name@) is None,
        ensures
            final(self)@ == old(self)@.push(name@, meta),
            old(self)@.wf() ==> final(self)@.wf(),
    {
        proof {
            if self@.wf() {
                self@.lemma_push(name@, meta);
            }
        }
        let ghost before = self@;
        self.names.push(name.clone());
        self.entries.insert(name, meta);
        assert(self@ =~= before.push(name@, meta));
    }
}

impl IndexView {
    /// The first name from `position` on whose entry is not the same in a later index.
    pub open spec fn lost_from(self, later: IndexView, position: int) -> Option<Seq<char>>
        decreases self.names.len() - position,
    {
        if position >= self.names.len() {
            None
        } else if later.get(self.names[position]) != self.get(self.names[position]) {
            Some(self.names[position])
        } else {
            self.lost_from(later, position + 1)
        }
    }

    /// The first name whose entry a later index lacks or keeps elsewhere.
    pub open spec fn first_lost(self, later: IndexView) -> Option<Seq<char>> {
        self.lost_from(later, 0)
    }

    /// This index with the names of `later` from `position` on that neither it nor `base` has.
    pub open spec fn extended_from(
        self,
        base: IndexView,
        later: IndexView,
        position: int,
    ) -> IndexView
        decreases later.names.len() - position,
    {
        if position >= later.names.len() {
            self
        } else {
            let name = later.names[position];
            if base.get(name) is None && self.get(name) is None {
                self.push(name, later.entries[name]).extended_from(base, later, position + 1)
            } else {
                self.extended_from(base, later, position + 1)
            }
        }
    }

    /// This index with the names of `later` that neither it nor `base` has, in their order.
    pub open spec fn extended(self, base: IndexView, later: IndexView) -> IndexView {
        self.extended_from(base, later, 0)
    }

    /// Where nothing is lost, a later index has every entry of this one.
    pub proof fn lemma_nothing_lost(self, later: IndexView)
        requires
            self.wf(),
            self.first_lost(later) is None,
        ensures
            forall|name: Seq<char>| #[trigger]
                self.entries.contains_key(name) ==> later.get(name) == self.get(name),
    {
        assert forall|name: Seq<char>| #[trigger]
            self.entries.contains_key(name) implies later.get(name) == self.get(name) by {
            assert(self.names.contains(name));
            let i = self.names.index_of(name);
            self.lemma_lost_from(later, 0, i);
        }
    }

    proof fn lemma_lost_from(self, later: IndexView, position: int, i: int)
        requires
            0 <= position <= i < self.names.len(),
            self.lost_from(later, position) is None,
        ensures
            later.get(self.names[i]) == self.get(self.names[i]),
        decreases i - position,
    {
        if position < i {
            self.lemma_lost_from(later, position + 1, i);
        }
    }

    /// Where something is lost, a later index has another entry for the name, or none.
    pub proof fn lemma_lost(self, later: IndexView, position: int)
        requires
            self.wf(),
            0 <= position,
            self.lost_from(later, position) is Some,
        ensures
            self.get(self.lost_from(later, position)->0) is Some,
            later.get(self.lost_from(later, position)->0) != self.get(
                self.lost_from(later, position)->0,
            ),
        decreases self.names.len() - position,
    {
        if later.get(self.names[position]) != self.get(self.names[position]) {
            assert(self.names.contains(self.names[position]));
        } else {
            self.lemma_lost(later, position + 1);
        }
    }

    /// The entries of an extended index: its own, and those of `later` that are new.
    pub proof fn lemma_extended_from(self, base: IndexView, later: IndexView, position: int)
        requires
            self.wf(),
            later.wf(),
            0 <= position <= later.names.len(),
        ensures
            ({
                let extended = self.extended_from(base, later, position);
                &&& extended.wf()
                &&& extended.names.len() >= self.names.len()
                &&& extended.names.take(self.names.len() as int) == self.names
                &&& forall|name: Seq<char>| #[trigger]
                    extended.get(name) == (if self.get(name) is Some {
                        self.get(name)
                    } else if base.get(name) is None && later.names.skip(position).contains(name) {
                        later.get(name)
                    } else {
                        None
                    })
            }),
        decreases later.names.len() - position,
    {
        let extended = self.extended_from(base, later, position);
        if position >= later.names.len() {
            assert(later.names.skip(position) =~= seq![]);
            assert(self.names.take(self.names.len() as int) =~= self.names);
        } else {
            let fresh = later.names[position];
            let rest = later.names.skip(position + 1);
            assert(later.names.contains(fresh));
            assert(later.names.skip(position) =~= seq![fresh] + rest);
            assert forall|name: Seq<char>| #[trigger]
                later.names.skip(position).contains(name) <==> (name == fresh || rest.contains(
                    name,
                )) by {
                if later.names.skip(position).contains(name) {
                    let i = later.names.skip(position).index_of(name);
                    if i > 0 {
                        assert(rest[i - 1] == name);
                    }
                }
                if rest.contains(name) {
                    let i = rest.index_of(name);
                    assert(later.names.skip(position)[i + 1] == name);
                }
                assert(later.names.skip(position)[0] == fresh);
            }
            if base.get(fresh) is None && self.get(fresh) is None {
                self.lemma_push(fresh, later.entries[fresh]);
                let pushed = self.push(fresh, later.entries[fresh]);
                pushed.lemma_extended_from(base, later, position + 1);
                assert(extended.names.take(self.names.len() as int) =~= pushed.names.take(
                    self.names.len() as int,
                )) by {
                    assert(extended.names.take(pushed.names.len() as int) == pushed.names);
                    assert forall|i: int| 0 <= i < self.names.len() implies extended.names[i]
                        == pushed.names[i] by {
                        assert(extended.names.take(pushed.names.len() as int)[i]
                            == pushed.names[i]);
                    }
                }
                assert(pushed.names.take(self.names.len() as int) =~= self.names);
                assert forall|name: Seq<char>| #[trigger]
                    extended.get(name) == (if self.get(name) is Some {
                        self.get(name)
                    } else if base.get(name) is None && later.names.skip(position).contains(name) {
                        later.get(name)
                    } else {
                        None
                    }) by {
                    assert(later.names.skip(position).contains(name) <==> (name == fresh
                        || rest.contains(name)));
                    if name == fresh {
                        assert(later.entries.contains_key(fresh));
                        assert(pushed.get(name) == Some(later.entries[fresh]));
                    } else {
                        assert(pushed.get(name) == self.get(name));
                    }
                }
            } else {
                self.lemma_extended_from(base, later, position + 1);
            }
        }
    }

    /// The entries of an extended index: its own, and those of `later` that are new.
    pub proof fn lemma_extended(self, base: IndexView, later: IndexView)
        requires
            self.wf(),
            later.wf(),
        ensures
            ({
                let extended = self.extended(base, later);
                &&& extended.wf()
                &&& extended.names.len() >= self.names.len()
                &&& extended.names.take(self.names.len() as int) == self.names
                &&& forall|name: Seq<char>| #[trigger]
                    extended.get(name) == (if self.get(name) is Some {
                        self.get(name)
                    } else if base.get(name) is None {
                        later.get(name)
                    } else {
                        None
                    })
            }),
    {
        self.lemma_extended_from(base, later, 0);
        assert(later.names.skip(0) =~= later.names);
        assert forall|name: Seq<char>| later.get(name) is Some <==> later.names.contains(name) by {
            assert(later.entries.contains_key(name) <==> later.names.contains(name));
        }
    }
}

impl PerfIndex {
    /// Finds the first name whose entry a later index lacks or keeps elsewhere.
    pub fn find_lost(&self, later: &PerfIndex) -> (lost: Option<String>)
        ensures
            match lost {
                Some(name) => self@.first_lost(later@) == Some(name@),
                None => self@.first_lost(later@) is None,
            },
    {
        let mut position: usize = 0;
        while position < self.len()
            invariant
                position <= self@.names.len(),
                self@.first_lost(later@) == self@.lost_from(later@, position as int),
            decreases self@.names.len() - position,
        {
            let name: &str = self.name(position);
            let same: bool = match (self.get(name), later.get(name)) {
                (Some(own), Some(other)) => own == other,
                (None, None) => true,
                _ => false,
            };
            if !same {
                return Some(name.to_owned());
            }
            position += 1;
        }
        None
    }

    /// Adds the names of `later` that neither this index nor `base` has, and counts them.
    pub fn extend_from(&mut self, base: &PerfIndex, later: &PerfIndex) -> (added: usize)
        requires
            old(self)@.wf(),
            later@.wf(),
        ensures
            final(self)@ == old(self)@.extended(base@, later@),
            final(self)@.wf(),
            added == final(self)@.names.len() - old(self)@.names.len(),
    {
        let ghost before = self@;
        let mut added: usize = 0;
        let mut position: usize = 0;
        while position < later.len()
            invariant
                position <= later@.names.len(),
                self@.wf(),
                later@.wf(),
                added == self@.names.len() - before.names.len(),
                added <= position,
                before.extended(base@, later@) == self@.extended_from(
                    base@,
                    later@,
                    position as int,
                ),
            decreases later@.names.len() - position,
        {
            let name: &str = later.name(position);
            assert(later@.names.contains(later@.names[position as int]));
            match later.get(name) {
                Some(meta) => if base.get(name).is_none() && self.get(name).is_none() {
                    self.push(name.to_owned(), meta);
                    added += 1;
                },
                None => {},
            }
            position += 1;
        }
        added
    }
}

} // verus!
