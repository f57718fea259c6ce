//! A set of document identifiers that can be listed member by member.

use vstd::prelude::*;

verus! {

/// Each identifier of the sequence is below the ones after it.
pub open spec fn strictly_increasing(ids: Seq<u32>) -> bool {
    forall|i: int, j: int| 0 <= i < j < ids.len() ==> ids[i] < ids[j]
}

/// A set has one enumeration in increasing order and no other: two
/// increasing sequences with the same members are the same sequence.
pub proof fn lemma_increasing_enumeration_is_unique(one: Seq<u32>, other: Seq<u32>)
    requires
        strictly_increasing(one),
        strictly_increasing(other),
        one.to_set() == other.to_set(),
    ensures
        one == other,
    decreases one.len(),
{
    if one.len() == 0 {
        if other.len() > 0 {
            assert(other.to_set().contains(other[0]));
        }
    } else {
        // Both sequences end in the greatest member.
        let top = one.last();
        assert(one.to_set().contains(top));
        assert(other.to_set().contains(other.last()));
        assert(other.last() == top);
        // Before it they hold the same members, so they agree there too.
        assert forall|x: u32|
            one.drop_last().to_set().contains(x) <==> other.drop_last().to_set().contains(
                x,
            ) by {
            if one.drop_last().contains(x) {
                assert(one.to_set().contains(x));
                let j = choose|j: int| 0 <= j < other.len() && other[j] == x;
                assert(other.drop_last()[j] == x);
            }
            if other.drop_last().contains(x) {
                assert(other.to_set().contains(x));
                let j = choose|j: int| 0 <= j < one.len() && one[j] == x;
                assert(one.drop_last()[j] == x);
            }
        }
        assert(one.drop_last().to_set() =~= other.drop_last().to_set());
        lemma_increasing_enumeration_is_unique(one.drop_last(), other.drop_last());
        assert(one =~= one.drop_last().push(top));
        assert(other =~= other.drop_last().push(top));
    }
}

/// A finite set of document identifiers, of any size and with any gaps.
///
/// The members are kept in increasing order, and that is the order in which
/// [`DocumentIdSet::iterate`] lists them.
#[derive(Debug)]
pub struct DocumentIdSet {
    ids: Vec<u32>,
}

impl View for DocumentIdSet {
    type V = Set<u32>;

    open spec fn view(&self) -> Set<u32> {
        self.enumeration().to_set()
    }
}

impl DocumentIdSet {
    #[verifier::type_invariant]
    spec fn in_order(self) -> bool {
        strictly_increasing(self.ids@)
    }

    /// The members, each once, in increasing order.
    pub closed spec fn enumeration(&self) -> Seq<u32> {
        self.ids@
    }

    /// The set without members.
    pub fn new() -> (set: DocumentIdSet)
        ensures
            set.enumeration() == Seq::<u32>::empty(),
            set@ == Set::<u32>::empty(),
    {
        DocumentIdSet { ids: Vec::new() }
    }

    /// Number of members.
    pub fn len(&self) -> (count: usize)
        ensures
            count == self.enumeration().len(),
            count == self@.len(),
    {
        proof {
            use_type_invariant(self);
            self.ids@.unique_seq_to_set();
        }
        self.ids.len()
    }

    /// Whether the set has no member.
    pub fn is_empty(&self) -> (empty: bool)
        ensures
            empty == (self.enumeration().len() == 0),
            empty == (self@ == Set::<u32>::empty()),
    {
        let empty = self.ids.len() == 0;
        proof {
            if empty {
                assert(self@ =~= Set::<u32>::empty());
            } else {
                assert(self@.contains(self.ids@[0]));
            }
        }
        empty
    }

    /// How many members are below `id`, and whether `id` is a member: the
    /// count is the place of `id` in the enumeration, or the place where it
    /// would go.
    fn locate(&self, id: u32) -> (place: (usize, bool))
        ensures
            place.0 <= self.ids@.len(),
            forall|i: int| 0 <= i < place.0 ==> self.ids@[i] < id,
            forall|i: int| place.0 <= i < self.ids@.len() ==> self.ids@[i] >= id,
            place.1 == self@.contains(id),
            place.1 ==> place.0 < self.ids@.len() && self.ids@[place.0 as int] == id,
    {
        proof {
            use_type_invariant(self);
        }
        let mut low: usize = 0;
        let mut high: usize = self.ids.len();
        while low < high
            invariant
                low <= high <= self.ids@.len(),
                strictly_increasing(self.ids@),
                forall|i: int| 0 <= i < low ==> self.ids@[i] < id,
                forall|i: int| high <= i < self.ids@.len() ==> self.ids@[i] >= id,
            decreases high - low,
        {
            let middle: usize = low + (high - low) / 2;
            if self.ids[middle] < id {
                low = middle + 1;
            } else {
                high = middle;
            }
        }
        (low, low < self.ids.len() && self.ids[low] == id)
    }

    /// Whether `id` is a member.
    pub fn contains(&self, id: u32) -> (found: bool)
        ensures
            found == self@.contains(id),
    {
        self.locate(id).1
    }

    /// Makes `id` a member. Returns whether it was new to the set.
    pub fn insert(&mut self, id: u32) -> (added: bool)
        ensures
            added == !old(self)@.contains(id),
            final(self)@ == old(self)@.insert(id),
            strictly_increasing(final(self).enumeration()),
            !added ==> final(self).enumeration() == old(self).enumeration(),
    {
        proof {
            use_type_invariant(&*self);
        }
        let (at, found) = self.locate(id);
        if found {
            false
        } else {
            let ghost before = self.ids@;
            let mut ids: Vec<u32> = Vec::new();
            std::mem::swap(&mut self.ids, &mut ids);
            ids.insert(at, id);
            proof {
                // The new list holds the old members and `id`, and nothing else.
                assert forall|x: u32| ids@.to_set().contains(x) <==> before.to_set().insert(
                    id,
                ).contains(x) by {
                    if before.contains(x) {
                        let i = choose|i: int| 0 <= i < before.len() && before[i] == x;
                        if i < at {
                            assert(ids@[i] == x);
                        } else {
                            assert(ids@[i + 1] == x);
                        }
                    }
                    if x == id {
                        assert(ids@[at as int] == x);
                    }
                }
            }
            std::mem::swap(&mut self.ids, &mut ids);
            true
        }
    }

    /// Lists the members as a finite sequence: each member once, in
    /// increasing order.
    pub fn iterate(&self) -> (members: Vec<u32>)
        ensures
            members@ == self.enumeration(),
            members@.to_set() == self@,
            strictly_increasing(members@),
            members@.no_duplicates(),
    {
        proof {
            use_type_invariant(self);
        }
        self.ids.clone()
    }
}

} // verus!
