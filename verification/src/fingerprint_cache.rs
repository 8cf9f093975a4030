//! Cache by fingerprint with eviction of the least recently used value.

use vstd::prelude::*;

verus! {

/// Owner-local cache of values by fingerprint that evicts the least recently used.
///
/// Records are kept in order of use: the first was used longest ago, and every hit
/// moves its record to the end.
#[derive(Debug)]
pub struct FingerprintCache<T> {
    records: Vec<(u128, T)>,
}

/// Position of a fingerprint in a sequence of records.
pub open spec fn fingerprint_position<T>(records: Seq<(u128, T)>, fingerprint: u128) -> Option<int>
    decreases records.len(),
{
    if records.len() == 0 {
        None
    } else {
        match fingerprint_position(records.drop_last(), fingerprint) {
            Some(position) => Some(position),
            None => if records.last().0 == fingerprint {
                Some(records.len() - 1)
            } else {
                None
            },
        }
    }
}

/// Records after the one at a position was used.
pub open spec fn used<T>(records: Seq<(u128, T)>, position: int) -> Seq<(u128, T)> {
    records.remove(position).push(records[position])
}

/// No fingerprint occurs twice.
pub open spec fn distinct_fingerprints<T>(records: Seq<(u128, T)>) -> bool {
    forall|i: int, j: int|
        #![trigger records[i], records[j]]
        0 <= i < records.len() && 0 <= j < records.len() && i != j ==> records[i].0 != records[j].0
}

/// A position that is found holds the fingerprint, and none is found only where no
/// record holds it.
pub proof fn lemma_fingerprint_position<T>(records: Seq<(u128, T)>, fingerprint: u128)
    ensures
        match fingerprint_position(records, fingerprint) {
            Some(position) => 0 <= position < records.len() && records[position].0 == fingerprint
                && forall|i: int| 0 <= i < position ==> #[trigger] records[i].0 != fingerprint,
            None => forall|i: int|
                0 <= i < records.len() ==> #[trigger] records[i].0 != fingerprint,
        },
    decreases records.len(),
{
    if records.len() > 0 {
        lemma_fingerprint_position(records.drop_last(), fingerprint);
        assert forall|i: int| 0 <= i < records.len() - 1 implies records[i]
            == records.drop_last()[i] by {}
    }
}

/// Fingerprint positions are determined by what is stored there.
pub proof fn lemma_fingerprint_found<T>(records: Seq<(u128, T)>, position: int)
    requires
        distinct_fingerprints(records),
        0 <= position < records.len(),
    ensures
        fingerprint_position(records, records[position].0) == Some(position),
{
    lemma_fingerprint_position(records, records[position].0);
}

impl<T> View for FingerprintCache<T> {
    type V = Seq<(u128, T)>;

    closed spec fn view(&self) -> Seq<(u128, T)> {
        self.records@
    }
}

impl<T> FingerprintCache<T> {
    /// No fingerprint occurs twice.
    pub open spec fn wf(&self) -> bool {
        distinct_fingerprints(self@)
    }

    #[must_use]
    pub fn empty() -> (r: FingerprintCache<T>)
        ensures
            r.wf(),
            r@ == Seq::<(u128, T)>::empty(),
    {
        FingerprintCache { records: Vec::new() }
    }

    #[must_use]
    pub fn len(&self) -> (r: usize)
        ensures
            r == self@.len(),
    {
        self.records.len()
    }

    fn position(&self, fingerprint: u128) -> (r: Option<usize>)
        ensures
            match fingerprint_position(self@, fingerprint) {
                Some(position) => r == Some(position as usize) && position < self.records@.len(),
                None => r is None,
            },
    {
        let mut index: usize = 0;
        while index < self.records.len()
            invariant
                index <= self.records@.len(),
                forall|i: int| 0 <= i < index ==> #[trigger] self.records@[i].0 != fingerprint,
            decreases self.records@.len() - index,
        {
            if self.records[index].0 == fingerprint {
                proof {
                    lemma_fingerprint_position(self@, fingerprint);
                    if fingerprint_position(self@, fingerprint) is None {
                        assert(self.records@[index as int].0 != fingerprint);
                    }
                }
                return Some(index);
            }
            index = index + 1;
        }
        proof {
            lemma_fingerprint_position(self@, fingerprint);
        }
        None
    }

    /// Looks a value up and counts as a use of it.
    pub fn get(&mut self, fingerprint: u128) -> (r: Option<&T>)
        requires
            old(self).wf(),
        ensures
            final(self).wf(),
            match fingerprint_position(old(self)@, fingerprint) {
                Some(position) => {
                    &&& r == Some(&old(self)@[position].1)
                    &&& final(self)@ == used(old(self)@, position)
                },
                None => r is None && final(self)@ == old(self)@,
            },
    {
        proof {
            lemma_fingerprint_position(self@, fingerprint);
        }
        match self.position(fingerprint) {
            Some(position) => {
                let record = self.records.remove(position);
                self.records.push(record);
                let last: usize = self.records.len() - 1;
                Some(&self.records[last].1)
            },
            None => None,
        }
    }

    /// Stores a value under a fingerprint that is not there yet; this is its first use.
    pub fn push(&mut self, fingerprint: u128, value: T)
        requires
            old(self).wf(),
            fingerprint_position(old(self)@, fingerprint) is None,
        ensures
            final(self).wf(),
            final(self)@ == old(self)@.push((fingerprint, value)),
    {
        proof {
            lemma_fingerprint_position(self@, fingerprint);
        }
        self.records.push((fingerprint, value));
    }

    /// Looks a value up for change and counts as a use of it.
    pub fn get_mut(&mut self, fingerprint: u128) -> (r: Option<&mut T>)
        requires
            old(self).wf(),
        ensures
            final(self).wf(),
            match fingerprint_position(old(self)@, fingerprint) {
                Some(position) => {
                    &&& r matches Some(value)
                    &&& *value == old(self)@[position].1
                    &&& final(self)@ == old(self)@.remove(position).push(
                        (fingerprint, *final(value)),
                    )
                },
                None => r is None && final(self)@ == old(self)@,
            },
    {
        proof {
            lemma_fingerprint_position(self@, fingerprint);
        }
        match self.position(fingerprint) {
            Some(position) => {
                let record = self.records.remove(position);
                self.records.push(record);
                let last: usize = self.records.len() - 1;
                Some(&mut self.records[last].1)
            },
            None => None,
        }
    }

    /// Stores a value, in place of the one under the fingerprint if there is one; this
    /// is a use.
    pub fn replace(&mut self, fingerprint: u128, value: T)
        requires
            old(self).wf(),
        ensures
            final(self).wf(),
            final(self)@ == match fingerprint_position(old(self)@, fingerprint) {
                Some(position) => old(self)@.remove(position).push((fingerprint, value)),
                None => old(self)@.push((fingerprint, value)),
            },
    {
        proof {
            lemma_fingerprint_position(self@, fingerprint);
        }
        match self.position(fingerprint) {
            Some(position) => {
                let _previous = self.records.remove(position);
                self.records.push((fingerprint, value));
            },
            None => self.records.push((fingerprint, value)),
        }
    }

    /// Takes out the value whose last use is longest ago.
    pub fn remove_lru(&mut self) -> (r: (u128, T))
        requires
            old(self).wf(),
            old(self)@.len() > 0,
        ensures
            final(self).wf(),
            r == old(self)@[0],
            final(self)@ == old(self)@.drop_first(),
    {
        self.records.remove(0)
    }

    /// A hit protects its record: as long as another record is there, the next
    /// eviction takes that other one.
    pub proof fn law_hit_protects_record(records: Seq<(u128, T)>, position: int)
        requires
            distinct_fingerprints(records),
            0 <= position < records.len(),
            records.len() > 1,
        ensures
            used(records, position)[0].0 != records[position].0,
            used(records, position).len() == records.len(),
            used(records, position).last() == records[position],
    {
    }

    /// Uses reorder records and change nothing else: every record stays, and the
    /// records that were not used keep their order.
    pub proof fn law_use_keeps_records(records: Seq<(u128, T)>, position: int)
        requires
            distinct_fingerprints(records),
            0 <= position < records.len(),
        ensures
            distinct_fingerprints(used(records, position)),
            used(records, position).drop_last() == records.remove(position),
            used(records, position).to_multiset() == records.to_multiset(),
    {
        broadcast use vstd::seq_lib::group_to_multiset_ensures;

        let rest = records.remove(position);
        assert(used(records, position).drop_last() =~= rest);
        assert(used(records, position).to_multiset() =~= records.to_multiset());
    }
}

impl<T> Default for FingerprintCache<T> {
    fn default() -> (r: FingerprintCache<T>)
        ensures
            r.wf(),
            r@ == Seq::<(u128, T)>::empty(),
    {
        FingerprintCache::empty()
    }
}

} // verus!
