use std::collections::btree_map::Iter;
use std::collections::BTreeMap;

use vstd::prelude::*;
use vstd::std_specs::cmp::OrdSpec;
use vstd::std_specs::iter::IteratorSpec;

verus! {

broadcast use vstd::std_specs::btree::group_btree_axioms;

/// Why an insertion into an [`AddressSpace`] was refused.
#[derive(Debug, Clone, Copy, PartialEq, Eq)]
pub enum AddressSpaceError {
    /// The range to insert is empty.
    InvalidLen,
    /// The range to insert meets a range already present: its start and length.
    RangeOverlap(u64, usize),
}

/// A half-open range of addresses `[start, start + len)`.
#[derive(Clone, Copy, Debug)]
pub struct Range {
    pub start: u64,
    pub len: usize,
}

/// `addr` lies in `[start, start + len)`.
pub open spec fn interval_contains(start: u64, len: usize, addr: u64) -> bool {
    start <= addr && addr < start + len
}

/// The range `[start, start + len)` meets a range of `m` (keyed by its start, holding its
/// length first): either a range of `m` holds `start`, or a range of `m` starts inside
/// `[start, start + len)`.
pub open spec fn overlaps_any<V>(m: Map<u64, (usize, V)>, start: u64, len: usize) -> bool {
    exists|k: u64|
        #![trigger m.contains_key(k)]
        m.contains_key(k) && (interval_contains(k, m[k].0, start) || (start <= k && k < start
            + len))
}

/// Some range of `m` holds `addr`.
pub open spec fn any_contains<V>(m: Map<u64, (usize, V)>, addr: u64) -> bool {
    exists|k: u64| #![trigger m.contains_key(k)] m.contains_key(k) && interval_contains(k, m[k].0, addr)
}

/// The range of `m` that holds `addr`, with its value; `None` where no range holds it.
pub open spec fn lookup<V>(m: Map<u64, (usize, V)>, addr: u64) -> Option<(Range, V)> {
    if any_contains(m, addr) {
        let k = choose|k: u64| m.contains_key(k) && interval_contains(k, m[k].0, addr);
        Some((Range { start: k, len: m[k].0 }, m[k].1))
    } else {
        None
    }
}

/// The ranges of `m` are non-empty and pairwise disjoint.
pub open spec fn ranges_disjoint<V>(m: Map<u64, (usize, V)>) -> bool {
    &&& forall|k: u64| #[trigger] m.contains_key(k) ==> m[k].0 > 0
    &&& forall|k1: u64, k2: u64|
        #[trigger] m.contains_key(k1) && #[trigger] m.contains_key(k2) && k1 != k2 ==> !(k1 < k2
            + m[k2].0 && k2 < k1 + m[k1].0)
}

/// In disjoint ranges, at most one range holds an address.
pub proof fn lemma_unique_holder<V>(m: Map<u64, (usize, V)>, k1: u64, k2: u64, addr: u64)
    requires
        ranges_disjoint(m),
        m.contains_key(k1),
        m.contains_key(k2),
        interval_contains(k1, m[k1].0, addr),
        interval_contains(k2, m[k2].0, addr),
    ensures
        k1 == k2,
{
}

/// The ranges of `m` are non-empty, pairwise disjoint, and end within `u64`.
pub open spec fn entries_wf<V>(m: Map<u64, (usize, V)>) -> bool {
    &&& ranges_disjoint(m)
    &&& forall|k: u64| #[trigger] m.contains_key(k) ==> k + m[k].0 <= u64::MAX
}

/// A map from disjoint, non-empty address ranges to values, ordered by start.
pub struct AddressSpace<V> {
    entries: BTreeMap<u64, (usize, V)>,
}

impl<V> Default for AddressSpace<V> {
    /// An empty address space.
    fn default() -> (r: Self)
        ensures
            r.wf(),
            r@ == Map::<u64, (usize, V)>::empty(),
    {
        AddressSpace { entries: BTreeMap::new() }
    }
}

impl<V> View for AddressSpace<V> {
    type V = Map<u64, (usize, V)>;

    /// The ranges held, keyed by start, each with its length and value.
    closed spec fn view(&self) -> Map<u64, (usize, V)> {
        self.entries@
    }
}

impl<V> AddressSpace<V> {
    pub closed spec fn wf(&self) -> bool {
        entries_wf(self.entries@)
    }

    /// The ranges held are non-empty and pairwise disjoint.
    pub proof fn lemma_disjoint(&self)
        requires
            self.wf(),
        ensures
            ranges_disjoint(self@),
            self@.dom().finite(),
    {
    }

    /// Whether `[start, start + len)` meets a range already present.
    pub fn is_overlap(&self, start: u64, len: usize) -> (r: bool)
        requires
            self.wf(),
            start + len <= u64::MAX,
        ensures
            r == overlaps_any(self@, start, len),
    {
        let end = start + len as u64;
        let ghost m = self.entries@;
        for entry in it: self.entries.iter()
            invariant
                m == self.entries@,
                entries_wf(m),
                end == start + len,
                forall|i: int|
                    0 <= i < it.seq().len() ==> m.contains_key(*(#[trigger] it.seq()[i]).0)
                        && m[*it.seq()[i].0] == *it.seq()[i].1,
                forall|k: u64| #[trigger] m.contains_key(k) ==> it.seq().contains((&k, &m[k])),
                forall|i: int|
                    0 <= i < it.index() ==> !(interval_contains(
                        *(#[trigger] it.seq()[i]).0,
                        it.seq()[i].1.0,
                        start,
                    ) || (start <= *it.seq()[i].0 && *it.seq()[i].0 < start + len)),
                it.index() == it.seq().len() ==> forall|k: u64| #[trigger]
                    m.contains_key(k) ==> !(interval_contains(k, m[k].0, start) || (start <= k && k
                        < start + len)),
        {
            let (k, e) = entry;
            let k = *k;
            let l = e.0;
            assert(m.contains_key(k) && m[k].0 == l);
            if (k <= start && start - k < l as u64) || (start <= k && k < end) {
                return true;
            }
        }
        false
    }

    /// Inserts `value` over `range` unless the range is empty or meets a range present.
    pub fn try_insert(&mut self, range: Range, value: V) -> (r: Result<(), AddressSpaceError>)
        requires
            old(self).wf(),
            range.start + range.len <= u64::MAX,
        ensures
            final(self).wf(),
            range.len == 0 ==> r == Err::<(), AddressSpaceError>(AddressSpaceError::InvalidLen),
            range.len != 0 && overlaps_any(old(self)@, range.start, range.len) ==> r == Err::<
                (),
                AddressSpaceError,
            >(AddressSpaceError::RangeOverlap(range.start, range.len)),
            r is Ok <==> range.len != 0 && !overlaps_any(old(self)@, range.start, range.len),
            r is Ok ==> final(self)@ == old(self)@.insert(range.start, (range.len, value)),
            r is Ok ==> !old(self)@.contains_key(range.start) && final(self)@.len() == old(
                self,
            )@.len() + 1,
            r is Err ==> final(self)@ == old(self)@,
            final(self)@.dom().finite(),
    {
        if range.len == 0 {
            return Err(AddressSpaceError::InvalidLen);
        }
        if self.is_overlap(range.start, range.len) {
            return Err(AddressSpaceError::RangeOverlap(range.start, range.len));
        }
        let ghost m = self.entries@;
        self.entries.insert(range.start, (range.len, value));
        proof {
            let n = self.entries@;
            assert(!m.contains_key(range.start)) by {
                if m.contains_key(range.start) {
                    assert(interval_contains(range.start, m[range.start].0, range.start));
                }
            }
            assert forall|k1: u64, k2: u64|
                #[trigger] n.contains_key(k1) && #[trigger] n.contains_key(k2) && k1
                    != k2 implies !(k1 < k2 + n[k2].0 && k2 < k1 + n[k1].0) by {
                if k1 == range.start {
                    assert(m.contains_key(k2));
                    if k2 < k1 + n[k1].0 && k1 < k2 + n[k2].0 {
                        if k2 < k1 {
                            assert(interval_contains(k2, m[k2].0, range.start));
                        }
                    }
                } else if k2 == range.start {
                    assert(m.contains_key(k1));
                    if k1 < k2 + n[k2].0 && k2 < k1 + n[k1].0 {
                        if k1 < k2 {
                            assert(interval_contains(k1, m[k1].0, range.start));
                        }
                    }
                }
            }
        }
        Ok(())
    }

    /// The range that holds `key`, with its value, if there is one.
    pub fn try_get_value_by_key(&self, key: u64) -> (r: Option<(Range, &V)>)
        requires
            self.wf(),
        ensures
            match r {
                Some((range, v)) => lookup(self@, key) == Some((range, *v)),
                None => lookup(self@, key) is None,
            },
    {
        let ghost m = self.entries@;
        for entry in it: self.entries.iter()
            invariant
                m == self.entries@,
                entries_wf(m),
                forall|i: int|
                    0 <= i < it.seq().len() ==> m.contains_key(*(#[trigger] it.seq()[i]).0)
                        && m[*it.seq()[i].0] == *it.seq()[i].1,
                forall|k: u64| #[trigger] m.contains_key(k) ==> it.seq().contains((&k, &m[k])),
                forall|i: int|
                    0 <= i < it.index() ==> !interval_contains(
                        *(#[trigger] it.seq()[i]).0,
                        it.seq()[i].1.0,
                        key,
                    ),
                it.index() == it.seq().len() ==> forall|k: u64| #[trigger]
                    m.contains_key(k) ==> !interval_contains(k, m[k].0, key),
        {
            let (k, e) = entry;
            if *k <= key && key - *k < e.0 as u64 {
                proof {
                    assert(m.contains_key(*k) && m[*k] == *e);
                    assert(any_contains(m, key));
                    let k2 = choose|k2: u64| m.contains_key(k2) && interval_contains(k2, m[k2].0, key);
                    lemma_unique_holder(m, k2, *k, key);
                }
                return Some((Range { start: *k, len: e.0 }, &e.1));
            }
        }
        None
    }

    /// The ranges in ascending order of start, each as `(start, (len, value))`.
    pub fn iter(&self) -> (r: Iter<'_, u64, (usize, V)>)
        requires
            self.wf(),
        ensures
            r.remaining().len() == self@.len(),
            forall|i: int|
                0 <= i < r.remaining().len() ==> self@.contains_key(*(#[trigger] r.remaining()[i]).0)
                    && self@[*r.remaining()[i].0] == *r.remaining()[i].1,
            forall|k: u64| #[trigger] self@.contains_key(k) ==> r.remaining().contains((&k, &self@[k])),
            forall|i: int, j: int|
                0 <= i < j < r.remaining().len() ==> *(#[trigger] r.remaining()[i]).0 < *(
                #[trigger] r.remaining()[j]).0,
    {
        let r = self.entries.iter();
        proof {
            broadcast use vstd::laws_cmp::group_laws_cmp;

            let keys = r.remaining().map_values(|kv: (&u64, &(usize, V))| *kv.0);
            assert forall|i: int, j: int|
                0 <= i < j < r.remaining().len() implies *(#[trigger] r.remaining()[i]).0 < *(
                #[trigger] r.remaining()[j]).0 by {
                assert(keys[i] == *r.remaining()[i].0);
                assert(keys[j] == *r.remaining()[j].0);
                assert(keys[i].cmp_spec(&keys[j]) is Less);
            }
        }
        r
    }

    /// Whether no range is held.
    pub fn is_empty(&self) -> (r: bool)
        ensures
            r <==> self@.len() == 0,
    {
        self.entries.is_empty()
    }

    /// The number of ranges held.
    pub fn len(&self) -> (r: usize)
        ensures
            r == self@.len(),
            self@.dom().finite(),
    {
        self.entries.len()
    }
}

} // verus!

verus! {

/// After `try_insert(range, value)` succeeds, every address of `range` is found in `range`
/// with `value`, and every other address is found exactly where it was found before.
pub proof fn lemma_lookup_after_insert<V>(
    before: Map<u64, (usize, V)>,
    range: Range,
    value: V,
    addr: u64,
)
    requires
        ranges_disjoint(before),
        range.len > 0,
        !overlaps_any(before, range.start, range.len),
    ensures
        ranges_disjoint(before.insert(range.start, (range.len, value))),
        lookup(before.insert(range.start, (range.len, value)), addr) == if interval_contains(
            range.start,
            range.len,
            addr,
        ) {
            Some((range, value))
        } else {
            lookup(before, addr)
        },
{
    let after = before.insert(range.start, (range.len, value));
    assert(!before.contains_key(range.start));
    assert forall|k1: u64, k2: u64|
        #[trigger] after.contains_key(k1) && #[trigger] after.contains_key(k2) && k1 != k2 implies !(k1
        < k2 + after[k2].0 && k2 < k1 + after[k1].0) by {
        if k1 != range.start && k2 != range.start {
        } else if k1 == range.start {
            assert(before.contains_key(k2));
        } else {
            assert(before.contains_key(k1));
        }
    }
    assert(ranges_disjoint(after));
    if interval_contains(range.start, range.len, addr) {
        assert(after.contains_key(range.start));
        let k = choose|k: u64| after.contains_key(k) && interval_contains(k, after[k].0, addr);
        lemma_unique_holder(after, k, range.start, addr);
    } else {
        if any_contains(after, addr) {
            let k = choose|k: u64| after.contains_key(k) && interval_contains(k, after[k].0, addr);
            assert(before.contains_key(k));
            assert(any_contains(before, addr));
            let k2 = choose|k: u64| before.contains_key(k) && interval_contains(k, before[k].0, addr);
            lemma_unique_holder(before, k, k2, addr);
        }
        if any_contains(before, addr) {
            let k = choose|k: u64| before.contains_key(k) && interval_contains(k, before[k].0, addr);
            assert(after.contains_key(k));
        }
    }
}

} // verus!
