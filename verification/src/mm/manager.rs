use std::collections::BTreeMap;

use vstd::prelude::*;

use crate::mm::allocator::MemoryContainer;
use crate::mm::region::MemoryRegion;
use crate::mm::Error;

verus! {

broadcast use vstd::std_specs::btree::group_btree_axioms;

/// Two guest ranges share at least one address.
pub open spec fn ranges_meet(gpa1: u64, len1: usize, gpa2: u64, len2: usize) -> bool {
    gpa1 < gpa2 + len2 && gpa2 < gpa1 + len1
}

/// Each region is kept under its guest address and ends within `u64`, and no two regions meet.
pub open spec fn regions_wf<C>(m: Map<u64, MemoryRegion<C>>) -> bool {
    &&& forall|k: u64| #[trigger] m.contains_key(k) ==> m[k].gpa == k && k + m[k].len <= u64::MAX
    &&& forall|k1: u64, k2: u64|
        #[trigger] m.contains_key(k1) && #[trigger] m.contains_key(k2) && k1 != k2
            ==> !ranges_meet(k1, m[k1].len, k2, m[k2].len)
}

/// A region of `m` meets `[gpa, gpa + len)`.
pub open spec fn meets_any<C>(m: Map<u64, MemoryRegion<C>>, gpa: u64, len: usize) -> bool {
    exists|k: u64| #[trigger] m.contains_key(k) && ranges_meet(gpa, len, m[k].gpa, m[k].len)
}

/// The region of `m` that holds `gpa` (meaningful where one does).
pub open spec fn holder<C>(m: Map<u64, MemoryRegion<C>>, gpa: u64) -> MemoryRegion<C> {
    m[choose|k: u64| m.contains_key(k) && m[k].holds(gpa)]
}

/// The host address that backs `gpa` in region `h`: its host base plus the offset of `gpa`.
pub open spec fn hva_of<C: MemoryContainer>(h: MemoryRegion<C>, gpa: u64) -> usize {
    vstd::wrapping::usize_specs::wrapping_add(h.base(), (gpa - h.gpa) as usize)
}

/// `new` is `old` with at most the host memory of the region at `k` changed.
pub open spec fn only_memory_changed<C: MemoryContainer>(
    old: Map<u64, MemoryRegion<C>>,
    new: Map<u64, MemoryRegion<C>>,
    k: u64,
) -> bool {
    &&& new.dom() == old.dom()
    &&& forall|j: u64| #[trigger] new.contains_key(j) ==> new[j].same_shape(&old[j])
    &&& forall|j: u64| #[trigger] new.contains_key(j) && j != k ==> new[j] == old[j]
}

/// A region of `m` holds `gpa`.
pub open spec fn holds_any<C>(m: Map<u64, MemoryRegion<C>>, gpa: u64) -> bool {
    exists|k: u64| #[trigger] m.contains_key(k) && m[k].holds(gpa)
}

/// In a well-formed map, the region that holds `gpa` is the one at `k` where that one does.
proof fn lemma_holder_is<C>(m: Map<u64, MemoryRegion<C>>, k: u64, gpa: u64)
    requires
        regions_wf(m),
        m.contains_key(k),
        m[k].holds(gpa),
    ensures
        holds_any(m, gpa),
        holder(m, gpa) == m[k],
{
    assert(m.contains_key(k) && m[k].holds(gpa));
    let k2 = choose|k2: u64| m.contains_key(k2) && m[k2].holds(gpa);
    if k2 != k {
        assert(!ranges_meet(k, m[k].len, k2, m[k2].len));
    }
}

/// The guest memory of a machine: disjoint regions keyed by guest address, each with its host
/// memory once allocated.
pub struct MemoryAddressSpace<C> {
    regions: BTreeMap<u64, MemoryRegion<C>>,
}

impl<C> Default for MemoryAddressSpace<C> {
    /// No region.
    fn default() -> (r: Self)
        ensures
            r.wf(),
            r@ == Map::<u64, MemoryRegion<C>>::empty(),
    {
        MemoryAddressSpace { regions: BTreeMap::new() }
    }
}

impl<C> View for MemoryAddressSpace<C> {
    type V = Map<u64, MemoryRegion<C>>;

    /// The regions, keyed by guest address.
    closed spec fn view(&self) -> Map<u64, MemoryRegion<C>> {
        self.regions@
    }
}

impl<C> MemoryAddressSpace<C> {
    pub closed spec fn wf(&self) -> bool {
        regions_wf(self.regions@)
    }

    /// The regions held never meet, and each ends within `u64`.
    pub proof fn lemma_disjoint(&self)
        requires
            self.wf(),
        ensures
            forall|k: u64|
                #[trigger] self@.contains_key(k) ==> self@[k].gpa == k && k + self@[k].len
                    <= u64::MAX,
            forall|k1: u64, k2: u64|
                #[trigger] self@.contains_key(k1) && #[trigger] self@.contains_key(k2) && k1 != k2
                    ==> !ranges_meet(k1, self@[k1].len, k2, self@[k2].len),
            self@.dom().finite(),
    {
    }
}

impl<C: MemoryContainer> MemoryAddressSpace<C> {
    /// The regions, keyed by guest address (walked in ascending order of it).
    pub fn regions(&self) -> (r: &BTreeMap<u64, MemoryRegion<C>>)
        ensures
            r@ == self@,
    {
        &self.regions
    }

    /// Whether `region` meets a region already present.
    fn is_overlapping(&self, region: &MemoryRegion<C>) -> (r: bool)
        requires
            self.wf(),
            region.gpa + region.len <= u64::MAX,
        ensures
            r == meets_any(self@, region.gpa, region.len),
    {
        let new_left = region.gpa;
        let new_right = region.gpa + region.len as u64;
        let ghost m = self.regions@;
        proof {
            assert(forall|k: u64| #[trigger] m.contains_key(k) ==> m.values().contains(m[k]));
        }
        for r in it: self.regions.values()
            invariant
                m == self.regions@,
                regions_wf(m),
                new_left == region.gpa,
                new_right == region.gpa + region.len,
                it.seq().unref().to_set() == m.values(),
                forall|k: u64| #[trigger]
                    m.contains_key(k) ==> it.seq().unref().contains(m[k]),
                forall|j: int|
                    0 <= j < it.index() ==> !ranges_meet(
                        region.gpa,
                        region.len,
                        (#[trigger] it.seq()[j]).gpa,
                        it.seq()[j].len,
                    ),
                it.index() == it.seq().len() ==> forall|k: u64| #[trigger]
                    m.contains_key(k) ==> !ranges_meet(region.gpa, region.len, m[k].gpa, m[k].len),
        {
            let left = r.gpa;
            proof {
                assert(it.seq().unref()[it.index()] == *r);
                assert(it.seq().unref().contains(*r));
                assert(m.values().contains(*r));
                let k = choose|k: u64| m.contains_key(k) && m[k] == *r;
                assert(m.contains_key(k) && m[k] == *r);
            }
            let right = left + r.len as u64;
            if new_left < right && left < new_right {
                let ghost k = choose|k: u64| m.contains_key(k) && m[k] == *r;
                assert(m.contains_key(k) && ranges_meet(region.gpa, region.len, m[k].gpa, m[k].len));
                return true;
            }
        }
        false
    }

    /// The guest address of the region that holds `gpa`.
    fn region_key_by_gpa(&self, gpa: u64) -> (r: Option<u64>)
        requires
            self.wf(),
        ensures
            match r {
                Some(k) => self@.contains_key(k) && self@[k].holds(gpa) && holds_any(self@, gpa)
                    && holder(self@, gpa) == self@[k],
                None => !holds_any(self@, gpa),
            },
    {
        let ghost m = self.regions@;
        for k in it: self.regions.keys()
            invariant
                m == self.regions@,
                regions_wf(m),
                it.seq().unref().to_set() == m.dom(),
                forall|k: u64| #[trigger] m.contains_key(k) ==> it.seq().unref().contains(k),
                forall|j: int| 0 <= j < it.index() ==> !m[*(#[trigger] it.seq()[j])].holds(gpa),
                it.index() == it.seq().len() ==> forall|k: u64| #[trigger]
                    m.contains_key(k) ==> !m[k].holds(gpa),
        {
            proof {
                assert(it.seq().unref()[it.index()] == *k);
                assert(it.seq().unref().contains(*k));
                assert(m.contains_key(*k));
            }
            let region = match self.regions.get(k) {
                Some(region) => region,
                None => return None,
            };
            if gpa >= region.gpa && gpa - region.gpa < region.len as u64 {
                proof {
                    lemma_holder_is(m, *k, gpa);
                }
                return Some(*k);
            }
        }
        None
    }

    /// The guest address of the region that holds `gpa`; an error where none does.
    fn try_region_key_by_gpa(&self, gpa: u64) -> (r: Result<u64, Error>)
        requires
            self.wf(),
        ensures
            match r {
                Ok(k) => self@.contains_key(k) && self@[k].holds(gpa) && holds_any(self@, gpa)
                    && holder(self@, gpa) == self@[k],
                Err(e) => e == Error::AccessInvalidGpa(gpa) && !holds_any(self@, gpa),
            },
    {
        match self.region_key_by_gpa(gpa) {
            Some(k) => Ok(k),
            None => Err(Error::AccessInvalidGpa(gpa)),
        }
    }

    /// Asks the region at `k` for its host address; also gives back its guest address and
    /// length.
    fn region_hva(&mut self, k: u64) -> (r: (Result<usize, Error>, u64, usize))
        requires
            old(self).wf(),
            old(self)@.contains_key(k),
        ensures
            final(self).wf(),
            only_memory_changed(old(self)@, final(self)@, k),
            r.1 == old(self)@[k].gpa,
            r.2 == old(self)@[k].len,
            old(self)@[k].memory is Some ==> r.0 == Ok::<usize, Error>(old(self)@[k].base()),
            old(self)@[k].memory is None ==> r.0 == Err::<usize, Error>(
                Error::MemoryIsNotAllocated,
            ),
    {
        let ghost m = self.regions@;
        let mut region = match self.regions.remove(&k) {
            Some(region) => region,
            None => {
                assert(false);
                return (Err(Error::MemoryIsNotAllocated), 0, 0);
            },
        };
        assert(region == m[k]);
        let hva = region.try_to_hva();
        let gpa = region.gpa;
        let len = region.len;
        self.regions.insert(k, region);
        proof {
            let n = self.regions@;
            assert(n =~= m.insert(k, region));
            assert(n.dom() =~= m.dom());
            assert forall|j: u64| #[trigger] n.contains_key(j) implies n[j].same_shape(&m[j]) by {
            }
        }
        (hva, gpa, len)
    }

    /// The host address that backs guest address `gpa`: the host base of the region that
    /// holds it plus the offset of `gpa` in that region.
    pub fn gpa_to_hva(&mut self, gpa: u64) -> (r: Result<usize, Error>)
        requires
            old(self).wf(),
        ensures
            final(self).wf(),
            !holds_any(old(self)@, gpa) ==> r == Err::<usize, Error>(Error::AccessInvalidGpa(gpa))
                && final(self)@ == old(self)@,
            holds_any(old(self)@, gpa) ==> {
                &&& only_memory_changed(old(self)@, final(self)@, holder(old(self)@, gpa).gpa)
                &&& holder(old(self)@, gpa).memory is None ==> r == Err::<usize, Error>(
                    Error::MemoryIsNotAllocated,
                )
                &&& holder(old(self)@, gpa).memory is Some ==> r == Ok::<usize, Error>(
                    hva_of(holder(old(self)@, gpa), gpa),
                )
            },
    {
        let k = self.try_region_key_by_gpa(gpa)?;
        let (hva, region_gpa, _) = self.region_hva(k);
        let hva = hva?;
        let offset = gpa - region_gpa;
        Ok(hva.wrapping_add(offset as usize))
    }

    /// The host address of the `len` bytes at guest address `gpa`, once they are found to
    /// lie in one allocated region; the check behind `memset` and `copy_from_slice`.
    pub fn checked_hva_range(&mut self, gpa: u64, len: usize) -> (r: Result<usize, Error>)
        requires
            old(self).wf(),
        ensures
            final(self).wf(),
            !holds_any(old(self)@, gpa) ==> r == Err::<usize, Error>(Error::AccessInvalidGpa(gpa))
                && final(self)@ == old(self)@,
            holds_any(old(self)@, gpa) ==> {
                let h = holder(old(self)@, gpa);
                &&& only_memory_changed(old(self)@, final(self)@, h.gpa)
                &&& h.memory is None ==> r == Err::<usize, Error>(Error::MemoryIsNotAllocated)
                &&& h.memory is Some && (gpa - h.gpa) + len > h.len ==> r == Err::<usize, Error>(
                    Error::MemoryOverflow,
                )
                &&& h.memory is Some && (gpa - h.gpa) + len <= h.len ==> r == Ok::<usize, Error>(
                    hva_of(h, gpa),
                )
            },
    {
        let k = self.try_region_key_by_gpa(gpa)?;
        let (hva, region_gpa, region_len) = self.region_hva(k);
        let hva = hva?;
        let offset = gpa - region_gpa;
        if len as u64 > region_len as u64 - offset {
            return Err(Error::MemoryOverflow);
        }
        Ok(hva.wrapping_add(offset as usize))
    }

    /// Adds `region` unless it meets a region already present; then it is handed back.
    pub fn try_insert(&mut self, region: MemoryRegion<C>) -> (r: Result<(), MemoryRegion<C>>)
        requires
            old(self).wf(),
            region.gpa + region.len <= u64::MAX,
        ensures
            final(self).wf(),
            r is Ok <==> !meets_any(old(self)@, region.gpa, region.len),
            r is Ok ==> final(self)@ == old(self)@.insert(region.gpa, region),
            r is Ok ==> final(self)@.len() == old(self)@.len() + if old(self)@.contains_key(
                region.gpa,
            ) {
                0int
            } else {
                1int
            },
            r is Err ==> r == Err::<(), MemoryRegion<C>>(region) && final(self)@ == old(self)@,
            final(self)@.dom().finite(),
    {
        if self.is_overlapping(&region) {
            return Err(region);
        }
        let ghost m = self.regions@;
        let ghost rg = region;
        self.regions.insert(region.gpa, region);
        proof {
            let n = self.regions@;
            assert(n == m.insert(rg.gpa, rg));
            assert forall|k1: u64, k2: u64|
                #[trigger] n.contains_key(k1) && #[trigger] n.contains_key(k2) && k1 != k2
                    implies !ranges_meet(k1, n[k1].len, k2, n[k2].len) by {
                if k1 == rg.gpa {
                    assert(m.contains_key(k2));
                    assert(!ranges_meet(rg.gpa, rg.len, m[k2].gpa, m[k2].len));
                } else if k2 == rg.gpa {
                    assert(m.contains_key(k1));
                    assert(!ranges_meet(rg.gpa, rg.len, m[k1].gpa, m[k1].len));
                }
            }
        }
        Ok(())
    }
}

} // verus!

verus! {

/// After `try_insert(region)` succeeds with a non-empty `region`, every address of `region` is
/// held by `region`, and every other address is held by the region that held it before, if any.
/// (An empty region replaces a region that starts at the same address.)
pub proof fn lemma_holder_after_insert<C>(
    before: Map<u64, MemoryRegion<C>>,
    region: MemoryRegion<C>,
    gpa: u64,
)
    requires
        forall|k: u64| #[trigger] before.contains_key(k) ==> before[k].gpa == k,
        forall|k1: u64, k2: u64|
            #[trigger] before.contains_key(k1) && #[trigger] before.contains_key(k2) && k1 != k2
                ==> !ranges_meet(k1, before[k1].len, k2, before[k2].len),
        !meets_any(before, region.gpa, region.len),
        region.len > 0,
    ensures
        region.holds(gpa) ==> holds_any(before.insert(region.gpa, region), gpa) && holder(
            before.insert(region.gpa, region),
            gpa,
        ) == region,
        !region.holds(gpa) ==> (holds_any(before.insert(region.gpa, region), gpa) <==> holds_any(
            before,
            gpa,
        )),
        !region.holds(gpa) && holds_any(before, gpa) ==> holder(
            before.insert(region.gpa, region),
            gpa,
        ) == holder(before, gpa),
{
    let after = before.insert(region.gpa, region);
    if region.holds(gpa) {
        assert(after.contains_key(region.gpa) && after[region.gpa].holds(gpa));
        let k = choose|k: u64| after.contains_key(k) && after[k].holds(gpa);
        if k != region.gpa {
            assert(before.contains_key(k));
            assert(ranges_meet(region.gpa, region.len, before[k].gpa, before[k].len));
        }
    } else {
        if holds_any(after, gpa) {
            let k = choose|k: u64| after.contains_key(k) && after[k].holds(gpa);
            assert(k != region.gpa);
            assert(before.contains_key(k) && before[k].holds(gpa));
        }
        if holds_any(before, gpa) {
            let k = choose|k: u64| before.contains_key(k) && before[k].holds(gpa);
            if k == region.gpa {
                assert(ranges_meet(region.gpa, region.len, before[k].gpa, before[k].len));
            }
            assert(after.contains_key(k) && after[k].holds(gpa));
            let k2 = choose|k: u64| after.contains_key(k) && after[k].holds(gpa);
            assert(k2 != region.gpa);
            if k2 != k {
                assert(before.contains_key(k2));
                assert(ranges_meet(k, before[k].len, k2, before[k2].len));
            }
        }
    }
}

} // verus!
