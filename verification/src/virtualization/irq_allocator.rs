use vstd::prelude::*;

use crate::virtualization::vm::error::VmError;

verus! {

/// What one call of `alloc_irq` does: from `before` to `after`, answering `r`.
pub open spec fn alloc_irq_step(before: IrqAllocator, after: IrqAllocator, r: Result<u32, VmError>) -> bool {
    &&& after.last() == before.last()
    &&& r is Ok <==> before.next() <= before.last() && before.next() < u32::MAX
    &&& r is Ok ==> r == Ok::<u32, VmError>(before.next()) && after.next() == before.next() + 1
    &&& r is Err ==> r == Err::<u32, VmError>(VmError::AllocIrq) && after.next() == before.next()
}

/// Hands out interrupt numbers in ascending order, from a first number up to a last one.
pub struct IrqAllocator {
    max: u32,
    current: u32,
}

impl IrqAllocator {
    /// The next number to hand out.
    pub closed spec fn next(&self) -> u32 {
        self.current
    }

    /// The last number that may be handed out.
    pub closed spec fn last(&self) -> u32 {
        self.max
    }

    /// Hands out `min`, `min + 1`, ... up to `max`.
    pub fn new(min: u32, max: u32) -> (r: Self)
        ensures
            r.next() == min,
            r.last() == max,
    {
        IrqAllocator { max, current: min }
    }

    /// The next interrupt number, or an error once none is left.
    pub fn alloc_irq(&mut self) -> (r: Result<u32, VmError>)
        ensures
            alloc_irq_step(*old(self), *final(self), r),
            final(self).last() == old(self).last(),
            old(self).next() <= old(self).last() && old(self).next() < u32::MAX ==> r == Ok::<
                u32,
                VmError,
            >(old(self).next()) && final(self).next() == old(self).next() + 1,
            !(old(self).next() <= old(self).last() && old(self).next() < u32::MAX) ==> r == Err::<
                u32,
                VmError,
            >(VmError::AllocIrq) && final(self).next() == old(self).next(),
    {
        if self.current > self.max {
            return Err(VmError::AllocIrq);
        }
        let alloc = self.current;
        self.current = match self.current.checked_add(1) {
            Some(next) => next,
            None => return Err(VmError::AllocIrq),
        };
        Ok(alloc)
    }
}

/// A call of `alloc_irq` never moves the next number back, nor changes the last one.
pub proof fn lemma_alloc_irq_monotone(before: IrqAllocator, after: IrqAllocator, r: Result<u32, VmError>)
    requires
        alloc_irq_step(before, after, r),
    ensures
        after.next() >= before.next(),
        after.last() == before.last(),
{
}

/// Of two calls of `alloc_irq` on one allocator, the second made from where the first left it
/// or later, the numbers that both hand out lie at most at the last number and the second is
/// greater: no number is handed out twice.
pub proof fn lemma_irqs_distinct(
    a: IrqAllocator,
    b: IrqAllocator,
    r1: Result<u32, VmError>,
    c: IrqAllocator,
    d: IrqAllocator,
    r2: Result<u32, VmError>,
)
    requires
        alloc_irq_step(a, b, r1),
        alloc_irq_step(c, d, r2),
        c.next() >= b.next(),
        c.last() == b.last(),
    ensures
        r1 matches Ok(x) ==> x <= a.last(),
        r2 matches Ok(y) ==> y <= a.last(),
        r1 matches Ok(x) ==> (r2 matches Ok(y) ==> x < y),
{
}

} // verus!
