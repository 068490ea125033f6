use vstd::prelude::*;

verus! {

/// The registers of a vcpu that a snapshot keeps, each family as `(register, value)` pairs in
/// the order the registers were read, with the state of the virtual timer.
#[derive(Debug, Clone, PartialEq, Eq)]
pub struct VcpuRegisterSnapshot {
    pub gic_redistributor: Vec<(u32, u64)>,
    pub gic_icc: Vec<(u32, u64)>,
    pub gic_ich: Vec<(u32, u64)>,
    pub gic_icv: Vec<(u32, u64)>,
    pub core: Vec<(u32, u64)>,
    pub sys: Vec<(u32, u64)>,
    pub fp: Vec<(u32, u128)>,
    pub vtimer_is_masked: bool,
    pub vtimer_offset: u64,
}

/// What reading the registers of a vcpu gave: for each register its value or the hypervisor's
/// error code, and the same for the two reads of the virtual timer's state.
#[derive(Debug)]
pub struct VcpuRegisterReads {
    pub gic_redistributor: Vec<(u32, Result<u64, i32>)>,
    pub gic_icc: Vec<(u32, Result<u64, i32>)>,
    pub gic_ich: Vec<(u32, Result<u64, i32>)>,
    pub gic_icv: Vec<(u32, Result<u64, i32>)>,
    pub core: Vec<(u32, Result<u64, i32>)>,
    pub sys: Vec<(u32, Result<u64, i32>)>,
    pub fp: Vec<(u32, Result<u128, i32>)>,
    pub vtimer_is_masked: Result<bool, i32>,
    pub vtimer_offset: Result<u64, i32>,
}

/// The reads of `reads` that succeeded, as `(register, value)`, in order.
pub open spec fn successful_reads<T>(reads: Seq<(u32, Result<T, i32>)>) -> Seq<(u32, T)>
    decreases reads.len(),
{
    if reads.len() == 0 {
        Seq::empty()
    } else {
        let rest = successful_reads(reads.drop_last());
        match reads.last().1 {
            Ok(v) => rest.push((reads.last().0, v)),
            Err(_) => rest,
        }
    }
}

/// A register and value are among the reads that succeeded exactly when reading that register
/// gave that value; and no more reads succeeded than were made.
pub proof fn lemma_successful_reads<T>(reads: Seq<(u32, Result<T, i32>)>)
    ensures
        forall|reg: u32, v: T|
            #[trigger] successful_reads(reads).contains((reg, v)) <==> reads.contains(
                (reg, Ok::<T, i32>(v)),
            ),
        successful_reads(reads).len() <= reads.len(),
    decreases reads.len(),
{
    if reads.len() > 0 {
        let d = reads.drop_last();
        lemma_successful_reads(d);
        let rest = successful_reads(d);
        assert forall|reg: u32, v: T|
            #[trigger] successful_reads(reads).contains((reg, v)) <==> reads.contains(
                (reg, Ok::<T, i32>(v)),
            ) by {
            if successful_reads(reads).contains((reg, v)) {
                let i = choose|i: int|
                    0 <= i < successful_reads(reads).len() && successful_reads(reads)[i] == (reg, v);
                if i < rest.len() {
                    assert(rest[i] == (reg, v));
                    assert(rest.contains((reg, v)));
                    let j = choose|j: int| 0 <= j < d.len() && d[j] == (reg, Ok::<T, i32>(v));
                    assert(reads[j] == (reg, Ok::<T, i32>(v)));
                } else {
                    assert(reads[reads.len() - 1] == (reg, Ok::<T, i32>(v)));
                }
            }
            if reads.contains((reg, Ok::<T, i32>(v))) {
                let j = choose|j: int| 0 <= j < reads.len() && reads[j] == (reg, Ok::<T, i32>(v));
                if j < reads.len() - 1 {
                    assert(d[j] == reads[j]);
                    assert(d.contains((reg, Ok::<T, i32>(v))));
                    assert(rest.contains((reg, v)));
                    let i = choose|i: int| 0 <= i < rest.len() && rest[i] == (reg, v);
                    assert(successful_reads(reads)[i] == (reg, v));
                } else {
                    assert(successful_reads(reads).last() == (reg, v));
                    assert(successful_reads(reads)[successful_reads(reads).len() - 1] == (reg, v));
                }
            }
        }
    }
}

/// The reads that succeeded, in order; a register whose read failed is left out.
fn keep_successful<T: Copy>(reads: &Vec<(u32, Result<T, i32>)>) -> (r: Vec<(u32, T)>)
    ensures
        r@ == successful_reads(reads@),
{
    let mut kept: Vec<(u32, T)> = Vec::new();
    let mut i: usize = 0;
    while i < reads.len()
        invariant
            i <= reads@.len(),
            kept@ == successful_reads(reads@.subrange(0, i as int)),
        decreases reads@.len() - i,
    {
        let (reg, value) = reads[i];
        assert(reads@.subrange(0, i + 1).drop_last() =~= reads@.subrange(0, i as int));
        match value {
            Ok(v) => kept.push((reg, v)),
            Err(_) => {},
        }
        i += 1;
    }
    assert(reads@.subrange(0, i as int) =~= reads@);
    kept
}

/// The snapshot of a vcpu from what reading its registers gave: each family keeps exactly the
/// reads that succeeded, in order; it fails with the hypervisor's error code when a read of
/// the virtual timer's state failed (that of the mask first).
pub fn build_vcpu_snapshot(reads: &VcpuRegisterReads) -> (r: Result<VcpuRegisterSnapshot, i32>)
    ensures
        reads.vtimer_is_masked matches Err(e) ==> r == Err::<VcpuRegisterSnapshot, i32>(e),
        reads.vtimer_is_masked is Ok ==> (reads.vtimer_offset matches Err(e) ==> r == Err::<
            VcpuRegisterSnapshot,
            i32,
        >(e)),
        r is Ok <==> reads.vtimer_is_masked is Ok && reads.vtimer_offset is Ok,
        r matches Ok(s) ==> {
            &&& s.gic_redistributor@ == successful_reads(reads.gic_redistributor@)
            &&& s.gic_icc@ == successful_reads(reads.gic_icc@)
            &&& s.gic_ich@ == successful_reads(reads.gic_ich@)
            &&& s.gic_icv@ == successful_reads(reads.gic_icv@)
            &&& s.core@ == successful_reads(reads.core@)
            &&& s.sys@ == successful_reads(reads.sys@)
            &&& s.fp@ == successful_reads(reads.fp@)
            &&& reads.vtimer_is_masked == Ok::<bool, i32>(s.vtimer_is_masked)
            &&& reads.vtimer_offset == Ok::<u64, i32>(s.vtimer_offset)
        },
{
    let gic_redistributor = keep_successful(&reads.gic_redistributor);
    let gic_icc = keep_successful(&reads.gic_icc);
    let gic_ich = keep_successful(&reads.gic_ich);
    let gic_icv = keep_successful(&reads.gic_icv);
    let core = keep_successful(&reads.core);
    let sys = keep_successful(&reads.sys);
    let fp = keep_successful(&reads.fp);
    let vtimer_is_masked = match reads.vtimer_is_masked {
        Ok(v) => v,
        Err(e) => return Err(e),
    };
    let vtimer_offset = match reads.vtimer_offset {
        Ok(v) => v,
        Err(e) => return Err(e),
    };
    Ok(
        VcpuRegisterSnapshot {
            gic_redistributor,
            gic_icc,
            gic_ich,
            gic_icv,
            core,
            sys,
            fp,
            vtimer_is_masked,
            vtimer_offset,
        },
    )
}

} // verus!
