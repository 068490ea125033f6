use vstd::prelude::*;

use crate::virtualization::hvp::vcpu_snapshot::successful_reads;
use crate::virtualization::hvp::vm::HvpGicV3;

verus! {

/// What saving or restoring the state of the interrupt controller met.
#[derive(Debug, Clone, Copy, PartialEq, Eq, Structural)]
pub enum IrqChipError {
    /// A read of the controller's state failed.
    SaveSnapshot,
    /// A write of the controller's state failed, with the hypervisor's error code.
    LoadSnapshot(i32),
}

/// The state of the interrupt controller: its distributor and MSI registers as
/// `(register, value)` pairs in the order they were read, and the hypervisor's opaque state.
#[derive(Debug, Clone, PartialEq, Eq)]
pub struct HvpGicV3Snapshot {
    pub distributor: Vec<(u32, u64)>,
    pub msi: Vec<(u32, u64)>,
    pub state: Vec<u8>,
}

/// What reading the state of the interrupt controller gave: for each register its value or the
/// hypervisor's error code, and the hypervisor's opaque state or the error code of reading it.
#[derive(Debug)]
pub struct GicStateReads {
    pub distributor: Vec<(u32, Result<u64, i32>)>,
    pub msi: Vec<(u32, Result<u64, i32>)>,
    pub state: Result<Vec<u8>, i32>,
}

/// Every read of `reads` succeeded.
pub open spec fn all_read<T>(reads: Seq<(u32, Result<T, i32>)>) -> bool {
    forall|i: int| 0 <= i < reads.len() ==> (#[trigger] reads[i]).1 is Ok
}

/// The values of `reads`, in order, where every read succeeded.
fn values_if_all_read(reads: &Vec<(u32, Result<u64, i32>)>) -> (r: Option<Vec<(u32, u64)>>)
    ensures
        r is Some <==> all_read(reads@),
        r matches Some(v) ==> v@ == successful_reads(reads@),
        r matches Some(v) ==> v@.len() == reads@.len() && forall|i: int|
            0 <= i < reads@.len() ==> reads@[i] == (#[trigger] v@[i].0, Ok::<u64, i32>(v@[i].1)),
{
    let mut values: Vec<(u32, u64)> = Vec::new();
    let mut i: usize = 0;
    while i < reads.len()
        invariant
            i <= reads@.len(),
            all_read(reads@.subrange(0, i as int)),
            values@ == successful_reads(reads@.subrange(0, i as int)),
            values@.len() == i,
            forall|j: int|
                0 <= j < i ==> reads@[j] == (#[trigger] values@[j].0, Ok::<u64, i32>(values@[j].1)),
        decreases reads@.len() - i,
    {
        let (reg, value) = reads[i];
        assert(reads@.subrange(0, i + 1).drop_last() =~= reads@.subrange(0, i as int));
        match value {
            Ok(v) => values.push((reg, v)),
            Err(_) => {
                assert(!all_read(reads@)) by {
                    assert(reads@[i as int].1 is Err);
                }
                return None;
            },
        }
        i += 1;
        assert(all_read(reads@.subrange(0, i as int))) by {
            assert forall|j: int| 0 <= j < i implies (#[trigger] reads@.subrange(0, i as int)[j]).1 is Ok by {
                if j < i - 1 {
                    assert(reads@.subrange(0, i as int)[j] == reads@.subrange(0, i - 1)[j]);
                }
            }
        }
    }
    assert(reads@.subrange(0, i as int) =~= reads@);
    Some(values)
}

impl HvpGicV3 {
    /// The snapshot of the controller from what reading its state gave: it fails as soon as any
    /// read failed, and otherwise keeps every register value, in order, and the opaque state.
    pub fn build_snapshot(&self, reads: GicStateReads) -> (r: Result<HvpGicV3Snapshot, IrqChipError>)
        ensures
            r is Ok <==> all_read(reads.distributor@) && all_read(reads.msi@) && reads.state is Ok,
            r is Err ==> r == Err::<HvpGicV3Snapshot, IrqChipError>(IrqChipError::SaveSnapshot),
            forall|i: int|
                0 <= i < reads.distributor@.len() && (#[trigger] reads.distributor@[i]).1 is Err
                    ==> r is Err,
            forall|i: int|
                0 <= i < reads.msi@.len() && (#[trigger] reads.msi@[i]).1 is Err ==> r is Err,
            reads.state is Err ==> r is Err,
            r matches Ok(s) ==> s.distributor@.len() == reads.distributor@.len() && s.msi@.len()
                == reads.msi@.len() && (forall|i: int|
                0 <= i < reads.distributor@.len() ==> reads.distributor@[i] == (
                    #[trigger] s.distributor@[i].0,
                    Ok::<u64, i32>(s.distributor@[i].1),
                )) && (forall|i: int|
                0 <= i < reads.msi@.len() ==> reads.msi@[i] == (
                    #[trigger] s.msi@[i].0,
                    Ok::<u64, i32>(s.msi@[i].1),
                )),
            r matches Ok(s) ==> {
                &&& s.distributor@ == successful_reads(reads.distributor@)
                &&& s.msi@ == successful_reads(reads.msi@)
                &&& reads.state matches Ok(state) && s.state@ == state@
            },
    {
        let distributor = match values_if_all_read(&reads.distributor) {
            Some(values) => values,
            None => return Err(IrqChipError::SaveSnapshot),
        };
        let msi = match values_if_all_read(&reads.msi) {
            Some(values) => values,
            None => return Err(IrqChipError::SaveSnapshot),
        };
        let state = match reads.state {
            Ok(state) => state,
            Err(_) => return Err(IrqChipError::SaveSnapshot),
        };
        Ok(HvpGicV3Snapshot { distributor, msi, state })
    }
}

} // verus!
